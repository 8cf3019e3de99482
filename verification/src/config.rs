use vstd::prelude::*;

use crate::args::str_equal;

verus! {

/// How much the driver logs.
#[derive(Clone, Copy, Debug, PartialEq, Eq, Structural)]
pub enum LogLevel {
    Off,
    Error,
    Warn,
    Info,
    Debug,
}

/// The level that a `SCAMPI_LOG_LEVEL` setting names: one of the four
/// upper-case level names, anything else turning logging off.
pub open spec fn log_level_spec(setting: Seq<char>) -> LogLevel {
    if setting == "DEBUG"@ {
        LogLevel::Debug
    } else if setting == "INFO"@ {
        LogLevel::Info
    } else if setting == "WARN"@ {
        LogLevel::Warn
    } else if setting == "ERROR"@ {
        LogLevel::Error
    } else {
        LogLevel::Off
    }
}

/// Reads a log level setting.
pub fn parse_log_level(setting: &str) -> (res: LogLevel)
    ensures
        res == log_level_spec(setting@),
{
    if str_equal(setting, "DEBUG") {
        LogLevel::Debug
    } else if str_equal(setting, "INFO") {
        LogLevel::Info
    } else if str_equal(setting, "WARN") {
        LogLevel::Warn
    } else if str_equal(setting, "ERROR") {
        LogLevel::Error
    } else {
        LogLevel::Off
    }
}

/// The name of the log file of a crate: the crate name with `.log` after it.
pub fn log_file_name(crate_name: &str) -> (res: String)
    ensures
        res@ == crate_name@ + ".log"@,
{
    let mut name = crate_name.to_owned();
    name.append(".log");
    name
}

/// The environment that the graph-building driver is started with: debug
/// logging, then the graph database's address and password.
pub fn graph_driver_env(uri: &str, password: &str) -> (res: Vec<(String, String)>)
    ensures
        res.deep_view() == seq![
            ("SCAMPI_LOG_LEVEL"@, "DEBUG"@),
            ("SCAMPI_NEO4J_URI"@, uri@),
            ("SCAMPI_NEO4J_PASSWORD"@, password@),
        ],
{
    let mut vars: Vec<(String, String)> = Vec::new();
    vars.push(("SCAMPI_LOG_LEVEL".to_owned(), "DEBUG".to_owned()));
    vars.push(("SCAMPI_NEO4J_URI".to_owned(), uri.to_owned()));
    vars.push(("SCAMPI_NEO4J_PASSWORD".to_owned(), password.to_owned()));
    assert(vars.deep_view() =~= seq![
        ("SCAMPI_LOG_LEVEL"@, "DEBUG"@),
        ("SCAMPI_NEO4J_URI"@, uri@),
        ("SCAMPI_NEO4J_PASSWORD"@, password@),
    ]);
    vars
}

/// The pair `(name, value)` where a value is given.
pub open spec fn optional_var(name: Seq<char>, value: Option<Seq<char>>) -> Seq<(Seq<char>, Seq<char>)> {
    match value {
        Some(v) => seq![(name, v)],
        None => Seq::empty(),
    }
}

/// The environment that the inventory driver is started with: debug
/// logging, then each of the output directory, the MongoDB address and the
/// MongoDB database that is given, in that order.
pub fn inventory_driver_env(
    out_dir: Option<&str>,
    uri_mongo: Option<&str>,
    db_mongo: Option<&str>,
) -> (res: Vec<(String, String)>)
    ensures
        res.deep_view() == seq![("SCAMPI_LOG_LEVEL"@, "DEBUG"@)] + optional_var(
            "SCAMPI_OUT_DIR"@,
            out_dir.deep_view(),
        ) + optional_var("SCAMPI_MONGO_URI"@, uri_mongo.deep_view()) + optional_var(
            "SCAMPI_MONGO_DB"@,
            db_mongo.deep_view(),
        ),
{
    let mut vars: Vec<(String, String)> = Vec::new();
    vars.push(("SCAMPI_LOG_LEVEL".to_owned(), "DEBUG".to_owned()));
    let ghost v0 = vars.deep_view();
    if let Some(out_dir) = out_dir {
        vars.push(("SCAMPI_OUT_DIR".to_owned(), out_dir.to_owned()));
    }
    assert(vars.deep_view() =~= v0 + optional_var("SCAMPI_OUT_DIR"@, out_dir.deep_view()));
    let ghost v1 = vars.deep_view();
    if let Some(uri_mongo) = uri_mongo {
        vars.push(("SCAMPI_MONGO_URI".to_owned(), uri_mongo.to_owned()));
    }
    assert(vars.deep_view() =~= v1 + optional_var("SCAMPI_MONGO_URI"@, uri_mongo.deep_view()));
    let ghost v2 = vars.deep_view();
    if let Some(db_mongo) = db_mongo {
        vars.push(("SCAMPI_MONGO_DB".to_owned(), db_mongo.to_owned()));
    }
    assert(vars.deep_view() =~= v2 + optional_var("SCAMPI_MONGO_DB"@, db_mongo.deep_view()));
    vars
}

/// Each of the four upper-case level names selects its level, and every
/// other setting (another spelling or case included) turns logging off.
pub proof fn lemma_log_level_names(setting: Seq<char>)
    ensures
        log_level_spec("DEBUG"@) == LogLevel::Debug,
        log_level_spec("INFO"@) == LogLevel::Info,
        log_level_spec("WARN"@) == LogLevel::Warn,
        log_level_spec("ERROR"@) == LogLevel::Error,
        setting != "DEBUG"@ && setting != "INFO"@ && setting != "WARN"@ && setting != "ERROR"@
            ==> log_level_spec(setting) == LogLevel::Off,
{
    reveal_strlit("DEBUG");
    reveal_strlit("INFO");
    reveal_strlit("WARN");
    reveal_strlit("ERROR");
    assert("INFO"@ != "DEBUG"@) by {
        assert("INFO"@.len() != "DEBUG"@.len());
    }
    assert("WARN"@ != "DEBUG"@ && "WARN"@ != "INFO"@) by {
        assert("WARN"@[0] != "INFO"@[0]);
    }
    assert("ERROR"@ != "DEBUG"@ && "ERROR"@ != "INFO"@ && "ERROR"@ != "WARN"@) by {
        assert("ERROR"@[0] != "DEBUG"@[0]);
    }
}

} // verus!
