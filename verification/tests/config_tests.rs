use scampi::config::{graph_driver_env, inventory_driver_env, log_file_name, parse_log_level, LogLevel};
use scampi::manifest::{workspace_from_manifest, workspace_from_table, ManifestError};

fn pairs(v: &[(&str, &str)]) -> Vec<(String, String)> {
    v.iter().map(|(a, b)| (a.to_string(), b.to_string())).collect()
}

#[test]
fn log_levels_are_read_exactly() {
    assert_eq!(parse_log_level("DEBUG"), LogLevel::Debug);
    assert_eq!(parse_log_level("INFO"), LogLevel::Info);
    assert_eq!(parse_log_level("WARN"), LogLevel::Warn);
    assert_eq!(parse_log_level("ERROR"), LogLevel::Error);
    assert_eq!(parse_log_level("OFF"), LogLevel::Off);
    assert_eq!(parse_log_level("debug"), LogLevel::Off);
    assert_eq!(parse_log_level(""), LogLevel::Off);
}

#[test]
fn log_file_is_named_after_crate() {
    assert_eq!(log_file_name("serde_json"), "serde_json.log");
    assert_eq!(log_file_name("-"), "-.log");
}

#[test]
fn graph_driver_environment() {
    assert_eq!(
        graph_driver_env("bolt://localhost:7687", "pw"),
        pairs(&[
            ("SCAMPI_LOG_LEVEL", "DEBUG"),
            ("SCAMPI_NEO4J_URI", "bolt://localhost:7687"),
            ("SCAMPI_NEO4J_PASSWORD", "pw"),
        ])
    );
}

#[test]
fn inventory_driver_environment() {
    assert_eq!(inventory_driver_env(None, None, None), pairs(&[("SCAMPI_LOG_LEVEL", "DEBUG")]));
    assert_eq!(
        inventory_driver_env(Some("out"), None, Some("db")),
        pairs(&[("SCAMPI_LOG_LEVEL", "DEBUG"), ("SCAMPI_OUT_DIR", "out"), ("SCAMPI_MONGO_DB", "db")])
    );
    assert_eq!(
        inventory_driver_env(Some("o"), Some("mongodb://h"), Some("d")),
        pairs(&[
            ("SCAMPI_LOG_LEVEL", "DEBUG"),
            ("SCAMPI_OUT_DIR", "o"),
            ("SCAMPI_MONGO_URI", "mongodb://h"),
            ("SCAMPI_MONGO_DB", "d"),
        ])
    );
}

#[test]
fn manifest_workspace_is_read() {
    assert_eq!(workspace_from_manifest("workspace = \"tools\"\n"), Ok(Some("tools".to_string())));
    assert_eq!(workspace_from_manifest("name = \"x\"\n"), Ok(None));
    assert_eq!(workspace_from_manifest("workspace = 3\n"), Ok(None));
    assert_eq!(workspace_from_manifest(""), Ok(None));
}

#[test]
fn manifest_that_is_not_toml_is_refused() {
    assert_eq!(workspace_from_manifest("workspace = "), Err(ManifestError::NotToml));
    assert_eq!(workspace_from_manifest("[["), Err(ManifestError::NotToml));
}

#[test]
fn workspace_from_parsed_table() {
    let table: toml::Table = "workspace = \"ws\"\nother = true\n".parse().unwrap();
    assert_eq!(workspace_from_table(&table), Some("ws".to_string()));
    let nested: toml::Table = "[workspace]\nname = \"ws\"\n".parse().unwrap();
    assert_eq!(workspace_from_table(&nested), None);
}
