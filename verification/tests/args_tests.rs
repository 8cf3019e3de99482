use scampi::args::Args;

fn strings(items: &[&str]) -> Vec<String> {
    items.iter().map(|s| s.to_string()).collect()
}

#[test]
fn from_raw_reads_name_kind_and_release() {
    let args = Args::from_raw(&strings(&["--crate-name", "foo", "--crate-type", "bin", "--release"]));
    assert_eq!(
        format!("{:?}", args),
        "Args { name: Some(\"foo\"), kind: Some(Bin), is_release: true, is_test: false }"
    );
}

#[test]
fn from_raw_last_flag_wins() {
    let args = Args::from_raw(&strings(&[
        "--crate-name",
        "first",
        "--crate-type",
        "bin",
        "--crate-name",
        "second",
        "--crate-type",
        "rlib",
    ]));
    assert_eq!(args.name_or("-"), "second");
    assert_eq!(
        format!("{:?}", args),
        "Args { name: Some(\"second\"), kind: Some(Lib), is_release: false, is_test: false }"
    );
}

#[test]
fn from_raw_without_pairs_reads_nothing() {
    let empty = Args::from_raw(&[]);
    assert_eq!(
        format!("{:?}", empty),
        "Args { name: None, kind: None, is_release: false, is_test: false }"
    );
    // A single flag forms no pair for a name, but still marks a release build.
    let single = Args::from_raw(&strings(&["--release"]));
    assert_eq!(
        format!("{:?}", single),
        "Args { name: None, kind: None, is_release: true, is_test: false }"
    );
    let lone_name = Args::from_raw(&strings(&["--crate-name"]));
    assert_eq!(lone_name.name_or("-"), "-");
}

#[test]
fn from_raw_release_in_second_place() {
    let args = Args::from_raw(&strings(&["--edition", "--release"]));
    assert_eq!(
        format!("{:?}", args),
        "Args { name: None, kind: None, is_release: true, is_test: false }"
    );
}

#[test]
fn from_raw_test_flag_forms() {
    let first = Args::from_raw(&strings(&["--test", "x"]));
    assert!(format!("{:?}", first).ends_with("is_test: true }"));
    let last = Args::from_raw(&strings(&["a", "--test"]));
    assert!(format!("{:?}", last).ends_with("is_test: true }"));
    let alone = Args::from_raw(&strings(&["--test"]));
    assert!(format!("{:?}", alone).ends_with("is_test: true }"));
    // A value `test` is no test flag.
    let cfg = Args::from_raw(&strings(&["--cfg", "test"]));
    assert!(format!("{:?}", cfg).ends_with("is_test: false }"));
}

#[test]
fn crate_named_test_is_not_a_test_build() {
    let args = Args::from_raw(&strings(&["rustc", "--crate-name", "test", "src/lib.rs"]));
    assert_eq!(
        format!("{:?}", args),
        "Args { name: Some(\"test\"), kind: None, is_release: false, is_test: false }"
    );
}

#[test]
fn from_raw_dangling_crate_name_is_ignored() {
    let args = Args::from_raw(&strings(&["--crate-name", "foo", "--crate-name"]));
    // The last `--crate-name` has a value after it only as the pair
    // ("foo", "--crate-name"); the earlier pair decides.
    assert_eq!(args.name_or("-"), "foo");
}

#[test]
fn from_raw_flag_value_may_be_a_flag() {
    let args = Args::from_raw(&strings(&["--crate-name", "--crate-type", "bin"]));
    assert_eq!(
        format!("{:?}", args),
        "Args { name: Some(\"--crate-type\"), kind: Some(Bin), is_release: false, is_test: false }"
    );
}

#[test]
fn name_or_falls_back_to_default() {
    let args = Args::from_raw(&strings(&["--edition", "2021"]));
    assert_eq!(args.name_or("-"), "-");
}

#[test]
fn release_is_not_undone_by_later_arguments() {
    let args = Args::from_raw(&strings(&["--release", "x", "--crate-name", "y", "--edition", "2021"]));
    assert_eq!(
        format!("{:?}", args),
        "Args { name: Some(\"y\"), kind: None, is_release: true, is_test: false }"
    );
}
