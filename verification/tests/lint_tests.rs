use scampi::lint::RawPtrConstructor;

#[test]
fn lint_pass_name() {
    assert_eq!(RawPtrConstructor.name(), "RawPtrConstructor");
}

#[test]
fn constructor_raw_pointer_params_are_flagged() {
    let flagged = RawPtrConstructor.flagged_params(true, &vec![false, true, false, true], 4);
    assert_eq!(flagged, vec![1, 3]);
}

#[test]
fn non_constructor_is_never_flagged() {
    let flagged = RawPtrConstructor.flagged_params(false, &vec![true, true], 2);
    assert!(flagged.is_empty());
}

#[test]
fn only_positions_both_signatures_have_are_checked() {
    let flagged = RawPtrConstructor.flagged_params(true, &vec![true, false, true], 2);
    assert_eq!(flagged, vec![0]);
    let none = RawPtrConstructor.flagged_params(true, &vec![true], 0);
    assert!(none.is_empty());
}
