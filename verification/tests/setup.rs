use astraos::strength::strength_of;

#[test]
fn short_is_weak() {
    assert_eq!(strength_of("abc").1, "weak");
    assert_eq!(strength_of("Ab1").1, "weak");
}

#[test]
fn long_low_diversity_is_weak() {
    assert_eq!(strength_of("abcdefgh").1, "weak");
}

#[test]
fn three_classes_is_medium() {
    assert_eq!(strength_of("Abcdefg1").1, "medium");
}

#[test]
fn four_classes_is_strong() {
    assert_eq!(strength_of("Abcdefg1!").1, "strong");
}

#[test]
fn empty_is_no_class() {
    let (label, css) = strength_of("");
    assert_eq!(label, "");
    assert_eq!(css, "");
}

#[test]
fn labels_and_non_ascii_symbols() {
    assert_eq!(strength_of("Abcdefg1").0, "Medium");
    assert_eq!(strength_of("Abcdefg1!").0, "Strong");
    assert_eq!(strength_of("abc").0, "Weak");
    assert_eq!(strength_of("Abcdéfg1").1, "strong");
    assert_eq!(strength_of("Abcdefg1!extra").1, "strong");
}

#[test]
fn setup_refuses_short_password() {
    assert_eq!(
        astraos::strength::validate_setup("short", "short"),
        Err("Master password must be at least 8 characters".to_string())
    );
}

#[test]
fn setup_refuses_mismatch() {
    assert_eq!(
        astraos::strength::validate_setup("longenough", "longenougH"),
        Err("Passwords do not match".to_string())
    );
}

#[test]
fn setup_accepts_matching_password() {
    assert_eq!(astraos::strength::validate_setup("longenough", "longenough"), Ok(()));
}

#[test]
fn setup_counts_bytes_not_characters() {
    assert_eq!(astraos::strength::validate_setup("\u{e9}\u{e9}\u{e9}\u{e9}", "\u{e9}\u{e9}\u{e9}\u{e9}"), Ok(()));
    assert!(astraos::strength::validate_setup("\u{e9}\u{e9}\u{e9}", "\u{e9}\u{e9}\u{e9}").is_err());
}
