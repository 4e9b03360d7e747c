use auto_secret::constraints::{Classes, ConstraintError, ConstraintSet};
use auto_secret::settings::{Options, Preset, Settings};

fn classes(upper: bool, lower: bool, digit: bool, symbol: bool) -> Classes {
    Classes { upper, lower, letter: false, digit, symbol, whitespace: false }
}

#[test]
fn digit_preset_uses_default_length_and_digits_only() {
    let cs = Settings::Preset(Preset::Digit).constraints(32);
    assert_eq!(cs.length, 32);
    let v = cs.synthesize().unwrap();
    assert_eq!(v.len(), 32);
    assert!(v.chars().all(|c| c.is_ascii_digit()));
}

#[test]
fn all_preset_draws_letters_digits_and_symbols() {
    let cs = Settings::Preset(Preset::All).constraints(64);
    assert!(cs.allowed.letter && cs.allowed.digit && cs.allowed.symbol);
    assert!(!cs.allowed.whitespace);
    let v = cs.synthesize().unwrap();
    assert_eq!(v.len(), 64);
    assert!(v.chars().all(|c| c.is_ascii_graphic()));
}

#[test]
fn explicit_length_overrides_default() {
    let mut o = Options::new();
    o.upper = true;
    o.length = Some(7);
    let cs = Settings::Options(o).constraints(32);
    assert_eq!(cs.length, 7);
    let v = cs.synthesize().unwrap();
    assert_eq!(v.len(), 7);
    assert!(v.chars().all(|c| c.is_ascii_uppercase()));
}

#[test]
fn every_mandatory_class_is_hit() {
    let cs = ConstraintSet {
        allowed: classes(false, false, false, false),
        custom: None,
        must: classes(true, true, true, true),
        must_custom: None,
        length: 4,
    };
    for _ in 0..20 {
        let v = cs.synthesize().unwrap();
        assert_eq!(v.len(), 4);
        assert!(v.chars().any(|c| c.is_ascii_uppercase()));
        assert!(v.chars().any(|c| c.is_ascii_lowercase()));
        assert!(v.chars().any(|c| c.is_ascii_digit()));
        assert!(v.chars().any(|c| c.is_ascii_punctuation()));
    }
}

#[test]
fn too_short_for_mandatory_classes() {
    let cs = ConstraintSet {
        allowed: classes(false, false, false, false),
        custom: None,
        must: classes(true, true, true, true),
        must_custom: None,
        length: 2,
    };
    assert_eq!(cs.find_problem(), Some(ConstraintError::TooShort));
    assert_eq!(cs.synthesize(), Err(ConstraintError::TooShort));
}

#[test]
fn empty_mandatory_custom_is_no_subset() {
    let cs = ConstraintSet {
        allowed: classes(false, false, true, false),
        custom: None,
        must: classes(false, false, false, false),
        must_custom: Some(String::new()),
        length: 0,
    };
    assert_eq!(cs.find_problem(), None);
    assert_eq!(cs.synthesize(), Ok(String::new()));
}

#[test]
fn check_judges_candidates() {
    let cs = ConstraintSet {
        allowed: classes(false, true, false, false),
        custom: Some("-".to_string()),
        must: classes(false, false, true, false),
        must_custom: None,
        length: 4,
    };
    assert!(cs.check("ab-1"));
    assert!(!cs.check("abcd"));
    assert!(!cs.check("ab-12"));
    assert!(!cs.check("AB-1"));
}
