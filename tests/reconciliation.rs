use auto_secret::constraints::ConstraintError;
use auto_secret::decode::ConfigError;
use auto_secret::reconcile::{
    after_write, error_policy, reconcile, Action, ReconcileError, Step, RESCHEDULE_SECS,
    RETRY_SECS,
};

fn names(v: &[&str]) -> Vec<String> {
    v.iter().map(|s| s.to_string()).collect()
}

fn written(r: Result<Step, ReconcileError>) -> Vec<(String, String)> {
    match r {
        Ok(Step::Write(p)) => p,
        other => panic!("expected a write, got {:?}", other),
    }
}

#[test]
fn options_object_fills_missing_password() {
    let raw = "password: {upper: true, lower: true, digit: true, must_digit: true, length: 12}";
    let p = written(reconcile(&names(&[]), Some(raw), 32));
    assert_eq!(p.len(), 1);
    assert_eq!(p[0].0, "password");
    let v = &p[0].1;
    assert_eq!(v.chars().count(), 12);
    assert!(v.chars().all(|c| c.is_ascii_alphanumeric()));
    assert!(v.chars().any(|c| c.is_ascii_digit()));
}

#[test]
fn present_token_is_not_written() {
    let r = reconcile(&names(&["token"]), Some("token: digit"), 32);
    assert!(matches!(r, Ok(Step::Done(Action::Requeue(300)))));
}

#[test]
fn all_present_fields_give_periodic_revisit() {
    let raw = "a: all\nb: {lower: true, length: 4}\n";
    let r = reconcile(&names(&["b", "x", "a"]), Some(raw), 32);
    assert!(matches!(r, Ok(Step::Done(Action::Requeue(s))) if s == RESCHEDULE_SECS));
}

#[test]
fn only_missing_fields_are_written() {
    let raw = "a: upper\nb: lower\nc: digits\n";
    let p = written(reconcile(&names(&["b"]), Some(raw), 10));
    let keys: Vec<&str> = p.iter().map(|(k, _)| k.as_str()).collect();
    assert_eq!(keys, vec!["a", "c"]);
    assert!(p[0].1.chars().all(|c| c.is_ascii_uppercase()));
    assert!(p[1].1.chars().all(|c| c.is_ascii_digit()));
    assert_eq!(p[0].1.len(), 10);
    assert_eq!(p[1].1.len(), 10);
}

#[test]
fn unannotated_resource_waits_for_change() {
    let r = reconcile(&names(&["x"]), None, 32);
    assert!(matches!(r, Ok(Step::Done(Action::AwaitChange))));
}

#[test]
fn failed_write_is_retried_shortly_with_fresh_values() {
    let e = after_write(false).unwrap_err();
    assert_eq!(e, ReconcileError::Store);
    assert_eq!(error_policy(&e), Action::Requeue(5));
    assert_eq!(RETRY_SECS, 5);
    let first = written(reconcile(&names(&[]), Some("k: all"), 32));
    let second = written(reconcile(&names(&[]), Some("k: all"), 32));
    assert_ne!(first[0].1, second[0].1);
}

#[test]
fn successful_write_is_revisited_later() {
    assert_eq!(after_write(true), Ok(Action::Requeue(300)));
}

#[test]
fn config_and_constraint_failures_wait_for_change() {
    assert_eq!(
        error_policy(&ReconcileError::Config(ConfigError::InvalidEntry)),
        Action::AwaitChange
    );
    assert_eq!(
        error_policy(&ReconcileError::Constraint(ConstraintError::TooShort)),
        Action::AwaitChange
    );
}

#[test]
fn four_mandatory_classes_do_not_fit_two_characters() {
    let raw = "x: {must_upper: true, must_lower: true, must_digit: true, must_symbol: true, length: 2}";
    let r = reconcile(&names(&[]), Some(raw), 32);
    assert!(matches!(r, Err(ReconcileError::Constraint(ConstraintError::TooShort))));
}

#[test]
fn unknown_option_key_fails_decode() {
    let r = reconcile(&names(&[]), Some("x: {upper: true, uper: true}"), 32);
    assert!(matches!(r, Err(ReconcileError::Config(ConfigError::InvalidEntry))));
}

#[test]
fn malformed_text_is_a_syntax_error() {
    let r = reconcile(&names(&[]), Some("a: [1, 2"), 32);
    assert!(matches!(r, Err(ReconcileError::Config(ConfigError::Syntax))));
}

#[test]
fn scalar_document_is_not_a_mapping() {
    let r = reconcile(&names(&[]), Some("just text"), 32);
    assert!(matches!(r, Err(ReconcileError::Config(ConfigError::NotAMapping))));
}

#[test]
fn empty_document_configures_nothing() {
    let r = reconcile(&names(&[]), Some(""), 32);
    assert!(matches!(r, Ok(Step::Done(Action::Requeue(300)))));
}

#[test]
fn unknown_preset_keyword_fails_decode() {
    let r = reconcile(&names(&[]), Some("x: digitz"), 32);
    assert!(matches!(r, Err(ReconcileError::Config(ConfigError::InvalidEntry))));
}

#[test]
fn synonym_given_twice_fails_decode() {
    let r = reconcile(&names(&[]), Some("x: {letter: true, letters: true}"), 32);
    assert!(matches!(r, Err(ReconcileError::Config(ConfigError::InvalidEntry))));
}

#[test]
fn wrong_value_types_fail_decode() {
    for raw in ["x: {upper: yes}", "x: {length: -1}", "x: {custom: true}", "x: {upper: ~}"] {
        let r = reconcile(&names(&[]), Some(raw), 32);
        assert!(matches!(r, Err(ReconcileError::Config(ConfigError::InvalidEntry))), "{}", raw);
    }
}

#[test]
fn empty_options_have_no_alphabet() {
    let r = reconcile(&names(&[]), Some("x: {}"), 32);
    assert!(matches!(r, Err(ReconcileError::Constraint(ConstraintError::NoAlphabet))));
}

#[test]
fn non_ascii_custom_is_refused() {
    let r = reconcile(&names(&[]), Some("x: {custom: \"äö\"}"), 32);
    assert!(matches!(r, Err(ReconcileError::Constraint(ConstraintError::NonAsciiCustom))));
}

#[test]
fn one_failing_field_writes_nothing() {
    let r = reconcile(&names(&[]), Some("a: digit\nb: {length: 3}\n"), 32);
    assert!(matches!(r, Err(ReconcileError::Constraint(ConstraintError::NoAlphabet))));
}

#[test]
fn mandatory_whitespace_is_present() {
    let raw = "x: {lower: true, must_whitespaces: true, length: 6}";
    for _ in 0..20 {
        let p = written(reconcile(&names(&[]), Some(raw), 32));
        let v = &p[0].1;
        assert_eq!(v.len(), 6);
        assert!(v.contains(' '));
        assert!(v.chars().all(|c| c == ' ' || c.is_ascii_lowercase()));
    }
}

#[test]
fn custom_and_mandatory_custom_characters() {
    let raw = "x: {custom: \"ab\", must_custom: \"#\", length: 5}";
    for _ in 0..20 {
        let p = written(reconcile(&names(&[]), Some(raw), 32));
        let v = &p[0].1;
        assert_eq!(v.len(), 5);
        assert!(v.contains('#'));
        assert!(v.chars().all(|c| c == 'a' || c == 'b' || c == '#'));
    }
}

#[test]
fn zero_length_gives_empty_value() {
    let p = written(reconcile(&names(&[]), Some("x: {digit: true, length: 0}"), 32));
    assert_eq!(p[0].1, "");
}

#[test]
fn numbers_stand_as_text_for_names_and_custom() {
    let p = written(reconcile(&names(&[]), Some("123: {custom: 13579, length: 6}"), 32));
    assert_eq!(p[0].0, "123");
    assert_eq!(p[0].1.len(), 6);
    assert!(p[0].1.chars().all(|c| "13579".contains(c)));
}
