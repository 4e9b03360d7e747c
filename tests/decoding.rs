use auto_secret::decode::{
    decode_document, key_of, options_of, preset_of, ConfigError, Key, Node, Scalar,
};
use auto_secret::settings::{Preset, Settings};
use auto_secret::yaml::decode;

fn s(v: &str) -> Scalar {
    Scalar::Str(v.to_string())
}

#[test]
fn preset_keywords_and_synonyms() {
    assert_eq!(preset_of("all"), Some(Preset::All));
    assert_eq!(preset_of("default"), Some(Preset::All));
    assert_eq!(preset_of("digits"), Some(Preset::Digit));
    assert_eq!(preset_of("letters"), Some(Preset::Letter));
    assert_eq!(preset_of("upper"), Some(Preset::Upper));
    assert_eq!(preset_of("lower"), Some(Preset::Lower));
    assert_eq!(preset_of("uppers"), None);
}

#[test]
fn option_keys_and_synonyms() {
    assert_eq!(key_of("symbols"), Some(Key::Symbol));
    assert_eq!(key_of("whitespaces"), Some(Key::Whitespace));
    assert_eq!(key_of("must_letters"), Some(Key::MustLetter));
    assert_eq!(key_of("must_custom"), Some(Key::MustCustom));
    assert_eq!(key_of("length"), Some(Key::Length));
    assert_eq!(key_of("lenght"), None);
}

#[test]
fn options_object_is_read() {
    let o = options_of(&vec![
        (s("digits"), Scalar::Bool(true)),
        (s("must_custom"), s("xy")),
        (s("length"), Scalar::Num(Some(9), "9".to_string())),
    ])
    .unwrap();
    assert!(o.digit && !o.upper);
    assert_eq!(o.must_custom, Some("xy".to_string()));
    assert_eq!(o.length, Some(9));
    assert!(options_of(&vec![(s("length"), Scalar::Num(None, "-1".to_string()))]).is_none());
    assert!(options_of(&vec![(Scalar::Bool(true), Scalar::Bool(true))]).is_none());
}

#[test]
fn document_keeps_order_and_refuses_repeated_names() {
    let doc = vec![
        (s("b"), Node::Scalar(s("upper"))),
        (s("a"), Node::Object(vec![(s("lower"), Scalar::Bool(true))])),
    ];
    let cfg = decode_document(&doc).unwrap();
    assert_eq!(cfg[0].0, "b");
    assert!(matches!(cfg[0].1, Settings::Preset(Preset::Upper)));
    assert_eq!(cfg[1].0, "a");
    assert!(matches!(&cfg[1].1, Settings::Options(o) if o.lower));
    let twice = vec![(s("a"), Node::Scalar(s("all"))), (s("a"), Node::Scalar(s("all")))];
    assert_eq!(decode_document(&twice).unwrap_err(), ConfigError::InvalidEntry);
}

#[test]
fn yaml_text_is_decoded() {
    let cfg = decode("pw: {letters: true, must_digits: true, length: 16}\ntoken: digit\n").unwrap();
    assert_eq!(cfg.len(), 2);
    assert_eq!(cfg[0].0, "pw");
    assert!(matches!(&cfg[0].1, Settings::Options(o) if o.letter && o.must_digit && o.length == Some(16)));
    assert!(matches!(cfg[1].1, Settings::Preset(Preset::Digit)));
}
