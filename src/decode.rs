//! Decoding of the generation annotation: a document that maps field names
//! to a preset keyword or an options object.
use crate::charset::str_eq;
use crate::settings::{Options, Preset, Settings};
use vstd::prelude::*;

verus! {

/// A scalar of the annotation document.
#[derive(Debug)]
pub enum Scalar {
    Null,
    Bool(bool),
    /// A number: its value when it is a non-negative integer that fits 64
    /// bits, and its text.
    Num(Option<u64>, String),
    Str(String),
    /// Anything else: a sequence, a nested mapping, a tagged value.
    Other,
}

/// The value that the document gives to one field name.
#[derive(Debug)]
pub enum Node {
    Scalar(Scalar),
    Object(Vec<(Scalar, Scalar)>),
}

/// Why the annotation could not be decoded.
#[derive(Clone, Copy, Debug, PartialEq, Eq, Structural)]
pub enum ConfigError {
    /// The text is not a well-formed document.
    Syntax,
    /// The document is not a mapping.
    NotAMapping,
    /// A field name is neither a string nor a number, or is given twice; or
    /// a field's value is neither a preset keyword nor a valid options object.
    InvalidEntry,
}

/// One key of an options object, synonyms merged.
#[derive(Clone, Copy, Debug, PartialEq, Eq, Structural)]
pub enum Key {
    Upper,
    Lower,
    Letter,
    Digit,
    Symbol,
    Whitespace,
    Custom,
    MustUpper,
    MustLower,
    MustLetter,
    MustDigit,
    MustSymbol,
    MustWhitespace,
    MustCustom,
    Length,
}

/// The preset that a keyword names.
pub open spec fn preset_named(s: Seq<char>) -> Option<Preset> {
    if s == "all"@ || s == "default"@ {
        Some(Preset::All)
    } else if s == "digit"@ || s == "digits"@ {
        Some(Preset::Digit)
    } else if s == "letter"@ || s == "letters"@ {
        Some(Preset::Letter)
    } else if s == "upper"@ {
        Some(Preset::Upper)
    } else if s == "lower"@ {
        Some(Preset::Lower)
    } else {
        None
    }
}

/// The options key that a name denotes; every other name is unknown.
pub open spec fn key_named(s: Seq<char>) -> Option<Key> {
    if s == "upper"@ {
        Some(Key::Upper)
    } else if s == "lower"@ {
        Some(Key::Lower)
    } else if s == "letter"@ || s == "letters"@ {
        Some(Key::Letter)
    } else if s == "digit"@ || s == "digits"@ {
        Some(Key::Digit)
    } else if s == "symbol"@ || s == "symbols"@ {
        Some(Key::Symbol)
    } else if s == "whitespace"@ || s == "whitespaces"@ {
        Some(Key::Whitespace)
    } else if s == "custom"@ {
        Some(Key::Custom)
    } else if s == "must_upper"@ {
        Some(Key::MustUpper)
    } else if s == "must_lower"@ {
        Some(Key::MustLower)
    } else if s == "must_letter"@ || s == "must_letters"@ {
        Some(Key::MustLetter)
    } else if s == "must_digit"@ || s == "must_digits"@ {
        Some(Key::MustDigit)
    } else if s == "must_symbol"@ || s == "must_symbols"@ {
        Some(Key::MustSymbol)
    } else if s == "must_whitespace"@ || s == "must_whitespaces"@ {
        Some(Key::MustWhitespace)
    } else if s == "must_custom"@ {
        Some(Key::MustCustom)
    } else if s == "length"@ {
        Some(Key::Length)
    } else {
        None
    }
}

/// A text option: a string or the text of a number, or null for absent.
pub open spec fn text_value(v: Scalar) -> Option<Option<String>> {
    match v {
        Scalar::Str(s) => Some(Some(s)),
        Scalar::Num(_, t) => Some(Some(t)),
        Scalar::Null => Some(None),
        _ => None,
    }
}

/// `o` with key `k` set from `v`; `None` when `v` has the wrong type.
pub open spec fn set_key(o: Options, k: Key, v: Scalar) -> Option<Options> {
    match k {
        Key::Custom => match text_value(v) {
            Some(t) => Some(Options { custom: t, ..o }),
            None => None,
        },
        Key::MustCustom => match text_value(v) {
            Some(t) => Some(Options { must_custom: t, ..o }),
            None => None,
        },
        Key::Length => match v {
            Scalar::Null => Some(Options { length: None, ..o }),
            Scalar::Num(Some(n), _) => if n <= usize::MAX {
                Some(Options { length: Some(n as usize), ..o })
            } else {
                None
            },
            _ => None,
        },
        _ => match v {
            Scalar::Bool(b) => Some(with_flag(o, k, b)),
            _ => None,
        },
    }
}

/// `o` with the flag that `k` names set to `b`.
pub open spec fn with_flag(o: Options, k: Key, b: bool) -> Options {
    match k {
        Key::Upper => Options { upper: b, ..o },
        Key::Lower => Options { lower: b, ..o },
        Key::Letter => Options { letter: b, ..o },
        Key::Digit => Options { digit: b, ..o },
        Key::Symbol => Options { symbol: b, ..o },
        Key::Whitespace => Options { whitespace: b, ..o },
        Key::MustUpper => Options { must_upper: b, ..o },
        Key::MustLower => Options { must_lower: b, ..o },
        Key::MustLetter => Options { must_letter: b, ..o },
        Key::MustDigit => Options { must_digit: b, ..o },
        Key::MustSymbol => Options { must_symbol: b, ..o },
        Key::MustWhitespace => Options { must_whitespace: b, ..o },
        _ => o,
    }
}

/// The options read from the first entries of an object, with the keys seen
/// so far; `None` once a key is unknown, not a string, repeated (a synonym
/// counts as the same key), or given a value of the wrong type.
pub open spec fn options_upto(entries: Seq<(Scalar, Scalar)>) -> Option<(Options, Seq<Key>)>
    decreases entries.len(),
{
    if entries.len() == 0 {
        Some((Options::blank(), Seq::empty()))
    } else {
        match options_upto(entries.drop_last()) {
            None => None,
            Some((o, seen)) => match entries.last().0 {
                Scalar::Str(name) => match key_named(name@) {
                    Some(k) => if seen.contains(k) {
                        None
                    } else {
                        match set_key(o, k, entries.last().1) {
                            Some(o2) => Some((o2, seen.push(k))),
                            None => None,
                        }
                    },
                    None => None,
                },
                _ => None,
            },
        }
    }
}

/// The settings that a field's value denotes: a preset keyword first, else
/// an options object.
pub open spec fn settings_of(n: Node) -> Option<Settings> {
    match n {
        Node::Scalar(Scalar::Str(s)) => match preset_named(s@) {
            Some(p) => Some(Settings::Preset(p)),
            None => None,
        },
        Node::Scalar(_) => None,
        Node::Object(entries) => match options_upto(entries@) {
            Some((o, _)) => Some(Settings::Options(o)),
            None => None,
        },
    }
}

/// The name of a document entry, when it is a string or a number.
pub open spec fn entry_name(e: (Scalar, Node)) -> Option<String> {
    match e.0 {
        Scalar::Str(s) => Some(s),
        Scalar::Num(_, t) => Some(t),
        _ => None,
    }
}

/// Every entry has a string name and valid settings, and no name repeats.
pub open spec fn document_valid(doc: Seq<(Scalar, Node)>) -> bool {
    &&& forall|i: int| 0 <= i < doc.len() ==> (#[trigger] entry_name(doc[i])) is Some
    &&& forall|i: int| 0 <= i < doc.len() ==> (#[trigger] settings_of(doc[i].1)) is Some
    &&& forall|i: int, j: int|
        0 <= i < j < doc.len() ==> (#[trigger] entry_name(doc[i]))->Some_0@ != (#[trigger] entry_name(
            doc[j],
        ))->Some_0@
}

/// The configuration of a valid document, in document order.
pub open spec fn document_config(doc: Seq<(Scalar, Node)>) -> Seq<(String, Settings)> {
    Seq::new(doc.len(), |i: int| (entry_name(doc[i])->Some_0, settings_of(doc[i].1)->Some_0))
}

/// The preset that a keyword names.
pub fn preset_of(s: &str) -> (r: Option<Preset>)
    ensures
        r == preset_named(s@),
{
    if str_eq(s, "all") || str_eq(s, "default") {
        Some(Preset::All)
    } else if str_eq(s, "digit") || str_eq(s, "digits") {
        Some(Preset::Digit)
    } else if str_eq(s, "letter") || str_eq(s, "letters") {
        Some(Preset::Letter)
    } else if str_eq(s, "upper") {
        Some(Preset::Upper)
    } else if str_eq(s, "lower") {
        Some(Preset::Lower)
    } else {
        None
    }
}

/// The options key that a name denotes.
pub fn key_of(s: &str) -> (r: Option<Key>)
    ensures
        r == key_named(s@),
{
    if str_eq(s, "upper") {
        Some(Key::Upper)
    } else if str_eq(s, "lower") {
        Some(Key::Lower)
    } else if str_eq(s, "letter") || str_eq(s, "letters") {
        Some(Key::Letter)
    } else if str_eq(s, "digit") || str_eq(s, "digits") {
        Some(Key::Digit)
    } else if str_eq(s, "symbol") || str_eq(s, "symbols") {
        Some(Key::Symbol)
    } else if str_eq(s, "whitespace") || str_eq(s, "whitespaces") {
        Some(Key::Whitespace)
    } else if str_eq(s, "custom") {
        Some(Key::Custom)
    } else if str_eq(s, "must_upper") {
        Some(Key::MustUpper)
    } else if str_eq(s, "must_lower") {
        Some(Key::MustLower)
    } else if str_eq(s, "must_letter") || str_eq(s, "must_letters") {
        Some(Key::MustLetter)
    } else if str_eq(s, "must_digit") || str_eq(s, "must_digits") {
        Some(Key::MustDigit)
    } else if str_eq(s, "must_symbol") || str_eq(s, "must_symbols") {
        Some(Key::MustSymbol)
    } else if str_eq(s, "must_whitespace") || str_eq(s, "must_whitespaces") {
        Some(Key::MustWhitespace)
    } else if str_eq(s, "must_custom") {
        Some(Key::MustCustom)
    } else if str_eq(s, "length") {
        Some(Key::Length)
    } else {
        None
    }
}

fn text_of(v: &Scalar) -> (r: Option<Option<String>>)
    ensures
        r == text_value(*v),
{
    match v {
        Scalar::Str(s) => Some(Some(s.clone())),
        Scalar::Num(_, t) => Some(Some(t.clone())),
        Scalar::Null => Some(None),
        _ => None,
    }
}

/// Sets key `k` of `o` from `v`; returns false, leaving `o` as it was, when
/// `v` has the wrong type.
pub fn apply_key(o: &mut Options, k: Key, v: &Scalar) -> (r: bool)
    ensures
        r == set_key(*old(o), k, *v) is Some,
        r ==> *final(o) == set_key(*old(o), k, *v)->Some_0,
        !r ==> *final(o) == *old(o),
{
    match k {
        Key::Custom => match text_of(v) {
            Some(t) => {
                o.custom = t;
                true
            },
            None => false,
        },
        Key::MustCustom => match text_of(v) {
            Some(t) => {
                o.must_custom = t;
                true
            },
            None => false,
        },
        Key::Length => match v {
            Scalar::Null => {
                o.length = None;
                true
            },
            Scalar::Num(Some(n), _) => {
                if *n <= usize::MAX as u64 {
                    o.length = Some(*n as usize);
                    true
                } else {
                    false
                }
            },
            _ => false,
        },
        _ => match v {
            Scalar::Bool(b) => {
                set_flag(o, k, *b);
                true
            },
            _ => false,
        },
    }
}

#[verifier::rlimit(60)]
fn set_flag(o: &mut Options, k: Key, b: bool)
    ensures
        *final(o) == with_flag(*old(o), k, b),
{
    match k {
        Key::Upper => o.upper = b,
        Key::Lower => o.lower = b,
        Key::Letter => o.letter = b,
        Key::Digit => o.digit = b,
        Key::Symbol => o.symbol = b,
        Key::Whitespace => o.whitespace = b,
        Key::MustUpper => o.must_upper = b,
        Key::MustLower => o.must_lower = b,
        Key::MustLetter => o.must_letter = b,
        Key::MustDigit => o.must_digit = b,
        Key::MustSymbol => o.must_symbol = b,
        Key::MustWhitespace => o.must_whitespace = b,
        _ => {},
    }
}

pub(crate) proof fn lemma_options_fail_extends(entries: Seq<(Scalar, Scalar)>, i: int)
    requires
        0 <= i <= entries.len(),
        options_upto(entries.subrange(0, i)) is None,
    ensures
        options_upto(entries) is None,
    decreases entries.len() - i,
{
    if i < entries.len() {
        let next = entries.subrange(0, i + 1);
        assert(next.drop_last() =~= entries.subrange(0, i));
        lemma_options_fail_extends(entries, i + 1);
    } else {
        assert(entries.subrange(0, i) =~= entries);
    }
}

fn seen_contains(seen: &Vec<Key>, k: Key) -> (r: bool)
    ensures
        r == seen@.contains(k),
{
    let mut i: usize = 0;
    while i < seen.len()
        invariant
            i <= seen@.len(),
            forall|j: int| 0 <= j < i ==> seen@[j] != k,
        decreases seen@.len() - i,
    {
        if seen[i] == k {
            return true;
        }
        i = i + 1;
    }
    false
}

/// Reads an options object; `None` exactly when a key is unknown, not a
/// string, repeated, or given a value of the wrong type.
pub fn options_of(entries: &Vec<(Scalar, Scalar)>) -> (r: Option<Options>)
    ensures
        match options_upto(entries@) {
            Some((o, _)) => r == Some(o),
            None => r is None,
        },
{
    let mut o = Options::new();
    let mut seen: Vec<Key> = Vec::new();
    let mut i: usize = 0;
    assert(entries@.subrange(0, 0) =~= Seq::<(Scalar, Scalar)>::empty());
    while i < entries.len()
        invariant
            i <= entries@.len(),
            options_upto(entries@.subrange(0, i as int)) == Some((o, seen@)),
        decreases entries@.len() - i,
    {
        let ghost prefix = entries@.subrange(0, i as int + 1);
        assert(prefix.drop_last() =~= entries@.subrange(0, i as int));
        assert(prefix.last() == entries@[i as int]);
        let (name, value) = &entries[i];
        let k = match name {
            Scalar::Str(s) => match key_of(s.as_str()) {
                Some(k) => k,
                None => {
                    proof {
                        lemma_options_fail_extends(entries@, i as int + 1);
                    }
                    return None;
                },
            },
            _ => {
                proof {
                    lemma_options_fail_extends(entries@, i as int + 1);
                }
                return None;
            },
        };
        if seen_contains(&seen, k) {
            proof {
                lemma_options_fail_extends(entries@, i as int + 1);
            }
            return None;
        }
        if !apply_key(&mut o, k, value) {
            proof {
                lemma_options_fail_extends(entries@, i as int + 1);
            }
            return None;
        }
        seen.push(k);
        i = i + 1;
    }
    assert(entries@.subrange(0, entries@.len() as int) =~= entries@);
    Some(o)
}

/// The settings that a field's value denotes.
pub fn settings_from(n: &Node) -> (r: Option<Settings>)
    ensures
        r == settings_of(*n),
{
    match n {
        Node::Scalar(Scalar::Str(s)) => match preset_of(s.as_str()) {
            Some(p) => Some(Settings::Preset(p)),
            None => None,
        },
        Node::Scalar(_) => None,
        Node::Object(entries) => match options_of(entries) {
            Some(o) => Some(Settings::Options(o)),
            None => None,
        },
    }
}

/// Decodes a document into the configuration of each named field, in
/// document order; fails when the document is not valid.
pub fn decode_document(doc: &Vec<(Scalar, Node)>) -> (r: Result<Vec<(String, Settings)>, ConfigError>)
    ensures
        match r {
            Ok(cfg) => document_valid(doc@) && cfg@ == document_config(doc@),
            Err(e) => !document_valid(doc@) && e == ConfigError::InvalidEntry,
        },
{
    let mut out: Vec<(String, Settings)> = Vec::new();
    let mut i: usize = 0;
    while i < doc.len()
        invariant
            i <= doc@.len(),
            out@ == document_config(doc@.subrange(0, i as int)),
            document_valid(doc@.subrange(0, i as int)),
        decreases doc@.len() - i,
    {
        let ghost pre = doc@.subrange(0, i as int);
        let name = match &doc[i].0 {
            Scalar::Str(s) => s.clone(),
            Scalar::Num(_, t) => t.clone(),
            _ => {
                assert(entry_name(doc@[i as int]) is None);
                return Err(ConfigError::InvalidEntry);
            },
        };
        assert(entry_name(doc@[i as int]) == Some(name));
        let mut j: usize = 0;
        while j < out.len()
            invariant
                j <= out@.len(),
                out@.len() == i,
                out@ == document_config(pre),
                pre == doc@.subrange(0, i as int),
                i < doc@.len(),
                document_valid(pre),
                entry_name(doc@[i as int]) == Some(name),
                forall|m: int| 0 <= m < j ==> out@[m].0@ != name@,
            decreases out@.len() - j,
        {
            if str_eq(out[j].0.as_str(), name.as_str()) {
                assert(out@[j as int].0 == entry_name(doc@[j as int])->Some_0);
                assert(entry_name(doc@[j as int]) == entry_name(pre[j as int]));
                assert(!document_valid(doc@)) by {
                    assert(entry_name(doc@[j as int])->Some_0@ == entry_name(
                        doc@[i as int],
                    )->Some_0@);
                }
                return Err(ConfigError::InvalidEntry);
            }
            j = j + 1;
        }
        let settings = match settings_from(&doc[i].1) {
            Some(s) => s,
            None => {
                return Err(ConfigError::InvalidEntry);
            },
        };
        out.push((name, settings));
        proof {
            let next = doc@.subrange(0, i as int + 1);
            assert forall|m: int| 0 <= m < next.len() implies next[m] == (if m < i {
                pre[m]
            } else {
                doc@[i as int]
            }) by {}
            assert(out@ =~= document_config(next));
            assert forall|a: int, b: int| 0 <= a < b < next.len() implies (#[trigger] entry_name(
                next[a],
            ))->Some_0@ != (#[trigger] entry_name(next[b]))->Some_0@ by {
                if b < i {
                    assert(next[a] == pre[a] && next[b] == pre[b]);
                } else {
                    assert(out@[a].0 == entry_name(pre[a])->Some_0);
                }
            }
            assert forall|m: int| 0 <= m < next.len() implies (#[trigger] entry_name(next[m])) is Some by {
                if m < i {
                    assert(next[m] == pre[m]);
                }
            }
            assert forall|m: int| 0 <= m < next.len() implies (#[trigger] settings_of(next[m].1)) is Some by {
                if m < i {
                    assert(next[m] == pre[m]);
                }
            }
        }
        i = i + 1;
    }
    assert(doc@.subrange(0, doc@.len() as int) =~= doc@);
    Ok(out)
}

} // verus!
