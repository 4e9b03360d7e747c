//! Per-field generation settings, and their resolution into constraints.
use crate::constraints::{Classes, ConstraintSet};
use vstd::prelude::*;

verus! {

/// A named selection of one or more character classes.
#[derive(Clone, Copy, Debug, PartialEq, Eq, Structural)]
pub enum Preset {
    /// Letters, digits and symbols (the space is left out).
    All,
    Digit,
    Letter,
    Upper,
    Lower,
}

/// Explicit generation options; every flag is off and every text absent
/// unless given.
#[derive(Clone, Debug)]
pub struct Options {
    pub upper: bool,
    pub lower: bool,
    pub letter: bool,
    pub digit: bool,
    pub symbol: bool,
    pub whitespace: bool,
    pub custom: Option<String>,
    pub must_upper: bool,
    pub must_lower: bool,
    pub must_letter: bool,
    pub must_digit: bool,
    pub must_symbol: bool,
    pub must_whitespace: bool,
    pub must_custom: Option<String>,
    pub length: Option<usize>,
}

/// How the value of one field is generated.
#[derive(Clone, Debug)]
pub enum Settings {
    Preset(Preset),
    Options(Options),
}

impl Options {
    /// The options with nothing given.
    pub open spec fn blank() -> Options {
        Options {
            upper: false,
            lower: false,
            letter: false,
            digit: false,
            symbol: false,
            whitespace: false,
            custom: None,
            must_upper: false,
            must_lower: false,
            must_letter: false,
            must_digit: false,
            must_symbol: false,
            must_whitespace: false,
            must_custom: None,
            length: None,
        }
    }

    pub fn new() -> (r: Options)
        ensures
            r == Options::blank(),
    {
        Options {
            upper: false,
            lower: false,
            letter: false,
            digit: false,
            symbol: false,
            whitespace: false,
            custom: None,
            must_upper: false,
            must_lower: false,
            must_letter: false,
            must_digit: false,
            must_symbol: false,
            must_whitespace: false,
            must_custom: None,
            length: None,
        }
    }
}

pub open spec fn only(k: crate::charset::Class) -> Classes {
    Classes {
        upper: k == crate::charset::Class::Upper,
        lower: k == crate::charset::Class::Lower,
        letter: k == crate::charset::Class::Letter,
        digit: k == crate::charset::Class::Digit,
        symbol: k == crate::charset::Class::Symbol,
        whitespace: k == crate::charset::Class::Whitespace,
    }
}

/// The classes a preset selects.
pub open spec fn preset_classes(p: Preset) -> Classes {
    match p {
        Preset::All => Classes {
            upper: false,
            lower: false,
            letter: true,
            digit: true,
            symbol: true,
            whitespace: false,
        },
        Preset::Digit => only(crate::charset::Class::Digit),
        Preset::Letter => only(crate::charset::Class::Letter),
        Preset::Upper => only(crate::charset::Class::Upper),
        Preset::Lower => only(crate::charset::Class::Lower),
    }
}

/// The constraints that settings resolve to, given the default length.
/// A preset demands nothing and keeps the default length.
pub open spec fn constraints_of(s: Settings, default_length: usize) -> ConstraintSet {
    match s {
        Settings::Preset(p) => ConstraintSet {
            allowed: preset_classes(p),
            custom: None,
            must: Classes {
                upper: false,
                lower: false,
                letter: false,
                digit: false,
                symbol: false,
                whitespace: false,
            },
            must_custom: None,
            length: default_length,
        },
        Settings::Options(o) => ConstraintSet {
            allowed: Classes {
                upper: o.upper,
                lower: o.lower,
                letter: o.letter,
                digit: o.digit,
                symbol: o.symbol,
                whitespace: o.whitespace,
            },
            custom: o.custom,
            must: Classes {
                upper: o.must_upper,
                lower: o.must_lower,
                letter: o.must_letter,
                digit: o.must_digit,
                symbol: o.must_symbol,
                whitespace: o.must_whitespace,
            },
            must_custom: o.must_custom,
            length: match o.length {
                Some(n) => n,
                None => default_length,
            },
        },
    }
}

fn copy_text(t: &Option<String>) -> (r: Option<String>)
    ensures
        r == *t,
{
    match t {
        Some(s) => Some(s.clone()),
        None => None,
    }
}

impl Settings {
    /// Resolves these settings into constraints.
    pub fn constraints(&self, default_length: usize) -> (r: ConstraintSet)
        ensures
            r == constraints_of(*self, default_length),
    {
        match self {
            Settings::Preset(p) => {
                let mut allowed = Classes::none();
                match p {
                    Preset::All => {
                        allowed.letter = true;
                        allowed.digit = true;
                        allowed.symbol = true;
                    },
                    Preset::Digit => {
                        allowed.digit = true;
                    },
                    Preset::Letter => {
                        allowed.letter = true;
                    },
                    Preset::Upper => {
                        allowed.upper = true;
                    },
                    Preset::Lower => {
                        allowed.lower = true;
                    },
                }
                ConstraintSet {
                    allowed,
                    custom: None,
                    must: Classes::none(),
                    must_custom: None,
                    length: default_length,
                }
            },
            Settings::Options(o) => ConstraintSet {
                allowed: Classes {
                    upper: o.upper,
                    lower: o.lower,
                    letter: o.letter,
                    digit: o.digit,
                    symbol: o.symbol,
                    whitespace: o.whitespace,
                },
                custom: copy_text(&o.custom),
                must: Classes {
                    upper: o.must_upper,
                    lower: o.must_lower,
                    letter: o.must_letter,
                    digit: o.must_digit,
                    symbol: o.must_symbol,
                    whitespace: o.must_whitespace,
                },
                must_custom: copy_text(&o.must_custom),
                length: match o.length {
                    Some(n) => n,
                    None => default_length,
                },
            },
        }
    }
}

} // verus!
