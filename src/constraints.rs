//! Resolved generation constraints, and the synthesis of a value that meets them.
use crate::charset::{
    all_ascii, any_in_chars, any_in_class, chars_of, class_contains, contains_char, hits_chars,
    hits_class,
    in_class, is_all_ascii, Class,
};
use crate::draw::{
    builder_alphabet, builder_classes, builder_demands, builder_len, class_set,
    allow_custom, allow_digit, allow_letter, allow_lower, allow_symbol, allow_upper,
    allow_whitespace, builder_custom, builder_must_custom, draw, new_builder, require_custom,
    require_digit, require_letter, require_lower, require_symbol, require_upper, set_length,
};
use randstr::RandStrBuilder;
use vstd::prelude::*;

verus! {

/// The characters of class `k` when `on`, else none.
pub open spec fn chosen(on: bool, k: Class) -> Set<char> {
    if on {
        class_set(k)
    } else {
        Set::empty()
    }
}

/// Lets the builder draw from class `k` when `allow` or `must`, and demands
/// a character of it when `must`. The space is never demanded from the
/// builder: randstr's own demand for it picks the wrong alphabet, so the
/// check after each draw enforces it instead.
fn add_class(b: &mut RandStrBuilder, k: Class, allow: bool, must: bool)
    ensures
        builder_custom(*final(b)) == builder_custom(*old(b)),
        builder_must_custom(*final(b)) == builder_must_custom(*old(b)),
        builder_len(*final(b)) == builder_len(*old(b)),
        builder_classes(*final(b)) == builder_classes(*old(b)).union(chosen(allow || must, k)),
        builder_demands(*final(b)) <= builder_demands(*old(b)) + if must {
            1nat
        } else {
            0
        },
{
    if must && k != Class::Whitespace {
        match k {
            Class::Upper => require_upper(b),
            Class::Lower => require_lower(b),
            Class::Letter => require_letter(b),
            Class::Digit => require_digit(b),
            _ => require_symbol(b),
        }
    } else if allow || must {
        match k {
            Class::Upper => allow_upper(b),
            Class::Lower => allow_lower(b),
            Class::Letter => allow_letter(b),
            Class::Digit => allow_digit(b),
            Class::Symbol => allow_symbol(b),
            Class::Whitespace => allow_whitespace(b),
        }
    } else {
        assert(builder_classes(*b).union(Set::empty()) =~= builder_classes(*b));
    }
}

/// How many random draws synthesis makes before it gives up.
pub const ATTEMPTS: u32 = 100;

/// Why no value could be synthesized.
#[derive(Clone, Copy, Debug, PartialEq, Eq, Structural)]
pub enum ConstraintError {
    /// A custom alphabet holds a character outside ASCII.
    NonAsciiCustom,
    /// Nothing may be drawn: no class and no custom character was selected.
    NoAlphabet,
    /// The length is smaller than the number of mandatory subsets.
    TooShort,
    /// No draw within the allowed attempts met every mandatory subset.
    Unsatisfied,
}

/// A selection of the fixed character classes.
#[derive(Clone, Copy, Debug, PartialEq, Eq, Structural)]
pub struct Classes {
    pub upper: bool,
    pub lower: bool,
    pub letter: bool,
    pub digit: bool,
    pub symbol: bool,
    pub whitespace: bool,
}

impl Classes {
    pub open spec fn selects(self, k: Class) -> bool {
        match k {
            Class::Upper => self.upper,
            Class::Lower => self.lower,
            Class::Letter => self.letter,
            Class::Digit => self.digit,
            Class::Symbol => self.symbol,
            Class::Whitespace => self.whitespace,
        }
    }

    /// Whether `c` lies in one of the selected classes.
    pub open spec fn covers(self, c: char) -> bool {
        ||| self.upper && class_contains(Class::Upper, c)
        ||| self.lower && class_contains(Class::Lower, c)
        ||| self.letter && class_contains(Class::Letter, c)
        ||| self.digit && class_contains(Class::Digit, c)
        ||| self.symbol && class_contains(Class::Symbol, c)
        ||| self.whitespace && class_contains(Class::Whitespace, c)
    }

    /// Whether `v` holds a character of each selected class.
    pub open spec fn all_hit(self, v: Seq<char>) -> bool {
        forall|k: Class| self.selects(k) ==> hits_class(v, k)
    }

    pub open spec fn is_empty(self) -> bool {
        forall|k: Class| !self.selects(k)
    }

    /// The number of selected classes.
    pub open spec fn count(self) -> nat {
        (if self.upper { 1nat } else { 0 }) + (if self.lower { 1nat } else { 0 }) + (if self.letter {
            1nat
        } else {
            0
        }) + (if self.digit { 1nat } else { 0 }) + (if self.symbol { 1nat } else { 0 }) + (
        if self.whitespace {
            1nat
        } else {
            0
        })
    }

    pub fn none() -> (r: Classes)
        ensures
            !r.upper && !r.lower && !r.letter && !r.digit && !r.symbol && !r.whitespace,
    {
        Classes {
            upper: false,
            lower: false,
            letter: false,
            digit: false,
            symbol: false,
            whitespace: false,
        }
    }

    pub fn covers_char(&self, c: char) -> (r: bool)
        ensures
            r == self.covers(c),
    {
        let r = (self.upper && in_class(Class::Upper, c)) || (self.lower && in_class(
            Class::Lower,
            c,
        )) || (self.letter && in_class(Class::Letter, c)) || (self.digit && in_class(
            Class::Digit,
            c,
        )) || (self.symbol && in_class(Class::Symbol, c)) || (self.whitespace && in_class(
            Class::Whitespace,
            c,
        ));
        r
    }

    pub fn all_hit_in(&self, v: &Vec<char>) -> (r: bool)
        ensures
            r == self.all_hit(v@),
    {
        let r = (!self.upper || any_in_class(v, Class::Upper)) && (!self.lower || any_in_class(
            v,
            Class::Lower,
        )) && (!self.letter || any_in_class(v, Class::Letter)) && (!self.digit || any_in_class(
            v,
            Class::Digit,
        )) && (!self.symbol || any_in_class(v, Class::Symbol)) && (!self.whitespace
            || any_in_class(v, Class::Whitespace));
        proof {
            if !r {
                if self.upper && !hits_class(v@, Class::Upper) {
                    assert(self.selects(Class::Upper));
                } else if self.lower && !hits_class(v@, Class::Lower) {
                    assert(self.selects(Class::Lower));
                } else if self.letter && !hits_class(v@, Class::Letter) {
                    assert(self.selects(Class::Letter));
                } else if self.digit && !hits_class(v@, Class::Digit) {
                    assert(self.selects(Class::Digit));
                } else if self.symbol && !hits_class(v@, Class::Symbol) {
                    assert(self.selects(Class::Symbol));
                } else {
                    assert(self.selects(Class::Whitespace));
                }
            }
        }
        r
    }

    pub fn is_none(&self) -> (r: bool)
        ensures
            r == self.is_empty(),
    {
        let r = !self.upper && !self.lower && !self.letter && !self.digit && !self.symbol
            && !self.whitespace;
        proof {
            if !r {
                if self.upper {
                    assert(self.selects(Class::Upper));
                } else if self.lower {
                    assert(self.selects(Class::Lower));
                } else if self.letter {
                    assert(self.selects(Class::Letter));
                } else if self.digit {
                    assert(self.selects(Class::Digit));
                } else if self.symbol {
                    assert(self.selects(Class::Symbol));
                } else {
                    assert(self.selects(Class::Whitespace));
                }
            }
        }
        r
    }

    pub fn count_exec(&self) -> (r: usize)
        ensures
            r == self.count(),
    {
        let mut n: usize = 0;
        if self.upper {
            n = n + 1;
        }
        if self.lower {
            n = n + 1;
        }
        if self.letter {
            n = n + 1;
        }
        if self.digit {
            n = n + 1;
        }
        if self.symbol {
            n = n + 1;
        }
        if self.whitespace {
            n = n + 1;
        }
        n
    }
}

/// The characters of an optional string, none when it is absent.
pub open spec fn chars_or_none(o: Option<String>) -> Seq<char> {
    match o {
        Some(s) => s@,
        None => Seq::empty(),
    }
}

/// Resolved constraints for one value: which characters may be drawn, which
/// subsets must each be hit, and how long the value is.
///
/// A class under `must` may be drawn from too. The custom alphabet is the
/// characters of `custom` and of `must_custom`; a non-empty `must_custom` is a
/// mandatory subset of its own.
#[derive(Clone, Debug)]
pub struct ConstraintSet {
    pub allowed: Classes,
    pub custom: Option<String>,
    pub must: Classes,
    pub must_custom: Option<String>,
    pub length: usize,
}

impl ConstraintSet {
    pub open spec fn custom_chars(&self) -> Seq<char> {
        chars_or_none(self.custom)
    }

    pub open spec fn must_chars(&self) -> Seq<char> {
        chars_or_none(self.must_custom)
    }

    /// Whether `c` belongs to the resolved alphabet.
    pub open spec fn in_alphabet(&self, c: char) -> bool {
        self.allowed.covers(c) || self.must.covers(c) || self.custom_chars().contains(c)
            || self.must_chars().contains(c)
    }

    /// The number of mandatory subsets.
    pub open spec fn mandatory_count(&self) -> nat {
        self.must.count() + if self.must_chars().len() > 0 {
            1nat
        } else {
            0
        }
    }

    /// Whether `v` holds a representative of every mandatory subset.
    pub open spec fn hits_mandatory(&self, v: Seq<char>) -> bool {
        self.must.all_hit(v) && (self.must_chars().len() > 0 ==> hits_chars(v, self.must_chars()))
    }

    /// Whether `v` is an acceptable value: the target length, drawn from the
    /// alphabet only, with every mandatory subset hit.
    pub open spec fn accepts(&self, v: Seq<char>) -> bool {
        &&& v.len() == self.length
        &&& forall|i: int| 0 <= i < v.len() ==> self.in_alphabet(#[trigger] v[i])
        &&& self.hits_mandatory(v)
    }

    /// The alphabet is empty.
    pub open spec fn alphabet_empty(&self) -> bool {
        self.allowed.is_empty() && self.must.is_empty() && self.custom_chars().len() == 0
            && self.must_chars().len() == 0
    }

    /// Why these constraints cannot be met whatever is drawn, if they cannot.
    pub open spec fn problem(&self) -> Option<ConstraintError> {
        if !all_ascii(self.custom_chars()) || !all_ascii(self.must_chars()) {
            Some(ConstraintError::NonAsciiCustom)
        } else if self.alphabet_empty() {
            Some(ConstraintError::NoAlphabet)
        } else if (self.length as nat) < self.mandatory_count() {
            Some(ConstraintError::TooShort)
        } else {
            None
        }
    }

    /// Checks a candidate value against these constraints.
    pub fn check(&self, v: &str) -> (r: bool)
        ensures
            r == self.accepts(v@),
    {
        let cs = chars_of(v);
        if cs.len() != self.length {
            return false;
        }
        let custom = match &self.custom {
            Some(s) => chars_of(s.as_str()),
            None => Vec::new(),
        };
        let must_custom = match &self.must_custom {
            Some(s) => chars_of(s.as_str()),
            None => Vec::new(),
        };
        assert(custom@ == self.custom_chars());
        assert(must_custom@ == self.must_chars());
        let mut i: usize = 0;
        while i < cs.len()
            invariant
                cs@ == v@,
                custom@ == self.custom_chars(),
                must_custom@ == self.must_chars(),
                i <= cs@.len(),
                forall|j: int| 0 <= j < i ==> self.in_alphabet(#[trigger] cs@[j]),
            decreases cs@.len() - i,
        {
            let c = cs[i];
            if !(self.allowed.covers_char(c) || self.must.covers_char(c) || contains_char(
                &custom,
                c,
            ) || contains_char(&must_custom, c)) {
                return false;
            }
            i = i + 1;
        }
        if !self.must.all_hit_in(&cs) {
            return false;
        }
        if must_custom.len() > 0 && !any_in_chars(&cs, &must_custom) {
            return false;
        }
        true
    }

    /// Why these constraints cannot be met, if they cannot.
    pub fn find_problem(&self) -> (r: Option<ConstraintError>)
        ensures
            r == self.problem(),
    {
        let custom = match &self.custom {
            Some(s) => chars_of(s.as_str()),
            None => Vec::new(),
        };
        let must_custom = match &self.must_custom {
            Some(s) => chars_of(s.as_str()),
            None => Vec::new(),
        };
        assert(custom@ == self.custom_chars());
        assert(must_custom@ == self.must_chars());
        if !is_all_ascii(&custom) || !is_all_ascii(&must_custom) {
            return Some(ConstraintError::NonAsciiCustom);
        }
        if self.allowed.is_none() && self.must.is_none() && custom.len() == 0 && must_custom.len()
            == 0 {
            return Some(ConstraintError::NoAlphabet);
        }
        let mandatory = self.must.count_exec() + if must_custom.len() > 0 {
            1
        } else {
            0
        };
        if self.length < mandatory {
            return Some(ConstraintError::TooShort);
        }
        None
    }

    /// A builder configured with these constraints: their length, their
    /// alphabet, and at most one demand per mandatory subset.
    fn builder(&self) -> (r: RandStrBuilder)
        requires
            self.problem() is None,
        ensures
            builder_custom(r) is Some ==> all_ascii(builder_custom(r)->Some_0),
            builder_must_custom(r) ==> builder_custom(r) is Some && builder_custom(r)->Some_0.len()
                > 0,
            builder_len(r) == self.length,
            forall|c: char| #[trigger] builder_alphabet(r).contains(c) <==> self.in_alphabet(c),
            builder_demands(r) <= self.mandatory_count(),
    {
        let mut b = new_builder();
        set_length(&mut b, self.length);
        add_class(&mut b, Class::Upper, self.allowed.upper, self.must.upper);
        add_class(&mut b, Class::Lower, self.allowed.lower, self.must.lower);
        add_class(&mut b, Class::Letter, self.allowed.letter, self.must.letter);
        add_class(&mut b, Class::Digit, self.allowed.digit, self.must.digit);
        add_class(&mut b, Class::Symbol, self.allowed.symbol, self.must.symbol);
        add_class(&mut b, Class::Whitespace, self.allowed.whitespace, self.must.whitespace);
        assert forall|c: char| builder_classes(b).contains(c) <==> (self.allowed.covers(c)
            || self.must.covers(c)) by {}
        let ghost classes_demands = builder_demands(b);
        assert(classes_demands <= self.must.count());
        let empty = String::new();
        let custom: &str = match &self.custom {
            Some(s) => s.as_str(),
            None => empty.as_str(),
        };
        match &self.must_custom {
            Some(m) if m.unicode_len() > 0 => {
                require_custom(&mut b, m.as_str());
                if self.custom.is_some() {
                    let joined = String::from_str(custom).concat(m.as_str());
                    proof {
                        assert forall|i: int| 0 <= i < joined@.len() implies (
                        #[trigger] joined@[i]) as u32 <= 127 by {
                            if i < custom@.len() {
                                assert(joined@[i] == self.custom_chars()[i]);
                            } else {
                                assert(joined@[i] == self.must_chars()[i - custom@.len()]);
                            }
                        }
                    }
                    allow_custom(&mut b, joined.as_str());
                    proof {
                        assert forall|c: char| joined@.contains(c) <==> (self.custom_chars().contains(c)
                            || self.must_chars().contains(c)) by {
                            if joined@.contains(c) {
                                let i = choose|i: int| 0 <= i < joined@.len() && joined@[i] == c;
                                if i < custom@.len() {
                                    assert(self.custom_chars()[i] == c);
                                } else {
                                    assert(self.must_chars()[i - custom@.len()] == c);
                                }
                            }
                            if self.custom_chars().contains(c) {
                                let i = choose|i: int| 0 <= i < custom@.len() && custom@[i] == c;
                                assert(joined@[i] == c);
                            }
                            if self.must_chars().contains(c) {
                                let i = choose|i: int| 0 <= i < m@.len() && m@[i] == c;
                                assert(joined@[i + custom@.len()] == c);
                            }
                        }
                    }
                }
            },
            _ => {
                if self.custom.is_some() {
                    allow_custom(&mut b, custom);
                }
            },
        }
        b
    }

    proof fn lemma_alphabet_nonempty(&self)
        requires
            self.problem() is None,
        ensures
            exists|c: char| self.in_alphabet(c),
    {
        if self.custom_chars().len() > 0 {
            assert(self.in_alphabet(self.custom_chars()[0]));
        } else if self.must_chars().len() > 0 {
            assert(self.in_alphabet(self.must_chars()[0]));
        } else {
            let cl = if !self.allowed.is_empty() { self.allowed } else { self.must };
            let k = choose|k: Class| cl.selects(k);
            let c = match k {
                Class::Upper | Class::Letter => 'A',
                Class::Lower => 'a',
                Class::Digit => '0',
                Class::Symbol => '!',
                Class::Whitespace => ' ',
            };
            assert(class_contains(k, c));
            assert(cl.covers(c));
            assert(self.in_alphabet(c));
        }
    }

    /// Synthesizes a fresh random value that meets these constraints.
    ///
    /// Fails with the constraints' problem when they cannot be met; otherwise
    /// either succeeds with an accepted value or, when no draw within
    /// `ATTEMPTS` was accepted, fails with `Unsatisfied`.
    pub fn synthesize(&self) -> (r: Result<String, ConstraintError>)
        ensures
            self.problem() is Some ==> r == Err::<String, ConstraintError>(self.problem()->Some_0),
            self.problem() is None ==> match r {
                Ok(v) => self.accepts(v@),
                Err(e) => e == ConstraintError::Unsatisfied,
            },
            self.problem() is None && self.mandatory_count() == 0 ==> r is Ok,
    {
        match self.find_problem() {
            Some(e) => {
                return Err(e);
            },
            None => {},
        }
        let b = self.builder();
        proof {
            self.lemma_alphabet_nonempty();
        }
        let mut attempt: u32 = 0;
        while attempt < ATTEMPTS
            invariant
                self.problem() is None,
                builder_custom(b) is Some ==> all_ascii(builder_custom(b)->Some_0),
                builder_must_custom(b) ==> builder_custom(b) is Some && builder_custom(b)->Some_0.len()
                    > 0,
                builder_len(b) == self.length,
                forall|c: char| #[trigger] builder_alphabet(b).contains(c) <==> self.in_alphabet(c),
                builder_demands(b) <= self.mandatory_count(),
                exists|c: char| self.in_alphabet(c),
                self.mandatory_count() == 0 ==> attempt == 0,
            decreases ATTEMPTS - attempt,
        {
            let ghost alpha_c = choose|c: char| self.in_alphabet(c);
            assert(builder_alphabet(b).contains(alpha_c));
            match draw(&b) {
                Ok(v) => {
                    if self.check(v.as_str()) {
                        return Ok(v);
                    }
                },
                Err(_) => {},
            }
            attempt = attempt + 1;
        }
        Err(ConstraintError::Unsatisfied)
    }
}

} // verus!
