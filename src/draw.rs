//! The random draw, made by the `randstr` crate.
use crate::charset::{all_ascii, class_contains, Class};
use randstr::RandStrBuilder;
use vstd::prelude::*;

verus! {

#[verifier::external_type_specification]
#[verifier::external_body]
pub struct ExRandStrBuilder(RandStrBuilder);

#[verifier::external_type_specification]
#[verifier::external_body]
pub struct ExRandStrError(randstr::Error);

/// The custom alphabet that a builder holds, `None` until one is given.
pub uninterp spec fn builder_custom(b: RandStrBuilder) -> Option<Seq<char>>;

/// Whether a builder demands a character of its custom alphabet.
pub uninterp spec fn builder_must_custom(b: RandStrBuilder) -> bool;

/// The length that a builder is set to.
pub uninterp spec fn builder_len(b: RandStrBuilder) -> nat;

/// The characters of the fixed classes that a builder allows.
pub uninterp spec fn builder_classes(b: RandStrBuilder) -> Set<char>;

/// How many alphabets a builder demands a character of.
pub uninterp spec fn builder_demands(b: RandStrBuilder) -> nat;

/// The characters of class `k`.
pub open spec fn class_set(k: Class) -> Set<char> {
    Set::new(|c: char| class_contains(k, c))
}

/// Everything a builder may draw: its classes and its custom alphabet.
pub open spec fn builder_alphabet(b: RandStrBuilder) -> Set<char> {
    builder_classes(b).union(
        match builder_custom(b) {
            Some(c) => c.to_set(),
            None => Set::empty(),
        },
    )
}

/// Relies on randstr::randstr: a builder with no alphabet and no demand.
#[verifier::external_body]
pub(crate) fn new_builder() -> (r: RandStrBuilder)
    ensures
        builder_custom(r) is None,
        !builder_must_custom(r),
        builder_len(r) == 0,
        builder_classes(r) == Set::<char>::empty(),
        builder_demands(r) == 0,
{
    randstr::randstr()
}

/// Relies on RandStrBuilder::len: sets the length, nothing else.
#[verifier::external_body]
pub(crate) fn set_length(b: &mut RandStrBuilder, n: usize)
    ensures
        builder_custom(*final(b)) == builder_custom(*old(b)),
        builder_must_custom(*final(b)) == builder_must_custom(*old(b)),
        builder_len(*final(b)) == n,
        builder_classes(*final(b)) == builder_classes(*old(b)),
        builder_demands(*final(b)) == builder_demands(*old(b)),
{
    b.len(n);
}

/// Relies on RandStrBuilder::upper: adds `A`-`Z` to the alphabet.
#[verifier::external_body]
pub(crate) fn allow_upper(b: &mut RandStrBuilder)
    ensures
        builder_custom(*final(b)) == builder_custom(*old(b)),
        builder_must_custom(*final(b)) == builder_must_custom(*old(b)),
        builder_len(*final(b)) == builder_len(*old(b)),
        builder_classes(*final(b)) == builder_classes(*old(b)).union(class_set(Class::Upper)),
        builder_demands(*final(b)) == builder_demands(*old(b)),
{
    b.upper();
}

/// Relies on RandStrBuilder::lower: adds `a`-`z` to the alphabet.
#[verifier::external_body]
pub(crate) fn allow_lower(b: &mut RandStrBuilder)
    ensures
        builder_custom(*final(b)) == builder_custom(*old(b)),
        builder_must_custom(*final(b)) == builder_must_custom(*old(b)),
        builder_len(*final(b)) == builder_len(*old(b)),
        builder_classes(*final(b)) == builder_classes(*old(b)).union(class_set(Class::Lower)),
        builder_demands(*final(b)) == builder_demands(*old(b)),
{
    b.lower();
}

/// Relies on RandStrBuilder::letter: adds both letter cases to the alphabet.
#[verifier::external_body]
pub(crate) fn allow_letter(b: &mut RandStrBuilder)
    ensures
        builder_custom(*final(b)) == builder_custom(*old(b)),
        builder_must_custom(*final(b)) == builder_must_custom(*old(b)),
        builder_len(*final(b)) == builder_len(*old(b)),
        builder_classes(*final(b)) == builder_classes(*old(b)).union(class_set(Class::Letter)),
        builder_demands(*final(b)) == builder_demands(*old(b)),
{
    b.letter();
}

/// Relies on RandStrBuilder::digit: adds `0`-`9` to the alphabet.
#[verifier::external_body]
pub(crate) fn allow_digit(b: &mut RandStrBuilder)
    ensures
        builder_custom(*final(b)) == builder_custom(*old(b)),
        builder_must_custom(*final(b)) == builder_must_custom(*old(b)),
        builder_len(*final(b)) == builder_len(*old(b)),
        builder_classes(*final(b)) == builder_classes(*old(b)).union(class_set(Class::Digit)),
        builder_demands(*final(b)) == builder_demands(*old(b)),
{
    b.digit();
}

/// Relies on RandStrBuilder::symbol: adds ASCII punctuation to the alphabet.
#[verifier::external_body]
pub(crate) fn allow_symbol(b: &mut RandStrBuilder)
    ensures
        builder_custom(*final(b)) == builder_custom(*old(b)),
        builder_must_custom(*final(b)) == builder_must_custom(*old(b)),
        builder_len(*final(b)) == builder_len(*old(b)),
        builder_classes(*final(b)) == builder_classes(*old(b)).union(class_set(Class::Symbol)),
        builder_demands(*final(b)) == builder_demands(*old(b)),
{
    b.symbol();
}

/// Relies on RandStrBuilder::whitespace: adds the space to the alphabet.
#[verifier::external_body]
pub(crate) fn allow_whitespace(b: &mut RandStrBuilder)
    ensures
        builder_custom(*final(b)) == builder_custom(*old(b)),
        builder_must_custom(*final(b)) == builder_must_custom(*old(b)),
        builder_len(*final(b)) == builder_len(*old(b)),
        builder_classes(*final(b)) == builder_classes(*old(b)).union(class_set(Class::Whitespace)),
        builder_demands(*final(b)) == builder_demands(*old(b)),
{
    b.whitespace();
}

/// Relies on RandStrBuilder::custom: replaces the custom alphabet by `s`.
#[verifier::external_body]
pub(crate) fn allow_custom(b: &mut RandStrBuilder, s: &str)
    ensures
        builder_custom(*final(b)) == Some(s@),
        builder_must_custom(*final(b)) == builder_must_custom(*old(b)),
        builder_len(*final(b)) == builder_len(*old(b)),
        builder_classes(*final(b)) == builder_classes(*old(b)),
        builder_demands(*final(b)) == builder_demands(*old(b)),
{
    b.custom(s);
}

/// Relies on RandStrBuilder::must_upper: adds `A`-`Z` and demands one of them.
#[verifier::external_body]
pub(crate) fn require_upper(b: &mut RandStrBuilder)
    ensures
        builder_custom(*final(b)) == builder_custom(*old(b)),
        builder_must_custom(*final(b)) == builder_must_custom(*old(b)),
        builder_len(*final(b)) == builder_len(*old(b)),
        builder_classes(*final(b)) == builder_classes(*old(b)).union(class_set(Class::Upper)),
        builder_demands(*final(b)) <= builder_demands(*old(b)) + 1,
{
    b.must_upper();
}

/// Relies on RandStrBuilder::must_lower: adds `a`-`z` and demands one of them.
#[verifier::external_body]
pub(crate) fn require_lower(b: &mut RandStrBuilder)
    ensures
        builder_custom(*final(b)) == builder_custom(*old(b)),
        builder_must_custom(*final(b)) == builder_must_custom(*old(b)),
        builder_len(*final(b)) == builder_len(*old(b)),
        builder_classes(*final(b)) == builder_classes(*old(b)).union(class_set(Class::Lower)),
        builder_demands(*final(b)) <= builder_demands(*old(b)) + 1,
{
    b.must_lower();
}

/// Relies on RandStrBuilder::must_letter: adds the letters and demands one.
#[verifier::external_body]
pub(crate) fn require_letter(b: &mut RandStrBuilder)
    ensures
        builder_custom(*final(b)) == builder_custom(*old(b)),
        builder_must_custom(*final(b)) == builder_must_custom(*old(b)),
        builder_len(*final(b)) == builder_len(*old(b)),
        builder_classes(*final(b)) == builder_classes(*old(b)).union(class_set(Class::Letter)),
        builder_demands(*final(b)) <= builder_demands(*old(b)) + 1,
{
    b.must_letter();
}

/// Relies on RandStrBuilder::must_digit: adds `0`-`9` and demands one of them.
#[verifier::external_body]
pub(crate) fn require_digit(b: &mut RandStrBuilder)
    ensures
        builder_custom(*final(b)) == builder_custom(*old(b)),
        builder_must_custom(*final(b)) == builder_must_custom(*old(b)),
        builder_len(*final(b)) == builder_len(*old(b)),
        builder_classes(*final(b)) == builder_classes(*old(b)).union(class_set(Class::Digit)),
        builder_demands(*final(b)) <= builder_demands(*old(b)) + 1,
{
    b.must_digit();
}

/// Relies on RandStrBuilder::must_symbol: adds the punctuation and demands one.
#[verifier::external_body]
pub(crate) fn require_symbol(b: &mut RandStrBuilder)
    ensures
        builder_custom(*final(b)) == builder_custom(*old(b)),
        builder_must_custom(*final(b)) == builder_must_custom(*old(b)),
        builder_len(*final(b)) == builder_len(*old(b)),
        builder_classes(*final(b)) == builder_classes(*old(b)).union(class_set(Class::Symbol)),
        builder_demands(*final(b)) <= builder_demands(*old(b)) + 1,
{
    b.must_symbol();
}

/// Relies on RandStrBuilder::must_custom: replaces the custom alphabet by `s`
/// and demands one of its characters.
#[verifier::external_body]
pub(crate) fn require_custom(b: &mut RandStrBuilder, s: &str)
    ensures
        builder_custom(*final(b)) == Some(s@),
        builder_must_custom(*final(b)),
        builder_len(*final(b)) == builder_len(*old(b)),
        builder_classes(*final(b)) == builder_classes(*old(b)),
        builder_demands(*final(b)) <= builder_demands(*old(b)) + 1,
{
    b.must_custom(s);
}

/// Relies on RandStrBuilder::try_build and RandStr::generate: one random
/// draw. `generate` turns the drawn bytes into a `String` with `unwrap`, and
/// picks from the demanded custom alphabet with `unwrap`, so the custom
/// alphabet must be ASCII and, when demanded, non-empty. The draw is random;
/// every outcome has the builder's length and characters of its alphabet
/// only, and `try_build` fails only on an empty alphabet or on more demands
/// than the length.
#[verifier::external_body]
pub(crate) fn draw(b: &RandStrBuilder) -> (r: Result<String, randstr::Error>)
    requires
        builder_custom(*b) is Some ==> all_ascii(builder_custom(*b)->Some_0),
        builder_must_custom(*b) ==> builder_custom(*b) is Some
            && builder_custom(*b)->Some_0.len() > 0,
    ensures
        r is Ok ==> r->Ok_0@.len() == builder_len(*b) && forall|i: int|
            0 <= i < r->Ok_0@.len() ==> builder_alphabet(*b).contains(#[trigger] r->Ok_0@[i]),
        (exists|c: char| builder_alphabet(*b).contains(c)) && builder_demands(*b) <= builder_len(*b)
            ==> r is Ok,
{
    match b.try_build() {
        Ok(mut g) => Ok(g.generate()),
        Err(e) => Err(e),
    }
}

} // verus!
