//! Fixed character classes a generated value may draw from.
use vstd::prelude::*;

verus! {

/// One of the fixed character classes, all of them ASCII.
#[derive(Clone, Copy, Debug, PartialEq, Eq, Structural)]
pub enum Class {
    /// `A`-`Z`
    Upper,
    /// `a`-`z`
    Lower,
    /// `A`-`Z` and `a`-`z`
    Letter,
    /// `0`-`9`
    Digit,
    /// The printable ASCII characters that are neither letters, digits nor space.
    Symbol,
    /// The space character.
    Whitespace,
}

pub open spec fn is_upper(c: char) -> bool {
    65 <= c as u32 && c as u32 <= 90
}

pub open spec fn is_lower(c: char) -> bool {
    97 <= c as u32 && c as u32 <= 122
}

pub open spec fn is_digit(c: char) -> bool {
    48 <= c as u32 && c as u32 <= 57
}

pub open spec fn is_symbol(c: char) -> bool {
    33 <= c as u32 && c as u32 <= 126 && !is_upper(c) && !is_lower(c) && !is_digit(c)
}

pub open spec fn is_space(c: char) -> bool {
    c as u32 == 32
}

/// Whether `c` belongs to class `k`.
pub open spec fn class_contains(k: Class, c: char) -> bool {
    match k {
        Class::Upper => is_upper(c),
        Class::Lower => is_lower(c),
        Class::Letter => is_upper(c) || is_lower(c),
        Class::Digit => is_digit(c),
        Class::Symbol => is_symbol(c),
        Class::Whitespace => is_space(c),
    }
}

/// Whether some character of `v` belongs to class `k`.
pub open spec fn hits_class(v: Seq<char>, k: Class) -> bool {
    exists|i: int| 0 <= i < v.len() && class_contains(k, #[trigger] v[i])
}

/// Whether some character of `v` occurs in `m`.
pub open spec fn hits_chars(v: Seq<char>, m: Seq<char>) -> bool {
    exists|i: int| 0 <= i < v.len() && m.contains(#[trigger] v[i])
}

pub open spec fn all_ascii(s: Seq<char>) -> bool {
    forall|i: int| 0 <= i < s.len() ==> (#[trigger] s[i]) as u32 <= 127
}

pub fn in_class(k: Class, c: char) -> (r: bool)
    ensures
        r == class_contains(k, c),
{
    let u = c as u32;
    let upper = 65 <= u && u <= 90;
    let lower = 97 <= u && u <= 122;
    let digit = 48 <= u && u <= 57;
    match k {
        Class::Upper => upper,
        Class::Lower => lower,
        Class::Letter => upper || lower,
        Class::Digit => digit,
        Class::Symbol => 33 <= u && u <= 126 && !upper && !lower && !digit,
        Class::Whitespace => u == 32,
    }
}

/// The characters of `s`, in order.
pub fn chars_of(s: &str) -> (r: Vec<char>)
    ensures
        r@ == s@,
{
    let n = s.unicode_len();
    let mut r: Vec<char> = Vec::new();
    let mut i: usize = 0;
    while i < n
        invariant
            n == s@.len(),
            i <= n,
            r@ == s@.subrange(0, i as int),
        decreases n - i,
    {
        r.push(s.get_char(i));
        i = i + 1;
    }
    assert(r@ =~= s@);
    r
}

/// Whether `a` and `b` hold the same characters.
pub fn str_eq(a: &str, b: &str) -> (r: bool)
    ensures
        r == (a@ == b@),
{
    let x = chars_of(a);
    let y = chars_of(b);
    if x.len() != y.len() {
        return false;
    }
    let mut i: usize = 0;
    while i < x.len()
        invariant
            x@ == a@,
            y@ == b@,
            x@.len() == y@.len(),
            i <= x@.len(),
            forall|j: int| 0 <= j < i ==> x@[j] == y@[j],
        decreases x@.len() - i,
    {
        if x[i] != y[i] {
            return false;
        }
        i = i + 1;
    }
    assert(x@ =~= y@);
    true
}

/// Whether every character of `s` is ASCII.
pub fn is_all_ascii(s: &Vec<char>) -> (r: bool)
    ensures
        r == all_ascii(s@),
{
    let mut i: usize = 0;
    while i < s.len()
        invariant
            i <= s@.len(),
            forall|j: int| 0 <= j < i ==> (#[trigger] s@[j]) as u32 <= 127,
        decreases s@.len() - i,
    {
        if s[i] as u32 > 127 {
            return false;
        }
        i = i + 1;
    }
    true
}

pub fn any_in_class(v: &Vec<char>, k: Class) -> (r: bool)
    ensures
        r == hits_class(v@, k),
{
    let mut i: usize = 0;
    while i < v.len()
        invariant
            i <= v@.len(),
            forall|j: int| 0 <= j < i ==> !class_contains(k, #[trigger] v@[j]),
        decreases v@.len() - i,
    {
        if in_class(k, v[i]) {
            return true;
        }
        i = i + 1;
    }
    false
}

/// Whether `c` occurs in `m`.
pub fn contains_char(m: &Vec<char>, c: char) -> (r: bool)
    ensures
        r == m@.contains(c),
{
    let mut i: usize = 0;
    while i < m.len()
        invariant
            i <= m@.len(),
            forall|j: int| 0 <= j < i ==> m@[j] != c,
        decreases m@.len() - i,
    {
        if m[i] == c {
            return true;
        }
        i = i + 1;
    }
    false
}

pub fn any_in_chars(v: &Vec<char>, m: &Vec<char>) -> (r: bool)
    ensures
        r == hits_chars(v@, m@),
{
    let mut i: usize = 0;
    while i < v.len()
        invariant
            i <= v@.len(),
            forall|j: int| 0 <= j < i ==> !m@.contains(#[trigger] v@[j]),
        decreases v@.len() - i,
    {
        if contains_char(m, v[i]) {
            return true;
        }
        i = i + 1;
    }
    false
}

} // verus!
