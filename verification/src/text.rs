//! What the library takes from `itertools` and from the string functions of
//! std, with contracts that are taken on faith.

use vstd::prelude::*;
use itertools::Itertools;

verus! {

/// The strings of `parts` in a row, with `sep` between each two.
pub open spec fn spec_join(parts: Seq<Seq<char>>, sep: Seq<char>) -> Seq<char>
    decreases parts.len(),
{
    if parts.len() == 0 {
        Seq::empty()
    } else if parts.len() == 1 {
        parts[0]
    } else {
        spec_join(parts.drop_last(), sep) + sep + parts.last()
    }
}

/// What `str::trim` returns: the text without the white space at its two ends.
pub uninterp spec fn spec_trim(s: Seq<char>) -> Seq<char>;

/// What `str::trim_start` returns: the text without the white space at its start.
pub uninterp spec fn spec_trim_start(s: Seq<char>) -> Seq<char>;

/// The text without the repetitions of `pat` at its start.
pub open spec fn spec_trim_start_matches(s: Seq<char>, pat: Seq<char>) -> Seq<char>
    decreases s.len(),
{
    if pat.len() > 0 && pat.is_prefix_of(s) {
        spec_trim_start_matches(s.skip(pat.len() as int), pat)
    } else {
        s
    }
}

/// `Itertools::join` on the strings of a vector: the strings in a row,
/// with `sep` between each two; the empty string for no strings.
#[verifier::external_body]
pub(crate) fn join_strings(parts: &Vec<String>, sep: &str) -> (r: String)
    ensures
        r@ == spec_join(parts@.map_values(|s: String| s@), sep@),
{
    parts.iter().join(sep)
}

/// `Itertools::collect_tuple` for a tuple of three: the three items, where
/// there are exactly three.
#[verifier::external_body]
pub(crate) fn collect_triple<T: Copy>(items: &Vec<T>) -> (r: Option<(T, T, T)>)
    ensures
        r == (if items@.len() == 3 {
            Some((items@[0], items@[1], items@[2]))
        } else {
            None
        }),
{
    items.iter().copied().collect_tuple()
}

/// `Itertools::collect_tuple` for a tuple of four: the four items, where
/// there are exactly four.
#[verifier::external_body]
pub(crate) fn collect_quad<T: Copy>(items: &Vec<T>) -> (r: Option<(T, T, T, T)>)
    ensures
        r == (if items@.len() == 4 {
            Some((items@[0], items@[1], items@[2], items@[3]))
        } else {
            None
        }),
{
    items.iter().copied().collect_tuple()
}

/// `str::starts_with` for a string pattern: the pattern is a prefix of the text.
#[verifier::external_body]
pub(crate) fn str_starts_with(s: &str, prefix: &str) -> (r: bool)
    ensures
        r == prefix@.is_prefix_of(s@),
{
    s.starts_with(prefix)
}

/// The decimal digit for a number below ten.
pub open spec fn spec_digit(d: nat) -> char {
    if d == 0 {
        '0'
    } else if d == 1 {
        '1'
    } else if d == 2 {
        '2'
    } else if d == 3 {
        '3'
    } else if d == 4 {
        '4'
    } else if d == 5 {
        '5'
    } else if d == 6 {
        '6'
    } else if d == 7 {
        '7'
    } else if d == 8 {
        '8'
    } else {
        '9'
    }
}

/// The decimal digits of a number, without leading zeros.
pub open spec fn spec_decimal(n: nat) -> Seq<char>
    decreases n,
{
    if n < 10 {
        seq![spec_digit(n)]
    } else {
        spec_decimal(n / 10).push(spec_digit(n % 10))
    }
}

/// `ToString::to_string` on a `usize`: the decimal digits of the number.
#[verifier::external_body]
pub(crate) fn usize_to_string(n: usize) -> (r: String)
    ensures
        r@ == spec_decimal(n as nat),
{
    n.to_string()
}

/// `==` on two string slices: they hold the same characters.
#[verifier::external_body]
pub(crate) fn str_eq(a: &str, b: &str) -> (r: bool)
    ensures
        r == (a@ == b@),
{
    a == b
}

/// `str::trim`.
#[verifier::external_body]
pub(crate) fn str_trim<'a>(s: &'a str) -> (r: &'a str)
    ensures
        r@ == spec_trim(s@),
{
    s.trim()
}

/// `str::trim_start`.
#[verifier::external_body]
pub(crate) fn str_trim_start<'a>(s: &'a str) -> (r: &'a str)
    ensures
        r@ == spec_trim_start(s@),
{
    s.trim_start()
}

/// `str::trim_start_matches` for a string pattern that is not empty: the
/// text without the repetitions of the pattern at its start.
#[verifier::external_body]
pub(crate) fn str_trim_start_matches<'a>(s: &'a str, pat: &str) -> (r: &'a str)
    requires
        pat@.len() > 0,
    ensures
        r@ == spec_trim_start_matches(s@, pat@),
{
    s.trim_start_matches(pat)
}

/// The strings of `lines` in a row, with a line feed between each two.
pub fn join_lines(lines: &Vec<String>) -> (r: String)
    ensures
        r@ == spec_join(lines@.map_values(|s: String| s@), "\n"@),
{
    join_strings(lines, "\n")
}

} // verus!
