//! Small operations on strings.
use vstd::prelude::*;

verus! {

/// The characters of an optional string.
pub open spec fn opt(s: Option<String>) -> Option<Seq<char>> {
    match s {
        Some(s) => Some(s@),
        None => None,
    }
}

/// What stands before and after the first `c` in `s`, if `c` occurs in `s`.
pub open spec fn cut(s: Seq<char>, c: char) -> Option<(Seq<char>, Seq<char>)> {
    match s.index_of_first(c) {
        Some(i) => Some((s.subrange(0, i), s.subrange(i + 1, s.len() as int))),
        None => None,
    }
}

/// What stands before the first `c` in `s`, or all of `s` where `c` does not occur.
pub open spec fn before(s: Seq<char>, c: char) -> Seq<char> {
    match cut(s, c) {
        Some((head, _)) => head,
        None => s,
    }
}

/// The characters that `str::to_lowercase` gives for `s`.
pub uninterp spec fn lowercased(s: Seq<char>) -> Seq<char>;

/// The decimal digit of a number below ten.
pub open spec fn digit(d: nat) -> Seq<char> {
    if d == 0 {
        "0"@
    } else if d == 1 {
        "1"@
    } else if d == 2 {
        "2"@
    } else if d == 3 {
        "3"@
    } else if d == 4 {
        "4"@
    } else if d == 5 {
        "5"@
    } else if d == 6 {
        "6"@
    } else if d == 7 {
        "7"@
    } else if d == 8 {
        "8"@
    } else {
        "9"@
    }
}

/// A number in decimal, without leading zeros.
pub open spec fn decimal(n: nat) -> Seq<char>
    decreases n,
{
    if n < 10 {
        digit(n)
    } else {
        decimal(n / 10) + digit(n % 10)
    }
}

/// A number in decimal, behind a minus sign where it is negative.
pub open spec fn signed_decimal(n: int) -> Seq<char> {
    if n < 0 {
        "-"@ + decimal((-n) as nat)
    } else {
        decimal(n as nat)
    }
}

/// `true` or `false`, spelled out.
pub open spec fn spelled(b: bool) -> Seq<char> {
    if b {
        "true"@
    } else {
        "false"@
    }
}

/// Whether two strings hold the same characters.
pub fn same(a: &str, b: &str) -> (r: bool)
    ensures
        r == (a@ == b@),
{
    a.to_owned() == b.to_owned()
}

/// Two strings, one after the other.
pub fn concat(a: &str, b: &str) -> (r: String)
    ensures
        r@ == a@ + b@,
{
    let mut r = a.to_owned();
    r.append(b);
    r
}

/// `str::split_once`: splits at the first occurrence of `c`, and returns what stands before and
/// after it, or nothing where `c` does not occur.
#[verifier::external_body]
pub(crate) fn split_once<'a>(s: &'a str, c: char) -> (r: Option<(&'a str, &'a str)>)
    ensures
        (match r {
            Some((head, tail)) => cut(s@, c) == Some((head@, tail@)),
            None => cut(s@, c) is None,
        }),
{
    s.split_once(c)
}

/// `str::to_lowercase`: the result is a function of the string alone. Which characters it maps to
/// which is left to the Unicode tables of the standard library.
#[verifier::external_body]
pub(crate) fn lowercase(s: &str) -> (r: String)
    ensures
        r@ == lowercased(s@),
{
    s.to_lowercase()
}

fn digit_str(d: u32) -> (r: &'static str)
    requires
        d < 10,
    ensures
        r@ == digit(d as nat),
{
    if d == 0 {
        "0"
    } else if d == 1 {
        "1"
    } else if d == 2 {
        "2"
    } else if d == 3 {
        "3"
    } else if d == 4 {
        "4"
    } else if d == 5 {
        "5"
    } else if d == 6 {
        "6"
    } else if d == 7 {
        "7"
    } else if d == 8 {
        "8"
    } else {
        "9"
    }
}

/// A number in decimal.
pub fn u32_to_string(n: u32) -> (r: String)
    ensures
        r@ == decimal(n as nat),
    decreases n,
{
    if n < 10 {
        digit_str(n).to_owned()
    } else {
        let mut r = u32_to_string(n / 10);
        r.append(digit_str(n % 10));
        r
    }
}

/// `true` or `false`.
pub fn bool_to_string(b: bool) -> (r: String)
    ensures
        r@ == spelled(b),
{
    if b {
        "true".to_owned()
    } else {
        "false".to_owned()
    }
}

/// A copy of an optional string.
pub fn copy_opt(s: &Option<String>) -> (r: Option<String>)
    ensures
        r == *s,
        opt(r) == opt(*s),
{
    match s {
        Some(s) => Some(s.clone()),
        None => None,
    }
}

/// Whether two optional strings are both absent or hold the same characters.
pub fn same_opt(a: &Option<String>, b: &Option<String>) -> (r: bool)
    ensures
        r == (opt(*a) == opt(*b)),
{
    match (a, b) {
        (Some(a), Some(b)) => *a == *b,
        (None, None) => true,
        _ => false,
    }
}

/// Cutting at `c` loses nothing: the two parts with `c` between them are the string, and the first
/// part holds no `c`.
pub proof fn law_cut_is_exact(s: Seq<char>, c: char)
    ensures
        match cut(s, c) {
            Some((head, tail)) => s == head + seq![c] + tail && !head.contains(c),
            None => !s.contains(c),
        },
{
    s.index_of_first_ensures(c);
    if let Some((head, tail)) = cut(s, c) {
        let i = s.index_of_first(c)->0;
        assert(s =~= head + seq![c] + tail);
        assert forall|k: int| 0 <= k < head.len() implies head[k] != c by {
            assert(s[k] == head[k]);
        }
    }
}

/// A string made of a part without `c`, then `c`, then anything, is cut at that `c`.
pub proof fn law_cut_of_joined(head: Seq<char>, c: char, tail: Seq<char>)
    requires
        !head.contains(c),
    ensures
        cut(head + seq![c] + tail, c) == Some((head, tail)),
{
    let s = head + seq![c] + tail;
    s.index_of_first_ensures(c);
    assert(s[head.len() as int] == c);
    let i = s.index_of_first(c)->0;
    if i < head.len() {
        assert(head[i] == c);
    }
    assert(i == head.len());
    assert(s.subrange(0, i) =~= head);
    assert(s.subrange(i + 1, s.len() as int) =~= tail);
}

/// A string without `c` is not cut.
pub proof fn law_cut_of_whole(s: Seq<char>, c: char)
    requires
        !s.contains(c),
    ensures
        cut(s, c) is None,
        before(s, c) == s,
{
    s.index_of_first_ensures(c);
}

} // verus!
