//! Text helpers: decimal rendering of lengths for the messages of rejected inputs,
//! string comparison, and Unicode lowercasing.
use vstd::prelude::*;

verus! {

/// The character of a decimal digit.
pub open spec fn digit_char(d: nat) -> char
    recommends
        d < 10,
{
    if d == 0 {
        '0'
    } else if d == 1 {
        '1'
    } else if d == 2 {
        '2'
    } else if d == 3 {
        '3'
    } else if d == 4 {
        '4'
    } else if d == 5 {
        '5'
    } else if d == 6 {
        '6'
    } else if d == 7 {
        '7'
    } else if d == 8 {
        '8'
    } else {
        '9'
    }
}

/// The decimal notation of `n`: most significant digit first, no leading zeros,
/// and "0" for zero.
pub open spec fn decimal(n: nat) -> Seq<char>
    decreases n,
{
    if n < 10 {
        seq![digit_char(n)]
    } else {
        decimal(n / 10).push(digit_char(n % 10))
    }
}

/// The one-character string of a decimal digit.
fn digit_str(d: usize) -> (s: &'static str)
    requires
        d < 10,
    ensures
        s@ == seq![digit_char(d as nat)],
{
    proof {
        reveal_strlit("0");
        reveal_strlit("1");
        reveal_strlit("2");
        reveal_strlit("3");
        reveal_strlit("4");
        reveal_strlit("5");
        reveal_strlit("6");
        reveal_strlit("7");
        reveal_strlit("8");
        reveal_strlit("9");
    }
    if d == 0 {
        "0"
    } else if d == 1 {
        "1"
    } else if d == 2 {
        "2"
    } else if d == 3 {
        "3"
    } else if d == 4 {
        "4"
    } else if d == 5 {
        "5"
    } else if d == 6 {
        "6"
    } else if d == 7 {
        "7"
    } else if d == 8 {
        "8"
    } else {
        "9"
    }
}

/// Renders `n` in decimal, as `format!("{}", n)` does.
pub fn decimal_string(n: usize) -> (s: String)
    ensures
        s@ == decimal(n as nat),
    decreases n,
{
    if n < 10 {
        String::from_str(digit_str(n))
    } else {
        let mut s = decimal_string(n / 10);
        s.append(digit_str(n % 10));
        s
    }
}

/// "<what>: expected <expected>, got <got>", the message of an input of the wrong length.
pub open spec fn length_message(what: Seq<char>, expected: nat, got: nat) -> Seq<char> {
    what + ": expected "@ + decimal(expected) + ", got "@ + decimal(got)
}

/// Builds `length_message(what, expected, got)`.
pub fn length_message_string(what: &str, expected: usize, got: usize) -> (s: String)
    ensures
        s@ == length_message(what@, expected as nat, got as nat),
{
    let mut s = String::from_str(what);
    s.append(": expected ");
    let e = decimal_string(expected);
    s.append(e.as_str());
    s.append(", got ");
    let g = decimal_string(got);
    s.append(g.as_str());
    s
}

/// The lowercase equivalent of a string, as `str::to_lowercase` computes it
/// (per the Unicode Derived Core Property `Lowercase`).
pub uninterp spec fn unicode_lowercase(s: Seq<char>) -> Seq<char>;

/// Whether every character of `s` is ASCII.
pub open spec fn is_ascii_text(s: Seq<char>) -> bool {
    forall|i: int| 0 <= i < s.len() ==> (#[trigger] s[i] as u32) < 128
}

/// ASCII lowercasing of one character: 'A'..='Z' become 'a'..='z', every other
/// character is unchanged.
pub open spec fn ascii_lower_char(c: char) -> char {
    if 'A' <= c && c <= 'Z' {
        ((c as u32) + 32) as char
    } else {
        c
    }
}

/// ASCII lowercasing of a string, character by character.
pub open spec fn ascii_lowercase(s: Seq<char>) -> Seq<char> {
    s.map_values(|c: char| ascii_lower_char(c))
}

/// The lowercase form of a string: its ASCII lowercasing when it is all ASCII,
/// otherwise what `str::to_lowercase` makes of it.
pub open spec fn text_lowercase(s: Seq<char>) -> Seq<char> {
    if is_ascii_text(s) {
        ascii_lowercase(s)
    } else {
        unicode_lowercase(s)
    }
}

/// `str::to_lowercase`. Its result is a function of the string alone; on a string
/// that is all ASCII it maps 'A'..='Z' to 'a'..='z' and keeps every other character,
/// as `str::to_ascii_lowercase` does (the documentation of `to_ascii_lowercase` points
/// to `to_lowercase` for lowercasing "ASCII characters in addition to non-ASCII
/// characters"). Nothing more of the Unicode case tables is stated here.
#[verifier::external_body]
pub(crate) fn to_lowercase(s: &str) -> (r: String)
    ensures
        r@ == unicode_lowercase(s@),
        is_ascii_text(s@) ==> r@ == ascii_lowercase(s@),
{
    s.to_lowercase()
}

/// `to_lowercase`, seen through `text_lowercase`.
pub fn lowercase(s: &str) -> (r: String)
    ensures
        r@ == text_lowercase(s@),
{
    to_lowercase(s)
}

/// ASCII lowercasing leaves an ASCII string ASCII and is idempotent.
pub proof fn lemma_ascii_lowercase_idempotent(s: Seq<char>)
    requires
        is_ascii_text(s),
    ensures
        is_ascii_text(ascii_lowercase(s)),
        text_lowercase(s) == ascii_lowercase(s),
        text_lowercase(ascii_lowercase(s)) == ascii_lowercase(s),
{
    let l = ascii_lowercase(s);
    assert forall|i: int| 0 <= i < l.len() implies (#[trigger] l[i] as u32) < 128 by {
        assert((s[i] as u32) < 128);
    }
    assert(ascii_lowercase(l) =~= l);
}

/// An ASCII string without capital letters is its own lowercase form.
pub proof fn lemma_lowercase_of_lowercase_ascii(s: Seq<char>)
    requires
        is_ascii_text(s),
        forall|i: int| 0 <= i < s.len() ==> !('A' <= #[trigger] s[i] && s[i] <= 'Z'),
    ensures
        text_lowercase(s) == s,
{
    assert(ascii_lowercase(s) =~= s);
}

/// Whether two strings hold the same characters.
pub fn same_text(a: &str, b: &str) -> (r: bool)
    ensures
        r == (a@ == b@),
{
    let x = String::from_str(a);
    let y = String::from_str(b);
    x == y
}

} // verus!
