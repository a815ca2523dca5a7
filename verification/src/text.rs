//! Text building blocks of the rendering: decimal numbers, prefixes,
//! trailing whitespace, and what it means for one text to occur in another.

use vstd::prelude::*;
use vstd::string::*;

verus! {

/// Whether `pattern` occurs in `text` as a contiguous run of characters.
pub open spec fn contains(text: Seq<char>, pattern: Seq<char>) -> bool {
    exists|at: int| occurs_at(text, pattern, at)
}

/// Whether `pattern` occurs in `text` starting at position `at`.
pub open spec fn occurs_at(text: Seq<char>, pattern: Seq<char>, at: int) -> bool {
    &&& 0 <= at
    &&& at + pattern.len() <= text.len()
    &&& text.subrange(at, at + pattern.len()) == pattern
}

/// The character that writes the digit `d`.
pub open spec fn digit_char(d: nat) -> char {
    if d == 0 {
        '0'
    } else if d == 1 {
        '1'
    } else if d == 2 {
        '2'
    } else if d == 3 {
        '3'
    } else if d == 4 {
        '4'
    } else if d == 5 {
        '5'
    } else if d == 6 {
        '6'
    } else if d == 7 {
        '7'
    } else if d == 8 {
        '8'
    } else {
        '9'
    }
}

/// The decimal writing of `n`, most significant digit first, without
/// leading zeros.
pub open spec fn decimal(n: nat) -> Seq<char>
    decreases n,
{
    if n < 10 {
        seq![digit_char(n)]
    } else {
        decimal(n / 10).push(digit_char(n % 10))
    }
}

/// The one-character text of a single digit.
fn digit_text(d: u32) -> (text: &'static str)
    requires
        d < 10,
    ensures
        text@ == seq![digit_char(d as nat)],
{
    proof {
        reveal_strlit("0");
        reveal_strlit("1");
        reveal_strlit("2");
        reveal_strlit("3");
        reveal_strlit("4");
        reveal_strlit("5");
        reveal_strlit("6");
        reveal_strlit("7");
        reveal_strlit("8");
        reveal_strlit("9");
    }
    let text = if d == 0 {
        "0"
    } else if d == 1 {
        "1"
    } else if d == 2 {
        "2"
    } else if d == 3 {
        "3"
    } else if d == 4 {
        "4"
    } else if d == 5 {
        "5"
    } else if d == 6 {
        "6"
    } else if d == 7 {
        "7"
    } else if d == 8 {
        "8"
    } else {
        "9"
    };
    assert(text@ =~= seq![digit_char(d as nat)]);
    text
}

/// Writes `n` in decimal.
pub fn decimal_text(n: u32) -> (text: String)
    ensures
        text@ == decimal(n as nat),
    decreases n,
{
    if n < 10 {
        String::from_str(digit_text(n))
    } else {
        let mut text = decimal_text(n / 10);
        text.append(digit_text(n % 10));
        assert(text@ =~= decimal(n as nat));
        text
    }
}

/// Whether `text` begins with `prefix`.
pub fn starts_with(text: &str, prefix: &str) -> (yes: bool)
    ensures
        yes == prefix@.is_prefix_of(text@),
{
    let wanted: usize = prefix.unicode_len();
    let given: usize = text.unicode_len();
    if given < wanted {
        return false;
    }
    let mut i: usize = 0;
    while i < wanted
        invariant
            i <= wanted,
            wanted == prefix@.len(),
            given == text@.len(),
            wanted <= given,
            prefix@.subrange(0, i as int) == text@.subrange(0, i as int),
        decreases wanted - i,
    {
        if prefix.get_char(i) != text.get_char(i) {
            assert(prefix@[i as int] != text@.subrange(0, wanted as int)[i as int]);
            return false;
        }
        assert(prefix@.subrange(0, i + 1) =~= prefix@.subrange(0, i as int).push(prefix@[i as int]));
        assert(text@.subrange(0, i + 1) =~= text@.subrange(0, i as int).push(text@[i as int]));
        i = i + 1;
    }
    assert(prefix@ =~= prefix@.subrange(0, wanted as int));
    true
}

/// Whether a character counts as white space.
pub uninterp spec fn white_space(c: char) -> bool;

/// `char::is_whitespace` of std: whether the character has the Unicode
/// property White_Space. The contract gives that answer the name
/// `white_space` and claims nothing of which characters have it.
#[verifier::external_body]
fn is_white_space(c: char) -> (yes: bool)
    ensures
        yes == white_space(c),
{
    c.is_whitespace()
}

/// `text` without the white space at its end.
pub open spec fn trimmed(text: Seq<char>) -> Seq<char>
    decreases text.len(),
{
    if text.len() > 0 && white_space(text.last()) {
        trimmed(text.drop_last())
    } else {
        text
    }
}

/// Cuts the white space off the end of `text`.
pub fn trim_end(text: &str) -> (kept: &str)
    ensures
        kept@ == trimmed(text@),
{
    let mut n: usize = text.unicode_len();
    assert(text@.subrange(0, n as int) =~= text@);
    while n > 0
        invariant
            n <= text@.len(),
            trimmed(text@) == trimmed(text@.subrange(0, n as int)),
        ensures
            trimmed(text@.subrange(0, n as int)) == text@.subrange(0, n as int),
        decreases n,
    {
        let c = text.get_char(n - 1);
        let ghost head = text@.subrange(0, n as int);
        assert(head.last() == c);
        if !is_white_space(c) {
            assert(trimmed(head) == head);
            break;
        }
        assert(head.drop_last() =~= text@.subrange(0, n - 1));
        n = n - 1;
    }
    text.substring_char(0, n)
}

} // verus!
