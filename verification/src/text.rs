//! Small pieces of text handling that the rest of the crate builds on.

use vstd::prelude::*;
use vstd::string::*;

verus! {

/// `String::push` appends the given character to the end of the string and
/// leaves what was there untouched.
pub assume_specification[ String::push ](text: &mut String, ch: char)
    ensures
        final(text)@ == old(text)@.push(ch),
;

/// Whether the character is one of the digits `0` to `9`.
pub open spec fn decimal_digit(ch: char) -> bool {
    '0' <= ch <= '9'
}

/// Whether the character is a letter of the basic Latin alphabet, small or
/// capital.
pub open spec fn ascii_letter(ch: char) -> bool {
    ('a' <= ch <= 'z') || ('A' <= ch <= 'Z')
}

/// The character that writes the digit `d`.
pub open spec fn digit_char(d: int) -> char {
    if d == 0 {
        '0'
    } else if d == 1 {
        '1'
    } else if d == 2 {
        '2'
    } else if d == 3 {
        '3'
    } else if d == 4 {
        '4'
    } else if d == 5 {
        '5'
    } else if d == 6 {
        '6'
    } else if d == 7 {
        '7'
    } else if d == 8 {
        '8'
    } else {
        '9'
    }
}

/// The decimal numeral of `n`, without leading zeros.
pub open spec fn decimal(n: nat) -> Seq<char>
    decreases n,
{
    if n < 10 {
        seq![digit_char(n as int)]
    } else {
        decimal(n / 10).push(digit_char((n % 10) as int))
    }
}

fn digit(d: u64) -> (ch: char)
    requires
        d < 10,
    ensures
        ch == digit_char(d as int),
{
    if d == 0 {
        '0'
    } else if d == 1 {
        '1'
    } else if d == 2 {
        '2'
    } else if d == 3 {
        '3'
    } else if d == 4 {
        '4'
    } else if d == 5 {
        '5'
    } else if d == 6 {
        '6'
    } else if d == 7 {
        '7'
    } else if d == 8 {
        '8'
    } else {
        '9'
    }
}

/// Appends the decimal numeral of `n` to `text`.
pub fn push_decimal(text: &mut String, n: u64)
    ensures
        final(text)@ == old(text)@ + decimal(n as nat),
    decreases n,
{
    if n < 10 {
        text.push(digit(n));
        assert(text@ =~= old(text)@ + decimal(n as nat));
    } else {
        push_decimal(text, n / 10);
        text.push(digit(n % 10));
        assert(text@ =~= old(text)@ + decimal(n as nat));
    }
}

/// Copies the characters of `text` from position `from` up to, not
/// including, position `to`.
pub fn copy_range(text: &str, from: usize, to: usize) -> (part: String)
    requires
        from <= to <= text@.len(),
    ensures
        part@ == text@.subrange(from as int, to as int),
{
    let mut part = String::new();
    let mut at: usize = 0;
    for ch in it: text.chars()
        invariant
            it.seq() == text@,
            from <= to <= text@.len(),
            at == if it.index() <= to { it.index() as int } else { to as int },
            at <= from ==> part@.len() == 0,
            from <= at ==> part@ == text@.subrange(from as int, at as int),
    {
        if at < to {
            if from <= at {
                part.push(ch);
                assert(part@ =~= text@.subrange(from as int, at + 1));
            }
            at = at + 1;
        }
    }
    assert(part@ =~= text@.subrange(from as int, to as int));
    part
}

} // verus!
