//! Numbers, flags and byte strings written out as text, the way `{:?}` writes them.

use vstd::prelude::*;

verus! {

/// The text of a digit.
pub open spec fn digit_text(digit: nat) -> Seq<char> {
    if digit == 0 {
        "0"@
    } else if digit == 1 {
        "1"@
    } else if digit == 2 {
        "2"@
    } else if digit == 3 {
        "3"@
    } else if digit == 4 {
        "4"@
    } else if digit == 5 {
        "5"@
    } else if digit == 6 {
        "6"@
    } else if digit == 7 {
        "7"@
    } else if digit == 8 {
        "8"@
    } else {
        "9"@
    }
}

/// A number written out in decimal, with no leading zeros.
pub open spec fn decimal(n: nat) -> Seq<char>
    decreases n,
{
    if n < 10 {
        digit_text(n)
    } else {
        decimal(n / 10) + digit_text(n % 10)
    }
}

/// The text of a digit.
fn digit(value: u8) -> (text: &'static str)
    requires
        value < 10,
    ensures
        text@ == digit_text(value as nat),
{
    match value {
        0 => "0",
        1 => "1",
        2 => "2",
        3 => "3",
        4 => "4",
        5 => "5",
        6 => "6",
        7 => "7",
        8 => "8",
        _ => "9",
    }
}

/// A number written out in decimal.
pub fn decimal_text(n: u8) -> (text: String)
    ensures
        text@ == decimal(n as nat),
{
    let mut text = String::new();
    if n >= 100 {
        text.append(digit(n / 100));
    }
    if n >= 10 {
        text.append(digit(n / 10 % 10));
    }
    text.append(digit(n % 10));
    proof {
        reveal_with_fuel(decimal, 3);
        assert((n / 10) as nat / 10 == n as nat / 100);
    }
    text
}

/// A signed number written out in decimal, with a leading `-` when negative.
pub open spec fn signed_decimal(n: int) -> Seq<char> {
    if n < 0 {
        "-"@ + decimal((-n) as nat)
    } else {
        decimal(n as nat)
    }
}

/// A flag written out as `true` or `false`.
pub open spec fn flag(on: bool) -> Seq<char> {
    if on {
        "true"@
    } else {
        "false"@
    }
}

/// The items of a byte string, in decimal and separated by `, `.
pub open spec fn items(bytes: Seq<u8>) -> Seq<char>
    decreases bytes.len(),
{
    if bytes.len() == 0 {
        Seq::empty()
    } else if bytes.len() == 1 {
        decimal(bytes[0] as nat)
    } else {
        items(bytes.drop_last()) + ", "@ + decimal(bytes.last() as nat)
    }
}

/// A byte string written out as a list: `[1, 2, 3]`, or `[]` when empty.
pub open spec fn byte_list(bytes: Seq<u8>) -> Seq<char> {
    "["@ + items(bytes) + "]"@
}

/// Writes a number in decimal at the end of `text`.
pub fn push_decimal(text: &mut String, n: u8)
    ensures
        final(text)@ == old(text)@ + decimal(n as nat),
{
    let digits = decimal_text(n);
    text.append(digits.as_str());
}

/// Writes a signed number in decimal at the end of `text`.
pub fn push_signed(text: &mut String, n: i8)
    ensures
        final(text)@ == old(text)@ + signed_decimal(n as int),
{
    if n < 0 {
        text.append("-");
        let magnitude: u8 = if n == -128 { 128 } else { (-n) as u8 };
        push_decimal(text, magnitude);
        assert(final(text)@ =~= old(text)@ + signed_decimal(n as int));
    } else {
        push_decimal(text, n as u8);
    }
}

/// Writes a flag as `true` or `false` at the end of `text`.
pub fn push_flag(text: &mut String, on: bool)
    ensures
        final(text)@ == old(text)@ + flag(on),
{
    if on {
        text.append("true");
    } else {
        text.append("false");
    }
}

/// Writes a byte string as a list at the end of `text`.
pub fn push_byte_list(text: &mut String, bytes: &[u8])
    ensures
        final(text)@ == old(text)@ + byte_list(bytes@),
{
    let ghost start = text@;
    text.append("[");
    let mut i: usize = 0;
    while i < bytes.len()
        invariant
            i <= bytes.len(),
            text@ == start + "["@ + items(bytes@.take(i as int)),
        decreases bytes.len() - i,
    {
        let ghost before = text@;
        if i > 0 {
            text.append(", ");
        }
        push_decimal(text, bytes[i]);
        proof {
            let taken = bytes@.take(i + 1);
            assert(taken.drop_last() =~= bytes@.take(i as int));
            assert(taken.last() == bytes@[i as int]);
            if i == 0 {
                assert(items(taken) == decimal(bytes@[0] as nat));
                assert(items(bytes@.take(0)) =~= Seq::<char>::empty());
            }
            assert(text@ =~= start + "["@ + items(taken));
        }
        i += 1;
    }
    text.append("]");
    assert(bytes@.take(bytes.len() as int) =~= bytes@);
    assert(text@ =~= old(text)@ + byte_list(bytes@));
}

} // verus!
