//! Lower-case hexadecimal and decimal text, as the block's canonical
//! encoding writes bytes and numbers.

use vstd::prelude::*;

verus! {

/// The character that stands for a digit below 16.
pub open spec fn digit_char(d: int) -> char {
    seq!['0', '1', '2', '3', '4', '5', '6', '7', '8', '9', 'a', 'b', 'c', 'd', 'e', 'f'][d]
}

/// Two lower-case hexadecimal digits for each byte, the high one first.
pub open spec fn hex_text(bytes: Seq<u8>) -> Seq<char> {
    Seq::new(
        2 * bytes.len(),
        |i: int|
            if i % 2 == 0 {
                digit_char(bytes[i / 2] as int / 16)
            } else {
                digit_char(bytes[i / 2] as int % 16)
            },
    )
}

/// The decimal digits of `n`, without leading zeros; `"0"` for zero.
pub open spec fn decimal_text(n: nat) -> Seq<char>
    decreases n,
{
    if n < 10 {
        seq![digit_char(n as int)]
    } else {
        decimal_text(n / 10).push(digit_char((n % 10) as int))
    }
}

/// `String::push`: appends one character to the end of the string.
#[verifier::external_body]
pub(crate) fn push_char(s: &mut String, c: char)
    ensures
        final(s)@ == old(s)@.push(c),
{
    s.push(c)
}

/// The character of one digit below 16.
pub fn digit(d: u8) -> (c: char)
    requires
        d < 16,
    ensures
        c == digit_char(d as int),
{
    if d < 10 {
        (48u8 + d) as char
    } else {
        (87u8 + d) as char
    }
}

/// Appends the hexadecimal text of `bytes` to `s`.
pub fn push_hex(s: &mut String, bytes: &[u8])
    ensures
        final(s)@ == old(s)@ + hex_text(bytes@),
{
    let mut i: usize = 0;
    while i < bytes.len()
        invariant
            i <= bytes.len(),
            s@ == old(s)@ + hex_text(bytes@.take(i as int)),
        decreases bytes.len() - i,
    {
        let b: u8 = bytes[i];
        push_char(s, digit(b / 16));
        push_char(s, digit(b % 16));
        i += 1;
        assert(hex_text(bytes@.take(i as int)) =~= hex_text(bytes@.take(i - 1)).push(
            digit_char(b as int / 16),
        ).push(digit_char(b as int % 16)));
    }
    assert(bytes@.take(i as int) =~= bytes@);
}

/// The digits in `digits`, last one first.
spec fn reversed(digits: Seq<char>) -> Seq<char> {
    Seq::new(digits.len(), |i: int| digits[digits.len() - 1 - i])
}

/// Appends the decimal text of `n` to `s`.
pub fn push_decimal(s: &mut String, n: u64)
    ensures
        final(s)@ == old(s)@ + decimal_text(n as nat),
{
    let mut low_first: Vec<char> = Vec::new();
    low_first.push(digit((n % 10) as u8));
    let mut rest: u64 = n / 10;
    assert(decimal_text(n as nat) =~= (if rest > 0 {
        decimal_text(rest as nat)
    } else {
        Seq::<char>::empty()
    }) + reversed(low_first@));
    while rest > 0
        invariant
            low_first@.len() >= 1,
            decimal_text(n as nat) == (if rest > 0 {
                decimal_text(rest as nat)
            } else {
                Seq::<char>::empty()
            }) + reversed(low_first@),
        decreases rest,
    {
        let ghost before = low_first@;
        let d: u8 = (rest % 10) as u8;
        low_first.push(digit(d));
        assert(reversed(low_first@) =~= seq![digit_char(d as int)] + reversed(before));
        assert(decimal_text(rest as nat) =~= (if rest / 10 > 0 {
            decimal_text((rest / 10) as nat)
        } else {
            Seq::<char>::empty()
        }) + seq![digit_char(d as int)]);
        rest = rest / 10;
    }
    let mut left: usize = low_first.len();
    while left > 0
        invariant
            left <= low_first@.len(),
            s@ == old(s)@ + reversed(low_first@).take(low_first@.len() - left),
        decreases left,
    {
        left -= 1;
        push_char(s, low_first[left]);
        assert(reversed(low_first@).take(low_first@.len() - left) =~= reversed(low_first@).take(
            low_first@.len() - left - 1,
        ).push(low_first@[left as int]));
    }
    assert(reversed(low_first@).take(low_first@.len() as int) =~= reversed(low_first@));
}

} // verus!
