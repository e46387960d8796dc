//! Numbers written in a fixed count of decimal digits, most significant
//! first and padded with zeros, as a file name carries them.

use vstd::prelude::*;

verus! {

/// The ASCII code of the digit zero.
pub const ZERO: u8 = 48;

pub open spec fn is_digit(byte: u8) -> bool {
    ZERO <= byte <= ZERO + 9
}

/// Ten to the power `width`.
pub open spec fn bound(width: nat) -> int
    decreases width,
{
    if width == 0 {
        1
    } else {
        10 * bound((width - 1) as nat)
    }
}

/// The last `width` decimal digits of `value`, in ASCII.
pub open spec fn digits(value: int, width: nat) -> Seq<u8>
    decreases width,
{
    if width == 0 {
        Seq::empty()
    } else {
        digits(value / 10, (width - 1) as nat).push((ZERO + value % 10) as u8)
    }
}

/// The number that `text` writes, `None` if a byte of it is no digit.
pub open spec fn number(text: Seq<u8>) -> Option<int>
    decreases text.len(),
{
    if text.len() == 0 {
        Some(0)
    } else {
        match number(text.drop_last()) {
            Some(high) if is_digit(text.last()) => Some(high * 10 + (text.last() - ZERO)),
            _ => None,
        }
    }
}

/// The digit group of `width` bytes at `offset` in `text`: its number, `None`
/// if `text` ends before the group does or a byte of it is no digit.
pub open spec fn group(text: Seq<u8>, offset: int, width: nat) -> Option<int> {
    if 0 <= offset && offset + width <= text.len() {
        number(text.subrange(offset, offset + width))
    } else {
        None
    }
}

pub proof fn lemma_digits_len(value: int, width: nat)
    ensures
        digits(value, width).len() == width,
    decreases width,
{
    if width > 0 {
        lemma_digits_len(value / 10, (width - 1) as nat);
    }
}

/// A number below ten to the `width` is read back from its `width` digits.
pub proof fn lemma_number_of_digits(value: int, width: nat)
    requires
        0 <= value < bound(width),
    ensures
        number(digits(value, width)) == Some(value),
    decreases width,
{
    if width > 0 {
        let rest = digits(value / 10, (width - 1) as nat);
        let last = (ZERO + value % 10) as u8;
        lemma_number_of_digits(value / 10, (width - 1) as nat);
        assert(digits(value, width).drop_last() =~= rest);
        assert(digits(value, width).last() == last);
    }
}

/// The digits of a number that a text writes are the text.
pub proof fn lemma_digits_of_number(text: Seq<u8>)
    ensures
        number(text) matches Some(value) ==> 0 <= value && digits(value, text.len()) == text,
    decreases text.len(),
{
    if text.len() > 0 && number(text) is Some {
        lemma_digits_of_number(text.drop_last());
        let high = number(text.drop_last())->0;
        let last = text.last() - ZERO;
        assert((high * 10 + last) / 10 == high && (high * 10 + last) % 10 == last);
        assert(digits(high, (text.len() - 1) as nat).push(text.last()) =~= text);
    }
}

/// Reads the digit group of `width` bytes at `offset` in `text`.
pub fn parse_digit_group(text: &[u8], offset: usize, width: usize) -> (value: Option<u32>)
    requires
        width <= 9,
    ensures
        match value {
            Some(n) => group(text@, offset as int, width as nat) == Some(n as int),
            None => group(text@, offset as int, width as nat) is None,
        },
{
    if offset > text.len() || width > text.len() - offset {
        return None;
    }
    let mut value: u32 = 0;
    let mut done: usize = 0;
    let ghost whole = text@.subrange(offset as int, offset + width);
    while done < width
        invariant
            done <= width <= 9,
            offset + width <= text.len(),
            whole == text@.subrange(offset as int, offset + width),
            number(whole.take(done as int)) == Some(value as int),
            value < bound(done as nat),
        decreases width - done,
    {
        let byte = text[offset + done];
        proof {
            let next = whole.take(done + 1);
            assert(next.drop_last() =~= whole.take(done as int));
            assert(next.last() == byte);
            lemma_bound_grows(done as nat, 8);
            assert(bound(8) == 100_000_000) by {
                reveal_with_fuel(bound, 9);
            }
        }
        if byte < ZERO || byte > ZERO + 9 {
            proof {
                lemma_number_prefix(whole, done + 1);
            }
            return None;
        }
        value = value * 10 + (byte - ZERO) as u32;
        done = done + 1;
    }
    proof {
        assert(whole.take(width as int) =~= whole);
    }
    Some(value)
}

/// Ten to a smaller power is no larger.
pub proof fn lemma_bound_grows(low: nat, high: nat)
    requires
        low <= high,
    ensures
        1 <= bound(low) <= bound(high),
    decreases high,
{
    if low < high {
        lemma_bound_grows(low, (high - 1) as nat);
    } else if low > 0 {
        lemma_bound_grows((low - 1) as nat, (high - 1) as nat);
    }
}

/// A text with an unreadable prefix is unreadable.
pub proof fn lemma_number_prefix(text: Seq<u8>, upto: int)
    requires
        0 <= upto <= text.len(),
        number(text.take(upto)) is None,
    ensures
        number(text) is None,
    decreases text.len(),
{
    if upto < text.len() {
        assert(text.drop_last().take(upto) =~= text.take(upto));
        lemma_number_prefix(text.drop_last(), upto);
    } else {
        assert(text.take(upto) =~= text);
    }
}

} // verus!
