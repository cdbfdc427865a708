//! Integers as the pipeline meets them: big-endian words read off a log, and
//! the decimal text they are carried in between stages.

use vstd::prelude::*;

verus! {

/// Value of `bytes` read as a big-endian unsigned integer.
pub open spec fn be_value(bytes: Seq<u8>) -> nat
    decreases bytes.len(),
{
    if bytes.len() == 0 {
        0
    } else {
        be_value(bytes.drop_last()) * 256 + bytes.last() as nat
    }
}

/// Value of `bytes` read as a big-endian two's-complement integer: the first
/// byte carries the sign.
pub open spec fn be_signed_value(bytes: Seq<u8>) -> int
    decreases bytes.len(),
{
    if bytes.len() == 0 {
        0
    } else if bytes.len() == 1 {
        if bytes[0] < 128 {
            bytes[0] as int
        } else {
            bytes[0] as int - 256
        }
    } else {
        be_signed_value(bytes.drop_last()) * 256 + bytes.last() as int
    }
}

/// A longer prefix of a big-endian number is worth at least as much as a
/// shorter one.
pub proof fn lemma_be_value_prefix(bytes: Seq<u8>, count: int)
    requires
        0 <= count <= bytes.len(),
    ensures
        be_value(bytes.take(count)) <= be_value(bytes),
    decreases bytes.len() - count,
{
    if count == bytes.len() {
        assert(bytes.take(count) =~= bytes);
    } else {
        lemma_be_value_prefix(bytes.drop_last(), count);
        assert(bytes.drop_last().take(count) =~= bytes.take(count));
    }
}

/// Whether `v` fits a signed 32-bit integer.
pub open spec fn fits_i32(v: int) -> bool {
    i32::MIN <= v <= i32::MAX
}

/// Once a prefix of a two's-complement number has left the 32-bit range, the
/// whole number lies outside it too.
pub proof fn lemma_be_signed_value_prefix(bytes: Seq<u8>, count: int)
    requires
        1 <= count <= bytes.len(),
        !fits_i32(be_signed_value(bytes.take(count))),
    ensures
        !fits_i32(be_signed_value(bytes)),
    decreases bytes.len() - count,
{
    if count == bytes.len() {
        assert(bytes.take(count) =~= bytes);
    } else {
        assert(bytes.drop_last().take(count) =~= bytes.take(count));
        lemma_be_signed_value_prefix(bytes.drop_last(), count);
    }
}

/// The big-endian unsigned value of `word`, where it fits 64 bits.
pub fn word_to_u64(word: &[u8]) -> (value: Option<u64>)
    ensures
        value == if be_value(word@) <= u64::MAX {
            Some(be_value(word@) as u64)
        } else {
            None
        },
{
    let mut acc: u64 = 0;
    let mut i: usize = 0;
    while i < word.len()
        invariant
            i <= word.len(),
            acc == be_value(word@.take(i as int)),
        decreases word.len() - i,
    {
        let byte: u8 = word[i];
        proof {
            assert(word@.take(i + 1).drop_last() =~= word@.take(i as int));
            lemma_be_value_prefix(word@, i + 1);
        }
        if acc > (u64::MAX - byte as u64) / 256 {
            return None;
        }
        acc = acc * 256 + byte as u64;
        i = i + 1;
    }
    proof {
        assert(word@.take(i as int) =~= word@);
    }
    Some(acc)
}

/// The big-endian two's-complement value of `word`, where it fits 32 bits,
/// and 0 where it does not.
pub fn word_to_i32_or_zero(word: &[u8]) -> (value: i32)
    ensures
        value == if fits_i32(be_signed_value(word@)) {
            be_signed_value(word@)
        } else {
            0
        },
{
    if word.len() == 0 {
        return 0;
    }
    let first: u8 = word[0];
    let mut acc: i64 = if first < 128 {
        first as i64
    } else {
        first as i64 - 256
    };
    let mut i: usize = 1;
    proof {
        assert(word@.take(1).len() == 1);
    }
    while i < word.len()
        invariant
            1 <= i <= word.len(),
            acc == be_signed_value(word@.take(i as int)),
            fits_i32(acc as int),
        decreases word.len() - i,
    {
        let byte: u8 = word[i];
        proof {
            assert(word@.take(i + 1).drop_last() =~= word@.take(i as int));
        }
        let next: i64 = acc * 256 + byte as i64;
        if next < i32::MIN as i64 || next > i32::MAX as i64 {
            proof {
                lemma_be_signed_value_prefix(word@, i + 1);
            }
            return 0;
        }
        acc = next;
        i = i + 1;
    }
    proof {
        assert(word@.take(i as int) =~= word@);
    }
    acc as i32
}

/// The ten decimal digits, by value.
pub open spec fn decimal_digits() -> Seq<char> {
    seq!['0', '1', '2', '3', '4', '5', '6', '7', '8', '9']
}

/// Decimal text of a natural number: no sign, no leading zero, `"0"` for zero.
pub open spec fn decimal_text(n: nat) -> Seq<char>
    decreases n,
{
    if n < 10 {
        seq![decimal_digits()[n as int]]
    } else {
        decimal_text(n / 10).push(decimal_digits()[(n % 10) as int])
    }
}

/// Decimal text of an integer: a minus sign before the magnitude of a negative
/// one, nothing before any other.
pub open spec fn signed_decimal_text(v: int) -> Seq<char> {
    if v < 0 {
        seq!['-'] + decimal_text((-v) as nat)
    } else {
        decimal_text(v as nat)
    }
}

/// The text of one decimal digit.
fn digit_text(digit: u64) -> (text: &'static str)
    requires
        digit < 10,
    ensures
        text@ == seq![decimal_digits()[digit as int]],
{
    proof {
        reveal_strlit("0");
        reveal_strlit("1");
        reveal_strlit("2");
        reveal_strlit("3");
        reveal_strlit("4");
        reveal_strlit("5");
        reveal_strlit("6");
        reveal_strlit("7");
        reveal_strlit("8");
        reveal_strlit("9");
    }
    let text = match digit {
        0 => "0",
        1 => "1",
        2 => "2",
        3 => "3",
        4 => "4",
        5 => "5",
        6 => "6",
        7 => "7",
        8 => "8",
        _ => "9",
    };
    assert(text@ =~= seq![decimal_digits()[digit as int]]);
    text
}

/// Appends the decimal text of `value` to `text`.
fn append_decimal(text: &mut String, value: u64)
    ensures
        final(text)@ == old(text)@ + decimal_text(value as nat),
    decreases value,
{
    if value >= 10 {
        append_decimal(text, value / 10);
    }
    text.append(digit_text(value % 10));
    proof {
        let digit = seq![decimal_digits()[(value % 10) as int]];
        if value >= 10 {
            assert(old(text)@ + decimal_text((value / 10) as nat) + digit =~= old(text)@
                + decimal_text(value as nat));
        }
    }
}

/// The decimal text of `value`.
pub fn u64_text(value: u64) -> (text: String)
    ensures
        text@ == decimal_text(value as nat),
{
    let mut text = String::new();
    append_decimal(&mut text, value);
    assert(Seq::<char>::empty() + decimal_text(value as nat) =~= decimal_text(value as nat));
    text
}

/// The decimal text of `value`, with a minus sign before a negative one.
pub fn i32_text(value: i32) -> (text: String)
    ensures
        text@ == signed_decimal_text(value as int),
{
    if value < 0 {
        proof {
            reveal_strlit("-");
        }
        let mut text = String::from_str("-");
        let magnitude: u64 = (-(value as i64)) as u64;
        append_decimal(&mut text, magnitude);
        assert("-"@ =~= seq!['-']);
        text
    } else {
        u64_text(value as u64)
    }
}

} // verus!
