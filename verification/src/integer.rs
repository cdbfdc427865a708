//! Integers of any size, for sums that outgrow the machine's: held as
//! little-endian two's-complement bytes.

use crate::numeric::{decimal_digits, decimal_text, signed_decimal_text};
use std::str::FromStr;
use substreams::scalar::BigInt;
use vstd::prelude::*;

verus! {

/// 256 to the power of `n`.
pub open spec fn pow256(n: nat) -> nat
    decreases n,
{
    if n == 0 {
        1
    } else {
        256 * pow256((n - 1) as nat)
    }
}

/// Value of `bytes` read as a little-endian unsigned integer.
pub open spec fn le_value(bytes: Seq<u8>) -> nat
    decreases bytes.len(),
{
    if bytes.len() == 0 {
        0
    } else {
        le_value(bytes.drop_last()) + bytes.last() as nat * pow256((bytes.len() - 1) as nat)
    }
}

/// Whether the sign bit of a little-endian two's-complement number is set.
pub open spec fn sign_set(bytes: Seq<u8>) -> bool {
    bytes.len() > 0 && bytes.last() >= 128
}

/// Value of `bytes` read as a little-endian two's-complement integer. No
/// bytes stand for zero.
pub open spec fn le_signed_value(bytes: Seq<u8>) -> int {
    if sign_set(bytes) {
        le_value(bytes) - pow256(bytes.len())
    } else {
        le_value(bytes) as int
    }
}

/// The byte that extends a two's-complement number without changing it.
pub open spec fn sign_byte(bytes: Seq<u8>) -> u8 {
    if sign_set(bytes) {
        255
    } else {
        0
    }
}

/// `bytes` cut or sign-extended to `len` bytes.
pub open spec fn extended(bytes: Seq<u8>, len: nat) -> Seq<u8> {
    Seq::new(
        len,
        |k: int|
            if k < bytes.len() {
                bytes[k]
            } else {
                sign_byte(bytes)
            },
    )
}

/// Value of a decimal digit, `None` for any other character.
pub open spec fn digit_value(c: char) -> Option<nat> {
    if '0' <= c && c <= '9' {
        Some((c as int - '0' as int) as nat)
    } else {
        None
    }
}

/// Value of a run of decimal digits among which underscores may stand, which
/// count for nothing; `None` where anything else stands among them.
pub open spec fn grouped_digits_value(text: Seq<char>) -> Option<nat>
    decreases text.len(),
{
    if text.len() == 0 {
        Some(0)
    } else {
        match grouped_digits_value(text.drop_last()) {
            Some(value) => if text.last() == '_' {
                Some(value)
            } else {
                match digit_value(text.last()) {
                    Some(digit) => Some(value * 10 + digit),
                    None => None,
                }
            },
            None => None,
        }
    }
}

/// Value of a natural number in decimal text: a digit first, then digits and
/// underscores.
pub open spec fn natural_text_value(text: Seq<char>) -> Option<nat> {
    if text.len() > 0 && text[0] != '_' {
        grouped_digits_value(text)
    } else {
        None
    }
}

/// Value of an integer in decimal text: at most one sign, `-` or `+`, then a
/// natural number. `None` for any other text.
pub open spec fn integer_text_value(text: Seq<char>) -> Option<int> {
    if text.len() > 0 && text[0] == '-' {
        match natural_text_value(text.drop_first()) {
            Some(magnitude) => Some(-(magnitude as int)),
            None => None,
        }
    } else if text.len() > 0 && text[0] == '+' {
        match natural_text_value(text.drop_first()) {
            Some(magnitude) => Some(magnitude as int),
            None => None,
        }
    } else {
        match natural_text_value(text) {
            Some(magnitude) => Some(magnitude as int),
            None => None,
        }
    }
}

/// Each of the ten digits stands for its place among them.
pub proof fn lemma_decimal_digit_value(n: nat)
    requires
        n < 10,
    ensures
        digit_value(decimal_digits()[n as int]) == Some(n),
        decimal_digits()[n as int] != '_',
{
    assert(decimal_digits()[0] == '0' && decimal_digits()[1] == '1' && decimal_digits()[2] == '2');
    assert(decimal_digits()[3] == '3' && decimal_digits()[4] == '4' && decimal_digits()[5] == '5');
    assert(decimal_digits()[6] == '6' && decimal_digits()[7] == '7' && decimal_digits()[8] == '8');
    assert(decimal_digits()[9] == '9');
}

/// The decimal text of a natural number is a run of digits that starts with
/// one and stands for that number.
pub proof fn lemma_decimal_text_digits(n: nat)
    ensures
        decimal_text(n).len() > 0,
        digit_value(decimal_text(n)[0]) is Some,
        grouped_digits_value(decimal_text(n)) == Some(n),
        forall|i: int|
            0 <= i < decimal_text(n).len() ==> digit_value(#[trigger] decimal_text(n)[i]) is Some,
    decreases n,
{
    if n < 10 {
        lemma_decimal_digit_value(n);
        let text = decimal_text(n);
        assert(text.drop_last() =~= Seq::<char>::empty());
        assert(grouped_digits_value(text.drop_last()) == Some(0nat));
    } else {
        lemma_decimal_text_digits(n / 10);
        lemma_decimal_digit_value(n % 10);
        let text = decimal_text(n);
        assert(text.drop_last() =~= decimal_text(n / 10));
        assert(text[0] == decimal_text(n / 10)[0]);
        assert forall|i: int| 0 <= i < text.len() implies digit_value(#[trigger] text[i]) is Some by {
            if i < text.len() - 1 {
                assert(text[i] == decimal_text(n / 10)[i]);
            }
        }
    }
}

/// What is rendered reads back: the decimal text of a natural number is an
/// integer in decimal text, and its value is that number. Two numbers with
/// one text are therefore one number.
pub proof fn lemma_decimal_text_parses(n: nat)
    ensures
        integer_text_value(decimal_text(n)) == Some(n as int),
{
    lemma_decimal_text_digits(n);
}

/// An integer of any size.
#[derive(Clone, Debug)]
pub struct Integer {
    bytes: Vec<u8>,
}

impl View for Integer {
    type V = int;

    closed spec fn view(&self) -> int {
        le_signed_value(self.bytes@)
    }
}

/// `BigInt::from_str` of `substreams::scalar`, which is that of `num_bigint`,
/// handed on as the two's-complement bytes of `to_signed_bytes_le`: succeeds
/// exactly on decimal text as `integer_text_value` describes it, and the
/// bytes then stand for the value of that text.
#[verifier::external_body]
fn parse_bytes(text: &str) -> (bytes: Option<Vec<u8>>)
    ensures
        match bytes {
            Some(b) => integer_text_value(text@) == Some(le_signed_value(b@)),
            None => integer_text_value(text@) is None,
        },
{
    match BigInt::from_str(text) {
        Ok(value) => Some(value.to_signed_bytes_le()),
        Err(_) => None,
    }
}

/// `BigInt::from_signed_bytes_le`, rendered with the `Display` of the big
/// integer: the decimal text of the two's-complement value of `bytes`, with a
/// minus sign before a negative one.
#[verifier::external_body]
fn bytes_text(bytes: &[u8]) -> (text: String)
    ensures
        text@ == signed_decimal_text(le_signed_value(bytes@)),
{
    BigInt::from_signed_bytes_le(bytes).to_string()
}

/// The next power is 256 times the last.
proof fn lemma_pow256_next(n: nat)
    ensures
        pow256(n + 1) == 256 * pow256(n),
        pow256(n) >= 1,
    decreases n,
{
    if n > 0 {
        lemma_pow256_next((n - 1) as nat);
    }
}

/// Powers grow with the exponent.
proof fn lemma_pow256_grows(m: nat, n: nat)
    requires
        m <= n,
    ensures
        pow256(m) <= pow256(n),
    decreases n - m,
{
    if m < n {
        lemma_pow256_grows(m, (n - 1) as nat);
        lemma_pow256_next((n - 1) as nat);
    }
}

/// One more byte at the far end adds that byte at its weight.
proof fn lemma_le_value_push(bytes: Seq<u8>, byte: u8)
    ensures
        le_value(bytes.push(byte)) == le_value(bytes) + byte as nat * pow256(bytes.len()),
{
    assert(bytes.push(byte).drop_last() =~= bytes);
}

/// `len` bytes stand for less than 256 to the power of `len`; the top byte
/// decides in which half of that range.
proof fn lemma_le_value_range(bytes: Seq<u8>)
    ensures
        le_value(bytes) < pow256(bytes.len()),
        bytes.len() > 0 ==> pow256(bytes.len()) == 256 * pow256((bytes.len() - 1) as nat),
        sign_set(bytes) ==> le_value(bytes) >= 128 * pow256((bytes.len() - 1) as nat),
        bytes.len() > 0 && !sign_set(bytes) ==> le_value(bytes) < 128 * pow256(
            (bytes.len() - 1) as nat,
        ),
    decreases bytes.len(),
{
    if bytes.len() > 0 {
        let rest = bytes.drop_last();
        let weight = pow256(rest.len());
        let top = bytes.last() as nat;
        lemma_le_value_range(rest);
        lemma_pow256_next(rest.len());
        assert(top * weight <= 255 * weight) by (nonlinear_arith)
            requires
                top <= 255,
        ;
        if top >= 128 {
            assert(top * weight >= 128 * weight) by (nonlinear_arith)
                requires
                    top >= 128,
            ;
        } else {
            assert(top * weight <= 127 * weight) by (nonlinear_arith)
                requires
                    top <= 127,
            ;
        }
    }
}

/// Sign extension keeps the value: the unsigned value of the extended bytes
/// is the signed value of the bytes they extend, lifted by 256 to the power of
/// the new length where the sign bit is set.
proof fn lemma_extended_value(bytes: Seq<u8>, len: nat)
    requires
        bytes.len() <= len,
    ensures
        le_value(extended(bytes, len)) == le_signed_value(bytes) + if sign_set(bytes) {
            pow256(len) as int
        } else {
            0
        },
    decreases len - bytes.len(),
{
    if len == bytes.len() {
        assert(extended(bytes, len) =~= bytes);
    } else {
        let shorter = (len - 1) as nat;
        lemma_extended_value(bytes, shorter);
        assert(extended(bytes, len) =~= extended(bytes, shorter).push(sign_byte(bytes)));
        lemma_le_value_push(extended(bytes, shorter), sign_byte(bytes));
        lemma_pow256_next(shorter);
    }
}

/// The value of a two's-complement number lies within half the range of its
/// length, on either side of zero.
proof fn lemma_le_signed_value_range(bytes: Seq<u8>, len: nat)
    requires
        bytes.len() < len,
    ensures
        -(pow256((len - 1) as nat) as int) <= 2 * le_signed_value(bytes) < pow256(
            (len - 1) as nat,
        ),
{
    lemma_le_value_range(bytes);
    lemma_pow256_grows(bytes.len(), (len - 1) as nat);
}

/// Whether the top byte of a two's-complement number only repeats the sign
/// that the byte below it already carries.
pub open spec fn repeats_sign(bytes: Seq<u8>) -> bool {
    bytes.len() >= 2 && ((bytes.last() == 0 && bytes[bytes.len() - 2] < 128) || (bytes.last()
        == 255 && bytes[bytes.len() - 2] >= 128))
}

/// `bytes` without the top bytes that only repeat the sign: the shortest
/// leading part of `bytes` whose top byte does not.
pub open spec fn shortened(bytes: Seq<u8>) -> Seq<u8>
    decreases bytes.len(),
{
    if repeats_sign(bytes) {
        shortened(bytes.drop_last())
    } else {
        bytes
    }
}

/// Dropping a top byte that only repeats the sign keeps the value.
proof fn lemma_redundant_top(bytes: Seq<u8>)
    requires
        repeats_sign(bytes),
    ensures
        le_signed_value(bytes.drop_last()) == le_signed_value(bytes),
{
    let rest = bytes.drop_last();
    lemma_pow256_next(rest.len());
    assert(rest.last() == bytes[bytes.len() - 2]);
}

impl Integer {
    /// Zero.
    pub fn zero() -> (value: Integer)
        ensures
            value@ == 0,
    {
        Integer { bytes: Vec::new() }
    }

    /// Byte `at` of the number as if it were sign-extended without end.
    fn byte(&self, at: usize, fill: u8) -> (byte: u8)
        requires
            fill == sign_byte(self.bytes@),
        ensures
            byte == if at < self.bytes@.len() {
                self.bytes@[at as int]
            } else {
                sign_byte(self.bytes@)
            },
    {
        if at < self.bytes.len() {
            self.bytes[at]
        } else {
            fill
        }
    }

    /// The byte that extends the number.
    fn fill(&self) -> (fill: u8)
        ensures
            fill == sign_byte(self.bytes@),
    {
        let len: usize = self.bytes.len();
        if len > 0 && self.bytes[len - 1] >= 128 {
            255
        } else {
            0
        }
    }

    /// The sum of two integers.
    pub fn plus(&self, other: &Integer) -> (sum: Integer)
        ensures
            sum@ == self@ + other@,
    {
        let ghost a = self.bytes@;
        let ghost b = other.bytes@;
        let fill_a: u8 = self.fill();
        let fill_b: u8 = other.fill();
        let longest: usize = if self.bytes.len() > other.bytes.len() {
            self.bytes.len()
        } else {
            other.bytes.len()
        };
        let mut bytes: Vec<u8> = Vec::new();
        let mut carry: u16 = 0;
        let mut i: usize = 0;
        assert(extended(a, 0) =~= Seq::<u8>::empty());
        assert(extended(b, 0) =~= Seq::<u8>::empty());
        while i < longest
            invariant
                i <= longest,
                a == self.bytes@,
                b == other.bytes@,
                fill_a == sign_byte(a),
                fill_b == sign_byte(b),
                bytes@.len() == i,
                carry <= 1,
                le_value(bytes@) + carry * pow256(i as nat) == le_value(extended(a, i as nat))
                    + le_value(extended(b, i as nat)),
            decreases longest - i,
        {
            let x: u8 = self.byte(i, fill_a);
            let y: u8 = other.byte(i, fill_b);
            let total: u16 = x as u16 + y as u16 + carry;
            let digit: u8 = (total % 256) as u8;
            proof {
                lemma_add_step(a, b, bytes@, i as nat, x, y, carry as nat);
            }
            bytes.push(digit);
            carry = total / 256;
            i = i + 1;
        }
        let total: u16 = fill_a as u16 + fill_b as u16 + carry;
        let digit: u8 = (total % 256) as u8;
        proof {
            lemma_add_step(a, b, bytes@, i as nat, fill_a, fill_b, carry as nat);
            let len = (i + 1) as nat;
            let top = pow256(len);
            let after = bytes@.push(digit);
            lemma_extended_value(a, len);
            lemma_extended_value(b, len);
            lemma_le_signed_value_range(a, len);
            lemma_le_signed_value_range(b, len);
            lemma_le_value_range(after);
            lemma_pow256_next(i as nat);
            assert((total / 256) as nat * top == if total / 256 == 1 {
                top
            } else {
                0
            }) by (nonlinear_arith)
                requires
                    total / 256 <= 1,
            ;
            assert(le_signed_value(after) == le_signed_value(a) + le_signed_value(b));
        }
        bytes.push(digit);
        let mut sum = Integer { bytes };
        sum.trim();
        sum
    }

    /// Drops the top bytes that only repeat the sign: what is left is the
    /// shortest leading part of the bytes that stands for the same value.
    fn trim(&mut self)
        ensures
            final(self).bytes@ == shortened(old(self).bytes@),
            !repeats_sign(final(self).bytes@),
            final(self)@ == old(self)@,
    {
        loop
            invariant
                self@ == old(self)@,
                shortened(self.bytes@) == shortened(old(self).bytes@),
            ensures
                self@ == old(self)@,
                self.bytes@ == shortened(old(self).bytes@),
                !repeats_sign(self.bytes@),
            decreases self.bytes@.len(),
        {
            let len: usize = self.bytes.len();
            if len < 2 {
                break ;
            }
            let top: u8 = self.bytes[len - 1];
            let next: u8 = self.bytes[len - 2];
            if (top == 0 && next < 128) || (top == 255 && next >= 128) {
                proof {
                    lemma_redundant_top(self.bytes@);
                }
                self.bytes.pop();
            } else {
                break ;
            }
        }
    }

    /// Reads an integer from decimal text: at most one sign, then digits,
    /// among which underscores may stand. Any other text yields nothing.
    pub fn parse(text: &str) -> (value: Option<Integer>)
        ensures
            match value {
                Some(v) => integer_text_value(text@) == Some(v@),
                None => integer_text_value(text@) is None,
            },
    {
        match parse_bytes(text) {
            Some(bytes) => Some(Integer { bytes }),
            None => None,
        }
    }

    /// The decimal text of the integer.
    pub fn to_text(&self) -> (text: String)
        ensures
            text@ == signed_decimal_text(self@),
    {
        bytes_text(self.bytes.as_slice())
    }
}

/// One step of a byte-wise addition with carry: the invariant of the sum so
/// far holds for one more byte.
proof fn lemma_add_step(a: Seq<u8>, b: Seq<u8>, sum: Seq<u8>, i: nat, x: u8, y: u8, carry: nat)
    requires
        sum.len() == i,
        carry <= 1,
        x == extended(a, i + 1)[i as int],
        y == extended(b, i + 1)[i as int],
        le_value(sum) + carry * pow256(i) == le_value(extended(a, i)) + le_value(extended(b, i)),
    ensures
        le_value(sum.push(((x + y + carry) % 256) as u8)) + ((x + y + carry) / 256) * pow256(i + 1)
            == le_value(extended(a, i + 1)) + le_value(extended(b, i + 1)),
{
    let weight = pow256(i);
    let total = x as nat + y as nat + carry;
    let digit = (total % 256) as u8;
    lemma_pow256_next(i);
    lemma_le_value_push(sum, digit);
    assert(extended(a, i + 1) =~= extended(a, i).push(x));
    assert(extended(b, i + 1) =~= extended(b, i).push(y));
    lemma_le_value_push(extended(a, i), x);
    lemma_le_value_push(extended(b, i), y);
    assert(digit as nat * weight + (total / 256) * (256 * weight) == x as nat * weight + y as nat
        * weight + carry * weight) by (nonlinear_arith)
        requires
            digit as nat == total % 256,
            total == x as nat + y as nat + carry,
    ;
}

} // verus!
