//! Readers for the contract ABI's head-and-tail layout of 32-byte words.
//!
//! The spec functions say what each reader yields at a byte offset of a
//! payload; the executable readers are those of `substreams_ethereum::abi`.

use crate::numeric::{be_value, decimal_text};
use vstd::prelude::*;

verus! {

/// The 32-byte word at `offset`, where the payload holds one.
pub open spec fn word_at(data: Seq<u8>, offset: int) -> Option<Seq<u8>> {
    if 0 <= offset && offset + 32 <= data.len() {
        Some(data.subrange(offset, offset + 32))
    } else {
        None
    }
}

/// An `address`: the low 20 bytes of the word at `offset`. The 12 bytes above
/// them are not looked at.
pub open spec fn address_at(data: Seq<u8>, offset: int) -> Option<Seq<u8>> {
    match word_at(data, offset) {
        Some(word) => Some(word.subrange(12, 32)),
        None => None,
    }
}

/// Whether every byte of `bytes` is zero.
pub open spec fn all_zero(bytes: Seq<u8>) -> bool {
    forall|i: int| 0 <= i < bytes.len() ==> bytes[i] == 0
}

/// A head word read as an offset or a length: the word's value, where nothing
/// above its low four bytes is set.
pub open spec fn offset_at(data: Seq<u8>, offset: int) -> Option<int> {
    match word_at(data, offset) {
        Some(word) => if all_zero(word.subrange(0, 28)) {
            Some(be_value(word.subrange(28, 32)) as int)
        } else {
            None
        },
        None => None,
    }
}

/// Where in the payload the dynamic value pointed to from `offset` lies: the
/// start of its content, just behind its length word, and that length.
pub open spec fn tail_at(data: Seq<u8>, offset: int) -> Option<(int, int)> {
    match offset_at(data, offset) {
        Some(at) => match offset_at(data, at) {
            Some(len) => Some((at + 32, len)),
            None => None,
        },
        None => None,
    }
}

/// A `bytes` or `string` value: the head word at `offset` points at a length
/// word, and that many bytes follow it. A length that reaches past the payload
/// yields nothing.
pub open spec fn bytes_at(data: Seq<u8>, offset: int) -> Option<Seq<u8>> {
    match tail_at(data, offset) {
        Some((from, len)) => if from + len <= data.len() {
            Some(data.subrange(from, from + len))
        } else {
            None
        },
        None => None,
    }
}

/// A `T[]` value: the rest of the payload from its first element on, and the
/// element count its length word declares. Element `i` sits at offset `32 * i`
/// of that rest.
pub open spec fn array_tail_at(data: Seq<u8>, offset: int) -> Option<(Seq<u8>, int)> {
    match tail_at(data, offset) {
        Some((from, count)) => Some((data.subrange(from, data.len() as int), count)),
        None => None,
    }
}

/// An `address[]` value: every declared element must lie inside the payload.
pub open spec fn address_array_at(data: Seq<u8>, offset: int) -> Option<Seq<Seq<u8>>> {
    match array_tail_at(data, offset) {
        Some((tail, count)) => if 32 * count <= tail.len() {
            Some(Seq::new(count as nat, |i: int| tail.subrange(32 * i + 12, 32 * i + 32)))
        } else {
            None
        },
        None => None,
    }
}

/// What `String::from_utf8_lossy` makes of `bytes`: the text they encode, with
/// the replacement character standing in for whatever is not valid UTF-8.
pub uninterp spec fn utf8_lossy_text(bytes: Seq<u8>) -> Seq<char>;

/// `substreams_ethereum::abi::read_address`: the low 20 bytes of the word at
/// `offset`, or an error where fewer than 32 bytes lie there.
#[verifier::external_body]
pub(crate) fn read_address(data: &[u8], offset: usize) -> (address: Option<Vec<u8>>)
    ensures
        match address {
            Some(a) => address_at(data@, offset as int) == Some(a@),
            None => address_at(data@, offset as int) is None,
        },
{
    substreams_ethereum::abi::read_address(data, offset, "").ok()
}

/// `substreams_ethereum::abi::read_fixed_bytes::<32>`: the 32 bytes at
/// `offset`, or an error where fewer lie there.
#[verifier::external_body]
pub(crate) fn read_word(data: &[u8], offset: usize) -> (word: Option<Vec<u8>>)
    ensures
        match word {
            Some(w) => word_at(data@, offset as int) == Some(w@),
            None => word_at(data@, offset as int) is None,
        },
{
    match substreams_ethereum::abi::read_fixed_bytes::<32>(data, offset, "") {
        Ok(word) => Some(word.to_vec()),
        Err(_) => None,
    }
}

/// `substreams_ethereum::abi::read_uint`, rendered with the `Display` of the
/// big integer it returns: the decimal text of the word at `offset` read as a
/// big-endian unsigned integer, or an error where fewer than 32 bytes lie
/// there.
#[verifier::external_body]
pub(crate) fn read_uint(data: &[u8], offset: usize) -> (text: Option<String>)
    ensures
        match text {
            Some(t) => word_at(data@, offset as int) matches Some(w) && t@ == decimal_text(
                be_value(w),
            ),
            None => word_at(data@, offset as int) is None,
        },
{
    match substreams_ethereum::abi::read_uint(data, offset, "") {
        Ok(value) => Some(value.to_string()),
        Err(_) => None,
    }
}

/// `substreams_ethereum::abi::read_string`: the bytes that `bytes_at`
/// describes, decoded lossily; an error exactly where `bytes_at` yields
/// nothing.
#[verifier::external_body]
pub(crate) fn read_string(data: &[u8], offset: usize) -> (text: Option<String>)
    ensures
        match text {
            Some(t) => bytes_at(data@, offset as int) matches Some(b) && t@ == utf8_lossy_text(b),
            None => bytes_at(data@, offset as int) is None,
        },
{
    substreams_ethereum::abi::read_string(data, offset, "").ok()
}

/// `substreams_ethereum::abi::read_array_tail`: the slice the elements of the
/// array pointed to from `offset` are read from, and the declared count; an
/// error where the pointer or the length word cannot be read.
#[verifier::external_body]
pub(crate) fn read_array_tail<'a>(data: &'a [u8], offset: usize) -> (tail: Option<(&'a [u8], usize)>)
    ensures
        match tail {
            Some((rest, count)) => array_tail_at(data@, offset as int) == Some(
                (rest@, count as int),
            ),
            None => array_tail_at(data@, offset as int) is None,
        },
{
    substreams_ethereum::abi::read_array_tail(data, offset, "").ok()
}

} // verus!
