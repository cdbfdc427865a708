//! Which contracts a run listens to: the factory, which configuration may
//! replace, and the two satellite contracts, which it may not.

use crate::hexfmt::{hex_bytes, hex_decode};
use vstd::prelude::*;
use vstd::slice::slice_to_vec;

verus! {

/// The factory that is listened to where configuration names no other.
pub const DEFAULT_CLANKER_FACTORY: [u8; 20] = [
    0xe8, 0x5a, 0x59, 0xc6, 0x28, 0xf7, 0xd2, 0x78, 0x78, 0xac, 0xeb, 0x4b, 0xf3, 0xb3, 0x57, 0x33,
    0x63, 0x00, 0x83, 0xa9,
];

/// The airdrop contract.
pub const CLANKER_AIRDROP: [u8; 20] = [
    0xf6, 0x52, 0xb3, 0x61, 0x0d, 0x75, 0xd8, 0x18, 0x71, 0xbf, 0x96, 0xdb, 0x50, 0x82, 0x5d, 0x9a,
    0xf2, 0x83, 0x91, 0xe0,
];

/// The sniper auction contract.
pub const CLANKER_AUCTION: [u8; 20] = [
    0xeb, 0xb2, 0x5b, 0xb7, 0x97, 0xd8, 0x2c, 0xb7, 0x8e, 0x1b, 0xc7, 0x04, 0x06, 0xb1, 0x32, 0x33,
    0xc0, 0x85, 0x44, 0x13,
];

/// The addresses whose events a run recognises. Resolved once per invocation
/// and not changed during it.
#[derive(Clone, Debug, PartialEq, Eq)]
pub struct ScopeSet {
    /// The factory: the default, or the override that configuration gave.
    pub factory: Vec<u8>,
    /// The airdrop contract, whatever the override.
    pub airdrop: Vec<u8>,
    /// The auction contract, whatever the override.
    pub auction: Vec<u8>,
}

/// A scope as a mathematical value.
pub struct ScopeSetView {
    pub factory: Seq<u8>,
    pub airdrop: Seq<u8>,
    pub auction: Seq<u8>,
}

impl View for ScopeSet {
    type V = ScopeSetView;

    open spec fn view(&self) -> ScopeSetView {
        ScopeSetView { factory: self.factory@, airdrop: self.airdrop@, auction: self.auction@ }
    }
}

/// The scope around a given factory address.
pub open spec fn scope_around(factory: Seq<u8>) -> ScopeSetView {
    ScopeSetView { factory, airdrop: CLANKER_AIRDROP@, auction: CLANKER_AUCTION@ }
}

impl ScopeSet {
    /// The scope of a run that listens to `factory`.
    pub fn around(factory: Vec<u8>) -> (scope: ScopeSet)
        ensures
            scope@ == scope_around(factory@),
    {
        ScopeSet {
            factory,
            airdrop: slice_to_vec(&CLANKER_AIRDROP),
            auction: slice_to_vec(&CLANKER_AUCTION),
        }
    }
}

/// Whether `c` is white space, as Unicode defines the property.
pub open spec fn is_space(c: char) -> bool {
    let code = c as u32;
    ||| 0x09 <= code <= 0x0d
    ||| code == 0x20
    ||| code == 0x85
    ||| code == 0xa0
    ||| code == 0x1680
    ||| 0x2000 <= code <= 0x200a
    ||| code == 0x2028
    ||| code == 0x2029
    ||| code == 0x202f
    ||| code == 0x205f
    ||| code == 0x3000
}

/// How many characters of white space `text` starts with.
pub open spec fn leading_spaces(text: Seq<char>) -> int
    decreases text.len(),
{
    if text.len() > 0 && is_space(text[0]) {
        1 + leading_spaces(text.drop_first())
    } else {
        0
    }
}

/// How many characters of white space `text` ends with.
pub open spec fn trailing_spaces(text: Seq<char>) -> int
    decreases text.len(),
{
    if text.len() > 0 && is_space(text.last()) {
        1 + trailing_spaces(text.drop_last())
    } else {
        0
    }
}

/// `text` without the white space at its ends.
pub open spec fn trimmed(text: Seq<char>) -> Seq<char> {
    let rest = text.skip(leading_spaces(text));
    rest.take(rest.len() - trailing_spaces(rest))
}

/// Index of the first `c` in `text`, or the length of `text` where it holds
/// none.
pub open spec fn first_index(text: Seq<char>, c: char) -> int
    decreases text.len(),
{
    if text.len() == 0 || text[0] == c {
        0
    } else {
        1 + first_index(text.drop_first(), c)
    }
}

/// `text` without one leading `0x`, where it has one.
pub open spec fn without_0x(text: Seq<char>) -> Seq<char> {
    if text.len() >= 2 && text[0] == '0' && text[1] == 'x' {
        text.skip(2)
    } else {
        text
    }
}

/// What one `key=value` pair gives as the factory: the value, trimmed and
/// without a leading `0x`, where the text before the first `=`, trimmed, is
/// the one recognised key.
pub open spec fn pair_override(pair: Seq<char>) -> Option<Seq<char>> {
    let eq = first_index(pair, '=');
    if eq < pair.len() && trimmed(pair.take(eq)) == "clanker_factory"@ {
        Some(without_0x(trimmed(pair.skip(eq + 1))))
    } else {
        None
    }
}

/// What a comma-separated list of `key=value` pairs gives as the factory:
/// what the first pair with the recognised key gives.
pub open spec fn factory_override(params: Seq<char>) -> Option<Seq<char>>
    decreases params.len(),
{
    let comma = first_index(params, ',');
    match pair_override(params.take(comma)) {
        Some(text) => Some(text),
        None => if 0 <= comma < params.len() {
            factory_override(params.skip(comma + 1))
        } else {
            None
        },
    }
}

/// The factory address that configuration resolves to: the bytes of the
/// override where there is one and it is hexadecimal text, the default in
/// every other case.
pub open spec fn resolved_factory(params: Seq<char>) -> Seq<u8> {
    match factory_override(params) {
        Some(text) => match hex_bytes(text) {
            Some(bytes) => bytes,
            None => DEFAULT_CLANKER_FACTORY@,
        },
        None => DEFAULT_CLANKER_FACTORY@,
    }
}

/// The first index is the first place where the character stands.
pub proof fn lemma_first_index(text: Seq<char>, c: char, at: int)
    requires
        0 <= at <= text.len(),
        forall|k: int| 0 <= k < at ==> text[k] != c,
        at == text.len() || text[at] == c,
    ensures
        first_index(text, c) == at,
    decreases text.len(),
{
    if at > 0 {
        lemma_first_index(text.drop_first(), c, at - 1);
    }
}

/// The leading white space ends where the first other character stands.
pub proof fn lemma_leading_spaces(text: Seq<char>, count: int)
    requires
        0 <= count <= text.len(),
        forall|k: int| 0 <= k < count ==> is_space(text[k]),
        count == text.len() || !is_space(text[count]),
    ensures
        leading_spaces(text) == count,
    decreases text.len(),
{
    if count > 0 {
        lemma_leading_spaces(text.drop_first(), count - 1);
    }
}

/// The trailing white space starts behind the last other character.
pub proof fn lemma_trailing_spaces(text: Seq<char>, count: int)
    requires
        0 <= count <= text.len(),
        forall|k: int| text.len() - count <= k < text.len() ==> is_space(text[k]),
        count == text.len() || !is_space(text[text.len() - count - 1]),
    ensures
        trailing_spaces(text) == count,
    decreases text.len(),
{
    if count > 0 {
        lemma_trailing_spaces(text.drop_last(), count - 1);
    }
}

/// The characters of `text`.
pub fn chars_of(text: &str) -> (chars: Vec<char>)
    ensures
        chars@ == text@,
{
    let mut chars: Vec<char> = Vec::new();
    for c in iter: text.chars()
        invariant
            chars@ == iter.seq().take(iter.index() as int),
            iter.seq() == text@,
    {
        chars.push(c);
        assert(iter.seq().take(iter.index() + 1) =~= iter.seq().take(iter.index() as int).push(c));
    }
    assert(chars@ =~= text@);
    chars
}

/// Tests a character for white space.
pub fn is_white_space(c: char) -> (space: bool)
    ensures
        space == is_space(c),
{
    let code: u32 = c as u32;
    (0x09 <= code && code <= 0x0d) || code == 0x20 || code == 0x85 || code == 0xa0 || code
        == 0x1680 || (0x2000 <= code && code <= 0x200a) || code == 0x2028 || code == 0x2029 || code
        == 0x202f || code == 0x205f || code == 0x3000
}

/// Finds the first `c` between two places of `chars`.
fn find(chars: &Vec<char>, from: usize, to: usize, c: char) -> (at: usize)
    requires
        from <= to <= chars.len(),
    ensures
        from <= at <= to,
        at == from + first_index(chars@.subrange(from as int, to as int), c),
{
    let mut at: usize = from;
    while at < to && chars[at] != c
        invariant
            from <= at <= to,
            to <= chars.len(),
            forall|k: int| from <= k < at ==> chars@[k] != c,
        decreases to - at,
    {
        at = at + 1;
    }
    proof {
        lemma_first_index(chars@.subrange(from as int, to as int), c, at - from);
    }
    at
}

/// Narrows two places of `chars` to what lies between the white space at
/// their ends.
fn trim(chars: &Vec<char>, from: usize, to: usize) -> (ends: (usize, usize))
    requires
        from <= to <= chars.len(),
    ensures
        from <= ends.0 <= ends.1 <= to,
        chars@.subrange(ends.0 as int, ends.1 as int) == trimmed(
            chars@.subrange(from as int, to as int),
        ),
{
    let ghost text = chars@.subrange(from as int, to as int);
    let mut start: usize = from;
    while start < to && is_white_space(chars[start])
        invariant
            from <= start <= to,
            to <= chars.len(),
            forall|k: int| from <= k < start ==> is_space(chars@[k]),
        decreases to - start,
    {
        start = start + 1;
    }
    let mut end: usize = to;
    while end > start && is_white_space(chars[end - 1])
        invariant
            start <= end <= to,
            to <= chars.len(),
            forall|k: int| end <= k < to ==> is_space(chars@[k]),
        decreases end,
    {
        end = end - 1;
    }
    proof {
        lemma_leading_spaces(text, start - from);
        let rest = text.skip(start - from);
        assert(rest =~= chars@.subrange(start as int, to as int));
        lemma_trailing_spaces(rest, to - end);
        assert(rest.take(rest.len() - (to - end)) =~= chars@.subrange(start as int, end as int));
    }
    (start, end)
}

/// Reads one pair that lies between two places of `chars`: where it names the
/// factory, the places between which the address stands.
fn read_pair(chars: &Vec<char>, params: &str, from: usize, to: usize) -> (value: Option<
    (usize, usize),
>)
    requires
        from <= to <= chars.len(),
        chars@ == params@,
    ensures
        match value {
            Some((start, end)) => start <= end <= chars.len() && pair_override(
                chars@.subrange(from as int, to as int),
            ) == Some(chars@.subrange(start as int, end as int)),
            None => pair_override(chars@.subrange(from as int, to as int)) is None,
        },
{
    let ghost pair = chars@.subrange(from as int, to as int);
    let eq = find(chars, from, to, '=');
    if eq >= to {
        return None;
    }
    proof {
        assert(pair.take(eq - from) =~= chars@.subrange(from as int, eq as int));
        assert(pair.skip(eq - from + 1) =~= chars@.subrange(eq + 1, to as int));
    }
    let (key_start, key_end) = trim(chars, from, eq);
    let key = String::from_str(params.substring_char(key_start, key_end));
    let wanted = String::from_str("clanker_factory");
    if key != wanted {
        return None;
    }
    let (start, end) = trim(chars, eq + 1, to);
    let ghost value = chars@.subrange(start as int, end as int);
    if end - start >= 2 && chars[start] == '0' && chars[start + 1] == 'x' {
        proof {
            assert(value.skip(2) =~= chars@.subrange(start + 2, end as int));
        }
        Some((start + 2, end))
    } else {
        Some((start, end))
    }
}

/// Finds the override of the factory in a configuration string: the places
/// between which its text stands.
fn find_override(chars: &Vec<char>, params: &str) -> (value: Option<(usize, usize)>)
    requires
        chars@ == params@,
    ensures
        match value {
            Some((start, end)) => start <= end <= chars.len() && factory_override(chars@) == Some(
                chars@.subrange(start as int, end as int),
            ),
            None => factory_override(chars@) is None,
        },
{
    let len: usize = chars.len();
    let mut from: usize = 0;
    proof {
        assert(chars@.skip(0) =~= chars@);
    }
    loop
        invariant
            from <= len,
            len == chars.len(),
            chars@ == params@,
            factory_override(chars@) == factory_override(chars@.skip(from as int)),
        decreases len - from,
    {
        let comma = find(chars, from, len, ',');
        let ghost rest = chars@.skip(from as int);
        proof {
            assert(rest =~= chars@.subrange(from as int, len as int));
            assert(rest.take(comma - from) =~= chars@.subrange(from as int, comma as int));
        }
        let found = read_pair(chars, params, from, comma);
        if found.is_some() {
            return found;
        }
        if comma >= len {
            return None;
        }
        proof {
            assert(rest.skip(comma - from + 1) =~= chars@.skip(comma + 1));
        }
        from = comma + 1;
    }
}

/// The factory address that a configuration string resolves to.
///
/// The string is a comma-separated list of `key=value` pairs, of which only
/// `clanker_factory` is recognised. Its value is trimmed, may start with `0x`,
/// and is read as hexadecimal text. Where the key is absent or the value is
/// not hexadecimal text, the default address stands: a misconfigured override
/// does not stop a run.
pub fn parse_factory_address(params: &str) -> (address: Vec<u8>)
    ensures
        address@ == resolved_factory(params@),
{
    let chars = chars_of(params);
    match find_override(&chars, params) {
        Some((start, end)) => match hex_decode(params.substring_char(start, end)) {
            Some(bytes) => bytes,
            None => slice_to_vec(&DEFAULT_CLANKER_FACTORY),
        },
        None => slice_to_vec(&DEFAULT_CLANKER_FACTORY),
    }
}

/// The scope that a configuration string resolves to.
pub fn resolve(params: &str) -> (scope: ScopeSet)
    ensures
        scope@ == scope_around(resolved_factory(params@)),
{
    ScopeSet::around(parse_factory_address(params))
}

} // verus!
