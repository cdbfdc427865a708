use clanker_events::parse_factory_address;
use clanker_events::scope::{
    chars_of, is_white_space, resolve, ScopeSet, CLANKER_AIRDROP, CLANKER_AUCTION,
    DEFAULT_CLANKER_FACTORY,
};

fn default_factory() -> Vec<u8> {
    hex::decode("e85a59c628f7d27878aceb4bf3b35733630083a9").unwrap()
}

#[test]
fn default_constants_are_the_published_addresses() {
    assert_eq!(DEFAULT_CLANKER_FACTORY.to_vec(), default_factory());
    assert_eq!(
        CLANKER_AIRDROP.to_vec(),
        hex::decode("f652B3610D75D81871bf96DB50825d9af28391E0").unwrap()
    );
    assert_eq!(
        CLANKER_AUCTION.to_vec(),
        hex::decode("ebB25BB797D82CB78E1bc70406b13233c0854413").unwrap()
    );
}

#[test]
fn empty_configuration_gives_the_default() {
    assert_eq!(parse_factory_address(""), default_factory());
}

#[test]
fn malformed_hex_resolves_like_an_empty_configuration() {
    assert_eq!(parse_factory_address("clanker_factory=not-hex"), parse_factory_address(""));
    assert_eq!(resolve("clanker_factory=not-hex"), resolve(""));
    assert_eq!(parse_factory_address("clanker_factory=not-hex"), default_factory());
}

#[test]
fn override_is_decoded_with_and_without_prefix() {
    let wanted = hex::decode("00112233445566778899aabbccddeeff00112233").unwrap();
    assert_eq!(
        parse_factory_address("clanker_factory=0x00112233445566778899aabbccddeeff00112233"),
        wanted
    );
    assert_eq!(
        parse_factory_address("clanker_factory=00112233445566778899aabbccddeeff00112233"),
        wanted
    );
}

#[test]
fn upper_case_digits_are_read() {
    assert_eq!(parse_factory_address("clanker_factory=0xABcdEF"), vec![0xab, 0xcd, 0xef]);
}

#[test]
fn white_space_around_key_and_value_is_dropped() {
    assert_eq!(parse_factory_address("  clanker_factory \t=  0xab01 \n"), vec![0xab, 0x01]);
    assert_eq!(
        parse_factory_address("\u{2003}clanker_factory\u{a0}=\u{3000}ab01\u{85}"),
        vec![0xab, 0x01]
    );
}

#[test]
fn white_space_inside_the_value_is_not_hex() {
    assert_eq!(parse_factory_address("clanker_factory=ab 01"), default_factory());
}

#[test]
fn other_keys_are_ignored() {
    assert_eq!(parse_factory_address("network=base,clanker_factory=abcd,x=y"), vec![0xab, 0xcd]);
    assert_eq!(parse_factory_address("network=base"), default_factory());
    assert_eq!(parse_factory_address("clanker_factory"), default_factory());
    assert_eq!(parse_factory_address("clanker_factoryX=abcd"), default_factory());
}

#[test]
fn the_first_pair_with_the_key_decides() {
    assert_eq!(parse_factory_address("clanker_factory=ab,clanker_factory=cd"), vec![0xab]);
    assert_eq!(parse_factory_address("clanker_factory=zz,clanker_factory=cd"), default_factory());
}

#[test]
fn a_pair_is_split_at_its_first_equals_sign() {
    assert_eq!(parse_factory_address("clanker_factory=ab=cd"), default_factory());
    assert_eq!(parse_factory_address("=clanker_factory=ab"), default_factory());
}

#[test]
fn only_one_prefix_is_dropped() {
    assert_eq!(parse_factory_address("clanker_factory=0x0xab"), default_factory());
    assert_eq!(parse_factory_address("clanker_factory=0Xab"), default_factory());
}

#[test]
fn odd_number_of_digits_falls_back() {
    assert_eq!(parse_factory_address("clanker_factory=abc"), default_factory());
}

#[test]
fn empty_value_is_an_empty_address() {
    assert_eq!(parse_factory_address("clanker_factory="), Vec::<u8>::new());
    assert_eq!(parse_factory_address("clanker_factory=0x"), Vec::<u8>::new());
}

#[test]
fn satellites_do_not_follow_the_override() {
    let scope = resolve("clanker_factory=0xAB");
    assert_eq!(scope.factory, vec![0xab]);
    assert_eq!(scope.airdrop, CLANKER_AIRDROP.to_vec());
    assert_eq!(scope.auction, CLANKER_AUCTION.to_vec());
    assert_eq!(scope, ScopeSet::around(vec![0xab]));
}

#[test]
fn characters_are_listed_in_order() {
    assert_eq!(chars_of("a=\u{e9}"), vec!['a', '=', '\u{e9}']);
    assert_eq!(chars_of(""), Vec::<char>::new());
}

#[test]
fn white_space_is_what_the_standard_library_says() {
    for code in 0u32..0x3100 {
        if let Some(c) = char::from_u32(code) {
            assert_eq!(is_white_space(c), c.is_whitespace(), "U+{:04X}", code);
        }
    }
}
