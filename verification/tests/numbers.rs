use clanker_events::integer::Integer;
use clanker_events::numeric::{i32_text, u64_text, word_to_i32_or_zero, word_to_u64};

fn word_of(value: u128) -> Vec<u8> {
    let mut word = vec![0u8; 16];
    word.extend_from_slice(&value.to_be_bytes());
    word
}

fn signed_word_of(value: i128) -> Vec<u8> {
    let fill = if value < 0 { 0xffu8 } else { 0u8 };
    let mut word = vec![fill; 16];
    word.extend_from_slice(&value.to_be_bytes());
    word
}

fn integer(text: &str) -> Integer {
    Integer::parse(text).unwrap()
}

#[test]
fn words_narrow_to_u64() {
    assert_eq!(word_to_u64(&word_of(0)), Some(0));
    assert_eq!(word_to_u64(&word_of(86_400)), Some(86_400));
    assert_eq!(word_to_u64(&word_of(u64::MAX as u128)), Some(u64::MAX));
    assert_eq!(word_to_u64(&word_of(u64::MAX as u128 + 1)), None);
    assert_eq!(word_to_u64(&[0xff; 32]), None);
    assert_eq!(word_to_u64(&[]), Some(0));
    assert_eq!(word_to_u64(&[0x01, 0x00]), Some(256));
}

#[test]
fn words_narrow_to_i32_or_zero() {
    assert_eq!(word_to_i32_or_zero(&signed_word_of(0)), 0);
    assert_eq!(word_to_i32_or_zero(&signed_word_of(-230_400)), -230_400);
    assert_eq!(word_to_i32_or_zero(&signed_word_of(887_200)), 887_200);
    assert_eq!(word_to_i32_or_zero(&signed_word_of(i32::MAX as i128)), i32::MAX);
    assert_eq!(word_to_i32_or_zero(&signed_word_of(i32::MIN as i128)), i32::MIN);
    assert_eq!(word_to_i32_or_zero(&signed_word_of(i32::MAX as i128 + 1)), 0);
    assert_eq!(word_to_i32_or_zero(&signed_word_of(i32::MIN as i128 - 1)), 0);
    assert_eq!(word_to_i32_or_zero(&[0xff; 32]), -1);
    assert_eq!(word_to_i32_or_zero(&[0x80; 32]), 0);
    assert_eq!(word_to_i32_or_zero(&[]), 0);
    assert_eq!(word_to_i32_or_zero(&[0xfe]), -2);
}

#[test]
fn integers_read_decimal_text() {
    assert_eq!(integer("0").to_text(), "0");
    assert_eq!(integer("150").to_text(), "150");
    assert_eq!(integer("-150").to_text(), "-150");
    assert_eq!(integer("+150").to_text(), "150");
    assert_eq!(integer("-0").to_text(), "0");
    assert_eq!(integer("007").to_text(), "7");
    assert_eq!(integer("1_000_000").to_text(), "1000000");
    assert_eq!(integer("5_").to_text(), "5");
    assert_eq!(integer("128").to_text(), "128");
    assert_eq!(integer("-128").to_text(), "-128");
    assert_eq!(integer("-129").to_text(), "-129");
    assert_eq!(integer("255").to_text(), "255");
    assert_eq!(integer("256").to_text(), "256");
    assert_eq!(
        integer("115792089237316195423570985008687907853269984665640564039457584007913129639935")
            .to_text(),
        "115792089237316195423570985008687907853269984665640564039457584007913129639935"
    );
}

#[test]
fn integers_refuse_other_text() {
    for text in
        ["", "-", "+", "_5", "-_5", "+_5", "-+5", "+-5", "++5", "--5", "12a", "0x10", " 5", "5 ", "1.5", "٣"]
    {
        assert!(Integer::parse(text).is_none(), "{:?}", text);
    }
}

#[test]
fn zero_is_zero() {
    assert_eq!(Integer::zero().to_text(), "0");
    assert_eq!(Integer::zero().plus(&Integer::zero()).to_text(), "0");
}

#[test]
fn sums_are_exact() {
    let cases: [(&str, &str, &str); 14] = [
        ("100", "50", "150"),
        ("0", "0", "0"),
        ("127", "1", "128"),
        ("128", "128", "256"),
        ("255", "1", "256"),
        ("-1", "1", "0"),
        ("-128", "-1", "-129"),
        ("-129", "129", "0"),
        ("-256", "255", "-1"),
        ("65535", "1", "65536"),
        ("-65536", "-65536", "-131072"),
        ("18446744073709551615", "1", "18446744073709551616"),
        (
            "115792089237316195423570985008687907853269984665640564039457584007913129639935",
            "115792089237316195423570985008687907853269984665640564039457584007913129639935",
            "231584178474632390847141970017375815706539969331281128078915168015826259279870",
        ),
        (
            "-115792089237316195423570985008687907853269984665640564039457584007913129639936",
            "1",
            "-115792089237316195423570985008687907853269984665640564039457584007913129639935",
        ),
    ];
    for (a, b, sum) in cases {
        assert_eq!(integer(a).plus(&integer(b)).to_text(), sum, "{} + {}", a, b);
        assert_eq!(integer(b).plus(&integer(a)).to_text(), sum, "{} + {}", b, a);
    }
}

#[test]
fn sums_match_machine_arithmetic() {
    let values: [i64; 12] =
        [0, 1, -1, 127, 128, -128, -129, 255, 256, 32767, -32768, 1_000_000_007];
    for a in values {
        for b in values {
            let sum = integer(&a.to_string()).plus(&integer(&b.to_string()));
            assert_eq!(sum.to_text(), (a + b).to_string(), "{} + {}", a, b);
        }
    }
}

#[test]
fn long_accumulation_stays_exact() {
    let mut total = Integer::zero();
    let step = integer("340282366920938463463374607431768211455");
    for _ in 0..1000 {
        total = total.plus(&step);
    }
    assert_eq!(total.to_text(), "340282366920938463463374607431768211455000");
    let back = integer("-340282366920938463463374607431768211455000");
    assert_eq!(total.plus(&back).to_text(), "0");
}

#[test]
fn machine_integers_render_as_decimal_text() {
    for value in [0u64, 1, 9, 10, 11, 99, 100, 1_750_000_000, u64::MAX - 1, u64::MAX] {
        assert_eq!(u64_text(value), value.to_string());
    }
    assert_eq!(u64_text(u64::MAX), "18446744073709551615");
    for value in [0i32, 1, -1, 9, -9, 10, -10, -230_400, 887_272, i32::MAX, i32::MIN] {
        assert_eq!(i32_text(value), value.to_string());
    }
    assert_eq!(i32_text(i32::MIN), "-2147483648");
}
