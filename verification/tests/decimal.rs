use passport_prover::decimal::parse_u128;

fn agrees_with_std(text: &str) {
    assert_eq!(parse_u128(text), text.parse::<u128>().ok(), "on {:?}", text);
}

#[test]
fn reads_plain_numerals() {
    assert_eq!(parse_u128("0"), Some(0));
    assert_eq!(parse_u128("7"), Some(7));
    assert_eq!(parse_u128("12"), Some(12));
    assert_eq!(parse_u128("1234567890"), Some(1234567890));
}

#[test]
fn reads_leading_zeros() {
    assert_eq!(parse_u128("000"), Some(0));
    assert_eq!(parse_u128("00012"), Some(12));
    assert_eq!(
        parse_u128("0000000000000000000000000000000000000000000000000000000000000000000042"),
        Some(42)
    );
}

#[test]
fn accepts_one_leading_plus() {
    assert_eq!(parse_u128("+5"), Some(5));
    assert_eq!(parse_u128("+0"), Some(0));
    assert_eq!(parse_u128("++5"), None);
    assert_eq!(parse_u128("+"), None);
    assert_eq!(parse_u128("5+"), None);
}

#[test]
fn rejects_the_empty_text() {
    assert_eq!(parse_u128(""), None);
}

#[test]
fn rejects_a_minus_sign() {
    assert_eq!(parse_u128("-1"), None);
    assert_eq!(parse_u128("-0"), None);
    assert_eq!(parse_u128("-"), None);
}

#[test]
fn rejects_what_is_no_digit() {
    assert_eq!(parse_u128("oops"), None);
    assert_eq!(parse_u128("12a"), None);
    assert_eq!(parse_u128("a12"), None);
    assert_eq!(parse_u128("1 2"), None);
    assert_eq!(parse_u128(" 12"), None);
    assert_eq!(parse_u128("12 "), None);
    assert_eq!(parse_u128("12\n"), None);
    assert_eq!(parse_u128("1_000"), None);
    assert_eq!(parse_u128("0x10"), None);
    assert_eq!(parse_u128("1.5"), None);
    assert_eq!(parse_u128("1e3"), None);
}

#[test]
fn rejects_digits_of_other_scripts() {
    assert_eq!(parse_u128("\u{0661}\u{0662}\u{0663}"), None);
    assert_eq!(parse_u128("\u{ff11}\u{ff12}"), None);
    assert_eq!(parse_u128("1\u{00e9}"), None);
    assert_eq!(parse_u128("\u{00e9}1"), None);
    assert_eq!(parse_u128("+\u{00e9}"), None);
}

#[test]
fn reads_the_largest_value() {
    assert_eq!(
        parse_u128("340282366920938463463374607431768211455"),
        Some(u128::MAX)
    );
    assert_eq!(
        parse_u128("+340282366920938463463374607431768211455"),
        Some(u128::MAX)
    );
    assert_eq!(
        parse_u128("00340282366920938463463374607431768211455"),
        Some(u128::MAX)
    );
}

#[test]
fn rejects_what_exceeds_128_bits() {
    assert_eq!(parse_u128("340282366920938463463374607431768211456"), None);
    assert_eq!(parse_u128("340282366920938463463374607431768211460"), None);
    assert_eq!(parse_u128("3402823669209384634633746074317682114550"), None);
    assert_eq!(parse_u128("999999999999999999999999999999999999999"), None);
    assert_eq!(
        parse_u128("21888242871839275222246405745257275088548364400416034343698204186575808495617"),
        None
    );
}

#[test]
fn an_overflowing_text_with_a_bad_tail_is_rejected() {
    assert_eq!(parse_u128("340282366920938463463374607431768211456x"), None);
}

#[test]
fn agrees_with_the_standard_parser() {
    let samples = [
        "", "0", "1", "9", "10", "99", "100", "+", "-", "+1", "-1", "+-1", "++1", "1+", "01",
        "001", " 1", "1 ", "\t1", "1\t", "a", "1a", "a1", "0x1", "1_0", "1,0", "1.0", "\u{ff11}",
        "340282366920938463463374607431768211454",
        "340282366920938463463374607431768211455",
        "340282366920938463463374607431768211456",
        "340282366920938463463374607431768211465",
        "1000000000000000000000000000000000000000",
        "18446744073709551615",
        "18446744073709551616",
        "\u{0663}", "\u{00e9}", "12\u{00e9}", "+\u{00e9}", "\0", "1\0",
    ];
    for text in samples {
        agrees_with_std(text);
    }
}

#[test]
fn agrees_with_the_standard_parser_on_every_short_text() {
    let alphabet = ['0', '1', '9', '+', '-', ' ', 'a', '/', ':'];
    for a in alphabet {
        agrees_with_std(&a.to_string());
        for b in alphabet {
            agrees_with_std(&format!("{}{}", a, b));
            for c in alphabet {
                agrees_with_std(&format!("{}{}{}", a, b, c));
            }
        }
    }
}
