use openai_client::decimal::Decimal;
use openai_client::digits::{parse_u32, render_signed, render_unsigned};
use openai_client::logit_bias::LogitBias;

#[test]
fn numbers_are_written_in_decimal() {
    assert_eq!(render_unsigned(0), "0");
    assert_eq!(render_unsigned(7), "7");
    assert_eq!(render_unsigned(10), "10");
    assert_eq!(render_unsigned(305), "305");
    assert_eq!(render_unsigned(4294967295), "4294967295");
    assert_eq!(render_unsigned(u64::MAX), "18446744073709551615");
    assert_eq!(render_signed(0), "0");
    assert_eq!(render_signed(-1), "-1");
    assert_eq!(render_signed(-100), "-100");
    assert_eq!(render_signed(2147483647), "2147483647");
    assert_eq!(render_signed(-2147483648), "-2147483648");
    assert_eq!(render_signed(i64::MIN), "-9223372036854775808");
    assert_eq!(render_signed(i64::MAX), "9223372036854775807");
}

#[test]
fn numerals_are_read_if_they_fit() {
    assert_eq!(parse_u32("0"), Some(0));
    assert_eq!(parse_u32("9"), Some(9));
    assert_eq!(parse_u32("1589478378"), Some(1589478378));
    assert_eq!(parse_u32("4294967295"), Some(u32::MAX));
    assert_eq!(parse_u32("4294967296"), None);
    assert_eq!(parse_u32("99999999999999999999999999"), None);
    assert_eq!(parse_u32(""), None);
    assert_eq!(parse_u32("00"), None);
    assert_eq!(parse_u32("007"), None);
    assert_eq!(parse_u32("-1"), None);
    assert_eq!(parse_u32("+1"), None);
    assert_eq!(parse_u32("1.0"), None);
    assert_eq!(parse_u32("1e3"), None);
    assert_eq!(parse_u32(" 1"), None);
    assert_eq!(parse_u32("1 "), None);
    assert_eq!(parse_u32("12a"), None);
    assert_eq!(parse_u32("\u{661}\u{662}"), None);
}

#[test]
fn writing_and_reading_a_number_gives_it_back() {
    for n in [0u32, 1, 9, 10, 11, 99, 100, 101, 65535, 65536, 1000000000, u32::MAX - 1, u32::MAX] {
        assert_eq!(parse_u32(&render_unsigned(n as u64)), Some(n));
    }
}

#[test]
fn number_literals_are_told_from_other_text() {
    for literal in [
        "0", "-0", "1", "10", "0.5", "-0.5", "1.0", "2.50", "1e5", "1E5", "1e+5", "1e-5",
        "1.25e-7", "-12.5E+10", "123456789012345678901234567890", "0e0", "0.0",
    ] {
        let number = Decimal::parse(literal).unwrap();
        assert_eq!(number.as_str(), literal);
        assert_eq!(number.clone().as_str(), literal);
        assert!(serde_json::from_str::<serde_json::Value>(literal).unwrap().is_number());
    }
    for other in [
        "", "-", "+1", "01", "-01", "00", "1.", ".5", "1.e5", "1e", "1e+", "1e-", "1ee5", "1e5.0",
        "1,5", "0x10", "NaN", "inf", "null", "1.5.5", "--1", "1_000", "\u{661}", "true", "\"1\"",
    ] {
        assert!(Decimal::parse(other).is_none());
        assert!(serde_json::from_str::<f64>(other).is_err());
    }
    for padded in ["1 ", " 1", "1\n", "\t1.5"] {
        assert!(Decimal::parse(padded).is_none());
    }
}

#[test]
fn a_whole_number_is_written_with_a_zero_behind_the_point() {
    assert_eq!(Decimal::whole(0).as_str(), "0.0");
    assert_eq!(Decimal::whole(1).as_str(), "1.0");
    assert_eq!(Decimal::whole(20).as_str(), "20.0");
    assert_eq!(Decimal::whole(u32::MAX).as_str(), "4294967295.0");
    assert_eq!(serde_json::to_string(&1.0f32).unwrap(), Decimal::whole(1).as_str());
    assert_eq!(serde_json::to_string(&0.0f32).unwrap(), Decimal::whole(0).as_str());
}

#[test]
fn a_token_has_one_bias() {
    let biases = LogitBias::new();
    assert_eq!(biases.len(), 0);
    assert_eq!(biases.get("50256"), None);
    let biases = biases.with("50256".to_string(), -100);
    let biases = biases.with("11".to_string(), 7);
    let biases = biases.with("50256".to_string(), -1);
    assert_eq!(biases.len(), 2);
    assert_eq!(biases.get("50256"), Some(-1));
    assert_eq!(biases.get("11"), Some(7));
    assert_eq!(biases.get("12"), None);
    assert_eq!(biases.entry(0), ("50256", -1));
    assert_eq!(biases.entry(1), ("11", 7));
    let copy = biases.clone();
    assert_eq!(copy.len(), 2);
    assert_eq!(copy.entry(0), ("50256", -1));
    assert_eq!(copy.entry(1), ("11", 7));
}

#[test]
fn the_reader_of_json_agrees_on_what_a_number_literal_is() {
    let alphabet = ['-', '+', '0', '1', '2', '.', 'e', 'E'];
    let mut texts: Vec<String> = vec![String::new()];
    let mut from = 0;
    for _ in 0..5 {
        let upto = texts.len();
        for at in from..upto {
            for c in alphabet {
                let mut longer = texts[at].clone();
                longer.push(c);
                texts.push(longer);
            }
        }
        from = upto;
    }
    assert_eq!(texts.len(), 1 + 8 + 64 + 512 + 4096 + 32768);
    let mut literals = 0;
    for text in &texts {
        let ours = Decimal::parse(text).is_some();
        let theirs = match serde_json::from_str::<serde_json::Value>(text) {
            Ok(value) => value.is_number(),
            Err(_) => false,
        };
        assert_eq!(ours, theirs, "{:?}", text);
        if ours {
            literals += 1;
        }
    }
    assert!(literals > 1000);
}
