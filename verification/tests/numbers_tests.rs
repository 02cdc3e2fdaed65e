// Tests for numbers in decimal notation, each held against what std does.
use pantryman_linux::numbers::{is_amount_text, parse_u32, to_decimal};

#[test]
fn parse_u32_agrees_with_std() {
    let texts = [
        "", "0", "7", "007", "42", "+5", "+", "-", "-5", "-0", "4294967295", "4294967296",
        "42949672950", "99999999999999999999", "+4294967295", "+4294967296", " 5", "5 ", "1.5",
        "abc", "12a", "a12", "１２", "+-5", "++5", "٣", "1_000", "0x10", "1e3", "00000000000000",
        "000000000004294967295",
    ];
    for text in texts {
        assert_eq!(parse_u32(text), text.parse::<u32>().ok(), "number in {:?}", text);
    }
}

#[test]
fn parse_u32_exact_values() {
    assert_eq!(parse_u32("45"), Some(45));
    assert_eq!(parse_u32("+45"), Some(45));
    assert_eq!(parse_u32("0045"), Some(45));
    assert_eq!(parse_u32("4294967295"), Some(u32::MAX));
    assert_eq!(parse_u32("4294967296"), None);
    assert_eq!(parse_u32(""), None);
    assert_eq!(parse_u32("+"), None);
    assert_eq!(parse_u32(" 45"), None);
    assert_eq!(parse_u32("forty"), None);
    assert_eq!(parse_u32("-1"), None);
}

#[test]
fn to_decimal_agrees_with_std() {
    let numbers = [
        0u32, 1, 9, 10, 11, 19, 20, 99, 100, 101, 999, 1000, 12345, 1_000_000, 4294967294,
        u32::MAX,
    ];
    for n in numbers {
        assert_eq!(to_decimal(n), n.to_string());
    }
    assert_eq!(to_decimal(0), "0");
    assert_eq!(to_decimal(90), "90");
    assert_eq!(to_decimal(u32::MAX), "4294967295");
}

#[test]
fn decimal_text_is_read_back() {
    for n in [0u32, 5, 10, 45, 1009, 65535, 65536, u32::MAX] {
        assert_eq!(parse_u32(&to_decimal(n)), Some(n));
    }
}

#[test]
fn amount_text_agrees_with_float_parsing() {
    let texts = [
        "", "1", "0", "12", "1.5", ".5", "5.", ".", "+", "-", "+1", "-1", "-1.5e3", "1e5", "1E5",
        "1e+5", "1e-5", "1e", "1e+", "1e-", "e5", "E5", "1e5.5", "1e5e5", "inf", "+inf", "-inf",
        "-Infinity", "infinity", "INFINITY", "INF", "Inf", "iNfInItY", "nan", "NaN", "NAN", "-nan",
        "+NaN", "infinit", "infinityy", "in", "na", "i", "n", "nana", "1_000", "0x10", " 1", "1 ",
        "1,5", "١", "1.5.2", "1..5", "--1", "+-1", "-+1", "1e++5", "1f", "1.0f64", "½", ".e5",
        "1.e5", ".5e5", "+.5", "-.", "+.", "-.5", "00012.5000", "1e0005", "abc", "2kg", "1/2",
        "0.1e-10", "123456789012345678901234567890", "1e999", "１", "1e５", "ınf", "İNF", "+e5",
        "e", ".e", "5.e", "5.e+", "5.E-3", "-", "++", "inf ", " inf", "infnan", "-infinity",
    ];
    for text in texts {
        assert_eq!(
            is_amount_text(text),
            text.parse::<f64>().is_ok(),
            "amount in {:?}",
            text
        );
    }
}

#[test]
fn amount_text_examples() {
    assert!(is_amount_text("2"));
    assert!(is_amount_text("0.5"));
    assert!(is_amount_text("-3.25e2"));
    assert!(is_amount_text("inf"));
    assert!(!is_amount_text("two"));
    assert!(!is_amount_text(""));
    assert!(!is_amount_text("1 kg"));
    assert!(!is_amount_text("1,5"));
}
