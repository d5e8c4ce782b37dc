use rustbook::guessing::{check_guess, compare_guess, read_guess, secret_number, Verdict};
use rustbook::parse::{parse_i32, parse_u32, trim};

#[test]
fn secret_number_is_between_1_and_100() {
    let mut seen = std::collections::BTreeSet::new();
    for _ in 0..1000 {
        let n = secret_number();
        assert!((1..=100).contains(&n), "secret {}", n);
        seen.insert(n);
    }
    assert!(seen.len() > 1);
}

#[test]
fn compare_guess_gives_each_verdict() {
    assert_eq!(compare_guess(10, 50), Verdict::TooSmall);
    assert_eq!(compare_guess(90, 50), Verdict::TooBig);
    assert_eq!(compare_guess(50, 50), Verdict::Correct);
    assert_eq!(compare_guess(0, u32::MAX), Verdict::TooSmall);
}

#[test]
fn verdict_messages() {
    assert_eq!(Verdict::TooSmall.message(), "Too small!");
    assert_eq!(Verdict::TooBig.message(), "Too big!");
    assert_eq!(Verdict::Correct.message(), "Correct!");
}

#[test]
fn read_guess_reads_a_typed_line() {
    assert_eq!(read_guess("42\n"), Some(42));
    assert_eq!(read_guess("  7 \r\n"), Some(7));
    assert_eq!(read_guess("+7\n"), Some(7));
    assert_eq!(read_guess("abc\n"), None);
    assert_eq!(read_guess("-1\n"), None);
    assert_eq!(read_guess("\n"), None);
    assert_eq!(read_guess("4 2\n"), None);
}

#[test]
fn check_guess_plays_a_turn() {
    assert_eq!(check_guess("50\n", 50), Some(Verdict::Correct));
    assert_eq!(check_guess("49\n", 50), Some(Verdict::TooSmall));
    assert_eq!(check_guess("51\n", 50), Some(Verdict::TooBig));
    assert_eq!(check_guess("fifty\n", 50), None);
}

#[test]
fn trim_agrees_with_str_trim() {
    let samples = [
        "",
        " ",
        "x",
        "  x  ",
        "\t\n x y \r\n",
        "\u{a0}a\u{3000}",
        "\u{2000}\u{200a}b\u{2028}\u{2029}\u{202f}\u{205f}\u{85}\u{1680}",
        "\u{200b}x\u{200b}",
        "\u{1c}x",
        "é ",
    ];
    for s in samples {
        assert_eq!(trim(s), s.trim(), "sample {:?}", s);
    }
}

#[test]
fn parse_u32_agrees_with_from_str() {
    let samples = [
        "", "0", "00", "+", "-", "+0", "-0", "12", "+12", "-12", "4294967295", "4294967296",
        "99999999999999999999", "1a", "a1", " 1", "1 ", "++1", "٣",
    ];
    for s in samples {
        assert_eq!(parse_u32(s), s.parse::<u32>().ok(), "sample {:?}", s);
    }
}

#[test]
fn parse_i32_agrees_with_from_str() {
    let samples = [
        "", "0", "-0", "+", "-", "+5", "-5", "2147483647", "2147483648", "-2147483648",
        "-2147483649", "-99999999999999", "--1", "-+1", "1_000", "0x10",
    ];
    for s in samples {
        assert_eq!(parse_i32(s), s.parse::<i32>().ok(), "sample {:?}", s);
    }
}
