use sharpie::import::{check_header, mounts_on_deck, ImportError, SIGNATURE, SIGNATURE_READ};
use sharpie::parse::{digit_value, parse_count, parse_decimal, parse_flag, percent, ungrouped};
use sharpie::num::Num;
use sharpie::persist::{
    check_version, frame, LoadError, SHIP_FILE_EXT, SHIP_FILE_VERSION, SS_SHIP_FILE_EXT,
};
use sharpie::text::{chars_of, contains, decimal, stands_at};

// The saved document

#[test]
fn file_constants() {
    assert_eq!(SHIP_FILE_EXT, "ship");
    assert_eq!(SS_SHIP_FILE_EXT, "sship");
    assert_eq!(SHIP_FILE_VERSION, 1);
}

#[test]
fn version_one_is_admitted() {
    assert!(check_version(1).is_ok());
    assert!(check_version(SHIP_FILE_VERSION).is_ok());
}

#[test]
fn other_versions_are_refused() {
    for version in [0_u32, 2, 3, 100, u32::MAX] {
        match check_version(version) {
            Err(LoadError::IncompatibleVersion(v)) => assert_eq!(v, version),
            other => panic!("{:?}", other),
        }
    }
}

#[test]
fn incompatible_version_is_named() {
    assert_eq!(
        LoadError::IncompatibleVersion(2).message(),
        "Cannot open ship files of this version: 2!"
    );
    assert_eq!(
        LoadError::IncompatibleVersion(0).message(),
        "Cannot open ship files of this version: 0!"
    );
    assert_eq!(
        LoadError::IncompatibleVersion(4_294_967_295).message(),
        "Cannot open ship files of this version: 4294967295!"
    );
    assert_eq!(check_version(7).unwrap_err().message(), format!("Cannot open ship files of this version: {}!", 7));
}

#[test]
fn parse_error_keeps_the_words() {
    let e = LoadError::ParseError("expected value at line 1 column 1".to_string());
    assert_eq!(e.message(), "expected value at line 1 column 1");
    assert_eq!(LoadError::ParseError(String::new()).message(), "");
}

#[test]
fn frame_puts_each_record_on_a_line() {
    assert_eq!(frame("{\"version\":1}", "{\"name\":\"\"}"), "{\"version\":1}\n{\"name\":\"\"}\n");
    assert_eq!(frame("", ""), "\n\n");
}

// Text

#[test]
fn decimal_writes_digits() {
    assert_eq!(decimal(0), "0");
    assert_eq!(decimal(7), "7");
    assert_eq!(decimal(10), "10");
    assert_eq!(decimal(1905), "1905");
    assert_eq!(decimal(1234567890), "1234567890");
    assert_eq!(decimal(u64::MAX), "18446744073709551615");
    for n in [9_u64, 99, 100, 101, 4096, 65535, 999_999_999_999] {
        assert_eq!(decimal(n), n.to_string());
    }
}

#[test]
fn chars_of_a_text() {
    assert_eq!(chars_of(""), Vec::<char>::new());
    assert_eq!(chars_of("a£c"), vec!['a', '£', 'c']);
}

#[test]
fn contains_finds_a_part() {
    assert!(contains("SpringSharp Version 3.0 beta", "SpringSharp Version 3.0"));
    assert!(contains("abc", ""));
    assert!(contains("", ""));
    assert!(contains("abc", "abc"));
    assert!(contains("abc", "c"));
    assert!(contains("aab", "ab"));
    assert!(!contains("abc", "abcd"));
    assert!(!contains("abc", "ac"));
    assert!(!contains("", "a"));
    let whole = chars_of("abcabc");
    let part = chars_of("bc");
    assert!(stands_at(&whole, &part, 1));
    assert!(stands_at(&whole, &part, 4));
    assert!(!stands_at(&whole, &part, 0));
    assert!(!stands_at(&whole, &part, 5));
    assert!(!stands_at(&whole, &part, usize::MAX));
    assert!(stands_at(&whole, &chars_of(""), 6));
    assert!(!stands_at(&whole, &chars_of(""), 7));
}

// The positional format

#[test]
fn header_of_the_version_that_is_read() {
    assert_eq!(check_header("SpringSharp Version 3.0"), Ok(()));
    assert_eq!(check_header("  SpringSharp Version 3.0 Beta 3 "), Ok(()));
    assert_eq!(SIGNATURE, "SpringSharp");
    assert_eq!(SIGNATURE_READ, "SpringSharp Version 3.0");
}

#[test]
fn header_of_an_older_version() {
    assert_eq!(check_header("SpringSharp Version 2.1"), Err(ImportError::UnsupportedVersion));
    assert_eq!(check_header("SpringSharp"), Err(ImportError::UnsupportedVersion));
    assert_eq!(check_header("SpringSharp Version 3"), Err(ImportError::UnsupportedVersion));
}

#[test]
fn header_of_something_else() {
    assert_eq!(check_header(""), Err(ImportError::UnknownFormat));
    assert_eq!(check_header("springsharp version 3.0"), Err(ImportError::UnknownFormat));
    assert_eq!(check_header("{\"version\":1}"), Err(ImportError::UnknownFormat));
}

#[test]
fn import_errors_in_words() {
    assert_eq!(ImportError::UnsupportedVersion.message(), "SpringSharp file too old");
    assert_eq!(ImportError::UnknownFormat.message(), "Unknown file format");
    assert_eq!(ImportError::FormatError.message(), "Malformed value");
}

#[test]
fn flag_is_the_word_true() {
    assert!(parse_flag("True"));
    assert!(!parse_flag("False"));
    assert!(!parse_flag("true"));
    assert!(!parse_flag("TRUE"));
    assert!(!parse_flag("True "));
    assert!(!parse_flag(""));
    assert!(!parse_flag("1"));
}

#[test]
fn digit_values() {
    for (i, c) in "0123456789".chars().enumerate() {
        assert_eq!(digit_value(c), Some(i as u8));
    }
    for c in "/:a .,-+٣".chars() {
        assert_eq!(digit_value(c), None);
    }
}

#[test]
fn ungrouped_drops_commas() {
    assert_eq!(ungrouped(&chars_of("1,234,567.5")), chars_of("1234567.5"));
    assert_eq!(ungrouped(&chars_of(",,")), chars_of(""));
    assert_eq!(ungrouped(&chars_of("12.5")), chars_of("12.5"));
}

#[test]
fn decimal_numbers_are_read() {
    assert_eq!(parse_decimal("0"), Some(Num::Micro(0)));
    assert_eq!(parse_decimal("12"), Some(Num::Micro(12_000_000)));
    assert_eq!(parse_decimal("12.5"), Some(Num::Micro(12_500_000)));
    assert_eq!(parse_decimal("-12.5"), Some(Num::Micro(-12_500_000)));
    assert_eq!(parse_decimal("+12.5"), Some(Num::Micro(12_500_000)));
    assert_eq!(parse_decimal("0.000001"), Some(Num::Micro(1)));
    assert_eq!(parse_decimal("007.250"), Some(Num::Micro(7_250_000)));
    assert_eq!(parse_decimal("5."), Some(Num::Micro(5_000_000)));
    assert_eq!(parse_decimal(".5"), Some(Num::Micro(500_000)));
    assert_eq!(parse_decimal("-.5"), Some(Num::Micro(-500_000)));
    assert_eq!(parse_decimal("-0"), Some(Num::Micro(0)));
    assert_eq!(parse_decimal("66.666664"), Some(Num::Micro(66_666_664)));
}

#[test]
fn decimals_beyond_the_sixth_are_cut() {
    assert_eq!(parse_decimal("0.9999999"), Some(Num::Micro(999_999)));
    assert_eq!(parse_decimal("-0.9999999"), Some(Num::Micro(-999_999)));
    assert_eq!(parse_decimal("1.23456789012345678901234567890"), Some(Num::Micro(1_234_567)));
    assert_eq!(parse_decimal("0.0000009"), Some(Num::Micro(0)));
}

#[test]
fn grouping_separators_are_passed_over() {
    assert_eq!(parse_decimal("1,234.56"), Some(Num::Micro(1_234_560_000)));
    assert_eq!(parse_decimal("1,234,567"), Some(Num::Micro(1_234_567_000_000)));
    assert_eq!(parse_decimal("-2,000"), Some(Num::Micro(-2_000_000_000)));
    assert_eq!(parse_decimal(",5,"), Some(Num::Micro(5_000_000)));
}

#[test]
fn numbers_beyond_the_range_are_undefined() {
    assert_eq!(parse_decimal("9223372036854.775807"), Some(Num::Micro(i64::MAX)));
    assert_eq!(parse_decimal("9223372036854.775808"), Some(Num::Undefined));
    assert_eq!(parse_decimal("-9223372036854.775808"), Some(Num::Micro(i64::MIN)));
    assert_eq!(parse_decimal("-9223372036854.775809"), Some(Num::Undefined));
    assert_eq!(parse_decimal("10000000000000"), Some(Num::Undefined));
    assert_eq!(parse_decimal("9999999999999.999999"), Some(Num::Undefined));
    assert_eq!(
        parse_decimal("123456789012345678901234567890123456789012345678901234567890"),
        Some(Num::Undefined)
    );
    assert_eq!(
        parse_decimal("-123456789012345678901234567890123456789012345678901234567890.5"),
        Some(Num::Undefined)
    );
    assert_eq!(
        parse_decimal("000000000000000000000000000000000000000000000000000000000000001"),
        Some(Num::Micro(1_000_000))
    );
}

#[test]
fn what_is_no_decimal_number() {
    for text in ["", ".", "-", "+", "-.", "1.2.3", "1e3", "1 ", " 1", "1-", "--1", "+-1", "12a", "a", "1.5x", "inf", "NaN", "0x10", "١٢"] {
        assert_eq!(parse_decimal(text), None, "{:?}", text);
    }
}

#[test]
fn decimal_numbers_agree_with_the_floats() {
    for text in ["0", "1", "17.25", "-3.5", "1905", "0.125", "1,500.75", "500", "123456.789"] {
        let want: f64 = text.replace(",", "").parse().unwrap();
        assert_eq!(parse_decimal(text), Some(Num::Micro((want * 1e6).round() as i64)), "{}", text);
    }
}

#[test]
fn counts_are_read() {
    assert_eq!(parse_count("0"), Some(0));
    assert_eq!(parse_count("12"), Some(12));
    assert_eq!(parse_count("+12"), Some(12));
    assert_eq!(parse_count("0012"), Some(12));
    assert_eq!(parse_count("1905"), Some(1905));
    assert_eq!(parse_count("4294967295"), Some(u32::MAX));
    assert_eq!(parse_count("4294967296"), None);
    assert_eq!(parse_count("99999999999999999999999999999"), None);
    for text in ["", "+", "-1", "-0", "1.0", "1,000", "12 ", " 12", "a", "++1"] {
        assert_eq!(parse_count(text), None, "{:?}", text);
        assert_eq!(parse_count(text), text.parse::<u32>().ok());
    }
    for text in ["7", "+7", "007", "4294967295", "4294967296"] {
        assert_eq!(parse_count(text), text.parse::<u32>().ok());
    }
}

#[test]
fn percent_of_hundredths() {
    assert_eq!(percent(Num::Micro(25_000_000)), Num::Micro(250_000));
    assert_eq!(percent(Num::Micro(100_000_000)), Num::Micro(1_000_000));
    assert_eq!(percent(Num::Micro(33_333_333)), Num::Micro(333_333));
    assert_eq!(percent(Num::Micro(-50)), Num::Micro(0));
    assert_eq!(percent(Num::Undefined), Num::Undefined);
}

#[test]
fn mounts_on_deck_are_what_is_left() {
    assert_eq!(mounts_on_deck(12, 2, 4, 1, 3, 0), Some(2));
    assert_eq!(mounts_on_deck(10, 2, 4, 1, 3, 0), Some(0));
    assert_eq!(mounts_on_deck(9, 2, 4, 1, 3, 0), None);
    assert_eq!(mounts_on_deck(0, 0, 0, 0, 0, 0), Some(0));
    assert_eq!(mounts_on_deck(u32::MAX, 0, 0, 0, 0, 0), Some(u32::MAX));
    assert_eq!(mounts_on_deck(u32::MAX, u32::MAX, u32::MAX, u32::MAX, u32::MAX, u32::MAX), None);
}
