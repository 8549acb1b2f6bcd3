use shiryoku::text::{
    byte_len, chars_of, copy_texts, decimal_digits, digit_of, is_text_less, join, parse_i32,
    parse_u32, parse_unsigned, split, trim, zero_pad,
};

const SAMPLES: [&str; 40] = [
    "",
    "0",
    "7",
    "007",
    "+7",
    "-7",
    "+",
    "-",
    "++7",
    "+-7",
    "-+7",
    "--7",
    " 7",
    "7 ",
    "7a",
    "a7",
    "1_000",
    "1.5",
    "１２",
    "٣",
    "4294967295",
    "4294967296",
    "+4294967295",
    "-0",
    "+0",
    "000000000000000000000000000004294967295",
    "2147483647",
    "2147483648",
    "-2147483648",
    "-2147483649",
    "+2147483647",
    "+2147483648",
    "99999999999999999999999999",
    "-99999999999999999999999999",
    "18446744073709551615",
    "18446744073709551616",
    "0x10",
    "1e3",
    "\n5",
    "5\u{0}",
];

#[test]
fn u32_is_read_as_the_standard_library_reads_it() {
    for sample in SAMPLES {
        assert_eq!(parse_u32(sample), sample.parse::<u32>().ok(), "{:?}", sample);
    }
    assert_eq!(parse_u32("31"), Some(31));
    assert_eq!(parse_u32("+0009"), Some(9));
    assert_eq!(parse_u32("-1"), None);
}

#[test]
fn i32_is_read_as_the_standard_library_reads_it() {
    for sample in SAMPLES {
        assert_eq!(parse_i32(sample), sample.parse::<i32>().ok(), "{:?}", sample);
    }
    assert_eq!(parse_i32("-2024"), Some(-2024));
    assert_eq!(parse_i32("-2147483648"), Some(i32::MIN));
    assert_eq!(parse_i32("2147483648"), None);
}

#[test]
fn unsigned_numbers_respect_the_limit() {
    for sample in SAMPLES {
        assert_eq!(parse_unsigned(sample, u64::MAX), sample.parse::<u64>().ok(), "{:?}", sample);
        assert_eq!(
            parse_unsigned(sample, 255),
            sample.parse::<u8>().ok().map(|value| value as u64),
            "{:?}",
            sample
        );
    }
    assert_eq!(parse_unsigned("10", 10), Some(10));
    assert_eq!(parse_unsigned("11", 10), None);
    assert_eq!(parse_unsigned("0", 0), Some(0));
    assert_eq!(parse_unsigned("1", 0), None);
}

#[test]
fn digits_have_their_values() {
    for (value, c) in "0123456789".chars().enumerate() {
        assert_eq!(digit_of(c), Some(value as u64));
    }
    for c in ['/', ':', 'a', ' ', '٣', '１'] {
        assert_eq!(digit_of(c), None);
    }
}

#[test]
fn numbers_are_written_in_decimal() {
    for n in [0u64, 1, 9, 10, 11, 99, 100, 101, 12345, u32::MAX as u64, u64::MAX] {
        let digits: String = decimal_digits(n).into_iter().collect();
        assert_eq!(digits, n.to_string());
        assert_eq!(zero_pad(n, 0), n.to_string());
        assert_eq!(zero_pad(n, 2), format!("{:02}", n));
        assert_eq!(zero_pad(n, 4), format!("{:04}", n));
        assert_eq!(zero_pad(n, 25), format!("{:025}", n));
    }
    assert_eq!(zero_pad(5, 2), "05");
    assert_eq!(zero_pad(0, 4), "0000");
    assert_eq!(zero_pad(123, 2), "123");
}

#[test]
fn written_numbers_are_read_back() {
    for n in [0u32, 5, 42, 1000, u32::MAX] {
        assert_eq!(parse_u32(&zero_pad(n as u64, 0)), Some(n));
        assert_eq!(parse_u32(&zero_pad(n as u64, 12)), Some(n));
    }
}

#[test]
fn split_keeps_empty_pieces() {
    let cases = ["", ",", "a", "a,b", "a,,b", ",a,", ",,", "a, b ,c", "é,ü", "no commas here"];
    for case in cases {
        let expected: Vec<String> = case.split(',').map(|piece| piece.to_string()).collect();
        assert_eq!(split(case, ','), expected, "{:?}", case);
    }
    assert_eq!(split("a;b", ','), vec!["a;b".to_string()]);
    assert_eq!(split("a;b", ';'), vec!["a".to_string(), "b".to_string()]);
    assert_eq!(split(",", ','), vec![String::new(), String::new()]);
}

#[test]
fn trim_removes_whitespace_at_both_ends() {
    let cases = [
        "",
        " ",
        "a",
        " a",
        "a ",
        "  a b  ",
        "\t\n a \r\n",
        "\u{a0}a\u{3000}",
        "\u{2028}x\u{2029}",
        "\u{200b}a",
        "_a_",
        " \u{1680} ",
    ];
    for case in cases {
        assert_eq!(trim(case), case.trim(), "{:?}", case);
    }
    assert_eq!(trim("  a b  "), "a b");
}

#[test]
fn whitespace_is_a_set_of_twenty_five_characters() {
    let mut blanks: Vec<u32> = vec![0x20, 0x85, 0xa0, 0x1680, 0x2028, 0x2029, 0x202f, 0x205f, 0x3000];
    blanks.extend(0x9..=0xd);
    blanks.extend(0x2000..=0x200a);
    assert_eq!(blanks.len(), 25);
    let mut found = 0;
    for code in 0..=0x10ffff_u32 {
        if let Some(c) = char::from_u32(code) {
            let text = format!("{}a{}", c, c);
            let cut = trim(&text);
            if blanks.contains(&code) {
                assert_eq!(cut, "a", "U+{:04X}", code);
                found += 1;
            } else {
                assert_eq!(cut, text, "U+{:04X}", code);
            }
        }
    }
    assert_eq!(found, 25);
}

#[test]
fn join_puts_the_separator_between() {
    let list = |items: &[&str]| -> Vec<String> { items.iter().map(|s| s.to_string()).collect() };
    assert_eq!(join(&list(&[]), ", "), "");
    assert_eq!(join(&list(&["a"]), ", "), "a");
    assert_eq!(join(&list(&["a", "b"]), ", "), "a, b");
    assert_eq!(join(&list(&["a", "", "c"]), " | "), "a |  | c");
    assert_eq!(join(&list(&["", ""]), ";"), ";");
    for items in [&["x", "y", "z"][..], &["one"][..], &[][..]] {
        assert_eq!(join(&list(items), "--"), items.join("--"));
    }
}

#[test]
fn join_undoes_split() {
    for case in ["", "a", "a,b", ",a,,b,"] {
        assert_eq!(join(&split(case, ','), ","), case);
    }
}

#[test]
fn texts_are_ordered_as_strings_are() {
    let samples = ["", "a", "A", "ab", "abc", "b", "é", "z", "2024-01-01", "2024-01-02", "10", "9", "\u{10000}", "\u{ffff}"];
    for left in samples {
        for right in samples {
            assert_eq!(is_text_less(left, right), left < right, "{:?} < {:?}", left, right);
        }
    }
    assert!(is_text_less("2024-06-15T08:30:00Z", "2024-06-15T08:30:01Z"));
    assert!(!is_text_less("b", "a"));
    assert!(!is_text_less("same", "same"));
}

#[test]
fn lengths_are_in_bytes() {
    assert_eq!(byte_len(""), 0);
    assert_eq!(byte_len("ab"), 2);
    assert_eq!(byte_len("é"), 2);
    assert_eq!(byte_len("€"), 3);
    assert_eq!(byte_len("𝄞"), 4);
}

#[test]
fn characters_and_lists_are_copied() {
    assert_eq!(chars_of("aé€"), vec!['a', 'é', '€']);
    assert!(chars_of("").is_empty());
    let list = vec!["x".to_string(), String::new(), "yz".to_string()];
    assert_eq!(copy_texts(&list), list);
}
