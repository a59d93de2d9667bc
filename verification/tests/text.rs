use blunux_installer::text::{
    chars_of, glue, glue3, decimal_text, digit_char, holds, join_range, matches_at,
    parse_digits, parse_number, same_text, space, split, split_words, str_contains,
    str_starts_with, trim_bounds, trimmed,
};

#[test]
fn chars_of_gives_every_character() {
    assert_eq!(chars_of("a\u{e9}\u{4e2d}"), vec!['a', '\u{e9}', '\u{4e2d}']);
    assert_eq!(chars_of(""), Vec::<char>::new());
}

#[test]
fn same_text_compares_contents() {
    assert!(same_text("nmbl", "nmbl"));
    assert!(!same_text("nmbl", "grub"));
    assert!(!same_text("nmbl", "nmbl "));
    assert!(same_text("", ""));
}

#[test]
fn concat_joins_in_order() {
    assert_eq!(glue("/mnt", "/etc/fstab"), "/mnt/etc/fstab");
    assert_eq!(glue3("a", "", "c"), "ac");
    assert_eq!(glue3("/dev/nvme0n1", "p", "2"), "/dev/nvme0n1p2");
}

#[test]
fn contains_agrees_with_std() {
    let texts = ["", "a", "nvidia", "xxnvidiaxx", "nvidi", "ananas", "\u{e9}t\u{e9}", "aab"];
    let patterns = ["", "a", "nvidia", "an", "nas", "\u{e9}", "t\u{e9}", "ab", "b", "zz"];
    for text in texts {
        for pattern in patterns {
            assert_eq!(str_contains(text, pattern), text.contains(pattern), "{text:?} {pattern:?}");
            assert_eq!(
                str_starts_with(text, pattern),
                text.starts_with(pattern),
                "{text:?} {pattern:?}"
            );
            assert_eq!(holds(&chars_of(text), pattern), text.contains(pattern));
        }
    }
}

#[test]
fn matches_at_checks_one_position() {
    let text = chars_of("abcabc");
    let pattern = chars_of("bc");
    assert!(!matches_at(&text, &pattern, 0));
    assert!(matches_at(&text, &pattern, 1));
    assert!(matches_at(&text, &pattern, 4));
    assert!(!matches_at(&text, &pattern, 5));
    assert!(!matches_at(&text, &pattern, 100));
    assert!(matches_at(&text, &Vec::new(), 6));
    assert!(!matches_at(&text, &Vec::new(), 7));
}

#[test]
fn space_agrees_with_std_for_every_character() {
    let mut code: u32 = 0;
    while code <= 0x10FFFF {
        if let Some(c) = char::from_u32(code) {
            assert_eq!(space(c), c.is_whitespace(), "U+{code:04X}");
        }
        code += 1;
    }
}

#[test]
fn digit_char_agrees_with_std_for_every_character() {
    let mut code: u32 = 0;
    while code <= 0x10FFFF {
        if let Some(c) = char::from_u32(code) {
            assert_eq!(digit_char(c), c.is_ascii_digit(), "U+{code:04X}");
        }
        code += 1;
    }
}

#[test]
fn trimmed_agrees_with_std() {
    let samples = [
        "",
        " ",
        "\n",
        "abc",
        "  abc",
        "abc  ",
        " \t abc def \r\n",
        "\u{a0}x\u{3000}",
        "a b",
        "   ",
        "8192\n",
    ];
    for sample in samples {
        assert_eq!(trimmed(sample), sample.trim(), "{sample:?}");
    }
}

#[test]
fn trim_bounds_trims_inside_a_range() {
    let chars = chars_of("xx  ab  yy");
    assert_eq!(trim_bounds(&chars, 2, 8), (4, 6));
    assert_eq!(trim_bounds(&chars, 0, 10), (0, 10));
    assert_eq!(trim_bounds(&chars, 2, 4), (4, 4));
    assert_eq!(trim_bounds(&chars, 3, 3), (3, 3));
}

#[test]
fn split_gives_one_more_piece_than_separators() {
    assert_eq!(split("", '\n'), vec![""]);
    assert_eq!(split("a", '\n'), vec!["a"]);
    assert_eq!(split("a\nb", '\n'), vec!["a", "b"]);
    assert_eq!(split("a\nb\n", '\n'), vec!["a", "b", ""]);
    assert_eq!(split("\n\n", '\n'), vec!["", "", ""]);
    assert_eq!(split("a,b,,c", ','), vec!["a", "b", "", "c"]);
}

#[test]
fn split_agrees_with_std() {
    let samples = ["", "a", "a\nb", "\n", "a\n\nb\n", "sda\nsda1\nsda2\n", "\u{e9}\n\u{4e2d}"];
    for sample in samples {
        let expected: Vec<&str> = sample.split('\n').collect();
        assert_eq!(split(sample, '\n'), expected, "{sample:?}");
    }
}

#[test]
fn split_words_agrees_with_std() {
    let samples = [
        "",
        "   ",
        "a",
        " a ",
        "a b",
        "a  b\tc\n",
        "sda 465.8G Samsung SSD 860 disk",
        "\u{a0}x\u{3000}y",
        "x ",
        " x",
    ];
    for sample in samples {
        let expected: Vec<&str> = sample.split_whitespace().collect();
        assert_eq!(split_words(sample), expected, "{sample:?}");
    }
}

#[test]
fn join_range_joins_a_part_of_the_list() {
    let parts: Vec<String> = ["a", "b", "c", "d"].iter().map(|s| s.to_string()).collect();
    assert_eq!(join_range(&parts, 0, 4, " "), "a b c d");
    assert_eq!(join_range(&parts, 1, 3, ", "), "b, c");
    assert_eq!(join_range(&parts, 2, 3, " "), "c");
    assert_eq!(join_range(&parts, 2, 2, " "), "");
}

#[test]
fn decimal_text_agrees_with_std() {
    for n in [0u64, 1, 9, 10, 11, 99, 100, 4096, 8192, 16384, 1234567890, u64::MAX] {
        assert_eq!(decimal_text(n), n.to_string());
    }
}

#[test]
fn parse_number_agrees_with_std() {
    let samples = [
        "",
        "+",
        "-",
        "0",
        "+0",
        "-0",
        "007",
        "8192",
        "+8192",
        "++1",
        "1+",
        " 1",
        "1 ",
        "12a",
        "a12",
        "18446744073709551615",
        "18446744073709551616",
        "99999999999999999999999",
        "00000000000000000000000001",
        "٣",
        "1.5",
    ];
    for sample in samples {
        let chars = chars_of(sample);
        assert_eq!(
            parse_number(&chars, 0, chars.len()),
            sample.parse::<u64>().ok(),
            "{sample:?}"
        );
    }
}

#[test]
fn parse_digits_takes_no_sign() {
    let chars = chars_of("+12");
    assert_eq!(parse_digits(&chars, 0, 3), None);
    assert_eq!(parse_digits(&chars, 1, 3), Some(12));
    assert_eq!(parse_digits(&chars, 1, 1), None);
    assert_eq!(parse_digits(&chars, 2, 3), Some(2));
}
