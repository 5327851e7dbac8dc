use tipro_midi::number::{is_decimal_digit, is_whitespace, parse_index, trim_bounds};
use tipro_midi::port::{needs_choice, select_port, select_port_by_text, SelectionError};

#[test]
fn only_port_is_chosen_without_asking() {
    assert!(!needs_choice(1));
    assert_eq!(select_port(1, None), Ok(0));
    assert_eq!(select_port(1, Some(7)), Ok(0));
    assert_eq!(select_port_by_text(1, "nonsense"), Ok(0));
    assert_eq!(select_port_by_text(1, ""), Ok(0));
}

#[test]
fn no_port_is_an_error() {
    assert!(!needs_choice(0));
    assert_eq!(select_port(0, None), Err(SelectionError::NoPorts));
    assert_eq!(select_port(0, Some(0)), Err(SelectionError::NoPorts));
    assert_eq!(select_port_by_text(0, "0"), Err(SelectionError::NoPorts));
}

#[test]
fn several_ports_need_a_choice() {
    assert!(needs_choice(2));
    assert!(needs_choice(usize::MAX));
    assert_eq!(select_port(2, None), Err(SelectionError::ChoiceRequired));
    assert_eq!(select_port(3, Some(0)), Ok(0));
    assert_eq!(select_port(3, Some(2)), Ok(2));
    assert_eq!(select_port(3, Some(3)), Err(SelectionError::OutOfRange));
    assert_eq!(select_port(3, Some(usize::MAX)), Err(SelectionError::OutOfRange));
}

#[test]
fn choice_as_typed() {
    assert_eq!(select_port_by_text(3, "1\n"), Ok(1));
    assert_eq!(select_port_by_text(3, "  2  \r\n"), Ok(2));
    assert_eq!(select_port_by_text(3, "+0"), Ok(0));
    assert_eq!(select_port_by_text(3, "3\n"), Err(SelectionError::OutOfRange));
    assert_eq!(select_port_by_text(3, "\n"), Err(SelectionError::NotAnIndex));
    assert_eq!(select_port_by_text(3, "one\n"), Err(SelectionError::NotAnIndex));
    assert_eq!(select_port_by_text(3, "-1\n"), Err(SelectionError::NotAnIndex));
    assert_eq!(select_port_by_text(3, "1 2\n"), Err(SelectionError::NotAnIndex));
    assert_eq!(
        select_port_by_text(3, "99999999999999999999999999999999\n"),
        Err(SelectionError::NotAnIndex)
    );
}

#[test]
fn parse_index_values() {
    assert_eq!(parse_index("0"), Some(0));
    assert_eq!(parse_index("7"), Some(7));
    assert_eq!(parse_index("007"), Some(7));
    assert_eq!(parse_index("1234"), Some(1234));
    assert_eq!(parse_index("+15"), Some(15));
    assert_eq!(parse_index(" \t42\n"), Some(42));
    assert_eq!(parse_index(""), None);
    assert_eq!(parse_index("   "), None);
    assert_eq!(parse_index("+"), None);
    assert_eq!(parse_index("-"), None);
    assert_eq!(parse_index("++1"), None);
    assert_eq!(parse_index("+ 1"), None);
    assert_eq!(parse_index("1_000"), None);
    assert_eq!(parse_index("1.0"), None);
    assert_eq!(parse_index("0x10"), None);
}

#[test]
fn parse_index_at_the_word_limit() {
    let max = usize::MAX.to_string();
    assert_eq!(parse_index(&max), Some(usize::MAX));
    let mut over = max.clone();
    over.push('0');
    assert_eq!(parse_index(&over), None);
    let mut digits: Vec<char> = max.chars().collect();
    let last = digits.len() - 1;
    digits[last] = char::from_u32(digits[last] as u32 + 1).unwrap();
    let next: String = digits.into_iter().collect();
    assert_eq!(parse_index(&next), None);
    let mut padded = String::from("0000000000000000000000000000000");
    padded.push_str(&max);
    assert_eq!(parse_index(&padded), Some(usize::MAX));
}

#[test]
fn parse_index_agrees_with_trim_and_parse() {
    let samples = [
        "", " ", "0", "1", " 1", "1 ", "\t1\n", "\r\n", "12\r\n", "+3", "+", "-3", "-0", "+-3",
        "3+", "1 2", "a", "1a", "a1", "٣", "１", "\u{a0}5\u{a0}", "\u{2003}8", "9\u{3000}",
        "\u{85}4\u{85}", "\u{1680}6", "\u{200b}7", "\u{feff}7", "18446744073709551615",
        "18446744073709551616", "4294967295", "4294967296", "00000000000000000000000000001",
        "\u{b}\u{c}10\u{2028}\u{2029}", "\u{202f}11\u{205f}", "\u{1c}12\u{1f}", "é", "5é",
    ];
    for text in samples.iter() {
        let expected: Option<usize> = text.trim().parse::<usize>().ok();
        assert_eq!(parse_index(text), expected, "text {:?}", text);
    }
}

#[test]
fn white_space_agrees_with_the_standard_library() {
    let mut code: u32 = 0;
    while code <= 0x10ffff {
        if let Some(c) = char::from_u32(code) {
            assert_eq!(is_whitespace(c), c.is_whitespace(), "code {:x}", code);
            assert_eq!(is_decimal_digit(c), c.is_ascii_digit(), "code {:x}", code);
        }
        code += 1;
    }
}

#[test]
fn trim_bounds_count_characters() {
    assert_eq!(trim_bounds(""), (0, 0));
    assert_eq!(trim_bounds("abc"), (0, 3));
    assert_eq!(trim_bounds("  abc "), (2, 5));
    assert_eq!(trim_bounds("   "), (3, 3));
    assert_eq!(trim_bounds(" a b "), (1, 4));
    assert_eq!(trim_bounds("\u{3000}é\u{3000}\n"), (1, 2));
}
