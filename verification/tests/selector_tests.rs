use crunch::selector::{device_choice, parse_selection};

fn reference(input: &str, len: usize) -> Option<usize> {
    input.trim().parse::<usize>().ok().and_then(|n| if (1..=len).contains(&n) { Some(n - 1) } else { None })
}

#[test]
fn number_selects_item() {
    assert_eq!(parse_selection("2", 3), Some(1));
    assert_eq!(parse_selection("1", 3), Some(0));
    assert_eq!(parse_selection("3", 3), Some(2));
}

#[test]
fn out_of_range_numbers_select_nothing() {
    assert_eq!(parse_selection("0", 3), None);
    assert_eq!(parse_selection("4", 3), None);
    assert_eq!(parse_selection("1", 0), None);
}

#[test]
fn surrounding_whitespace_is_ignored() {
    assert_eq!(parse_selection("  2\n", 3), Some(1));
    assert_eq!(parse_selection("\t3\r\n", 3), Some(2));
    assert_eq!(parse_selection("\u{3000}1\u{a0}", 3), Some(0));
}

#[test]
fn plus_sign_and_leading_zeros_are_accepted() {
    assert_eq!(parse_selection("+2", 3), Some(1));
    assert_eq!(parse_selection("002", 3), Some(1));
}

#[test]
fn non_numbers_select_nothing() {
    for input in ["", "   ", "abc", "-1", "+", "1.0", "2 2", "١", "++1", "1x"] {
        assert_eq!(parse_selection(input, 5), None, "input {:?}", input);
    }
}

#[test]
fn overflowing_numbers_select_nothing() {
    assert_eq!(parse_selection("99999999999999999999999999", usize::MAX), None);
    assert_eq!(parse_selection(&usize::MAX.to_string(), usize::MAX), Some(usize::MAX - 1));
}

#[test]
fn agrees_with_std_parsing() {
    let inputs = [
        "1", " 2 ", "\n3", "4\u{85}", "\u{2009}5", "\u{200b}1", "\u{feff}1", "x", "", "07", "+0", "-0",
        "18446744073709551615", "18446744073709551616", "\u{1680}2\u{202f}", "\u{180e}1",
    ];
    for input in inputs {
        for len in [0usize, 1, 3, 10, usize::MAX] {
            assert_eq!(parse_selection(input, len), reference(input, len), "input {:?} len {}", input, len);
        }
    }
}

#[test]
fn empty_line_picks_the_default() {
    assert_eq!(device_choice("", Some(1), 3), Some(1));
    assert_eq!(device_choice("  \n", Some(0), 3), Some(0));
    assert_eq!(device_choice("", None, 3), None);
}

#[test]
fn number_overrides_the_default() {
    assert_eq!(device_choice("3", Some(0), 3), Some(2));
    assert_eq!(device_choice("9", Some(0), 3), None);
}

#[test]
fn trimming_before_parsing_changes_nothing() {
    for input in [" 2 ", "\t\u{3000}3\n", "x", "", "  +1  "] {
        assert_eq!(parse_selection(input.trim(), 4), parse_selection(input, 4));
    }
}
