use luzbot::hours::parse_hour_range;

/// The same reading by the standard library: part at the dashes, read every
/// piece as a number of eight bits, and take the first two.
fn by_std(text: &str) -> Option<(u8, u8)> {
    let hours: Option<Vec<u8>> = text.split('-').map(|piece| piece.parse::<u8>().ok()).collect();
    let hours = hours?;
    if hours.len() >= 2 {
        Some((hours[0], hours[1]))
    } else {
        None
    }
}

#[test]
fn windows_of_the_day_are_read() {
    assert_eq!(parse_hour_range("00-01"), Some((0, 1)));
    assert_eq!(parse_hour_range("2-5"), Some((2, 5)));
    assert_eq!(parse_hour_range("08-09"), Some((8, 9)));
    assert_eq!(parse_hour_range("13-14"), Some((13, 14)));
    assert_eq!(parse_hour_range("23-24"), Some((23, 24)));
}

#[test]
fn every_hour_of_the_day_is_read() {
    for start in 0u8..24 {
        let text = format!("{:02}-{:02}", start, start + 1);
        assert_eq!(parse_hour_range(&text), Some((start, start + 1)));
    }
}

#[test]
fn numbers_up_to_eight_bits_are_read() {
    assert_eq!(parse_hour_range("255-0"), Some((255, 0)));
    assert_eq!(parse_hour_range("0-255"), Some((0, 255)));
    assert_eq!(parse_hour_range("256-0"), None);
    assert_eq!(parse_hour_range("0-256"), None);
    assert_eq!(parse_hour_range("1000-1"), None);
    assert_eq!(parse_hour_range("99999999999999999999999999-1"), None);
}

#[test]
fn leading_zeros_do_not_count() {
    assert_eq!(parse_hour_range("007-0008"), Some((7, 8)));
    assert_eq!(parse_hour_range("00000000000000000000000000255-1"), Some((255, 1)));
    assert_eq!(parse_hour_range("00000000000000000000000000256-1"), None);
}

#[test]
fn a_plus_sign_may_stand_before_the_digits() {
    assert_eq!(parse_hour_range("+1-+2"), Some((1, 2)));
    assert_eq!(parse_hour_range("+1-2"), Some((1, 2)));
    assert_eq!(parse_hour_range("+-2"), None);
    assert_eq!(parse_hour_range("++1-2"), None);
    assert_eq!(parse_hour_range("1+-2"), None);
    assert_eq!(parse_hour_range("1-2+"), None);
    assert_eq!(parse_hour_range("+"), None);
}

#[test]
fn fewer_than_two_pieces_is_no_window() {
    assert_eq!(parse_hour_range(""), None);
    assert_eq!(parse_hour_range("5"), None);
    assert_eq!(parse_hour_range("12"), None);
}

#[test]
fn an_empty_piece_is_no_hour() {
    assert_eq!(parse_hour_range("-"), None);
    assert_eq!(parse_hour_range("1-"), None);
    assert_eq!(parse_hour_range("-1"), None);
    assert_eq!(parse_hour_range("1--2"), None);
    assert_eq!(parse_hour_range("1-2-"), None);
}

#[test]
fn pieces_after_the_second_must_be_hours_too() {
    assert_eq!(parse_hour_range("1-2-3"), Some((1, 2)));
    assert_eq!(parse_hour_range("1-2-3-4-5"), Some((1, 2)));
    assert_eq!(parse_hour_range("1-2-x"), None);
    assert_eq!(parse_hour_range("1-2-300"), None);
}

#[test]
fn other_characters_are_no_digits() {
    assert_eq!(parse_hour_range(" 1-2"), None);
    assert_eq!(parse_hour_range("1 -2"), None);
    assert_eq!(parse_hour_range("1-2 "), None);
    assert_eq!(parse_hour_range("a-b"), None);
    assert_eq!(parse_hour_range("1:2"), None);
    assert_eq!(parse_hour_range("1–2"), None);
    assert_eq!(parse_hour_range("١-٢"), None);
    assert_eq!(parse_hour_range("1-２"), None);
    assert_eq!(parse_hour_range("€-1"), None);
}

#[test]
fn reading_agrees_with_the_standard_library() {
    let alphabet = ['0', '1', '2', '5', '9', '-', '+', ' ', 'x', '٣'];
    let mut texts: Vec<String> = vec![String::new()];
    let mut last: Vec<String> = vec![String::new()];
    for _ in 0..5 {
        let mut next: Vec<String> = Vec::new();
        for text in &last {
            for c in alphabet {
                let mut longer = text.clone();
                longer.push(c);
                next.push(longer);
            }
        }
        texts.extend(next.iter().cloned());
        last = next;
    }
    assert_eq!(texts.len(), 111_111);
    let mut windows = 0;
    for text in &texts {
        let read = parse_hour_range(text);
        assert_eq!(read, by_std(text), "on {text:?}");
        if read.is_some() {
            windows += 1;
        }
    }
    assert!(windows > 0);
}
