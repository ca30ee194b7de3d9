use tp::text::{
    decimal_string, parse_index, same_text, sort_texts, text_precedes, ParseFailure,
};

#[test]
fn numbers_are_written_as_the_standard_library_writes_them() {
    let mut values =
        vec![0usize, 1, 9, 10, 11, 99, 100, 101, 12345, 1_000_000, usize::MAX - 1, usize::MAX];
    let mut power: usize = 1;
    while let Some(next) = power.checked_mul(10) {
        values.push(next - 1);
        values.push(next);
        power = next;
    }
    for value in values {
        assert_eq!(decimal_string(value), value.to_string());
    }
}

#[test]
fn a_written_number_reads_back() {
    for value in [0usize, 7, 10, 42, 1209, usize::MAX] {
        assert_eq!(parse_index(&decimal_string(value)), Ok(value));
    }
}

#[test]
fn an_index_is_a_run_of_digits() {
    assert_eq!(parse_index("0"), Ok(0));
    assert_eq!(parse_index("1"), Ok(1));
    assert_eq!(parse_index("42"), Ok(42));
    assert_eq!(parse_index("007"), Ok(7));
    assert_eq!(parse_index("+5"), Ok(5));
    assert_eq!(parse_index("+0"), Ok(0));
    assert_eq!(parse_index(&usize::MAX.to_string()), Ok(usize::MAX));
}

#[test]
fn an_empty_text_is_no_index() {
    assert_eq!(parse_index(""), Err(ParseFailure::Empty));
}

#[test]
fn anything_but_digits_is_refused() {
    let texts = [
        "+", "-", "-1", "-0", "1 ", " 1", "1\n", "one", "1_000", "0x10", "1.0", "++1", "1+", "٣",
        "１",
    ];
    for text in texts {
        assert_eq!(parse_index(text), Err(ParseFailure::InvalidDigit), "for {text:?}");
    }
}

#[test]
fn a_number_beyond_the_machine_word_is_refused() {
    let max = usize::MAX.to_string();
    let mut next = max.clone().into_bytes();
    let last = next.len() - 1;
    next[last] += 1;
    let next = String::from_utf8(next).unwrap();

    assert_eq!(parse_index(&next), Err(ParseFailure::TooLarge));
    assert_eq!(parse_index(&format!("{max}0")), Err(ParseFailure::TooLarge));
    assert_eq!(parse_index(&format!("+{max}1")), Err(ParseFailure::TooLarge));
    assert_eq!(parse_index(&format!("000{max}")), Ok(usize::MAX));
}

#[test]
fn the_first_obstacle_decides_the_failure() {
    let max = usize::MAX.to_string();

    assert_eq!(parse_index(&format!("{max}9x")), Err(ParseFailure::TooLarge));
    assert_eq!(parse_index(&format!("{max}x9")), Err(ParseFailure::InvalidDigit));
    assert_eq!(parse_index(&format!("x{max}9")), Err(ParseFailure::InvalidDigit));
}

#[test]
fn indices_are_read_as_the_standard_library_reads_them() {
    let max = usize::MAX.to_string();
    let texts = vec![
        "".to_string(),
        "0".to_string(),
        "+".to_string(),
        "-".to_string(),
        "+1".to_string(),
        "-1".to_string(),
        "12a".to_string(),
        "a12".to_string(),
        " 12".to_string(),
        "12 ".to_string(),
        "0012".to_string(),
        "1_2".to_string(),
        "+-1".to_string(),
        "٣".to_string(),
        max.clone(),
        format!("{max}0"),
        format!("{max}a"),
        format!("{max}0a"),
        format!("1{max}"),
        format!("+{max}"),
        format!("0{max}"),
    ];
    for text in texts {
        let expected = text.parse::<usize>().map_err(|error| error.to_string());
        let actual = parse_index(&text).map_err(|failure| failure.message());
        assert_eq!(actual, expected, "for {text:?}");
    }
}

#[test]
fn failures_say_what_went_wrong() {
    assert_eq!(ParseFailure::Empty.message(), "cannot parse integer from empty string");
    assert_eq!(ParseFailure::InvalidDigit.message(), "invalid digit found in string");
    assert_eq!(ParseFailure::TooLarge.message(), "number too large to fit in target type");
}

#[test]
fn texts_are_the_same_when_their_characters_are() {
    assert!(same_text("", ""));
    assert!(same_text("żółw", "żółw"));
    assert!(!same_text("a", "A"));
    assert!(!same_text("a", "ab"));
}

#[test]
fn texts_are_ordered_as_the_standard_library_orders_them() {
    let texts = ["", "a", "A", "ab", "b", "aa", "é", "e", "z", "zz", "żółw", "0", "10", "9"];
    for first in texts {
        for second in texts {
            assert_eq!(text_precedes(first, second), first <= second, "{first:?} {second:?}");
        }
    }
}

#[test]
fn sorting_keeps_every_text_and_puts_them_in_order() {
    let texts: Vec<String> =
        ["b", "ab", "", "a", "B", "a", "é", "10", "9"].iter().map(|t| t.to_string()).collect();
    let mut expected = texts.clone();
    expected.sort();

    assert_eq!(sort_texts(&texts), expected);
    assert_eq!(sort_texts(&expected), expected);
    assert!(sort_texts(&Vec::new()).is_empty());
}
