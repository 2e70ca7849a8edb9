use spotify_player::text::{decimal_string, join_keys, unmarked_lines, ListLine};

#[test]
fn numbers_are_written_in_decimal() {
    assert_eq!(decimal_string(0), "0");
    assert_eq!(decimal_string(7), "7");
    assert_eq!(decimal_string(10), "10");
    assert_eq!(decimal_string(90210), "90210");
    assert_eq!(decimal_string(usize::MAX), usize::MAX.to_string());
}

#[test]
fn keys_are_joined_by_single_spaces() {
    assert_eq!(join_keys(&vec![]), "");
    assert_eq!(join_keys(&vec!["g".to_string()]), "g");
    assert_eq!(join_keys(&vec!["g".to_string(), "C-c".to_string(), "x".to_string()]), "g C-c x");
}

#[test]
fn texts_become_unmarked_lines() {
    assert_eq!(
        unmarked_lines(&vec!["a".to_string(), "b".to_string()]),
        vec![ListLine { text: "a".to_string(), marked: false }, ListLine { text: "b".to_string(), marked: false }]
    );
}
