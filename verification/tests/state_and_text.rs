use langbot::state::{parse_command, UserState};
use langbot::text::{count_colons, decimal_text, is_text_less, without_quotes};

#[test]
fn commands_select_their_states() {
    assert_eq!(parse_command("/start"), Some(UserState::Idle));
    assert_eq!(parse_command("/change_interval"), Some(UserState::IntervalChanging));
    assert_eq!(parse_command("/change_language"), Some(UserState::LanguageChanging));
}

#[test]
fn other_texts_are_not_commands() {
    assert_eq!(parse_command("hello"), None);
    assert_eq!(parse_command("/start "), None);
    assert_eq!(parse_command(""), None);
    assert_eq!(parse_command("/START"), None);
}

#[test]
fn states_are_named_by_their_variants() {
    assert_eq!(UserState::Idle.to_string(), "Idle");
    assert_eq!(UserState::IntervalChanging.to_string(), "IntervalChanging");
    assert_eq!(UserState::LanguageChanging.to_string(), "LanguageChanging");
}

#[test]
fn colons_are_counted() {
    assert_eq!(count_colons(""), 0);
    assert_eq!(count_colons("10:00:00"), 2);
    assert_eq!(count_colons("::::"), 4);
    assert_eq!(count_colons("ab"), 0);
}

#[test]
fn texts_are_ordered_like_str() {
    let pairs = [
        ("", ""),
        ("", "a"),
        ("a", ""),
        ("abc", "abd"),
        ("abd", "abc"),
        ("ab", "abc"),
        ("2024-01-02 03:04:05", "2024-01-02 03:04:06"),
        ("Z", "a"),
        ("é", "z"),
        ("same", "same"),
    ];
    for (a, b) in pairs {
        assert_eq!(is_text_less(a, b), a < b, "{a:?} < {b:?}");
    }
}

#[test]
fn numbers_are_written_in_decimal() {
    assert_eq!(decimal_text(0), "0");
    assert_eq!(decimal_text(7), "7");
    assert_eq!(decimal_text(10), "10");
    assert_eq!(decimal_text(123456789), "123456789");
    assert_eq!(decimal_text(u64::MAX), u64::MAX.to_string());
}

#[test]
fn quote_marks_are_left_out() {
    assert_eq!(without_quotes("\"apple\""), "apple");
    assert_eq!(without_quotes("a\"b\"c"), "abc");
    assert_eq!(without_quotes("null"), "null");
    assert_eq!(without_quotes(""), "");
}
