use langbot::clock::{DateTime, MAX_SECS};
use langbot::state::UserState;
use langbot::user::{normalize_interval, FieldUpdate, Reply, TelegramUser};

fn at(secs: i64) -> DateTime {
    DateTime { secs, nanos: 0 }
}

fn writes(w: &[FieldUpdate]) -> Vec<(String, String)> {
    w.iter().map(|f| (f.field.clone(), f.value.clone())).collect()
}

fn pairs(p: &[(&str, &str)]) -> Vec<(String, String)> {
    p.iter().map(|(a, b)| (a.to_string(), b.to_string())).collect()
}

fn user_in(state: UserState, next: &str) -> TelegramUser {
    let mut u = TelegramUser::new("42".to_string(), at(0));
    u.current_state = state;
    u.next_word_update_datetime = next.to_string();
    u
}

#[test]
fn a_new_user_waits_ten_hours() {
    let u = TelegramUser::new("1001".to_string(), at(1704164645));
    assert_eq!(u.user_id, "1001");
    assert!(u.chosen_languages.is_empty());
    assert_eq!(u.word_update_interval, "10:00:00");
    assert_eq!(u.prev_word_update_datetime, "2024-01-02 03:04:05");
    assert_eq!(u.next_word_update_datetime, "2024-01-02 13:04:05");
    assert_eq!(u.current_state, UserState::Idle);
    assert_eq!(u.creating_datetime, "2024-01-02 03:04:05");
}

#[test]
fn intervals_are_completed_to_three_parts() {
    assert_eq!(normalize_interval("12:30:15").as_deref(), Some("12:30:15"));
    assert_eq!(normalize_interval("30:15").as_deref(), Some("00:30:15"));
    assert_eq!(normalize_interval("15").as_deref(), Some("00:00:15"));
    assert_eq!(normalize_interval("").as_deref(), Some("00:00:"));
    assert_eq!(normalize_interval("1:2:3:4"), None);
    let once = normalize_interval("5").unwrap();
    assert_eq!(normalize_interval(&once).unwrap(), once);
}

#[test]
fn changing_state_writes_the_state() {
    let mut u = user_in(UserState::Idle, "x");
    let r = u.change_state(UserState::LanguageChanging);
    assert_eq!(u.current_state, UserState::LanguageChanging);
    assert!(matches!(r.reply, Reply::Message(None)));
    assert_eq!(writes(&r.writes), pairs(&[("current_state", "LanguageChanging")]));
}

#[test]
fn an_idle_user_gets_a_translation() {
    let mut u = user_in(UserState::Idle, "x");
    let r = u.change_params("good morning", at(0));
    match r.reply {
        Reply::Translate { text, language } => {
            assert_eq!(text, "good morning");
            assert_eq!(language, "uk");
        }
        _ => panic!("expected a translation"),
    }
    assert!(r.writes.is_empty());
    assert_eq!(u.current_state, UserState::Idle);
}

#[test]
fn a_new_interval_is_set_and_the_next_word_rescheduled() {
    let mut u = user_in(UserState::IntervalChanging, "x");
    let r = u.change_params("1:30", at(1704164645));
    assert!(matches!(&r.reply, Reply::Message(Some(m)) if m == "Interval was changed!"));
    assert_eq!(u.word_update_interval, "00:1:30");
    assert_eq!(u.prev_word_update_datetime, "2024-01-02 03:04:05");
    assert_eq!(u.next_word_update_datetime, "2024-01-02 03:05:35");
    assert_eq!(u.current_state, UserState::Idle);
    assert_eq!(
        writes(&r.writes),
        pairs(&[
            ("word_update_interval", "00:1:30"),
            ("prev_word_update_datetime", "2024-01-02 03:04:05"),
            ("next_word_update_datetime", "2024-01-02 03:05:35"),
            ("current_state", "Idle"),
        ])
    );
}

#[test]
fn an_interval_of_too_many_parts_is_refused() {
    let mut u = user_in(UserState::IntervalChanging, "x");
    let r = u.change_params("1:2:3:4", at(0));
    assert!(matches!(&r.reply, Reply::Message(Some(m)) if m == "Interval changing error!"));
    assert!(r.writes.is_empty());
    assert_eq!(u.current_state, UserState::IntervalChanging);
    assert_eq!(u.word_update_interval, "10:00:00");
}

#[test]
fn a_user_changing_language_gets_no_answer() {
    let mut u = user_in(UserState::LanguageChanging, "x");
    let r = u.change_params("de", at(0));
    assert!(matches!(r.reply, Reply::Message(None)));
    assert!(r.writes.is_empty());
    assert_eq!(u.current_state, UserState::LanguageChanging);
}

#[test]
fn rescheduling_uses_the_interval() {
    let mut u = user_in(UserState::Idle, "x");
    u.word_update_interval = "01:00:01".to_string();
    let w = u.change_next_word_update_datetime(at(0));
    assert_eq!(u.prev_word_update_datetime, "1970-01-01 00:00:00");
    assert_eq!(u.next_word_update_datetime, "1970-01-01 01:00:01");
    assert_eq!(
        writes(&w),
        pairs(&[
            ("prev_word_update_datetime", "1970-01-01 00:00:00"),
            ("next_word_update_datetime", "1970-01-01 01:00:01"),
        ])
    );
    let mut late = user_in(UserState::Idle, "x");
    late.word_update_interval = "00:00:01".to_string();
    late.change_next_word_update_datetime(at(MAX_SECS - 1));
    assert_eq!(late.next_word_update_datetime, "+262142-12-31 23:59:59");
}

#[test]
fn the_first_earliest_user_is_chosen() {
    assert!(TelegramUser::get_with_closer_update(Vec::new()).is_none());
    let mut a = user_in(UserState::Idle, "2024-01-02 03:04:05");
    a.user_id = "a".to_string();
    let mut b = user_in(UserState::Idle, "2024-01-01 00:00:00");
    b.user_id = "b".to_string();
    let mut c = user_in(UserState::Idle, "2024-01-01 00:00:00");
    c.user_id = "c".to_string();
    let mut d = user_in(UserState::Idle, "2025-01-01 00:00:00");
    d.user_id = "d".to_string();
    let chosen = TelegramUser::get_with_closer_update(vec![a, b, c, d]).unwrap();
    assert_eq!(chosen.user_id, "b");
    let only = user_in(UserState::Idle, "z");
    assert_eq!(TelegramUser::get_with_closer_update(vec![only]).unwrap().next_word_update_datetime, "z");
}
