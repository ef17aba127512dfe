use langbot::bot::{
    interval_fits, next_offset, next_update_time, plan_reminder, reply_to_update, respond, sender_key,
    HandlingError, ScheduleError,
};
use langbot::clock::{DateTime, MAX_SECS};
use langbot::state::UserState;
use langbot::telegram::{IncomingMessage, IncomingUpdate, Recipient};
use langbot::user::{Reply, TelegramUser};

fn refused_writes<T>(r: Result<T, HandlingError>) -> Option<Vec<(String, String)>> {
    match r {
        Err(HandlingError::UnusableInterval { stored }) => {
            Some(stored.into_iter().map(|w| (w.field, w.value)).collect())
        }
        Ok(_) => None,
    }
}

fn at(secs: i64) -> DateTime {
    DateTime { secs, nanos: 0 }
}

fn user(id: &str, state: UserState, next: &str) -> TelegramUser {
    let mut u = TelegramUser::new(id.to_string(), at(0));
    u.current_state = state;
    u.next_word_update_datetime = next.to_string();
    u
}

#[test]
fn commands_change_the_state() {
    let mut u = user("1", UserState::Idle, "x");
    let r = respond(&mut u, "/change_interval", at(0)).unwrap();
    assert_eq!(u.current_state, UserState::IntervalChanging);
    assert!(matches!(r.reply, Reply::Message(None)));
    assert_eq!(r.writes.len(), 1);
    assert_eq!(r.writes[0].field, "current_state");
    assert_eq!(r.writes[0].value, "IntervalChanging");
}

#[test]
fn the_interval_conversation_goes_back_to_idle() {
    let mut u = user("1", UserState::Idle, "x");
    respond(&mut u, "/change_interval", at(0)).unwrap();
    let r = respond(&mut u, "2:00:00", at(0)).unwrap();
    assert!(matches!(&r.reply, Reply::Message(Some(m)) if m == "Interval was changed!"));
    assert_eq!(u.current_state, UserState::Idle);
    assert_eq!(u.word_update_interval, "2:00:00");
    assert_eq!(u.next_word_update_datetime, "1970-01-01 02:00:00");
}

#[test]
fn an_unreadable_interval_is_refused_without_change() {
    let mut u = user("1", UserState::IntervalChanging, "x");
    assert_eq!(refused_writes(respond(&mut u, "99:99:99", at(0))), Some(vec![("word_update_interval".to_string(), "99:99:99".to_string())]));
    assert_eq!(u.current_state, UserState::IntervalChanging);
    assert_eq!(u.word_update_interval, "10:00:00");
    assert_eq!(refused_writes(respond(&mut u, "ab", at(0))), Some(vec![("word_update_interval".to_string(), "00:00:ab".to_string())]));
    assert_eq!(refused_writes(respond(&mut u, "1", at(MAX_SECS))), Some(vec![("word_update_interval".to_string(), "00:00:1".to_string())]));
    assert_eq!(u.word_update_interval, "10:00:00");
    assert!(interval_fits("00:00:00", at(MAX_SECS)));
    assert!(!interval_fits("00:00:01", at(MAX_SECS)));
}

#[test]
fn updates_are_answered_with_the_command() {
    let m = IncomingMessage { sender_id: Some(99), chat_id: 12345, text: Some("/start".to_string()) };
    let reply = reply_to_update(&m);
    assert!(matches!(reply.recipient, Recipient::Chat(12345)));
    assert_eq!(reply.text, "Some(Idle)");
    assert!(reply.keyboard.is_none());
    let with_message = IncomingUpdate { update_id: 41, message: Some(m.clone()) };
    let without = IncomingUpdate { update_id: 50, message: None };
    assert_eq!(next_offset(None, &with_message), Some(42));
    assert_eq!(next_offset(Some(7), &with_message), Some(42));
    assert_eq!(next_offset(Some(42), &without), Some(42));
    assert_eq!(next_offset(None, &without), None);
    let other = IncomingMessage { sender_id: Some(99), chat_id: 1, text: Some("hello".to_string()) };
    assert_eq!(reply_to_update(&other).text, "None");
    assert_eq!(sender_key(&m), "99");
}

#[test]
fn the_earliest_user_is_reminded() {
    assert!(matches!(plan_reminder(Vec::new(), at(0)), Ok(None)));
    let users = vec![
        user("a", UserState::Idle, "1970-01-03 00:00:00"),
        user("b", UserState::Idle, "1970-01-02 00:00:00"),
    ];
    let rem = plan_reminder(users, at(86400)).unwrap().unwrap();
    assert_eq!(rem.user.user_id, "b");
    assert_eq!(rem.user.prev_word_update_datetime, "1970-01-02 00:00:00");
    assert_eq!(rem.user.next_word_update_datetime, "1970-01-02 10:00:00");
    assert_eq!(rem.writes.len(), 2);
    assert!(matches!(&rem.message.recipient, Recipient::Named(id) if id == "b"));
    assert_eq!(rem.message.text, "1970-01-02 10:00:00");
    let mut broken = user("c", UserState::Idle, "1970-01-01 00:00:00");
    broken.word_update_interval = "nope".to_string();
    assert!(matches!(plan_reminder(vec![broken], at(0)), Err(HandlingError::UnusableInterval { stored }) if stored.is_empty()));
}

#[test]
fn the_next_update_is_the_earliest_next_word() {
    assert_eq!(next_update_time(Vec::new()), Err(ScheduleError::NoUsers));
    let users = vec![
        user("a", UserState::Idle, "2024-01-02 03:04:05"),
        user("b", UserState::Idle, "2024-01-03 00:00:00"),
    ];
    assert_eq!(next_update_time(users), Ok(at(1704164645)));
    assert_eq!(
        next_update_time(vec![user("a", UserState::Idle, "soon")]),
        Err(ScheduleError::UnreadableTime)
    );
}
