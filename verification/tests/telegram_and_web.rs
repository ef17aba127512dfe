use langbot::state::UserState;
use langbot::telegram::{
    get_keyboard_from_keys, get_message_params, parse_message, IncomingMessage, Recipient,
    UserCommand,
};
use langbot::web::{get_random_word, translate_text, translation_request, ResponseError};

fn message(text: Option<&str>) -> IncomingMessage {
    IncomingMessage { sender_id: Some(7), chat_id: -5, text: text.map(|t| t.to_string()) }
}

#[test]
fn messages_are_read_as_commands() {
    assert_eq!(message(Some("/start")).parse_command(), Some(UserState::Idle));
    assert_eq!(message(Some("/change_language")).parse_command(), Some(UserState::LanguageChanging));
    assert_eq!(message(Some("hi")).parse_command(), None);
    assert_eq!(parse_message(message(Some("/change_interval"))), Some(UserState::IntervalChanging));
    assert_eq!(parse_message(message(Some("x"))), None);
}

#[test]
fn keys_become_keyboard_rows() {
    let kb = get_keyboard_from_keys(vec![vec!["a", "b"], vec![], vec!["c"]]);
    assert_eq!(kb.rows, vec![vec!["a".to_string(), "b".to_string()], vec![], vec!["c".to_string()]]);
    assert!(get_keyboard_from_keys(vec![]).rows.is_empty());
}

#[test]
fn messages_go_to_the_user_with_their_keys() {
    let m = get_message_params("42".to_string(), "hello", None);
    assert!(matches!(&m.recipient, Recipient::Named(id) if id == "42"));
    assert_eq!(m.text, "hello");
    assert!(m.keyboard.is_none());
    let k = get_message_params("42".to_string(), "pick", Some(vec![vec!["en", "de"]]));
    assert_eq!(k.keyboard.unwrap().rows, vec![vec!["en".to_string(), "de".to_string()]]);
}

#[test]
fn translation_requests_carry_the_text_and_language() {
    let r = translation_request("good morning", "uk");
    assert_eq!(
        r.url,
        "https://microsoft-translator-text.p.rapidapi.com/translate?to%5B0%5D=uk&api-version=3.0&profanityAction=NoAction&textType=plain&"
    );
    assert_eq!(r.body, "[{\"Text\":\"good morning\"}]");
}

#[test]
fn translations_are_taken_from_the_answer() {
    let answer = r#"[{"detectedLanguage":{"language":"en","score":1.0},"translations":[{"text":"Доброго ранку","to":"uk"}]}]"#;
    assert_eq!(translate_text(Some(answer)), Ok(Some("\"Доброго ранку\"".to_string())));
    assert_eq!(translate_text(Some("[]")), Ok(Some("null".to_string())));
    assert_eq!(translate_text(None), Ok(None));
    assert_eq!(translate_text(Some("<html>")), Err(ResponseError::NotJson));
}

#[test]
fn random_words_are_taken_from_the_answer() {
    assert_eq!(get_random_word(Some(r#"{"word": "apple"}"#)), Ok(Some("apple".to_string())));
    assert_eq!(get_random_word(Some(r#"{"word": "say \"hi\""}"#)), Ok(Some("say \\hi\\".to_string())));
    assert_eq!(get_random_word(Some("{}")), Ok(Some("null".to_string())));
    assert_eq!(get_random_word(None), Ok(None));
    assert_eq!(get_random_word(Some("not json")), Err(ResponseError::NotJson));
}
