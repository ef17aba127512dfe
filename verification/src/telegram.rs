//! Chat messages as the bot reads and writes them: the commands in incoming
//! messages, and the outgoing messages with their reply keyboards.

use crate::state::{command_state, parse_command, UserState};
use vstd::prelude::*;

verus! {

/// An incoming chat message: who sent it, in which chat, and its text if it has one.
#[derive(Debug, Clone)]
pub struct IncomingMessage {
    pub sender_id: Option<u64>,
    pub chat_id: i64,
    pub text: Option<String>,
}

/// An incoming update: its number, and the chat message it carries, if it carries one.
#[derive(Debug, Clone)]
pub struct IncomingUpdate {
    pub update_id: u32,
    pub message: Option<IncomingMessage>,
}

/// Where an outgoing message goes: a chat by its number, or by a text id.
#[derive(Debug, Clone)]
pub enum Recipient {
    Chat(i64),
    Named(String),
}

/// A reply keyboard: rows of buttons, each with its label.
#[derive(Debug, Clone)]
pub struct Keyboard {
    pub rows: Vec<Vec<String>>,
}

/// An outgoing chat message.
#[derive(Debug, Clone)]
pub struct OutgoingMessage {
    pub recipient: Recipient,
    pub text: String,
    pub keyboard: Option<Keyboard>,
}

/// Reads the command in a message.
pub trait UserCommand {
    /// The text that the command is read from, if there is one.
    spec fn command_source(&self) -> Option<Seq<char>>;

    /// The state that the message's text selects, if it is a command.
    fn parse_command(&self) -> (r: Option<UserState>)
        requires
            self.command_source() is Some,
        ensures
            r == command_state(self.command_source()->0),
    ;
}

impl UserCommand for IncomingMessage {
    open spec fn command_source(&self) -> Option<Seq<char>> {
        match &self.text {
            Some(t) => Some(t@),
            None => None,
        }
    }

    fn parse_command(&self) -> (r: Option<UserState>) {
        match &self.text {
            Some(t) => parse_command(t.as_str()),
            None => None,
        }
    }
}

/// A message's command is read from its text, so reading the command of a message
/// with `parse_message` and with `UserCommand::parse_command` gives the same state.
pub proof fn lemma_message_command_source(message: IncomingMessage)
    requires
        message.text is Some,
    ensures
        message.command_source() == Some(message.text->0@),
        command_state(message.command_source()->0) == command_state(message.text->0@),
{
}

/// The keyboard's labels row by row match the keys.
pub open spec fn keyboard_matches(rows: Seq<Vec<String>>, keys: Seq<Vec<&str>>) -> bool {
    &&& rows.len() == keys.len()
    &&& forall|i: int|
        0 <= i < rows.len() ==> {
            &&& (#[trigger] rows[i])@.len() == keys[i]@.len()
            &&& forall|j: int| 0 <= j < rows[i]@.len() ==> (#[trigger] rows[i]@[j])@ == keys[i]@[j]@
        }
}

/// The outgoing message to `user_id` with `message` and, if keys are given, a
/// keyboard of them.
pub open spec fn message_params_match(
    r: OutgoingMessage,
    user_id: Seq<char>,
    message: Seq<char>,
    keys: Option<Vec<Vec<&str>>>,
) -> bool {
    &&& r.recipient matches Recipient::Named(id) && id@ == user_id
    &&& r.text@ == message
    &&& match keys {
        Some(k) => r.keyboard matches Some(kb) && keyboard_matches(kb.rows@, k@),
        None => r.keyboard is None,
    }
}

/// The state that a message's text selects; the message must have a text.
pub fn parse_message(message: IncomingMessage) -> (r: Option<UserState>)
    requires
        message.text is Some,
    ensures
        r == command_state(message.text->0@),
{
    message.parse_command()
}

/// A reply keyboard with a button for each key, row by row.
pub fn get_keyboard_from_keys(keys: Vec<Vec<&str>>) -> (r: Keyboard)
    ensures
        keyboard_matches(r.rows@, keys@),
{
    let mut keyboard: Vec<Vec<String>> = Vec::new();
    let mut i: usize = 0;
    while i < keys.len()
        invariant
            i <= keys.len(),
            keyboard_matches(keyboard@, keys@.take(i as int)),
        decreases keys.len() - i,
    {
        let mut row: Vec<String> = Vec::new();
        let mut j: usize = 0;
        while j < keys[i].len()
            invariant
                i < keys.len(),
                j <= keys[i as int]@.len(),
                row@.len() == j,
                forall|k: int| 0 <= k < j ==> (#[trigger] row@[k])@ == keys[i as int]@[k]@,
            decreases keys[i as int]@.len() - j,
        {
            row.push(String::from_str(keys[i][j]));
            j = j + 1;
        }
        keyboard.push(row);
        i = i + 1;
        assert(keyboard_matches(keyboard@, keys@.take(i as int)));
    }
    assert(keys@.take(keys.len() as int) =~= keys@);
    Keyboard { rows: keyboard }
}

/// The message to a user, with a keyboard of the keys when they are given.
pub fn get_message_params(user_id: String, message: &str, keys: Option<Vec<Vec<&str>>>) -> (r:
    OutgoingMessage)
    ensures
        message_params_match(r, user_id@, message@, keys),
{
    match keys {
        Some(keys) => OutgoingMessage {
            recipient: Recipient::Named(user_id),
            text: String::from_str(message),
            keyboard: Some(get_keyboard_from_keys(keys)),
        },
        None => OutgoingMessage {
            recipient: Recipient::Named(user_id),
            text: String::from_str(message),
            keyboard: None,
        },
    }
}

} // verus!
