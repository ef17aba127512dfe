//! The conversation states of a user and the chat commands that select them.

use vstd::prelude::*;

verus! {

/// The conversation state a user of the bot is in.
#[derive(Debug, Clone, Copy, PartialEq, Eq, Structural)]
pub enum UserState {
    Idle,
    IntervalChanging,
    LanguageChanging,
}

/// The text under which a state is stored and shown: its variant name.
pub open spec fn state_name(state: UserState) -> Seq<char> {
    match state {
        UserState::Idle => "Idle"@,
        UserState::IntervalChanging => "IntervalChanging"@,
        UserState::LanguageChanging => "LanguageChanging"@,
    }
}

/// The chat command that moves a user into a state.
pub open spec fn command_text(state: UserState) -> Seq<char> {
    match state {
        UserState::Idle => "/start"@,
        UserState::IntervalChanging => "/change_interval"@,
        UserState::LanguageChanging => "/change_language"@,
    }
}

/// The state that a chat text selects, if the text is exactly one of the commands.
pub open spec fn command_state(text: Seq<char>) -> Option<UserState> {
    if text == command_text(UserState::Idle) {
        Some(UserState::Idle)
    } else if text == command_text(UserState::IntervalChanging) {
        Some(UserState::IntervalChanging)
    } else if text == command_text(UserState::LanguageChanging) {
        Some(UserState::LanguageChanging)
    } else {
        None
    }
}

impl UserState {
    /// The state's name, as it is written to the user's stored record.
    pub fn to_string(&self) -> (r: String)
        ensures
            r@ == state_name(*self),
    {
        match self {
            UserState::Idle => String::from_str("Idle"),
            UserState::IntervalChanging => String::from_str("IntervalChanging"),
            UserState::LanguageChanging => String::from_str("LanguageChanging"),
        }
    }
}

/// Reads a chat text as a command: the state it selects, or `None` for any other text.
pub fn parse_command(text: &str) -> (r: Option<UserState>)
    ensures
        r == command_state(text@),
{
    let t = String::from_str(text);
    if t == String::from_str("/start") {
        Some(UserState::Idle)
    } else if t == String::from_str("/change_interval") {
        Some(UserState::IntervalChanging)
    } else if t == String::from_str("/change_language") {
        Some(UserState::LanguageChanging)
    } else {
        None
    }
}

/// Each state is selected by its own command, and by no other.
pub proof fn lemma_command_selects_its_state(state: UserState)
    ensures
        command_state(command_text(state)) == Some(state),
{
    reveal_strlit("/start");
    reveal_strlit("/change_interval");
    reveal_strlit("/change_language");
    assert(command_text(UserState::Idle).len() != command_text(UserState::IntervalChanging).len());
    assert(command_text(UserState::Idle).len() != command_text(UserState::LanguageChanging).len());
    assert(command_text(UserState::IntervalChanging)[8] != command_text(UserState::LanguageChanging)[8]);
}

/// Distinct states are stored under distinct names.
pub proof fn lemma_state_names_distinct(a: UserState, b: UserState)
    requires
        a != b,
    ensures
        state_name(a) != state_name(b),
{
    reveal_strlit("Idle");
    reveal_strlit("IntervalChanging");
    reveal_strlit("LanguageChanging");
    assert(state_name(UserState::Idle).len() != state_name(UserState::IntervalChanging).len());
    assert(state_name(UserState::Idle).len() != state_name(UserState::LanguageChanging).len());
    assert(state_name(UserState::IntervalChanging)[0] != state_name(UserState::LanguageChanging)[0]);
}

} // verus!
