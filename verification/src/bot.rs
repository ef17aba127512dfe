//! The decisions of the bot's main loop: what to do with each incoming message and
//! with each tick of the clock. The loop itself, which reads updates, stores
//! records and sends messages, runs outside the library and hands the results of
//! those actions back to these functions.

use crate::clock::{
    parse_datetime, parse_time_of_day, parsed_datetime, stored_format, DateTime, MAX_SECS,
    STORED_DATETIME_FORMAT,
};
use crate::state::{
    command_state, command_text, lemma_command_selects_its_state, lemma_state_names_distinct,
    parse_command, state_name, UserState,
};
use crate::telegram::{
    get_message_params, message_params_match, IncomingMessage, IncomingUpdate, OutgoingMessage,
    Recipient,
};
use crate::text::{decimal, decimal_text};
use crate::user::{
    interval_usable, is_first_earliest, normalize_interval, normalized_interval, params_outcome,
    reschedule_writes, rescheduled, state_write, with_state, writes_view, FieldUpdate, ReplyView,
    TelegramUser, UserRecord, UserUpdate, UserUpdateView,
};
use vstd::prelude::*;

verus! {

/// Where handling stops, because going on would fail.
#[derive(Debug, Clone)]
pub enum HandlingError {
    /// The user's interval cannot be read as a time of day, or adding it to now
    /// leaves chrono's calendar. `stored` holds the writes that come before the
    /// step that fails.
    UnusableInterval { stored: Vec<FieldUpdate> },
}

/// Why the clock's next update cannot be taken from the stored users.
#[derive(Debug, Clone, Copy, PartialEq, Eq, Structural)]
pub enum ScheduleError {
    /// There are no users.
    NoUsers,
    /// The earliest next-word time is not a date-time text.
    UnreadableTime,
}

/// The reminder for the user whose next word is due first: the rescheduled
/// record, its writes, and the message that tells the user.
#[derive(Debug, Clone)]
pub struct Reminder {
    pub user: TelegramUser,
    pub writes: Vec<FieldUpdate>,
    pub message: OutgoingMessage,
}

/// A message text that handling cannot go through with: not a command, sent by a
/// user who is changing the interval, with an interval that has the right number
/// of parts but is not usable.
pub open spec fn refused(u: UserRecord, text: Seq<char>, now: DateTime) -> bool {
    &&& command_state(text) is None
    &&& u.current_state == UserState::IntervalChanging
    &&& normalized_interval(text) matches Some(interval) && !interval_usable(interval, now)
}

/// The answer to an update: the command that the text is, written as Rust's
/// `Debug` writes an `Option<UserState>`.
pub open spec fn command_reply_text(command: Option<UserState>) -> Seq<char> {
    match command {
        Some(state) => "Some("@ + state_name(state) + ")"@,
        None => "None"@,
    }
}

/// Only a user who is changing the interval can have a message refused: for any
/// other user, every text is handled.
pub proof fn lemma_only_interval_change_is_refused(u: UserRecord, text: Seq<char>, now: DateTime)
    requires
        refused(u, text, now),
    ensures
        u.current_state == UserState::IntervalChanging,
        command_state(text) is None,
{
}

/// A command is answered with `Some(` and the name of the state it selects, and any
/// other text with `None`, as Rust's `Debug` writes an `Option<UserState>`.
pub proof fn lemma_reply_names_the_command(state: UserState, text: Seq<char>)
    ensures
        command_reply_text(command_state(command_text(state))) == "Some("@ + state_name(state)
            + ")"@,
        command_state(text) is None ==> command_reply_text(command_state(text)) == "None"@,
{
    lemma_command_selects_its_state(state);
}

/// Different commands get different answers.
pub proof fn lemma_replies_tell_commands_apart(a: UserState, b: UserState)
    requires
        a != b,
    ensures
        command_reply_text(command_state(command_text(a))) != command_reply_text(
            command_state(command_text(b)),
        ),
{
    lemma_command_selects_its_state(a);
    lemma_command_selects_its_state(b);
    lemma_state_names_distinct(a, b);
    reveal_strlit("Some(");
    reveal_strlit(")");
    let pre: Seq<char> = "Some("@;
    let post: Seq<char> = ")"@;
    let ra = pre + state_name(a) + post;
    let rb = pre + state_name(b) + post;
    assert(pre.len() == 5);
    assert(post.len() == 1);
    assert(ra.len() == 5 + state_name(a).len() + 1);
    assert(rb.len() == 5 + state_name(b).len() + 1);
    if ra == rb {
        assert(state_name(a).len() == state_name(b).len());
        assert(state_name(a) =~= ra.subrange(5, 5 + state_name(a).len() as int));
        assert(state_name(b) =~= rb.subrange(5, 5 + state_name(b).len() as int));
    }
}

/// Whether the interval text can be read as a time of day and added to `now`.
pub fn interval_fits(interval: &str, now: DateTime) -> (r: bool)
    requires
        now.wf(),
    ensures
        r == interval_usable(interval@, now),
{
    match parse_time_of_day(interval) {
        Some(t) => now.secs <= MAX_SECS - (t.hour as i64 * 3600 + t.minute as i64 * 60
            + t.second as i64),
        None => false,
    }
}

/// Acts on a user's message: a command moves the user to its state; any other
/// text goes by the user's state (see `params_outcome`). Refused texts (see
/// `refused`) change nothing.
pub fn respond(user: &mut TelegramUser, text: &str, now: DateTime) -> (r: Result<
    UserUpdate,
    HandlingError,
>)
    requires
        now.wf(),
    ensures
        r is Err <==> refused(old(user)@, text@, now),
        r is Err ==> final(user)@ == old(user)@,
        old(user).current_state != UserState::IntervalChanging ==> r is Ok,
        old(user).current_state == UserState::Idle && command_state(text@) is None
            ==> (r matches Ok(u) && u@.reply == ReplyView::Translate(text@, "uk"@)
            && u@.writes.len() == 0 && final(user)@ == old(user)@),
        old(user).current_state == UserState::LanguageChanging && command_state(text@) is None
            ==> (r matches Ok(u) && u@.reply == ReplyView::Message(None) && u@.writes.len() == 0
            && final(user)@ == old(user)@),
        r matches Err(HandlingError::UnusableInterval { stored }) ==> writes_view(stored@) == seq![
            ("word_update_interval"@, normalized_interval(text@)->0),
        ],
        r matches Ok(u) ==> match command_state(text@) {
            Some(state) => final(user)@ == with_state(old(user)@, state) && u@ == (UserUpdateView {
                reply: ReplyView::Message(None),
                writes: seq![state_write(state)],
            }),
            None => (final(user)@, u@) == params_outcome(old(user)@, text@, now),
        },
{
    match parse_command(text) {
        Some(state) => Ok(user.change_state(state)),
        None => {
            if user.current_state == UserState::IntervalChanging {
                match normalize_interval(text) {
                    Some(interval) => {
                        if !interval_fits(interval.as_str(), now) {
                            let mut stored: Vec<FieldUpdate> = Vec::new();
                            stored.push(FieldUpdate { field: String::from_str("word_update_interval"), value: interval });
                            assert(writes_view(stored@) =~= seq![
                                ("word_update_interval"@, normalized_interval(text@)->0),
                            ]);
                            return Err(HandlingError::UnusableInterval { stored });
                        }
                    },
                    None => {},
                }
            }
            Ok(user.change_params(text, now))
        },
    }
}

/// The text id of a message's sender: the sender's number in decimal.
pub fn sender_key(message: &IncomingMessage) -> (r: String)
    requires
        message.sender_id is Some,
    ensures
        r@ == decimal(message.sender_id->0 as nat),
{
    decimal_text(message.sender_id.unwrap())
}

/// The answer to an update with a message: the chat gets the message's command
/// written out.
pub fn reply_to_update(message: &IncomingMessage) -> (r: OutgoingMessage)
    requires
        message.text is Some,
    ensures
        r.recipient matches Recipient::Chat(chat) && chat == message.chat_id,
        r.text@ == command_reply_text(command_state(message.text->0@)),
        r.keyboard is None,
{
    let text = match parse_command(message.text.as_ref().unwrap().as_str()) {
        Some(state) => String::from_str("Some(").concat(state.to_string().as_str()).concat(")"),
        None => String::from_str("None"),
    };
    OutgoingMessage { recipient: Recipient::Chat(message.chat_id), text, keyboard: None }
}

/// The offset to read the next updates from after an update: past an update with a
/// message, and where it was after any other.
pub fn next_offset(offset: Option<u32>, update: &IncomingUpdate) -> (r: Option<u32>)
    requires
        update.message is Some ==> update.update_id < u32::MAX,
    ensures
        r == if update.message is Some {
            Some((update.update_id + 1) as u32)
        } else {
            offset
        },
{
    match &update.message {
        Some(_) => Some(update.update_id + 1),
        None => offset,
    }
}

/// When the clock fires: the user whose next word is due first gets it
/// rescheduled from `now` and a message with the new time. No reminder without
/// users; an error where that user's interval is not usable.
pub fn plan_reminder(users: Vec<TelegramUser>, now: DateTime) -> (r: Result<
    Option<Reminder>,
    HandlingError,
>)
    requires
        now.wf(),
    ensures
        users.len() == 0 ==> r matches Ok(None),
        users.len() > 0 ==> exists|i: int|
            #![trigger is_first_earliest(users@, i)]
            is_first_earliest(users@, i) && if interval_usable(
                users@[i].word_update_interval@,
                now,
            ) {
                r matches Ok(Some(rem)) && rem.user@ == rescheduled(users@[i]@, now)
                    && writes_view(rem.writes@) == reschedule_writes(rem.user@)
                    && message_params_match(
                    rem.message,
                    rem.user@.user_id,
                    rem.user@.next_word_update_datetime,
                    None,
                )
            } else {
                r matches Err(HandlingError::UnusableInterval { stored }) && stored@.len() == 0
            },
{
    match TelegramUser::get_with_closer_update(users) {
        None => Ok(None),
        Some(mut user) => {
            if !interval_fits(user.word_update_interval.as_str(), now) {
                return Err(HandlingError::UnusableInterval { stored: Vec::new() });
            }
            let writes = user.change_next_word_update_datetime(now);
            let message = get_message_params(
                user.user_id.clone(),
                user.next_word_update_datetime.as_str(),
                None,
            );
            Ok(Some(Reminder { user, writes, message }))
        },
    }
}

/// The clock's next update: the next-word time of the user whose word is due first.
pub fn next_update_time(users: Vec<TelegramUser>) -> (r: Result<DateTime, ScheduleError>)
    ensures
        users.len() == 0 <==> r == Err::<DateTime, ScheduleError>(ScheduleError::NoUsers),
        users.len() > 0 ==> exists|i: int|
            #![trigger is_first_earliest(users@, i)]
            is_first_earliest(users@, i) && match parsed_datetime(
                users@[i].next_word_update_datetime@,
                stored_format(),
            ) {
                Some(t) => r == Ok::<DateTime, ScheduleError>(t),
                None => r == Err::<DateTime, ScheduleError>(ScheduleError::UnreadableTime),
            },
{
    match TelegramUser::get_with_closer_update(users) {
        None => Err(ScheduleError::NoUsers),
        Some(user) => match parse_datetime(user.next_word_update_datetime.as_str(), STORED_DATETIME_FORMAT) {
            Some(t) => Ok(t),
            None => Err(ScheduleError::UnreadableTime),
        },
    }
}

} // verus!
