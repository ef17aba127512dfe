//! A user's stored record and the ways a conversation changes it. Each change
//! gives back the field writes that bring the stored record up to date, and what
//! to answer the user.

use crate::clock::{
    datetime_text, format_datetime, format_time_of_day, parse_time_of_day, parsed_time_of_day,
    time_of_day_text, stored_format, Clock, DateTime, TimeOfDay, MAX_SECS, STORED_DATETIME_FORMAT,
};
use crate::state::{state_name, UserState};
use crate::text::{colon_count, count_colons, is_text_less, lemma_colon_count_concat,
    lemma_text_less_irreflexive, lemma_text_less_total, lemma_text_less_transitive, text_less,
};
use vstd::prelude::*;

verus! {

/// A write of one field of a user's stored record.
#[derive(Debug, Clone)]
pub struct FieldUpdate {
    pub field: String,
    pub value: String,
}

/// What the bot answers a user's message with.
#[derive(Debug, Clone)]
pub enum Reply {
    /// This text, or no answer at all.
    Message(Option<String>),
    /// The translation of `text` into `language`, as the translation service gives it.
    Translate { text: String, language: String },
}

/// The outcome of a change to a user: the answer and the field writes, in order.
#[derive(Debug, Clone)]
pub struct UserUpdate {
    pub reply: Reply,
    pub writes: Vec<FieldUpdate>,
}

/// A user of the bot, as stored in the `telegram_users` collection.
#[derive(Debug, Clone)]
pub struct TelegramUser {
    pub user_id: String,
    pub chosen_languages: Vec<String>,
    pub word_update_interval: String,
    pub prev_word_update_datetime: String,
    pub next_word_update_datetime: String,
    pub current_state: UserState,
    pub creating_datetime: String,
}

/// The texts of a user's record.
pub struct UserRecord {
    pub user_id: Seq<char>,
    pub chosen_languages: Seq<Seq<char>>,
    pub word_update_interval: Seq<char>,
    pub prev_word_update_datetime: Seq<char>,
    pub next_word_update_datetime: Seq<char>,
    pub current_state: UserState,
    pub creating_datetime: Seq<char>,
}

/// An answer, as texts.
pub enum ReplyView {
    Message(Option<Seq<char>>),
    Translate(Seq<char>, Seq<char>),
}

/// An outcome, as texts: the answer and the writes as (field, value) pairs.
pub struct UserUpdateView {
    pub reply: ReplyView,
    pub writes: Seq<(Seq<char>, Seq<char>)>,
}

impl View for FieldUpdate {
    type V = (Seq<char>, Seq<char>);

    open spec fn view(&self) -> (Seq<char>, Seq<char>) {
        (self.field@, self.value@)
    }
}

impl View for Reply {
    type V = ReplyView;

    open spec fn view(&self) -> ReplyView {
        match self {
            Reply::Message(m) => ReplyView::Message(
                match m {
                    Some(t) => Some(t@),
                    None => None,
                },
            ),
            Reply::Translate { text, language } => ReplyView::Translate(text@, language@),
        }
    }
}

/// The writes of a list, as (field, value) pairs.
pub open spec fn writes_view(writes: Seq<FieldUpdate>) -> Seq<(Seq<char>, Seq<char>)> {
    writes.map_values(|w: FieldUpdate| w@)
}

impl View for UserUpdate {
    type V = UserUpdateView;

    open spec fn view(&self) -> UserUpdateView {
        UserUpdateView { reply: self.reply@, writes: writes_view(self.writes@) }
    }
}

impl View for TelegramUser {
    type V = UserRecord;

    open spec fn view(&self) -> UserRecord {
        UserRecord {
            user_id: self.user_id@,
            chosen_languages: self.chosen_languages@.map_values(|l: String| l@),
            word_update_interval: self.word_update_interval@,
            prev_word_update_datetime: self.prev_word_update_datetime@,
            next_word_update_datetime: self.next_word_update_datetime@,
            current_state: self.current_state,
            creating_datetime: self.creating_datetime@,
        }
    }
}

/// The interval a new user gets: ten hours.
pub open spec fn default_interval() -> TimeOfDay {
    TimeOfDay { hour: 10, minute: 0, second: 0 }
}

/// The record of a user seen for the first time at `now`.
pub open spec fn fresh_record(user_id: Seq<char>, now: DateTime) -> UserRecord {
    UserRecord {
        user_id,
        chosen_languages: Seq::empty(),
        word_update_interval: time_of_day_text(default_interval()),
        prev_word_update_datetime: datetime_text(now.secs, now.nanos, stored_format()),
        next_word_update_datetime: {
            let next = now.plus_seconds(default_interval().total_seconds());
            datetime_text(next.secs, next.nanos, stored_format())
        },
        current_state: UserState::Idle,
        creating_datetime: datetime_text(now.secs, now.nanos, stored_format()),
    }
}

/// The interval text in full `H:M:S` form: a text of three `:`-separated parts is
/// kept, one of two or one part gets zero hours (and minutes) in front, and one of
/// more parts is refused.
pub open spec fn normalized_interval(text: Seq<char>) -> Option<Seq<char>> {
    let colons: nat = colon_count(text);
    if colons == 2 {
        Some(text)
    } else if colons == 1 {
        Some("00:"@ + text)
    } else if colons == 0 {
        Some("00:00:"@ + text)
    } else {
        None
    }
}

/// Whether a time of day can be read from the interval text and added to `now`
/// without leaving chrono's calendar.
pub open spec fn interval_usable(interval: Seq<char>, now: DateTime) -> bool {
    match parsed_time_of_day(interval) {
        Some(t) => now.secs + t.total_seconds() <= MAX_SECS,
        None => false,
    }
}

/// The record with a new conversation state.
pub open spec fn with_state(u: UserRecord, state: UserState) -> UserRecord {
    UserRecord { current_state: state, ..u }
}

/// The record after the times of its last and next word are set from `now` and
/// its interval.
pub open spec fn rescheduled(u: UserRecord, now: DateTime) -> UserRecord {
    let next = now.plus_seconds(parsed_time_of_day(u.word_update_interval)->0.total_seconds());
    UserRecord {
        prev_word_update_datetime: datetime_text(now.secs, now.nanos, stored_format()),
        next_word_update_datetime: datetime_text(next.secs, next.nanos, stored_format()),
        ..u
    }
}

/// The writes that store a rescheduled record's two times.
pub open spec fn reschedule_writes(u: UserRecord) -> Seq<(Seq<char>, Seq<char>)> {
    seq![
        ("prev_word_update_datetime"@, u.prev_word_update_datetime),
        ("next_word_update_datetime"@, u.next_word_update_datetime),
    ]
}

/// The write that stores a conversation state.
pub open spec fn state_write(state: UserState) -> (Seq<char>, Seq<char>) {
    ("current_state"@, state_name(state))
}

/// What a message that is not a command does to a user, and the outcome:
/// an idle user gets the message translated into Ukrainian; a user changing the
/// interval gets the interval set, the next word rescheduled and the state back to
/// idle, or an error answer where the text has too many parts; a user changing the
/// language gets no answer. Nothing changes but in the interval case.
pub open spec fn params_outcome(u: UserRecord, text: Seq<char>, now: DateTime) -> (
    UserRecord,
    UserUpdateView,
) {
    match u.current_state {
        UserState::Idle => (
            u,
            UserUpdateView { reply: ReplyView::Translate(text, "uk"@), writes: Seq::empty() },
        ),
        UserState::IntervalChanging => match normalized_interval(text) {
            Some(interval) => {
                let set = UserRecord { word_update_interval: interval, ..u };
                let done = with_state(rescheduled(set, now), UserState::Idle);
                (
                    done,
                    UserUpdateView {
                        reply: ReplyView::Message(Some("Interval was changed!"@)),
                        writes: seq![("word_update_interval"@, interval)] + reschedule_writes(
                            done,
                        ) + seq![state_write(UserState::Idle)],
                    },
                )
            },
            None => (
                u,
                UserUpdateView {
                    reply: ReplyView::Message(Some("Interval changing error!"@)),
                    writes: Seq::empty(),
                },
            ),
        },
        UserState::LanguageChanging => (
            u,
            UserUpdateView { reply: ReplyView::Message(None), writes: Seq::empty() },
        ),
    }
}

/// The user at index `i` has the earliest next word of all, and every user before
/// it has a strictly later one: the first user after a stable sort by that time.
pub open spec fn is_first_earliest(users: Seq<TelegramUser>, i: int) -> bool {
    &&& 0 <= i < users.len()
    &&& forall|j: int|
        0 <= j < users.len() ==> !text_less(
            #[trigger] users[j].next_word_update_datetime@,
            users[i].next_word_update_datetime@,
        )
    &&& forall|j: int|
        0 <= j < i ==> text_less(
            users[i].next_word_update_datetime@,
            #[trigger] users[j].next_word_update_datetime@,
        )
}

/// Writes an interval text in full `H:M:S` form, or refuses it.
pub fn normalize_interval(text: &str) -> (r: Option<String>)
    ensures
        match r {
            Some(s) => normalized_interval(text@) == Some(s@),
            None => normalized_interval(text@) is None,
        },
{
    let colons: usize = count_colons(text);
    if colons == 2 {
        Some(String::from_str(text))
    } else if colons == 1 {
        Some(String::from_str("00:").concat(text))
    } else if colons == 0 {
        Some(String::from_str("00:00:").concat(text))
    } else {
        None
    }
}

/// A normalized interval has three parts, so normalizing it again keeps it.
pub proof fn lemma_normalize_idempotent(text: Seq<char>)
    requires
        normalized_interval(text) is Some,
    ensures
        colon_count(normalized_interval(text)->0) == 2,
        normalized_interval(normalized_interval(text)->0) == normalized_interval(text),
{
    reveal_strlit("00:");
    reveal_strlit("00:00:");
    let one: Seq<char> = "00:"@;
    let two: Seq<char> = "00:00:"@;
    assert(one =~= seq!['0', '0', ':']);
    assert(two =~= seq!['0', '0', ':', '0', '0', ':']);
    reveal_with_fuel(colon_count, 7);
    assert(colon_count(one) == 1);
    assert(colon_count(two) == 2);
    lemma_colon_count_concat(one, text);
    lemma_colon_count_concat(two, text);
}

/// A message that sets the interval ends the interval conversation: the user is
/// idle again, and the stored interval has three parts.
pub proof fn lemma_interval_change_ends_idle(u: UserRecord, text: Seq<char>, now: DateTime)
    requires
        u.current_state == UserState::IntervalChanging,
        normalized_interval(text) is Some,
    ensures
        params_outcome(u, text, now).0.current_state == UserState::Idle,
        colon_count(params_outcome(u, text, now).0.word_update_interval) == 2,
{
    lemma_normalize_idempotent(text);
}

/// Outside the interval conversation, a message that is not a command changes
/// no record and writes nothing.
pub proof fn lemma_other_states_keep_record(u: UserRecord, text: Seq<char>, now: DateTime)
    requires
        u.current_state != UserState::IntervalChanging,
    ensures
        params_outcome(u, text, now).0 == u,
        params_outcome(u, text, now).1.writes.len() == 0,
{
}

impl TelegramUser {
    /// The record of a user seen for the first time at `now`: interval ten hours,
    /// next word ten hours from now, state idle, no languages chosen.
    pub fn new(user_id: String, now: DateTime) -> (u: TelegramUser)
        requires
            now.wf(),
            now.secs + default_interval().total_seconds() <= MAX_SECS,
        ensures
            u@ == fresh_record(user_id@, now),
    {
        let interval = TimeOfDay { hour: 10, minute: 0, second: 0 };
        let next = Clock::add_interval_time_to_time(now, interval);
        let u = TelegramUser {
            user_id,
            chosen_languages: Vec::new(),
            word_update_interval: format_time_of_day(interval),
            prev_word_update_datetime: format_datetime(now, STORED_DATETIME_FORMAT),
            next_word_update_datetime: format_datetime(next, STORED_DATETIME_FORMAT),
            current_state: UserState::Idle,
            creating_datetime: format_datetime(now, STORED_DATETIME_FORMAT),
        };
        assert(u@.chosen_languages =~= Seq::<Seq<char>>::empty());
        u
    }

    /// Moves the user to another conversation state. No answer; one write, of the
    /// state's name.
    pub fn change_state(&mut self, state: UserState) -> (r: UserUpdate)
        ensures
            final(self)@ == with_state(old(self)@, state),
            r@ == (UserUpdateView {
                reply: ReplyView::Message(None),
                writes: seq![state_write(state)],
            }),
    {
        self.current_state = state;
        let mut writes: Vec<FieldUpdate> = Vec::new();
        writes.push(FieldUpdate { field: String::from_str("current_state"), value: state.to_string() });
        let r = UserUpdate { reply: Reply::Message(None), writes };
        assert(r@.writes =~= seq![state_write(state)]);
        r
    }

    /// Sets the time of the last word to `now` and of the next one to `now` plus the
    /// user's interval; gives back the two writes.
    pub fn change_next_word_update_datetime(&mut self, now: DateTime) -> (writes: Vec<FieldUpdate>)
        requires
            now.wf(),
            interval_usable(old(self).word_update_interval@, now),
        ensures
            final(self)@ == rescheduled(old(self)@, now),
            writes_view(writes@) == reschedule_writes(final(self)@),
    {
        let interval = parse_time_of_day(self.word_update_interval.as_str()).unwrap();
        let prev = format_datetime(now, STORED_DATETIME_FORMAT);
        let next = format_datetime(Clock::add_interval_time_to_time(now, interval), STORED_DATETIME_FORMAT);
        self.prev_word_update_datetime = prev.clone();
        self.next_word_update_datetime = next.clone();
        let mut writes: Vec<FieldUpdate> = Vec::new();
        writes.push(FieldUpdate { field: String::from_str("prev_word_update_datetime"), value: prev });
        writes.push(FieldUpdate { field: String::from_str("next_word_update_datetime"), value: next });
        assert(writes_view(writes@) =~= reschedule_writes(self@));
        writes
    }

    /// Acts on a message that is not a command, by the user's state (see `params_outcome`).
    pub fn change_params(&mut self, text: &str, now: DateTime) -> (r: UserUpdate)
        requires
            now.wf(),
            old(self).current_state == UserState::IntervalChanging ==> match normalized_interval(
                text@,
            ) {
                Some(interval) => interval_usable(interval, now),
                None => true,
            },
        ensures
            (final(self)@, r@) == params_outcome(old(self)@, text@, now),
    {
        match self.current_state {
            UserState::Idle => {
                let r = UserUpdate {
                    reply: Reply::Translate {
                        text: String::from_str(text),
                        language: String::from_str("uk"),
                    },
                    writes: Vec::new(),
                };
                assert(r@.writes =~= Seq::empty());
                r
            },
            UserState::IntervalChanging => {
                match normalize_interval(text) {
                    Some(interval) => {
                        let ghost before = self@;
                        self.word_update_interval = interval.clone();
                        let mut writes: Vec<FieldUpdate> = Vec::new();
                        writes.push(FieldUpdate { field: String::from_str("word_update_interval"), value: interval });
                        let mut times = self.change_next_word_update_datetime(now);
                        writes.append(&mut times);
                        let state_update = self.change_state(UserState::Idle);
                        let mut state_writes = state_update.writes;
                        writes.append(&mut state_writes);
                        let r = UserUpdate {
                            reply: Reply::Message(Some(String::from_str("Interval was changed!"))),
                            writes,
                        };
                        assert(r@.writes =~= params_outcome(before, text@, now).1.writes);
                        r
                    },
                    None => {
                        let r = UserUpdate {
                            reply: Reply::Message(Some(String::from_str("Interval changing error!"))),
                            writes: Vec::new(),
                        };
                        assert(r@.writes =~= Seq::empty());
                        r
                    },
                }
            },
            UserState::LanguageChanging => {
                let r = UserUpdate { reply: Reply::Message(None), writes: Vec::new() };
                assert(r@.writes =~= Seq::empty());
                r
            },
        }
    }

    /// The user whose next word is due first (by the stored text, as a stable sort
    /// orders it), or `None` when there are no users.
    pub fn get_with_closer_update(users: Vec<TelegramUser>) -> (r: Option<TelegramUser>)
        ensures
            r is None <==> users.len() == 0,
            r matches Some(u) ==> exists|i: int| is_first_earliest(users@, i) && u == users@[i],
    {
        let mut users = users;
        let len: usize = users.len();
        if len == 0 {
            return None;
        }
        let ghost all = users@;
        let mut best: usize = 0;
        let mut j: usize = 1;
        proof {
            lemma_text_less_irreflexive(all[0].next_word_update_datetime@);
        }
        while j < len
            invariant
                users@ == all,
                len == all.len(),
                0 <= best < j <= len,
                forall|k: int|
                    0 <= k < j ==> !text_less(
                        #[trigger] all[k].next_word_update_datetime@,
                        all[best as int].next_word_update_datetime@,
                    ),
                forall|k: int|
                    0 <= k < best ==> text_less(
                        all[best as int].next_word_update_datetime@,
                        #[trigger] all[k].next_word_update_datetime@,
                    ),
            decreases len - j,
        {
            let earlier = is_text_less(
                users[j].next_word_update_datetime.as_str(),
                users[best].next_word_update_datetime.as_str(),
            );
            if earlier {
                proof {
                    let kj = all[j as int].next_word_update_datetime@;
                    let kb = all[best as int].next_word_update_datetime@;
                    assert forall|k: int| 0 <= k < j + 1 implies !text_less(
                        #[trigger] all[k].next_word_update_datetime@,
                        kj,
                    ) by {
                        let kk = all[k].next_word_update_datetime@;
                        if k == j {
                            lemma_text_less_irreflexive(kj);
                        } else if text_less(kk, kj) {
                            lemma_text_less_transitive(kk, kj, kb);
                        }
                    }
                    assert forall|k: int| 0 <= k < j implies text_less(
                        kj,
                        #[trigger] all[k].next_word_update_datetime@,
                    ) by {
                        let kk = all[k].next_word_update_datetime@;
                        if k < best {
                            lemma_text_less_transitive(kj, kb, kk);
                        } else {
                            lemma_text_less_total(kk, kb);
                            if kk != kb {
                                lemma_text_less_transitive(kj, kb, kk);
                            }
                        }
                    }
                }
                best = j;
            }
            j = j + 1;
        }
        let u = users.remove(best);
        assert(is_first_earliest(all, best as int));
        Some(u)
    }
}

/// At most one user is the first with the earliest next word.
pub proof fn lemma_first_earliest_unique(users: Seq<TelegramUser>, i: int, j: int)
    requires
        is_first_earliest(users, i),
        is_first_earliest(users, j),
    ensures
        i == j,
{
    if i < j {
        assert(text_less(
            users[j].next_word_update_datetime@,
            users[i].next_word_update_datetime@,
        ));
    } else if j < i {
        assert(text_less(
            users[i].next_word_update_datetime@,
            users[j].next_word_update_datetime@,
        ));
    }
}

} // verus!
