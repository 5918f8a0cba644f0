//! Schedule entries: tasks that the assistant is to run at an instant or on
//! a cron expression, when they are due, and what becomes of them after a
//! run.

use crate::clock::{
    calendar_time, clock_shows, format_stamp, in_local_zone, local_now, moment_at, naive_parse,
    parse_naive, stamp_format, stamp_text, Moment, CLOCK_LIMIT,
};
use crate::cron::{cron_matches, expr_matches};
use crate::json::{bool_member, int_member, json_bool, json_int, json_str, str_member};
use crate::session::{clone_text, text_of};
use crate::text::{
    chars_of, is_text, parse_bounded, parse_decimal, split_words, string_of, subvec, trim,
    trimmed, views, words,
};
use vstd::prelude::*;
use vstd::string::StringExecFns;

verus! {
/// A task that the assistant runs on a schedule.
pub struct ScheduleEntry {
    /// Names the entry and its file.
    pub id: String,
    pub chat_id: i64,
    /// Key of the bot that the entry belongs to.
    pub bot_key: String,
    /// The project directory of the task.
    pub current_path: String,
    pub prompt: String,
    /// An instant, `2026-02-23 14:00:00`, or a cron expression.
    pub schedule: String,
    /// `absolute` or `cron`.
    pub schedule_type: String,
    /// Run at the next match only.
    pub once: bool,
    pub last_run: Option<String>,
    pub created_at: String,
    /// What the last run left for the next one to know.
    pub context_summary: Option<String>,
}

/// A schedule entry as callers outside the bot handle it.
pub struct ScheduleEntryData {
    pub id: String,
    pub chat_id: i64,
    pub bot_key: String,
    pub current_path: String,
    pub prompt: String,
    pub schedule: String,
    pub schedule_type: String,
    pub once: bool,
    pub last_run: Option<String>,
    pub created_at: String,
    pub context_summary: Option<String>,
}

/// What a schedule entry holds, as plain values.
pub struct EntryView {
    pub id: Seq<char>,
    pub chat_id: i64,
    pub bot_key: Seq<char>,
    pub current_path: Seq<char>,
    pub prompt: Seq<char>,
    pub schedule: Seq<char>,
    pub schedule_type: Seq<char>,
    pub once: bool,
    pub last_run: Option<Seq<char>>,
    pub created_at: Seq<char>,
    pub context_summary: Option<Seq<char>>,
}

impl View for ScheduleEntry {
    type V = EntryView;

    open spec fn view(&self) -> EntryView {
        EntryView {
            id: self.id@,
            chat_id: self.chat_id,
            bot_key: self.bot_key@,
            current_path: self.current_path@,
            prompt: self.prompt@,
            schedule: self.schedule@,
            schedule_type: self.schedule_type@,
            once: self.once,
            last_run: text_of(self.last_run),
            created_at: self.created_at@,
            context_summary: text_of(self.context_summary),
        }
    }
}

impl View for ScheduleEntryData {
    type V = EntryView;

    open spec fn view(&self) -> EntryView {
        EntryView {
            id: self.id@,
            chat_id: self.chat_id,
            bot_key: self.bot_key@,
            current_path: self.current_path@,
            prompt: self.prompt@,
            schedule: self.schedule@,
            schedule_type: self.schedule_type@,
            once: self.once,
            last_run: text_of(self.last_run),
            created_at: self.created_at@,
            context_summary: text_of(self.context_summary),
        }
    }
}

impl Clone for ScheduleEntry {
    fn clone(&self) -> (c: Self)
        ensures
            c@ == self@,
    {
        ScheduleEntry {
            id: self.id.clone(),
            chat_id: self.chat_id,
            bot_key: self.bot_key.clone(),
            current_path: self.current_path.clone(),
            prompt: self.prompt.clone(),
            schedule: self.schedule.clone(),
            schedule_type: self.schedule_type.clone(),
            once: self.once,
            last_run: clone_text(&self.last_run),
            created_at: self.created_at.clone(),
            context_summary: clone_text(&self.context_summary),
        }
    }
}

impl Clone for ScheduleEntryData {
    fn clone(&self) -> (c: Self)
        ensures
            c@ == self@,
    {
        ScheduleEntryData {
            id: self.id.clone(),
            chat_id: self.chat_id,
            bot_key: self.bot_key.clone(),
            current_path: self.current_path.clone(),
            prompt: self.prompt.clone(),
            schedule: self.schedule.clone(),
            schedule_type: self.schedule_type.clone(),
            once: self.once,
            last_run: clone_text(&self.last_run),
            created_at: self.created_at.clone(),
            context_summary: clone_text(&self.context_summary),
        }
    }
}

impl From<&ScheduleEntryData> for ScheduleEntry {
    /// The entry that `d` describes.
    fn from(d: &ScheduleEntryData) -> (e: Self) {
        ScheduleEntry {
            id: d.id.clone(),
            chat_id: d.chat_id,
            bot_key: d.bot_key.clone(),
            current_path: d.current_path.clone(),
            prompt: d.prompt.clone(),
            schedule: d.schedule.clone(),
            schedule_type: d.schedule_type.clone(),
            once: d.once,
            last_run: clone_text(&d.last_run),
            created_at: d.created_at.clone(),
            context_summary: clone_text(&d.context_summary),
        }
    }
}

impl vstd::std_specs::convert::FromSpecImpl<&ScheduleEntryData> for ScheduleEntry {
    open spec fn obeys_from_spec() -> bool {
        true
    }

    open spec fn from_spec(d: &ScheduleEntryData) -> Self {
        ScheduleEntry {
            id: d.id,
            chat_id: d.chat_id,
            bot_key: d.bot_key,
            current_path: d.current_path,
            prompt: d.prompt,
            schedule: d.schedule,
            schedule_type: d.schedule_type,
            once: d.once,
            last_run: d.last_run,
            created_at: d.created_at,
            context_summary: d.context_summary,
        }
    }
}

impl From<&ScheduleEntry> for ScheduleEntryData {
    /// The description of the entry `e`.
    fn from(e: &ScheduleEntry) -> (d: Self) {
        ScheduleEntryData {
            id: e.id.clone(),
            chat_id: e.chat_id,
            bot_key: e.bot_key.clone(),
            current_path: e.current_path.clone(),
            prompt: e.prompt.clone(),
            schedule: e.schedule.clone(),
            schedule_type: e.schedule_type.clone(),
            once: e.once,
            last_run: clone_text(&e.last_run),
            created_at: e.created_at.clone(),
            context_summary: clone_text(&e.context_summary),
        }
    }
}

impl vstd::std_specs::convert::FromSpecImpl<&ScheduleEntry> for ScheduleEntryData {
    open spec fn obeys_from_spec() -> bool {
        true
    }

    open spec fn from_spec(e: &ScheduleEntry) -> Self {
        ScheduleEntryData {
            id: e.id,
            chat_id: e.chat_id,
            bot_key: e.bot_key,
            current_path: e.current_path,
            prompt: e.prompt,
            schedule: e.schedule,
            schedule_type: e.schedule_type,
            once: e.once,
            last_run: e.last_run,
            created_at: e.created_at,
            context_summary: e.context_summary,
        }
    }
}

/// The entry that a JSON document describes: its seven required members
/// are strings, but for the conversation, an integer; `once` is false and
/// the two optional texts are absent where the document does not hold them
/// in their type.
pub open spec fn entry_of_json(text: Seq<char>) -> Option<EntryView> {
    if json_str(text, "id"@) is Some && json_int(text, "chat_id"@) is Some && json_str(
        text,
        "bot_key"@,
    ) is Some && json_str(text, "current_path"@) is Some && json_str(text, "prompt"@) is Some
        && json_str(text, "schedule"@) is Some && json_str(text, "schedule_type"@) is Some
        && json_str(text, "created_at"@) is Some {
        Some(
            EntryView {
                id: json_str(text, "id"@).unwrap(),
                chat_id: json_int(text, "chat_id"@).unwrap(),
                bot_key: json_str(text, "bot_key"@).unwrap(),
                current_path: json_str(text, "current_path"@).unwrap(),
                prompt: json_str(text, "prompt"@).unwrap(),
                schedule: json_str(text, "schedule"@).unwrap(),
                schedule_type: json_str(text, "schedule_type"@).unwrap(),
                once: match json_bool(text, "once"@) {
                    Some(b) => b,
                    None => false,
                },
                last_run: json_str(text, "last_run"@),
                created_at: json_str(text, "created_at"@).unwrap(),
                context_summary: json_str(text, "context_summary"@),
            },
        )
    } else {
        None
    }
}

/// Reads a schedule entry from the text of its file.
pub fn read_schedule_entry(content: &str) -> (r: Option<ScheduleEntry>)
    ensures
        match r {
            Some(e) => entry_of_json(content@) == Some(e@),
            None => entry_of_json(content@).is_none(),
        },
{
    let id = str_member(content, "id")?;
    let chat_id = int_member(content, "chat_id")?;
    let bot_key = str_member(content, "bot_key")?;
    let current_path = str_member(content, "current_path")?;
    let prompt = str_member(content, "prompt")?;
    let schedule = str_member(content, "schedule")?;
    let schedule_type = str_member(content, "schedule_type")?;
    let once = match bool_member(content, "once") {
        Some(b) => b,
        None => false,
    };
    let last_run = str_member(content, "last_run");
    let created_at = str_member(content, "created_at")?;
    let context_summary = str_member(content, "context_summary");
    Some(
        ScheduleEntry {
            id,
            chat_id,
            bot_key,
            current_path,
            prompt,
            schedule,
            schedule_type,
            once,
            last_run,
            created_at,
            context_summary,
        },
    )
}

/// How an entry is scheduled.
#[derive(Clone, Copy, Debug, PartialEq, Eq, Structural)]
pub enum ScheduleKind {
    /// At one instant.
    Absolute,
    /// Whenever a cron expression matches.
    Cron,
    /// Not at all: the type is not known.
    Unknown,
}

/// The kind that a schedule type names.
pub open spec fn kind_named(schedule_type: Seq<char>) -> ScheduleKind {
    if schedule_type == "absolute"@ {
        ScheduleKind::Absolute
    } else if schedule_type == "cron"@ {
        ScheduleKind::Cron
    } else {
        ScheduleKind::Unknown
    }
}

/// The kind that a schedule type names.
pub fn schedule_kind(schedule_type: &str) -> (k: ScheduleKind)
    ensures
        k == kind_named(schedule_type@),
{
    let t = chars_of(schedule_type);
    if is_text(t.as_slice(), "absolute") {
        ScheduleKind::Absolute
    } else if is_text(t.as_slice(), "cron") {
        ScheduleKind::Cron
    } else {
        ScheduleKind::Unknown
    }
}

/// Whether an entry is due. `target` is the instant of an absolute entry,
/// `last` the instant of the last run, each where it is known; `cron_hit`
/// says whether the cron expression matches the present.
///
/// An absolute entry is due from its instant on, until a run at or after
/// that instant is recorded. A cron entry is due when its expression
/// matches, but not twice in one minute.
pub open spec fn due(
    kind: ScheduleKind,
    now: Moment,
    target: Option<Moment>,
    last: Option<Moment>,
    cron_hit: bool,
) -> bool {
    match kind {
        ScheduleKind::Absolute => match target {
            Some(t) => !now.is_before(t) && match last {
                Some(l) => l.is_before(t),
                None => true,
            },
            None => false,
        },
        ScheduleKind::Cron => cron_hit && match last {
            Some(l) => !now.same_minute(l),
            None => true,
        },
        ScheduleKind::Unknown => false,
    }
}

/// Whether an entry is due, from what is known of it.
pub fn is_due(
    kind: ScheduleKind,
    now: &Moment,
    target: Option<Moment>,
    last: Option<Moment>,
    cron_hit: bool,
) -> (r: bool)
    ensures
        r == due(kind, *now, target, last, cron_hit),
{
    match kind {
        ScheduleKind::Absolute => match target {
            Some(t) => !now.before(&t) && match last {
                Some(l) => l.before(&t),
                None => true,
            },
            None => false,
        },
        ScheduleKind::Cron => cron_hit && match last {
            Some(l) => !now.in_same_minute(&l),
            None => true,
        },
        ScheduleKind::Unknown => false,
    }
}

/// An absolute entry that has never run is due at every instant from its
/// own on; once a run at or after its instant is recorded, it is due at no
/// instant, however late.
pub proof fn law_absolute_fires_once(target: Moment, run: Moment, now: Moment, cron_hit: bool)
    requires
        !run.is_before(target),
    ensures
        due(ScheduleKind::Absolute, run, Some(target), None, cron_hit),
        !due(ScheduleKind::Absolute, now, Some(target), Some(run), cron_hit),
{
}

/// Whether an absolute entry has expired: its instant has passed. Such an
/// entry, where it is neither due nor waiting, will never run.
pub open spec fn expired(kind: ScheduleKind, now: Moment, target: Option<Moment>) -> bool {
    kind == ScheduleKind::Absolute && match target {
        Some(t) => t.is_before(now),
        None => false,
    }
}

/// Whether an absolute entry has expired.
pub fn is_expired(kind: ScheduleKind, now: &Moment, target: Option<Moment>) -> (r: bool)
    ensures
        r == expired(kind, *now, target),
{
    match kind {
        ScheduleKind::Absolute => match target {
            Some(t) => t.before(now),
            None => false,
        },
        _ => false,
    }
}

/// The instant that a text in the library's time format names in the
/// machine's time zone, where it names exactly one. A text that is no time
/// names none.
pub fn local_instant(text: &str) -> (r: Option<Moment>)
    ensures
        r matches Some(m) ==> naive_parse(text@, stamp_format()) == Some(m.local),
        naive_parse(text@, stamp_format()).is_none() ==> r.is_none(),
{
    match parse_naive(text, "%Y-%m-%d %H:%M:%S") {
        Some(t) => in_local_zone(&t),
        None => None,
    }
}

/// What the scheduler knows of an entry in one cycle.
pub struct Reading {
    pub kind: ScheduleKind,
    /// The instant of an absolute entry.
    pub target: Option<Moment>,
    /// The instant of the last run.
    pub last: Option<Moment>,
    /// Whether the entry's cron expression matches the present.
    pub cron_hit: bool,
}

/// Reads from an entry what decides whether it is due at `now`.
pub fn read_entry(entry: &ScheduleEntry, now: &Moment) -> (r: Reading)
    ensures
        r.kind == kind_named(entry@.schedule_type),
        r.cron_hit == (r.kind == ScheduleKind::Cron && expr_matches(entry@.schedule, *now)),
        r.kind != ScheduleKind::Absolute ==> r.target.is_none(),
        r.target matches Some(t) ==> naive_parse(entry@.schedule, stamp_format()) == Some(t.local),
        naive_parse(entry@.schedule, stamp_format()).is_none() ==> r.target.is_none(),
        match entry@.last_run {
            Some(text) => {
                &&& r.last matches Some(l) ==> naive_parse(text, stamp_format()) == Some(l.local)
                &&& naive_parse(text, stamp_format()).is_none() ==> r.last.is_none()
            },
            None => r.last.is_none(),
        },
{
    let kind = schedule_kind(entry.schedule_type.as_str());
    let target = match kind {
        ScheduleKind::Absolute => local_instant(entry.schedule.as_str()),
        _ => None,
    };
    let last = match &entry.last_run {
        Some(text) => local_instant(text.as_str()),
        None => None,
    };
    let cron_hit = match kind {
        ScheduleKind::Cron => cron_matches(entry.schedule.as_str(), now),
        _ => false,
    };
    Reading { kind, target, last, cron_hit }
}

/// Whether `target` and `last` are instants that the texts of an entry can
/// stand for: each shows the date and time that its text names, and there is
/// none where the text names none.
pub open spec fn read_as(e: EntryView, target: Option<Moment>, last: Option<Moment>) -> bool {
    &&& kind_named(e.schedule_type) != ScheduleKind::Absolute ==> target.is_none()
    &&& target matches Some(t) ==> naive_parse(e.schedule, stamp_format()) == Some(t.local)
    &&& naive_parse(e.schedule, stamp_format()).is_none() ==> target.is_none()
    &&& match e.last_run {
        Some(text) => {
            &&& last matches Some(l) ==> naive_parse(text, stamp_format()) == Some(l.local)
            &&& naive_parse(text, stamp_format()).is_none() ==> last.is_none()
        },
        None => last.is_none(),
    }
}

/// Whether `r` is an answer to the question whether an entry is due at
/// `now`: it is what `due` says for instants that the texts of the entry
/// can stand for.
pub open spec fn trigger_outcome(e: EntryView, now: Moment, r: bool) -> bool {
    exists|target: Option<Moment>, last: Option<Moment>|
        read_as(e, target, last) && r == due(
            kind_named(e.schedule_type),
            now,
            target,
            last,
            kind_named(e.schedule_type) == ScheduleKind::Cron && expr_matches(e.schedule, now),
        )
}

/// Whether `r` is an answer to the questions whether an entry is due at
/// `now` and whether it has expired: what `due` and `expired` say for
/// instants that the texts of the entry can stand for.
pub open spec fn check_outcome(e: EntryView, now: Moment, r: (bool, bool)) -> bool {
    exists|target: Option<Moment>, last: Option<Moment>|
        read_as(e, target, last) && r.0 == due(
            kind_named(e.schedule_type),
            now,
            target,
            last,
            kind_named(e.schedule_type) == ScheduleKind::Cron && expr_matches(e.schedule, now),
        ) && r.1 == expired(kind_named(e.schedule_type), now, target)
}

/// Whether a cron expression matches every moment.
pub open spec fn always_matches(expr: Seq<char>) -> bool {
    forall|m: Moment| expr_matches(expr, m)
}

/// Whether an entry is due at `now`: as `due` says, for the instants that
/// the machine's time zone gives for the entry's texts. So an entry of
/// unknown type is never due; a cron entry is due only when its expression
/// matches, and then unless a run in the same minute is recorded; an
/// absolute entry is due only where its schedule is an instant.
pub fn should_trigger_at(entry: &ScheduleEntry, now: &Moment) -> (r: bool)
    ensures
        trigger_outcome(entry@, *now, r),
        kind_named(entry@.schedule_type) == ScheduleKind::Unknown ==> !r,
        kind_named(entry@.schedule_type) == ScheduleKind::Cron ==> (r ==> expr_matches(
            entry@.schedule,
            *now,
        )),
        kind_named(entry@.schedule_type) == ScheduleKind::Cron && entry@.last_run.is_none() ==> r
            == expr_matches(entry@.schedule, *now),
        kind_named(entry@.schedule_type) == ScheduleKind::Absolute && naive_parse(
            entry@.schedule,
            stamp_format(),
        ).is_none() ==> !r,
{
    let reading = read_entry(entry, now);
    proof {
        assert(read_as(entry@, reading.target, reading.last));
    }
    is_due(reading.kind, now, reading.target, reading.last, reading.cron_hit)
}

/// Whether an entry is due at present: what `should_trigger_at` gives for
/// the moment that the machine's clock shows. Which moment that is, the
/// clock decides; whatever it shows, an entry of unknown type is not due,
/// nor an absolute entry whose schedule is no instant, nor a cron entry
/// whose expression does not match the moment, and a cron entry that has
/// never run and whose expression matches every moment is due.
pub fn should_trigger(entry: &ScheduleEntry) -> (r: bool)
    ensures
        exists|now: Moment| clock_shows(now.timestamp) && trigger_outcome(entry@, now, r),
        kind_named(entry@.schedule_type) == ScheduleKind::Unknown ==> !r,
        kind_named(entry@.schedule_type) == ScheduleKind::Absolute && naive_parse(
            entry@.schedule,
            stamp_format(),
        ).is_none() ==> !r,
        kind_named(entry@.schedule_type) == ScheduleKind::Cron && r ==> exists|now: Moment|
            expr_matches(entry@.schedule, now),
        kind_named(entry@.schedule_type) == ScheduleKind::Cron && entry@.last_run.is_none()
            && always_matches(entry@.schedule) ==> r,
{
    let now = local_now();
    let r = should_trigger_at(entry, &now);
    proof {
        assert(clock_shows(now.timestamp) && trigger_outcome(entry@, now, r));
    }
    r
}

/// What the scheduler finds of an entry at present: whether it is due, and
/// whether it has expired, both at the one moment that the machine's clock
/// shows. Whatever that moment is, an entry of unknown type is neither;
/// only an absolute entry whose schedule is an instant can expire; an
/// absolute entry whose schedule is no instant is not due; and a cron entry
/// that has never run and whose expression matches every moment is due.
pub fn check_entry(entry: &ScheduleEntry) -> (r: (bool, bool))
    ensures
        exists|now: Moment| clock_shows(now.timestamp) && check_outcome(entry@, now, r),
        kind_named(entry@.schedule_type) == ScheduleKind::Unknown ==> !r.0,
        kind_named(entry@.schedule_type) != ScheduleKind::Absolute ==> !r.1,
        naive_parse(entry@.schedule, stamp_format()).is_none() ==> !r.1,
        kind_named(entry@.schedule_type) == ScheduleKind::Absolute && naive_parse(
            entry@.schedule,
            stamp_format(),
        ).is_none() ==> !r.0,
        kind_named(entry@.schedule_type) == ScheduleKind::Cron && r.0 ==> exists|now: Moment|
            expr_matches(entry@.schedule, now),
        kind_named(entry@.schedule_type) == ScheduleKind::Cron && entry@.last_run.is_none()
            && always_matches(entry@.schedule) ==> r.0,
{
    let now = local_now();
    let reading = read_entry(entry, &now);
    let r = (
        is_due(reading.kind, &now, reading.target, reading.last, reading.cron_hit),
        is_expired(reading.kind, &now, reading.target),
    );
    proof {
        assert(read_as(entry@, reading.target, reading.last));
        assert(clock_shows(now.timestamp) && check_outcome(entry@, now, r));
    }
    r
}

/// The seconds that a relative time stands for: a positive whole number
/// before `m`, `h` or `d`, with white space around allowed; `None` for
/// anything else, and for a number of seconds that 63 bits do not hold.
pub open spec fn relative_seconds(s: Seq<char>) -> Option<i64> {
    let t = trim(s);
    if t.len() < 2 {
        None
    } else {
        let unit = t.last();
        let factor: int = if unit == 'm' {
            60
        } else if unit == 'h' {
            3600
        } else if unit == 'd' {
            86400
        } else {
            0
        };
        match parse_bounded(t.drop_last(), i64::MAX as u64) {
            Some(n) => if n > 0 && factor > 0 && n * factor <= i64::MAX {
                Some((n * factor) as i64)
            } else {
                None
            },
            None => None,
        }
    }
}

/// Reads a relative time such as `30m`, `4h` or `1d`, in seconds.
pub fn parse_relative_seconds(s: &str) -> (r: Option<i64>)
    ensures
        r == relative_seconds(s@),
{
    let v = chars_of(s);
    let t = trimmed(v.as_slice());
    if t.len() < 2 {
        return None;
    }
    let unit = t[t.len() - 1];
    let factor: u64 = if unit == 'm' {
        60
    } else if unit == 'h' {
        3600
    } else if unit == 'd' {
        86400
    } else {
        0
    };
    let digits = subvec(t.as_slice(), 0, t.len() - 1);
    match parse_decimal(digits.as_slice(), i64::MAX as u64) {
        Some(n) => {
            if n == 0 || factor == 0 {
                return None;
            }
            let total: u128 = n as u128 * factor as u128;
            assert(total == n * factor) by (nonlinear_arith)
                requires
                    total == (n as int) * (factor as int),
            ;
            if total > i64::MAX as u128 {
                None
            } else {
                Some(total as i64)
            }
        },
        None => None,
    }
}

/// The instant that lies a relative time after `now`, as seconds since
/// 1970-01-01 00:00:00 UTC.
pub open spec fn relative_target(s: Seq<char>, now: i64) -> Option<i64> {
    match relative_seconds(s) {
        Some(d) => if now + d <= i64::MAX {
            Some((now + d) as i64)
        } else {
            None
        },
        None => None,
    }
}

/// The instant that lies a relative time after `now`.
pub fn parse_relative_time(s: &str, now: i64) -> (r: Option<i64>)
    ensures
        r == relative_target(s@, now),
{
    match parse_relative_seconds(s) {
        Some(d) => now.checked_add(d),
        None => None,
    }
}

/// The instant that lies a relative time after the present: what
/// `parse_relative_time` gives for the moment that the machine's clock
/// shows. It is `None` where the text is no relative time, and an instant
/// wherever the text is one that leaves room for every moment that the
/// clock can show; the instant lies as far after that moment as the text
/// says.
pub fn parse_relative_time_pub(s: &str) -> (r: Option<i64>)
    ensures
        exists|now: i64| clock_shows(now) && r == relative_target(s@, now),
        relative_seconds(s@).is_none() ==> r.is_none(),
        r matches Some(t) ==> relative_seconds(s@) matches Some(d) && 0 <= t - d < CLOCK_LIMIT,
        relative_seconds(s@) matches Some(d) && d <= i64::MAX - CLOCK_LIMIT ==> r.is_some(),
{
    let now = local_now();
    let r = parse_relative_time(s, now.timestamp);
    proof {
        assert(clock_shows(now.timestamp) && r == relative_target(s@, now.timestamp));
    }
    r
}

/// How a time given for a new schedule is kept.
pub struct Plan {
    /// The schedule: an instant in the library's time format, or a cron
    /// expression.
    pub schedule: String,
    pub kind: ScheduleKind,
}

/// Reads the time given for a new schedule. A relative time stands for the
/// instant that lies so far after the present, and is kept as the date and
/// time that the machine's time zone shows for that instant; an instant is
/// kept as it is; a text of five words is kept as a cron expression;
/// anything else is refused.
pub fn plan_schedule(at: &str) -> (r: Option<Plan>)
    ensures
        match r {
            Some(p) => {
                &&& p.kind != ScheduleKind::Unknown
                &&& p.kind == ScheduleKind::Cron ==> {
                    &&& p.schedule@ == at@
                    &&& words(at@).len() == 5
                    &&& relative_seconds(at@).is_none()
                }
                &&& p.kind == ScheduleKind::Absolute && relative_seconds(at@).is_none() ==> {
                    &&& p.schedule@ == at@
                    &&& naive_parse(at@, stamp_format()).is_some()
                }
            },
            None => relative_seconds(at@).is_none() ==> words(at@).len() != 5 || naive_parse(
                at@,
                stamp_format(),
            ).is_some(),
        },
        relative_seconds(at@).is_none() && naive_parse(at@, stamp_format()).is_none() ==> (r.is_some()
            <==> words(at@).len() == 5),
        relative_seconds(at@) matches Some(d) ==> (r matches Some(p) ==> p.kind
            == ScheduleKind::Absolute && exists|m: Moment|
            0 <= m.timestamp - d < CLOCK_LIMIT && calendar_time(m.local) && p.schedule@
                == stamp_text(m.local)),
{
    if let Some(seconds) = parse_relative_seconds(at) {
        let now = local_now();
        let target = match now.timestamp.checked_add(seconds) {
            Some(t) => t,
            None => {
                return None;
            },
        };
        return match moment_at(target) {
            Some(m) => match format_stamp(&m.local) {
                Some(schedule) => Some(Plan { schedule, kind: ScheduleKind::Absolute }),
                None => None,
            },
            None => None,
        };
    }
    if local_instant(at).is_some() {
        return Some(Plan { schedule: String::from_str(at), kind: ScheduleKind::Absolute });
    }
    let a = chars_of(at);
    let w = split_words(a.as_slice());
    if w.len() == 5 {
        Some(Plan { schedule: String::from_str(at), kind: ScheduleKind::Cron })
    } else {
        None
    }
}

/// The name of a kind of schedule, as an entry holds it; the empty text
/// for a kind that is not known.
pub fn kind_name(kind: ScheduleKind) -> (s: &'static str)
    ensures
        s@ == match kind {
            ScheduleKind::Absolute => "absolute"@,
            ScheduleKind::Cron => "cron"@,
            ScheduleKind::Unknown => ""@,
        },
{
    match kind {
        ScheduleKind::Absolute => "absolute",
        ScheduleKind::Cron => "cron",
        ScheduleKind::Unknown => "",
    }
}

/// What becomes of an entry's file after a run.
pub enum AfterRun {
    /// Nothing: the file was removed while the entry ran, and stays removed.
    Leave,
    /// Write the entry with its last run recorded, then remove the file: the
    /// entry has run for the last time.
    WriteThenDelete(ScheduleEntry),
    /// Write the entry with its last run, and the summary for its next,
    /// recorded.
    Write(ScheduleEntry),
}

/// An entry after a run at `now`: the run recorded, and the summary
/// replaced where the run left a new one.
pub open spec fn after_run_view(
    e: EntryView,
    now: Seq<char>,
    new_summary: Option<Seq<char>>,
) -> EntryView {
    EntryView {
        last_run: Some(now),
        context_summary: if new_summary is Some {
            new_summary
        } else {
            e.context_summary
        },
        ..e
    }
}

/// Whether an entry's run was its last: it is to run once, or at one
/// instant.
pub open spec fn runs_once(e: EntryView) -> bool {
    e.once || e.schedule_type == "absolute"@
}

/// Decides what becomes of an entry's file after a run that ended at `now`.
/// `still_there` says whether the file exists: an entry that its user
/// removed while it ran is not written again.
pub fn update_schedule_after_run(
    entry: &ScheduleEntry,
    now: &str,
    still_there: bool,
    new_context_summary: Option<String>,
) -> (r: AfterRun)
    ensures
        match r {
            AfterRun::Leave => !still_there,
            AfterRun::WriteThenDelete(e) => still_there && runs_once(entry@) && e@
                == after_run_view(entry@, now@, None),
            AfterRun::Write(e) => still_there && !runs_once(entry@) && e@ == after_run_view(
                entry@,
                now@,
                text_of(new_context_summary),
            ),
        },
{
    if !still_there {
        return AfterRun::Leave;
    }
    let mut updated = entry.clone();
    updated.last_run = Some(String::from_str(now));
    let t = chars_of(entry.schedule_type.as_str());
    if entry.once || is_text(t.as_slice(), "absolute") {
        AfterRun::WriteThenDelete(updated)
    } else {
        if new_context_summary.is_some() {
            updated.context_summary = new_context_summary;
        }
        AfterRun::Write(updated)
    }
}

/// Whether a run asks for a summary to hand to the next: the run ended
/// neither stopped nor in error, and the entry is a recurring cron entry
/// that carries a summary already.
pub open spec fn summary_wanted(e: EntryView, cancelled: bool, had_error: bool) -> bool {
    !cancelled && !had_error && e.schedule_type == "cron"@ && !e.once && e.context_summary is Some
}

/// Whether the assistant is to be asked for a summary of a run.
pub fn wants_summary(entry: &ScheduleEntry, cancelled: bool, had_error: bool) -> (r: bool)
    ensures
        r == summary_wanted(entry@, cancelled, had_error),
{
    let t = chars_of(entry.schedule_type.as_str());
    !cancelled && !had_error && is_text(t.as_slice(), "cron") && !entry.once
        && entry.context_summary.is_some()
}

/// The prompt that the assistant gets for a run: the entry's own, after the
/// summary of the last run where the entry carries one.
pub open spec fn run_prompt(e: EntryView) -> Seq<char> {
    match e.context_summary {
        Some(summary) => "[이전 작업 맥락]\n"@ + summary + "\n\n[작업 지시]\n"@ + e.prompt,
        None => e.prompt,
    }
}

/// The prompt that the assistant gets for a run of the entry.
pub fn build_run_prompt(entry: &ScheduleEntry) -> (p: String)
    ensures
        p@ == run_prompt(entry@),
{
    match &entry.context_summary {
        Some(summary) => {
            let mut v: Vec<char> = Vec::new();
            crate::text::push_str(&mut v, "[이전 작업 맥락]\n");
            crate::text::push_str(&mut v, summary.as_str());
            crate::text::push_str(&mut v, "\n\n[작업 지시]\n");
            crate::text::push_str(&mut v, entry.prompt.as_str());
            let p = string_of(v.as_slice());
            p
        },
        None => entry.prompt.clone(),
    }
}

/// Whether `a` comes before `b` in the order of a dictionary, character by
/// character.
pub open spec fn text_less(a: Seq<char>, b: Seq<char>) -> bool
    decreases a.len(),
{
    if b.len() == 0 {
        false
    } else if a.len() == 0 {
        true
    } else if (a[0] as u32) != (b[0] as u32) {
        (a[0] as u32) < (b[0] as u32)
    } else {
        text_less(a.drop_first(), b.drop_first())
    }
}

/// Compares two texts in the order of a dictionary.
pub fn is_text_less(a: &str, b: &str) -> (r: bool)
    ensures
        r == text_less(a@, b@),
{
    let x = chars_of(a);
    let y = chars_of(b);
    let mut i: usize = 0;
    proof {
        assert(x@.skip(0) =~= x@);
        assert(y@.skip(0) =~= y@);
    }
    while i < x.len() && i < y.len()
        invariant
            i <= x@.len(),
            i <= y@.len(),
            x@ == a@,
            y@ == b@,
            text_less(x@, y@) == text_less(x@.skip(i as int), y@.skip(i as int)),
        decreases x@.len() - i,
    {
        proof {
            assert(x@.skip(i as int).drop_first() =~= x@.skip(i + 1));
            assert(y@.skip(i as int).drop_first() =~= y@.skip(i + 1));
        }
        if (x[i] as u32) != (y[i] as u32) {
            return (x[i] as u32) < (y[i] as u32);
        }
        i += 1;
    }
    i < y.len()
}

/// The views of a list of entries.
pub open spec fn entry_views(v: Seq<ScheduleEntry>) -> Seq<EntryView> {
    v.map_values(|e: ScheduleEntry| e@)
}

/// Whether an entry belongs to the bot with the given key and, where a
/// conversation is given, to that conversation.
pub open spec fn selected(e: EntryView, bot_key: Seq<char>, chat_id: Option<i64>) -> bool {
    e.bot_key == bot_key && match chat_id {
        Some(c) => e.chat_id == c,
        None => true,
    }
}

/// Where an entry goes into a list in the order of creation: behind every
/// entry of the first `n` that was not created after it.
pub open spec fn insert_point(s: Seq<EntryView>, e: EntryView, n: int) -> int
    decreases n,
{
    if n <= 0 || n > s.len() {
        0
    } else if text_less(e.created_at, s[n - 1].created_at) {
        insert_point(s, e, n - 1)
    } else {
        n
    }
}

/// The entries of a list that are selected, in the order of their
/// creation; entries created at the same time stay in the order in which
/// the list holds them.
pub open spec fn listing(all: Seq<EntryView>, bot_key: Seq<char>, chat_id: Option<i64>) -> Seq<
    EntryView,
>
    decreases all.len(),
{
    if all.len() == 0 {
        Seq::empty()
    } else {
        let before = listing(all.drop_last(), bot_key, chat_id);
        let e = all.last();
        if selected(e, bot_key, chat_id) {
            before.insert(insert_point(before, e, before.len() as int), e)
        } else {
            before
        }
    }
}

/// Whether a list is in the order of creation.
pub open spec fn in_creation_order(s: Seq<EntryView>) -> bool {
    forall|i: int, j: int|
        0 <= i < j < s.len() ==> !text_less(#[trigger] s[j].created_at, #[trigger] s[i].created_at)
}

proof fn lemma_insert_point(s: Seq<EntryView>, e: EntryView, n: int)
    requires
        0 <= n <= s.len(),
    ensures
        0 <= insert_point(s, e, n) <= n,
        forall|k: int| insert_point(s, e, n) <= k < n ==> text_less(e.created_at, s[k].created_at),
        insert_point(s, e, n) > 0 ==> !text_less(
            e.created_at,
            s[insert_point(s, e, n) - 1].created_at,
        ),
    decreases n,
{
    if n > 0 && text_less(e.created_at, s[n - 1].created_at) {
        lemma_insert_point(s, e, n - 1);
    }
}

/// The order of a dictionary is transitive, and of two texts that differ
/// one comes before the other.
pub proof fn lemma_text_order(a: Seq<char>, b: Seq<char>, c: Seq<char>)
    ensures
        text_less(a, b) && text_less(b, c) ==> text_less(a, c),
        !text_less(a, b) && !text_less(b, c) ==> !text_less(a, c),
        !(text_less(a, b) && text_less(b, a)),
    decreases a.len() + b.len() + c.len(),
{
    if a.len() > 0 && b.len() > 0 && c.len() > 0 {
        lemma_text_order(a.drop_first(), b.drop_first(), c.drop_first());
    } else if a.len() > 0 && b.len() > 0 {
        lemma_text_order(a.drop_first(), b.drop_first(), c);
    }
}

/// A listing is in the order of creation.
pub proof fn law_listing_ordered(all: Seq<EntryView>, bot_key: Seq<char>, chat_id: Option<i64>)
    ensures
        in_creation_order(listing(all, bot_key, chat_id)),
    decreases all.len(),
{
    if all.len() > 0 {
        law_listing_ordered(all.drop_last(), bot_key, chat_id);
        let before = listing(all.drop_last(), bot_key, chat_id);
        let e = all.last();
        if selected(e, bot_key, chat_id) {
            let p = insert_point(before, e, before.len() as int);
            lemma_insert_point(before, e, before.len() as int);
            let after = before.insert(p, e);
            assert forall|i: int, j: int| 0 <= i < j < after.len() implies !text_less(
                #[trigger] after[j].created_at,
                #[trigger] after[i].created_at,
            ) by {
                if j == p {
                    // every entry before the point was not created after `e`
                    if p > 0 {
                        lemma_text_order(e.created_at, before[p - 1].created_at, before[i].created_at);
                        if i < p - 1 {
                        }
                    }
                } else if i == p {
                    lemma_text_order(e.created_at, before[j - 1].created_at, e.created_at);
                } else {
                    let bi = if i < p {
                        i
                    } else {
                        i - 1
                    };
                    let bj = if j < p {
                        j
                    } else {
                        j - 1
                    };
                }
            }
        }
    }
}

/// Lists the entries of a bot, and of one conversation where one is given,
/// in the order of their creation.
pub fn list_schedule_entries(
    all: &Vec<ScheduleEntry>,
    bot_key: &str,
    chat_id: Option<i64>,
) -> (r: Vec<ScheduleEntry>)
    ensures
        entry_views(r@) == listing(entry_views(all@), bot_key@, chat_id),
{
    let ghost a = entry_views(all@);
    let key = chars_of(bot_key);
    let mut r: Vec<ScheduleEntry> = Vec::new();
    let mut i: usize = 0;
    while i < all.len()
        invariant
            i <= all@.len(),
            a == entry_views(all@),
            key@ == bot_key@,
            entry_views(r@) == listing(a.take(i as int), bot_key@, chat_id),
        decreases all@.len() - i,
    {
        let e = &all[i];
        let ghost before = entry_views(r@);
        proof {
            assert(a.take(i + 1).drop_last() =~= a.take(i as int));
        }
        let k = chars_of(e.bot_key.as_str());
        let wanted = crate::text::same(k.as_slice(), key.as_slice()) && match chat_id {
            Some(c) => e.chat_id == c,
            None => true,
        };
        if wanted {
            let mut p: usize = r.len();
            while p > 0 && is_text_less(e.created_at.as_str(), r[p - 1].created_at.as_str())
                invariant
                    p <= r@.len(),
                    before == entry_views(r@),
                    insert_point(before, e@, before.len() as int) == insert_point(
                        before,
                        e@,
                        p as int,
                    ),
                decreases p,
            {
                p -= 1;
            }
            let copy = e.clone();
            r.insert(p, copy);
        }
        i += 1;
    }
    proof {
        assert(a.take(all@.len() as int) =~= a);
    }
    r
}

/// Lists the entries of a bot as callers outside the bot handle them.
pub fn list_schedule_entries_pub(
    all: &Vec<ScheduleEntry>,
    bot_key: &str,
    chat_id: Option<i64>,
) -> (r: Vec<ScheduleEntryData>)
    ensures
        r@.map_values(|d: ScheduleEntryData| d@) == listing(entry_views(all@), bot_key@, chat_id),
{
    let listed = list_schedule_entries(all, bot_key, chat_id);
    let ghost l = entry_views(listed@);
    let mut r: Vec<ScheduleEntryData> = Vec::new();
    let mut i: usize = 0;
    while i < listed.len()
        invariant
            i <= listed@.len(),
            l == entry_views(listed@),
            r@.map_values(|d: ScheduleEntryData| d@) == l.take(i as int),
        decreases listed@.len() - i,
    {
        r.push(ScheduleEntryData::from(&listed[i]));
        proof {
            assert(l.take(i + 1) =~= l.take(i as int).push(listed@[i as int]@));
        }
        i += 1;
    }
    r
}

} // verus!
