//! The state that all tasks of a bot share, and the steps that change it.
//!
//! Every step is one function: a caller holds the lock around the state for
//! the length of one call and for no longer, so that each step is atomic and
//! nothing that waits happens inside.

use crate::session::{
    blank, clone_text, entered, exchanged, opened_at, reset_view, stored_view, text_of, uploaded,
    ChatSession, SessionData, SessionView,
};
use crate::settings::{
    allowed_tools_of, find_name, get_allowed_tools, get_model, lemma_without_keeps_order,
    remove_name, without, BotSettings,
};
use crate::text::string_views;
use std::collections::HashMap;
use vstd::prelude::*;
use vstd::string::StringExecFns;

verus! {
broadcast use vstd::std_specs::hash::group_hash_axioms;

/// The least interval between two calls of the chat transport, in
/// milliseconds.
pub const MIN_POLLING_TIME_MS: u64 = 2500;

/// How far back, in milliseconds, the last call of a conversation is taken
/// to lie when none is known.
pub const INITIAL_BACKDATE_MS: u64 = 10_000;

/// The handle by which a running request is stopped. A conversation is busy
/// exactly while it has one.
#[derive(Clone, Copy, Debug, PartialEq, Eq, Structural)]
pub struct CancelToken {
    /// Tells the requests of one conversation apart.
    pub id: u64,
    /// Set once the request has been told to stop.
    pub cancelled: bool,
    /// The assistant's process, once it runs.
    pub child_pid: Option<u32>,
}

/// The token of a request that has just begun.
pub open spec fn fresh_token(id: u64) -> CancelToken {
    CancelToken { id, cancelled: false, child_pid: None }
}

/// The identifier that follows `id`: the next number, and 0 after the
/// largest.
pub open spec fn next_id(id: u64) -> u64 {
    if id == u64::MAX {
        0
    } else {
        (id + 1) as u64
    }
}

/// The outcome of an attempt to begin a request: the tokens afterwards where
/// the conversation was idle, `None` where it was busy.
pub open spec fn admitted(tokens: Map<i64, CancelToken>, chat_id: i64, id: u64) -> Option<
    Map<i64, CancelToken>,
> {
    if tokens.contains_key(chat_id) {
        None
    } else {
        Some(tokens.insert(chat_id, fresh_token(id)))
    }
}

/// Of two attempts to begin a request in one conversation, with nothing
/// finished between them, the second is refused: whatever the first met,
/// the conversation is busy after it, with one token.
pub proof fn law_single_flight(tokens: Map<i64, CancelToken>, chat_id: i64, id1: u64, id2: u64)
    ensures
        match admitted(tokens, chat_id, id1) {
            Some(after) => after.contains_key(chat_id) && after[chat_id] == fresh_token(id1)
                && admitted(after, chat_id, id2).is_none(),
            None => tokens.contains_key(chat_id) && admitted(tokens, chat_id, id2).is_none(),
        },
{
}

/// The instant reserved for the next call of the chat transport: the
/// present, or the last reserved instant plus the interval where that is
/// later. All in milliseconds; the result stops at the largest number.
pub open spec fn reserved(last: Option<u64>, now: u64, interval: u64) -> u64 {
    let base: int = match last {
        Some(l) => l as int,
        None => now - INITIAL_BACKDATE_MS,
    };
    let earliest = base + interval;
    let target = if earliest > now {
        earliest
    } else {
        now as int
    };
    if target > u64::MAX {
        u64::MAX
    } else {
        target as u64
    }
}

/// Two reservations for one conversation, the second made no earlier than
/// the first, lie at least one interval apart, and neither lies in the past.
pub proof fn law_rate_spacing(last: Option<u64>, now1: u64, now2: u64, interval: u64)
    requires
        now1 <= now2,
        reserved(last, now1, interval) + interval <= u64::MAX,
    ensures
        reserved(last, now1, interval) >= now1,
        reserved(Some(reserved(last, now1, interval)), now2, interval) >= now2,
        reserved(Some(reserved(last, now1, interval)), now2, interval) - reserved(
            last,
            now1,
            interval,
        ) >= interval,
{
}

/// What the scheduler does with one entry in one cycle.
#[derive(Clone, Copy, Debug, PartialEq, Eq, Structural)]
pub enum Decision {
    /// Nothing.
    Skip,
    /// Delete the entry: its time has passed and it will never run.
    DiscardExpired,
    /// Note that the entry waits for the conversation, and do nothing else.
    MarkPending,
    /// Run the entry now.
    Execute,
}

/// The scheduler's decision for one entry: `pending` says that it waits
/// already, `due` that its time has come, `expired` that its time has passed
/// for good, `busy` that its conversation has a request running.
pub open spec fn decision(pending: bool, due: bool, expired: bool, busy: bool) -> Decision {
    if !pending && !due {
        if expired {
            Decision::DiscardExpired
        } else {
            Decision::Skip
        }
    } else if busy {
        if pending {
            Decision::Skip
        } else {
            Decision::MarkPending
        }
    } else {
        Decision::Execute
    }
}

/// Whether the entry waits after the decision was carried out.
pub open spec fn pending_after(pending: bool, d: Decision) -> bool {
    pending || d == Decision::MarkPending || d == Decision::Execute
}

/// Whether the conversation is busy after the decision was carried out.
pub open spec fn busy_after(busy: bool, d: Decision) -> bool {
    busy || d == Decision::Execute
}

/// An entry that comes due while its conversation is busy is neither run nor
/// deleted but waits; while it waits and the conversation stays busy, it
/// neither runs nor is deleted; in the first cycle that finds the
/// conversation idle it runs, whether or not it is still due; while it runs
/// no cycle runs it again; and once it has finished and is no longer due, it
/// does not run.
pub proof fn law_schedule_reconciliation(pending: bool, due: bool, expired: bool)
    ensures
        ({
            let first = decision(pending, true, expired, true);
            &&& first != Decision::Execute
            &&& first != Decision::DiscardExpired
            &&& pending_after(pending, first)
        }),
        decision(true, due, expired, true) == Decision::Skip,
        ({
            let idle = decision(true, due, expired, false);
            &&& idle == Decision::Execute
            &&& busy_after(false, idle)
            &&& decision(pending_after(true, idle), due, expired, busy_after(false, idle))
                == Decision::Skip
        }),
        decision(false, false, expired, false) != Decision::Execute,
        decision(false, false, expired, true) != Decision::Execute,
{
}

/// What the scheduler is to do with an entry.
pub enum SchedAction {
    /// Tell the conversation that the entry's directory is gone, and leave
    /// the entry as it is.
    PathMissing,
    /// Nothing in this cycle.
    Skip,
    /// Delete the entry.
    DiscardExpired,
    /// Run the entry. Holds the session that the conversation had, to be put
    /// back when the run is over.
    Execute(Option<ChatSession>),
}

/// What a request needs to know of its conversation.
pub struct RequestContext {
    /// The assistant session to continue and the working directory; `None`
    /// where the conversation has no directory yet.
    pub session: Option<(Option<String>, String)>,
    pub allowed_tools: Vec<String>,
    pub model: Option<String>,
    /// Upload records that the assistant has not been told of.
    pub uploads: Vec<String>,
}

/// How an attempt to begin a request of the assistant ends.
pub enum RequestStart {
    /// A request runs in the conversation already.
    Busy,
    /// The conversation has no working directory.
    NoSession,
    /// The request has begun: its token, and what it needs to know.
    Begun(u64, RequestContext),
}

/// What is to be done about a request to stop.
#[derive(Clone, Copy, Debug, PartialEq, Eq, Structural)]
pub enum StopDecision {
    /// No request runs.
    NoRequest,
    /// The running request was told to stop already.
    AlreadyStopping,
    /// Tell the running request to stop.
    Proceed,
}

/// The state that the tasks of a bot share.
pub struct SharedData {
    pub sessions: HashMap<i64, ChatSession>,
    pub settings: BotSettings,
    /// The running request of each busy conversation.
    pub cancel_tokens: HashMap<i64, CancelToken>,
    /// The message that acknowledged a request to stop, to be removed when
    /// the request has stopped.
    pub stop_message_ids: HashMap<i64, i32>,
    /// The instant last reserved for a call of the chat transport.
    pub api_timestamps: HashMap<i64, u64>,
    pub polling_time_ms: u64,
    /// The schedule entries that run or wait to run.
    pub pending_schedules: HashMap<i64, Vec<String>>,
    /// The identifier of the next token.
    pub next_token: u64,
}

impl SharedData {
    /// The state is well formed: the polling interval is not below the least
    /// allowed, and no conversation has an entry twice among those that run
    /// or wait to run.
    pub open spec fn wf(self) -> bool {
        &&& self.polling_time_ms >= MIN_POLLING_TIME_MS
        &&& forall|c: i64| #[trigger]
            self.pending_schedules@.contains_key(c) ==> string_views(
                self.pending_schedules@[c]@,
            ).no_duplicates()
    }

    /// The conversation has a request running.
    pub open spec fn busy(self, chat_id: i64) -> bool {
        self.cancel_tokens@.contains_key(chat_id)
    }

    /// The schedule entries of a conversation that run or wait to run.
    pub open spec fn pending_ids(self, chat_id: i64) -> Seq<Seq<char>> {
        if self.pending_schedules@.contains_key(chat_id) {
            string_views(self.pending_schedules@[chat_id]@)
        } else {
            Seq::empty()
        }
    }

    /// The entry runs or waits to run.
    pub open spec fn is_pending(self, chat_id: i64, id: Seq<char>) -> bool {
        self.pending_ids(chat_id).contains(id)
    }

    /// The instant last reserved for the conversation.
    pub open spec fn last_reserved(self, chat_id: i64) -> Option<u64> {
        if self.api_timestamps@.contains_key(chat_id) {
            Some(self.api_timestamps@[chat_id])
        } else {
            None
        }
    }

    /// The session of the conversation, as plain values.
    pub open spec fn session_view(self, chat_id: i64) -> Option<SessionView> {
        if self.sessions@.contains_key(chat_id) {
            Some(self.sessions@[chat_id]@)
        } else {
            None
        }
    }

    /// The state of a bot that has just started: no session, no request, the
    /// polling interval not below the least allowed.
    pub fn new(settings: BotSettings, polling_time_ms: u64) -> (s: Self)
        ensures
            s.wf(),
            s.settings == settings,
            s.polling_time_ms == if polling_time_ms < MIN_POLLING_TIME_MS {
                MIN_POLLING_TIME_MS
            } else {
                polling_time_ms
            },
            s.sessions@ == Map::<i64, ChatSession>::empty(),
            s.cancel_tokens@ == Map::<i64, CancelToken>::empty(),
            s.stop_message_ids@ == Map::<i64, i32>::empty(),
            s.api_timestamps@ == Map::<i64, u64>::empty(),
            s.pending_schedules@ == Map::<i64, Vec<String>>::empty(),
    {
        SharedData {
            sessions: HashMap::new(),
            settings,
            cancel_tokens: HashMap::new(),
            stop_message_ids: HashMap::new(),
            api_timestamps: HashMap::new(),
            polling_time_ms: if polling_time_ms < MIN_POLLING_TIME_MS {
                MIN_POLLING_TIME_MS
            } else {
                polling_time_ms
            },
            pending_schedules: HashMap::new(),
            next_token: 0,
        }
    }

    /// Whether the conversation has a request running.
    pub fn is_busy(&self, chat_id: i64) -> (b: bool)
        ensures
            b == self.busy(chat_id),
    {
        self.cancel_tokens.contains_key(&chat_id)
    }

    /// Begins a request in the conversation unless one runs there: the
    /// admission check and the registration of the token are one step. A
    /// refused attempt changes nothing.
    pub fn try_begin(&mut self, chat_id: i64) -> (r: Option<u64>)
        ensures
            old(self).wf() ==> final(self).wf(),
            match admitted(old(self).cancel_tokens@, chat_id, old(self).next_token) {
                Some(tokens) => {
                    &&& r == Some(old(self).next_token)
                    &&& final(self).cancel_tokens@ == tokens
                    &&& final(self).next_token == next_id(old(self).next_token)
                },
                None => {
                    &&& r.is_none()
                    &&& final(self).cancel_tokens == old(self).cancel_tokens
                    &&& final(self).next_token == old(self).next_token
                },
            },
            final(self).sessions == old(self).sessions,
            final(self).settings == old(self).settings,
            final(self).stop_message_ids == old(self).stop_message_ids,
            final(self).api_timestamps == old(self).api_timestamps,
            final(self).polling_time_ms == old(self).polling_time_ms,
            final(self).pending_schedules == old(self).pending_schedules,
    {
        if self.cancel_tokens.contains_key(&chat_id) {
            return None;
        }
        let id = self.next_token;
        self.cancel_tokens.insert(chat_id, CancelToken { id, cancelled: false, child_pid: None });
        self.next_token = if id == u64::MAX {
            0
        } else {
            id + 1
        };
        Some(id)
    }

    /// The token of the conversation's request, where one runs; else a new
    /// request begins, and its token is returned. Either way the
    /// conversation is busy afterwards. Only a request that begins uses up
    /// an identifier.
    pub fn ensure_token(&mut self, chat_id: i64) -> (id: u64)
        ensures
            old(self).wf() ==> final(self).wf(),
            final(self).busy(chat_id),
            final(self).cancel_tokens@[chat_id].id == id,
            old(self).busy(chat_id) ==> {
                &&& final(self).cancel_tokens@ == old(self).cancel_tokens@
                &&& final(self).next_token == old(self).next_token
                &&& id == old(self).cancel_tokens@[chat_id].id
            },
            !old(self).busy(chat_id) ==> {
                &&& final(self).cancel_tokens@ == old(self).cancel_tokens@.insert(
                    chat_id,
                    fresh_token(old(self).next_token),
                )
                &&& final(self).next_token == next_id(old(self).next_token)
                &&& id == old(self).next_token
            },
            final(self).sessions == old(self).sessions,
            final(self).settings == old(self).settings,
            final(self).stop_message_ids == old(self).stop_message_ids,
            final(self).api_timestamps == old(self).api_timestamps,
            final(self).polling_time_ms == old(self).polling_time_ms,
            final(self).pending_schedules == old(self).pending_schedules,
    {
        let current = match self.cancel_tokens.get(&chat_id) {
            Some(t) => Some(t.id),
            None => None,
        };
        match current {
            Some(id) => id,
            None => {
                let id = self.next_token;
                self.try_begin(chat_id);
                id
            },
        }
    }

    /// Ends the request of the conversation: it is idle afterwards.
    pub fn release(&mut self, chat_id: i64)
        ensures
            old(self).wf() ==> final(self).wf(),
            final(self).cancel_tokens@ == old(self).cancel_tokens@.remove(chat_id),
            !final(self).busy(chat_id),
            final(self).sessions == old(self).sessions,
            final(self).settings == old(self).settings,
            final(self).stop_message_ids == old(self).stop_message_ids,
            final(self).api_timestamps == old(self).api_timestamps,
            final(self).polling_time_ms == old(self).polling_time_ms,
            final(self).pending_schedules == old(self).pending_schedules,
            final(self).next_token == old(self).next_token,
    {
        self.cancel_tokens.remove(&chat_id);
    }

    /// Whether the request with the given token is to stop: it was told to,
    /// or the conversation's token is no longer its own.
    pub fn is_cancelled(&self, chat_id: i64, token_id: u64) -> (c: bool)
        ensures
            c == !(self.cancel_tokens@.contains_key(chat_id) && self.cancel_tokens@[chat_id].id
                == token_id && !self.cancel_tokens@[chat_id].cancelled),
    {
        match self.cancel_tokens.get(&chat_id) {
            Some(t) => t.id != token_id || t.cancelled,
            None => true,
        }
    }

    /// Records the process of the request with the given token, so that it
    /// can be signalled. Does nothing where the token is no longer the
    /// conversation's.
    pub fn set_child_pid(&mut self, chat_id: i64, token_id: u64, pid: u32)
        ensures
            old(self).wf() ==> final(self).wf(),
            final(self).cancel_tokens@ == if old(self).cancel_tokens@.contains_key(chat_id) && old(
                self,
            ).cancel_tokens@[chat_id].id == token_id {
                old(self).cancel_tokens@.insert(
                    chat_id,
                    CancelToken { child_pid: Some(pid), ..old(self).cancel_tokens@[chat_id] },
                )
            } else {
                old(self).cancel_tokens@
            },
            final(self).sessions == old(self).sessions,
            final(self).settings == old(self).settings,
            final(self).stop_message_ids == old(self).stop_message_ids,
            final(self).api_timestamps == old(self).api_timestamps,
            final(self).polling_time_ms == old(self).polling_time_ms,
            final(self).pending_schedules == old(self).pending_schedules,
            final(self).next_token == old(self).next_token,
    {
        let cur = match self.cancel_tokens.get(&chat_id) {
            Some(t) => Some(*t),
            None => None,
        };
        if let Some(t) = cur {
            if t.id == token_id {
                self.cancel_tokens.insert(
                    chat_id,
                    CancelToken { id: t.id, cancelled: t.cancelled, child_pid: Some(pid) },
                );
            }
        }
    }

    /// The process of the conversation's request, if one is recorded.
    pub fn child_pid(&self, chat_id: i64) -> (pid: Option<u32>)
        ensures
            pid == if self.busy(chat_id) {
                self.cancel_tokens@[chat_id].child_pid
            } else {
                None
            },
    {
        match self.cancel_tokens.get(&chat_id) {
            Some(t) => t.child_pid,
            None => None,
        }
    }

    /// What is to be done about a request to stop the conversation's
    /// request.
    pub fn stop_decision(&self, chat_id: i64) -> (d: StopDecision)
        ensures
            d == if !self.busy(chat_id) {
                StopDecision::NoRequest
            } else if self.cancel_tokens@[chat_id].cancelled {
                StopDecision::AlreadyStopping
            } else {
                StopDecision::Proceed
            },
    {
        match self.cancel_tokens.get(&chat_id) {
            Some(t) => if t.cancelled {
                StopDecision::AlreadyStopping
            } else {
                StopDecision::Proceed
            },
            None => StopDecision::NoRequest,
        }
    }

    /// Tells the conversation's request to stop, and notes the message that
    /// acknowledged the wish. Returns the process to signal, if one runs.
    pub fn mark_stopped(&mut self, chat_id: i64, stop_message_id: i32) -> (pid: Option<u32>)
        ensures
            old(self).wf() ==> final(self).wf(),
            final(self).stop_message_ids@ == old(self).stop_message_ids@.insert(
                chat_id,
                stop_message_id,
            ),
            final(self).cancel_tokens@ == if old(self).busy(chat_id) {
                old(self).cancel_tokens@.insert(
                    chat_id,
                    CancelToken { cancelled: true, ..old(self).cancel_tokens@[chat_id] },
                )
            } else {
                old(self).cancel_tokens@
            },
            pid == if old(self).busy(chat_id) {
                old(self).cancel_tokens@[chat_id].child_pid
            } else {
                None
            },
            final(self).sessions == old(self).sessions,
            final(self).settings == old(self).settings,
            final(self).api_timestamps == old(self).api_timestamps,
            final(self).polling_time_ms == old(self).polling_time_ms,
            final(self).pending_schedules == old(self).pending_schedules,
            final(self).next_token == old(self).next_token,
    {
        self.stop_message_ids.insert(chat_id, stop_message_id);
        let cur = match self.cancel_tokens.get(&chat_id) {
            Some(t) => Some(*t),
            None => None,
        };
        match cur {
            Some(t) => {
                self.cancel_tokens.insert(
                    chat_id,
                    CancelToken { id: t.id, cancelled: true, child_pid: t.child_pid },
                );
                t.child_pid
            },
            None => None,
        }
    }

    /// Hands out the message that acknowledged a wish to stop, if there is
    /// one, so that it can be removed.
    pub fn take_stop_message(&mut self, chat_id: i64) -> (m: Option<i32>)
        ensures
            old(self).wf() ==> final(self).wf(),
            m == if old(self).stop_message_ids@.contains_key(chat_id) {
                Some(old(self).stop_message_ids@[chat_id])
            } else {
                None
            },
            final(self).stop_message_ids@ == old(self).stop_message_ids@.remove(chat_id),
            final(self).sessions == old(self).sessions,
            final(self).settings == old(self).settings,
            final(self).cancel_tokens == old(self).cancel_tokens,
            final(self).api_timestamps == old(self).api_timestamps,
            final(self).polling_time_ms == old(self).polling_time_ms,
            final(self).pending_schedules == old(self).pending_schedules,
            final(self).next_token == old(self).next_token,
    {
        self.stop_message_ids.remove(&chat_id)
    }

    /// Reserves the instant of the conversation's next call of the chat
    /// transport, and returns it: the caller sleeps until then and makes its
    /// call. Reserving, not sleeping after a call, is what keeps tasks that
    /// call at once one interval apart.
    pub fn reserve_slot(&mut self, chat_id: i64, now_ms: u64) -> (target: u64)
        ensures
            old(self).wf() ==> final(self).wf(),
            target == reserved(old(self).last_reserved(chat_id), now_ms, old(self).polling_time_ms),
            target >= now_ms,
            final(self).api_timestamps@ == old(self).api_timestamps@.insert(chat_id, target),
            final(self).sessions == old(self).sessions,
            final(self).settings == old(self).settings,
            final(self).cancel_tokens == old(self).cancel_tokens,
            final(self).stop_message_ids == old(self).stop_message_ids,
            final(self).polling_time_ms == old(self).polling_time_ms,
            final(self).pending_schedules == old(self).pending_schedules,
            final(self).next_token == old(self).next_token,
    {
        let base: i128 = match self.api_timestamps.get(&chat_id) {
            Some(l) => *l as i128,
            None => now_ms as i128 - INITIAL_BACKDATE_MS as i128,
        };
        let earliest: i128 = base + self.polling_time_ms as i128;
        let wanted: i128 = if earliest > now_ms as i128 {
            earliest
        } else {
            now_ms as i128
        };
        let target: u64 = if wanted > u64::MAX as i128 {
            u64::MAX
        } else {
            wanted as u64
        };
        self.api_timestamps.insert(chat_id, target);
        target
    }

    /// Sets the interval between calls of the chat transport. Returns
    /// whether the interval was taken: one below the least allowed is not.
    pub fn set_polling_time(&mut self, value_ms: u64) -> (taken: bool)
        ensures
            old(self).wf() ==> final(self).wf(),
            taken == (value_ms >= MIN_POLLING_TIME_MS),
            final(self).polling_time_ms == if taken {
                value_ms
            } else {
                old(self).polling_time_ms
            },
            final(self).sessions == old(self).sessions,
            final(self).settings == old(self).settings,
            final(self).cancel_tokens == old(self).cancel_tokens,
            final(self).stop_message_ids == old(self).stop_message_ids,
            final(self).api_timestamps == old(self).api_timestamps,
            final(self).pending_schedules == old(self).pending_schedules,
            final(self).next_token == old(self).next_token,
    {
        if value_ms < MIN_POLLING_TIME_MS {
            return false;
        }
        self.polling_time_ms = value_ms;
        true
    }

    /// The working directory of the conversation, if it has one.
    pub fn current_path(&self, chat_id: i64) -> (p: Option<String>)
        ensures
            text_of(p) == match self.session_view(chat_id) {
                Some(s) => s.current_path,
                None => None,
            },
    {
        match self.sessions.get(&chat_id) {
            Some(s) => clone_text(&s.current_path),
            None => None,
        }
    }
}

impl SharedData {
    /// Notes that a schedule entry runs or waits to run.
    fn add_pending(&mut self, chat_id: i64, id: &str)
        ensures
            old(self).wf() ==> final(self).wf(),
            final(self).pending_ids(chat_id) == if old(self).is_pending(chat_id, id@) {
                old(self).pending_ids(chat_id)
            } else {
                old(self).pending_ids(chat_id).push(id@)
            },
            final(self).pending_schedules@.remove(chat_id) == old(self).pending_schedules@.remove(
                chat_id,
            ),
            final(self).sessions == old(self).sessions,
            final(self).settings == old(self).settings,
            final(self).cancel_tokens == old(self).cancel_tokens,
            final(self).stop_message_ids == old(self).stop_message_ids,
            final(self).api_timestamps == old(self).api_timestamps,
            final(self).polling_time_ms == old(self).polling_time_ms,
            final(self).next_token == old(self).next_token,
    {
        let mut set = match self.pending_schedules.remove(&chat_id) {
            Some(v) => v,
            None => Vec::new(),
        };
        let ghost ids = string_views(set@);
        let at = find_name(&set, id);
        if at >= set.len() {
            set.push(String::from_str(id));
            proof {
                assert(string_views(set@) =~= ids.push(id@));
            }
        }
        self.pending_schedules.insert(chat_id, set);
    }

    /// Whether a schedule entry runs or waits to run.
    pub fn has_pending(&self, chat_id: i64, id: &str) -> (p: bool)
        ensures
            p == self.is_pending(chat_id, id@),
    {
        match self.pending_schedules.get(&chat_id) {
            Some(set) => {
                let at = find_name(set, id);
                at < set.len()
            },
            None => false,
        }
    }

    /// The scheduler's step for one entry, taken as one: whether the entry
    /// waits, whether its conversation is busy, and what follows are decided
    /// and carried out together, so that no request can begin in between.
    ///
    /// `path_exists` says that the entry's directory is still there: an
    /// entry whose directory is gone is neither run nor deleted nor noted,
    /// whatever its time. `due` says that the entry's time has come,
    /// `expired` that it has passed for good. An entry that is run finds its
    /// conversation busy with a fresh token and at a session of its own at
    /// `entry_path`; the session that was there before is handed out.
    pub fn schedule_step(
        &mut self,
        chat_id: i64,
        entry_id: &str,
        entry_path: &str,
        path_exists: bool,
        due: bool,
        expired: bool,
    ) -> (action: SchedAction)
        ensures
            old(self).wf() ==> final(self).wf(),
            !path_exists ==> action is PathMissing && *final(self) == *old(self),
            path_exists ==> match decision(
                old(self).is_pending(chat_id, entry_id@),
                due,
                expired,
                old(self).busy(chat_id),
            ) {
                Decision::Skip => action is Skip && *final(self) == *old(self),
                Decision::DiscardExpired => action is DiscardExpired && *final(self) == *old(self),
                Decision::MarkPending => {
                    &&& action is Skip
                    &&& final(self).pending_ids(chat_id) == old(self).pending_ids(chat_id).push(
                        entry_id@,
                    )
                    &&& final(self).sessions@ == old(self).sessions@
                    &&& final(self).cancel_tokens == old(self).cancel_tokens
                    &&& final(self).next_token == old(self).next_token
                },
                Decision::Execute => {
                    &&& action matches SchedAction::Execute(prev)
                    &&& match prev {
                        Some(p) => old(self).sessions@.contains_key(chat_id) && old(
                            self,
                        ).sessions@[chat_id] == p,
                        None => !old(self).sessions@.contains_key(chat_id),
                    }
                    &&& final(self).session_view(chat_id) == Some(opened_at(entry_path@))
                    &&& final(self).sessions@.remove(chat_id) == old(self).sessions@.remove(chat_id)
                    &&& final(self).is_pending(chat_id, entry_id@)
                    &&& final(self).cancel_tokens@ == old(self).cancel_tokens@.insert(
                        chat_id,
                        fresh_token(old(self).next_token),
                    )
                    &&& final(self).next_token == next_id(old(self).next_token)
                },
            },
            path_exists ==> final(self).busy(chat_id) == busy_after(
                old(self).busy(chat_id),
                decision(
                    old(self).is_pending(chat_id, entry_id@),
                    due,
                    expired,
                    old(self).busy(chat_id),
                ),
            ),
            path_exists ==> final(self).is_pending(chat_id, entry_id@) == pending_after(
                old(self).is_pending(chat_id, entry_id@),
                decision(
                    old(self).is_pending(chat_id, entry_id@),
                    due,
                    expired,
                    old(self).busy(chat_id),
                ),
            ),
            final(self).pending_schedules@.remove(chat_id) == old(self).pending_schedules@.remove(
                chat_id,
            ),
            final(self).settings == old(self).settings,
            final(self).stop_message_ids == old(self).stop_message_ids,
            final(self).api_timestamps == old(self).api_timestamps,
            final(self).polling_time_ms == old(self).polling_time_ms,
    {
        if !path_exists {
            return SchedAction::PathMissing;
        }
        let pending = self.has_pending(chat_id, entry_id);
        if !pending && !due {
            return if expired {
                SchedAction::DiscardExpired
            } else {
                SchedAction::Skip
            };
        }
        if self.is_busy(chat_id) {
            if !pending {
                self.add_pending(chat_id, entry_id);
                proof {
                    let ids = old(self).pending_ids(chat_id);
                    assert(ids.push(entry_id@)[ids.len() as int] == entry_id@);
                }
            }
            return SchedAction::Skip;
        }
        let ghost before = self.sessions@;
        let prev = self.sessions.remove(&chat_id);
        self.sessions.insert(chat_id, ChatSession::open_at(entry_path));
        self.add_pending(chat_id, entry_id);
        proof {
            let ids = old(self).pending_ids(chat_id);
            if pending {
            } else {
                assert(ids.push(entry_id@)[ids.len() as int] == entry_id@);
            }
        }
        let started = self.try_begin(chat_id);
        SchedAction::Execute(prev)
    }

    /// Ends the run of a schedule entry: the conversation is idle again, the
    /// entry no longer waits, and the conversation has the session back that
    /// it had before the run, or none where it had none.
    pub fn finish_schedule(&mut self, chat_id: i64, entry_id: &str, prev: Option<ChatSession>)
        ensures
            old(self).wf() ==> final(self).wf(),
            final(self).cancel_tokens@ == old(self).cancel_tokens@.remove(chat_id),
            final(self).pending_ids(chat_id) == without(old(self).pending_ids(chat_id), entry_id@),
            final(self).pending_schedules@.remove(chat_id) == old(self).pending_schedules@.remove(
                chat_id,
            ),
            final(self).sessions@ == match prev {
                Some(p) => old(self).sessions@.insert(chat_id, p),
                None => old(self).sessions@.remove(chat_id),
            },
            final(self).settings == old(self).settings,
            final(self).stop_message_ids == old(self).stop_message_ids,
            final(self).api_timestamps == old(self).api_timestamps,
            final(self).polling_time_ms == old(self).polling_time_ms,
            final(self).next_token == old(self).next_token,
    {
        self.cancel_tokens.remove(&chat_id);
        match self.pending_schedules.remove(&chat_id) {
            Some(mut set) => {
                proof {
                    lemma_without_keeps_order(string_views(set@), entry_id@);
                }
                remove_name(&mut set, entry_id);
                self.pending_schedules.insert(chat_id, set);
            },
            None => {
            },
        }
        match prev {
            Some(p) => {
                self.sessions.insert(chat_id, p);
            },
            None => {
                self.sessions.remove(&chat_id);
            },
        }
    }

    /// The directory to which a conversation without a session returns: the
    /// last one it worked in, if that is known.
    pub fn restore_path(&self, chat_id: i64) -> (p: Option<String>)
        ensures
            p is Some <==> !self.sessions@.contains_key(chat_id)
                && self.settings.last_sessions@.contains_key(chat_id),
            p matches Some(s) ==> s@ == self.settings.last_sessions@[chat_id]@,
    {
        if self.sessions.contains_key(&chat_id) {
            return None;
        }
        match self.settings.last_sessions.get(&chat_id) {
            Some(p) => Some(p.clone()),
            None => None,
        }
    }

    /// Points the conversation's session at `path`, making one where there
    /// is none, and remembers the directory as the conversation's last.
    pub fn start_session(&mut self, chat_id: i64, path: &str, existing: Option<&SessionData>)
        ensures
            old(self).wf() ==> final(self).wf(),
            final(self).session_view(chat_id) == Some(
                entered(
                    match old(self).session_view(chat_id) {
                        Some(s) => s,
                        None => blank(),
                    },
                    path@,
                    stored_view(existing),
                ),
            ),
            final(self).sessions@.remove(chat_id) == old(self).sessions@.remove(chat_id),
            final(self).settings.last_sessions@.contains_key(chat_id),
            final(self).settings.last_sessions@[chat_id]@ == path@,
            final(self).settings.last_sessions@.remove(chat_id) == old(
                self,
            ).settings.last_sessions@.remove(chat_id),
            final(self).settings.allowed_tools == old(self).settings.allowed_tools,
            final(self).settings.owner_user_id == old(self).settings.owner_user_id,
            final(self).settings.as_public_for_group_chat == old(
                self,
            ).settings.as_public_for_group_chat,
            final(self).settings.models == old(self).settings.models,
            final(self).settings.debug == old(self).settings.debug,
            final(self).cancel_tokens == old(self).cancel_tokens,
            final(self).stop_message_ids == old(self).stop_message_ids,
            final(self).api_timestamps == old(self).api_timestamps,
            final(self).polling_time_ms == old(self).polling_time_ms,
            final(self).pending_schedules == old(self).pending_schedules,
            final(self).next_token == old(self).next_token,
    {
        let mut session = match self.sessions.remove(&chat_id) {
            Some(s) => s,
            None => ChatSession::empty(),
        };
        session.enter(path, existing);
        self.sessions.insert(chat_id, session);
        let ghost last = self.settings.last_sessions@;
        self.settings.last_sessions.insert(chat_id, String::from_str(path));
    }

    /// Brings back the session of a conversation that has none in memory, at
    /// the directory it last worked in. Does nothing where it has one.
    pub fn restore_session(&mut self, chat_id: i64, path: &str, existing: Option<&SessionData>)
        ensures
            old(self).wf() ==> final(self).wf(),
            old(self).sessions@.contains_key(chat_id) ==> final(self).sessions == old(
                self,
            ).sessions,
            !old(self).sessions@.contains_key(chat_id) ==> {
                &&& final(self).session_view(chat_id) == Some(
                    entered(blank(), path@, stored_view(existing)),
                )
                &&& final(self).sessions@.remove(chat_id) == old(self).sessions@
            },
            final(self).settings == old(self).settings,
            final(self).cancel_tokens == old(self).cancel_tokens,
            final(self).stop_message_ids == old(self).stop_message_ids,
            final(self).api_timestamps == old(self).api_timestamps,
            final(self).polling_time_ms == old(self).polling_time_ms,
            final(self).pending_schedules == old(self).pending_schedules,
            final(self).next_token == old(self).next_token,
    {
        if self.sessions.contains_key(&chat_id) {
            return ;
        }
        let mut session = ChatSession::empty();
        session.enter(path, existing);
        self.sessions.insert(chat_id, session);
    }

    /// The conversation has a session with a working directory.
    pub open spec fn has_directory(self, chat_id: i64) -> bool {
        self.sessions@.contains_key(chat_id) && self.sessions@[chat_id]@.current_path is Some
    }

    /// Begins a request of the assistant, in one step: where a request runs
    /// in the conversation already, or the conversation has no working
    /// directory, the attempt is refused and nothing changes; else the
    /// conversation is busy with a fresh token, and the request is handed
    /// what `prepare_request` gathers, the pending uploads among it.
    pub fn begin_request(&mut self, chat_id: i64) -> (r: RequestStart)
        ensures
            old(self).wf() ==> final(self).wf(),
            match r {
                RequestStart::Busy => old(self).busy(chat_id) && *final(self) == *old(self),
                RequestStart::NoSession => !old(self).busy(chat_id) && !old(self).has_directory(
                    chat_id,
                ) && *final(self) == *old(self),
                RequestStart::Begun(token, ctx) => {
                    let s = old(self).sessions@[chat_id]@;
                    &&& !old(self).busy(chat_id)
                    &&& old(self).has_directory(chat_id)
                    &&& token == old(self).next_token
                    &&& final(self).next_token == next_id(token)
                    &&& final(self).cancel_tokens@ == old(self).cancel_tokens@.insert(
                        chat_id,
                        fresh_token(token),
                    )
                    &&& string_views(ctx.uploads@) == s.pending_uploads
                    &&& final(self).session_view(chat_id) == Some(
                        SessionView { pending_uploads: Seq::empty(), cleared: false, ..s },
                    )
                    &&& ctx.session matches Some(pair) && text_of(pair.0) == s.session_id && Some(
                        pair.1@,
                    ) == s.current_path
                    &&& string_views(ctx.allowed_tools@) == allowed_tools_of(
                        old(self).settings,
                        chat_id,
                    )
                    &&& ctx.model is Some <==> old(self).settings.models@.contains_key(chat_id)
                    &&& ctx.model matches Some(m) ==> m@ == old(self).settings.models@[chat_id]@
                    &&& final(self).sessions@.remove(chat_id) == old(self).sessions@.remove(chat_id)
                    &&& final(self).settings == old(self).settings
                    &&& final(self).stop_message_ids == old(self).stop_message_ids
                    &&& final(self).api_timestamps == old(self).api_timestamps
                    &&& final(self).polling_time_ms == old(self).polling_time_ms
                    &&& final(self).pending_schedules == old(self).pending_schedules
                },
            },
    {
        if self.cancel_tokens.contains_key(&chat_id) {
            return RequestStart::Busy;
        }
        let has_directory = match self.sessions.get(&chat_id) {
            Some(session) => session.current_path.is_some(),
            None => false,
        };
        if !has_directory {
            return RequestStart::NoSession;
        }
        let ctx = self.prepare_request(chat_id);
        let token = self.next_token;
        self.try_begin(chat_id);
        RequestStart::Begun(token, ctx)
    }

    /// Gathers what a request needs, and hands out the upload records that
    /// the assistant has not been told of, so that each is told once. A
    /// session that was reset is no longer marked so: a new request begins.
    pub fn prepare_request(&mut self, chat_id: i64) -> (ctx: RequestContext)
        ensures
            old(self).wf() ==> final(self).wf(),
            match old(self).session_view(chat_id) {
                Some(s) => {
                    &&& string_views(ctx.uploads@) == s.pending_uploads
                    &&& final(self).session_view(chat_id) == Some(
                        SessionView { pending_uploads: Seq::empty(), cleared: false, ..s },
                    )
                    &&& match s.current_path {
                        Some(p) => ctx.session matches Some(pair) && text_of(pair.0)
                            == s.session_id && pair.1@ == p,
                        None => ctx.session is None,
                    }
                },
                None => {
                    &&& ctx.uploads@.len() == 0
                    &&& ctx.session is None
                    &&& final(self).sessions@ == old(self).sessions@
                },
            },
            string_views(ctx.allowed_tools@) == allowed_tools_of(old(self).settings, chat_id),
            ctx.model is Some <==> old(self).settings.models@.contains_key(chat_id),
            ctx.model matches Some(m) ==> m@ == old(self).settings.models@[chat_id]@,
            final(self).sessions@.remove(chat_id) == old(self).sessions@.remove(chat_id),
            final(self).settings == old(self).settings,
            final(self).cancel_tokens == old(self).cancel_tokens,
            final(self).stop_message_ids == old(self).stop_message_ids,
            final(self).api_timestamps == old(self).api_timestamps,
            final(self).polling_time_ms == old(self).polling_time_ms,
            final(self).pending_schedules == old(self).pending_schedules,
            final(self).next_token == old(self).next_token,
    {
        let allowed_tools = get_allowed_tools(&self.settings, chat_id);
        let model = get_model(&self.settings, chat_id);
        match self.sessions.remove(&chat_id) {
            Some(mut session) => {
                let info = match &session.current_path {
                    Some(p) => Some((clone_text(&session.session_id), p.clone())),
                    None => None,
                };
                let uploads = session.take_uploads();
                self.sessions.insert(chat_id, session);
                RequestContext { session: info, allowed_tools, model, uploads }
            },
            None => {
                RequestContext { session: None, allowed_tools, model, uploads: Vec::new() }
            },
        }
    }

    /// Records a finished exchange in the conversation's session, unless the
    /// session is gone or was reset while the request ran. Returns a copy of
    /// the session where the exchange was recorded, for writing to disk.
    pub fn record_exchange(
        &mut self,
        chat_id: i64,
        new_session_id: Option<String>,
        user_text: &str,
        answer: &str,
    ) -> (saved: Option<ChatSession>)
        ensures
            old(self).wf() ==> final(self).wf(),
            match old(self).session_view(chat_id) {
                Some(s) => {
                    &&& final(self).session_view(chat_id) == Some(
                        exchanged(s, text_of(new_session_id), user_text@, answer@),
                    )
                    &&& saved is Some <==> !s.cleared
                    &&& saved matches Some(c) ==> Some(c@) == final(self).session_view(chat_id)
                },
                None => saved is None && final(self).sessions@ == old(self).sessions@,
            },
            final(self).sessions@.remove(chat_id) == old(self).sessions@.remove(chat_id),
            final(self).settings == old(self).settings,
            final(self).cancel_tokens == old(self).cancel_tokens,
            final(self).stop_message_ids == old(self).stop_message_ids,
            final(self).api_timestamps == old(self).api_timestamps,
            final(self).polling_time_ms == old(self).polling_time_ms,
            final(self).pending_schedules == old(self).pending_schedules,
            final(self).next_token == old(self).next_token,
    {
        match self.sessions.remove(&chat_id) {
            Some(mut session) => {
                let recorded = session.record_exchange(new_session_id, user_text, answer);
                let copy = if recorded {
                    Some(session.clone())
                } else {
                    None
                };
                self.sessions.insert(chat_id, session);
                copy
            },
            None => None,
        }
    }

    /// Records an upload in the conversation's session, if it has one.
    /// Returns a copy of the session, for writing to disk.
    pub fn record_upload(&mut self, chat_id: i64, record: &str) -> (saved: Option<ChatSession>)
        ensures
            old(self).wf() ==> final(self).wf(),
            match old(self).session_view(chat_id) {
                Some(s) => {
                    &&& final(self).session_view(chat_id) == Some(uploaded(s, record@))
                    &&& saved matches Some(c) && c@ == uploaded(s, record@)
                },
                None => saved is None && final(self).sessions@ == old(self).sessions@,
            },
            final(self).sessions@.remove(chat_id) == old(self).sessions@.remove(chat_id),
            final(self).settings == old(self).settings,
            final(self).cancel_tokens == old(self).cancel_tokens,
            final(self).stop_message_ids == old(self).stop_message_ids,
            final(self).api_timestamps == old(self).api_timestamps,
            final(self).polling_time_ms == old(self).polling_time_ms,
            final(self).pending_schedules == old(self).pending_schedules,
            final(self).next_token == old(self).next_token,
    {
        match self.sessions.remove(&chat_id) {
            Some(mut session) => {
                session.record_upload(record);
                let copy = session.clone();
                self.sessions.insert(chat_id, session);
                Some(copy)
            },
            None => None,
        }
    }

    /// Resets the conversation: its request, if one runs, is told to stop and
    /// forgotten, so that the conversation is idle; its session keeps only
    /// its directory. Returns the process to signal, if one runs, and the
    /// directory.
    pub fn clear_conversation(&mut self, chat_id: i64) -> (r: (Option<u32>, Option<String>))
        ensures
            old(self).wf() ==> final(self).wf(),
            r.0 == if old(self).busy(chat_id) {
                old(self).cancel_tokens@[chat_id].child_pid
            } else {
                None
            },
            match old(self).session_view(chat_id) {
                Some(s) => text_of(r.1) == s.current_path && final(self).session_view(chat_id)
                    == Some(reset_view(s)),
                None => r.1 is None && final(self).sessions@ == old(self).sessions@,
            },
            final(self).sessions@.remove(chat_id) == old(self).sessions@.remove(chat_id),
            final(self).cancel_tokens@ == old(self).cancel_tokens@.remove(chat_id),
            final(self).stop_message_ids@ == old(self).stop_message_ids@.remove(chat_id),
            final(self).settings == old(self).settings,
            final(self).api_timestamps == old(self).api_timestamps,
            final(self).polling_time_ms == old(self).polling_time_ms,
            final(self).pending_schedules == old(self).pending_schedules,
            final(self).next_token == old(self).next_token,
    {
        let pid = match self.cancel_tokens.remove(&chat_id) {
            Some(t) => t.child_pid,
            None => None,
        };
        self.stop_message_ids.remove(&chat_id);
        let path = match self.sessions.remove(&chat_id) {
            Some(mut session) => {
                let p = clone_text(&session.current_path);
                session.reset();
                self.sessions.insert(chat_id, session);
                p
            },
            None => None,
        };
        (pid, path)
    }
}

} // verus!
