//! What the bot keeps of one conversation: where it works, which session of
//! the assistant it continues, and what was said.

use crate::text::{chars_of, string_views};
use vstd::prelude::*;
use vstd::string::StringExecFns;

verus! {
/// Who or what an entry of the history comes from.
#[derive(Clone, Copy, Debug, PartialEq, Eq, Structural)]
pub enum HistoryType {
    User,
    Assistant,
    Error,
    System,
    ToolUse,
    ToolResult,
}

/// One entry of a conversation's history.
#[derive(Debug)]
pub struct HistoryItem {
    pub item_type: HistoryType,
    pub content: String,
}

impl View for HistoryItem {
    type V = (HistoryType, Seq<char>);

    open spec fn view(&self) -> (HistoryType, Seq<char>) {
        (self.item_type, self.content@)
    }
}

impl Clone for HistoryItem {
    fn clone(&self) -> (c: Self)
        ensures
            c@ == self@,
    {
        HistoryItem { item_type: self.item_type, content: self.content.clone() }
    }
}

/// The views of the entries of a history.
pub open spec fn history_view(h: Seq<HistoryItem>) -> Seq<(HistoryType, Seq<char>)> {
    h.map_values(|i: HistoryItem| i@)
}

/// The state of one conversation.
#[derive(Debug)]
pub struct ChatSession {
    /// Continuation token issued by the assistant, once it has answered.
    pub session_id: Option<String>,
    /// Working directory.
    pub current_path: Option<String>,
    pub history: Vec<HistoryItem>,
    /// Records of uploaded files that the assistant has not been told of.
    pub pending_uploads: Vec<String>,
    /// Set by a reset, so that a request still running writes no history.
    pub cleared: bool,
}

/// What a conversation's state holds, as plain values.
pub struct SessionView {
    pub session_id: Option<Seq<char>>,
    pub current_path: Option<Seq<char>>,
    pub history: Seq<(HistoryType, Seq<char>)>,
    pub pending_uploads: Seq<Seq<char>>,
    pub cleared: bool,
}

/// The view of an optional string.
pub open spec fn text_of(o: Option<String>) -> Option<Seq<char>> {
    match o {
        Some(s) => Some(s@),
        None => None,
    }
}

impl View for ChatSession {
    type V = SessionView;

    open spec fn view(&self) -> SessionView {
        SessionView {
            session_id: text_of(self.session_id),
            current_path: text_of(self.current_path),
            history: history_view(self.history@),
            pending_uploads: string_views(self.pending_uploads@),
            cleared: self.cleared,
        }
    }
}

/// A copy of an optional string.
pub fn clone_text(o: &Option<String>) -> (c: Option<String>)
    ensures
        c == *o,
        text_of(c) == text_of(*o),
{
    match o {
        Some(s) => Some(s.clone()),
        None => None,
    }
}

/// A copy of a list of strings.
pub fn clone_texts(v: &Vec<String>) -> (c: Vec<String>)
    ensures
        string_views(c@) == string_views(v@),
{
    let mut c: Vec<String> = Vec::new();
    let mut i: usize = 0;
    while i < v.len()
        invariant
            i <= v@.len(),
            string_views(c@) == string_views(v@).take(i as int),
        decreases v@.len() - i,
    {
        c.push(v[i].clone());
        proof {
            assert(string_views(v@).take(i + 1) =~= string_views(v@).take(i as int).push(
                v@[i as int]@,
            ));
        }
        i += 1;
    }
    c
}

/// A copy of a history.
pub fn clone_history(h: &Vec<HistoryItem>) -> (c: Vec<HistoryItem>)
    ensures
        history_view(c@) == history_view(h@),
{
    let mut c: Vec<HistoryItem> = Vec::new();
    let mut i: usize = 0;
    while i < h.len()
        invariant
            i <= h@.len(),
            history_view(c@) == history_view(h@).take(i as int),
        decreases h@.len() - i,
    {
        let item = h[i].clone();
        c.push(item);
        proof {
            assert(history_view(h@).take(i + 1) =~= history_view(h@).take(i as int).push(
                h@[i as int]@,
            ));
        }
        i += 1;
    }
    c
}

impl Clone for ChatSession {
    fn clone(&self) -> (c: Self)
        ensures
            c@ == self@,
    {
        ChatSession {
            session_id: clone_text(&self.session_id),
            current_path: clone_text(&self.current_path),
            history: clone_history(&self.history),
            pending_uploads: clone_texts(&self.pending_uploads),
            cleared: self.cleared,
        }
    }
}

/// A session that has just been opened at `path`: no assistant session, no
/// history, nothing pending.
pub open spec fn opened_at(path: Seq<char>) -> SessionView {
    SessionView {
        session_id: None,
        current_path: Some(path),
        history: Seq::empty(),
        pending_uploads: Seq::empty(),
        cleared: false,
    }
}

/// What a stored session holds.
#[derive(Debug)]
pub struct SessionData {
    pub session_id: String,
    pub history: Vec<HistoryItem>,
    pub current_path: String,
    pub created_at: String,
}

/// The identifier and the history of a stored session, as plain values.
pub open spec fn stored_view(d: Option<&SessionData>) -> Option<
    (Seq<char>, Seq<(HistoryType, Seq<char>)>),
> {
    match d {
        Some(d) => Some((d.session_id@, history_view(d.history@))),
        None => None,
    }
}

/// A session pointed at `path`: with the identifier and the history of the
/// stored session found there, or with neither where none was found.
pub open spec fn entered(
    prev: SessionView,
    path: Seq<char>,
    found: Option<(Seq<char>, Seq<(HistoryType, Seq<char>)>)>,
) -> SessionView {
    SessionView {
        session_id: match found {
            Some(f) => Some(f.0),
            None => None,
        },
        current_path: Some(path),
        history: match found {
            Some(f) => f.1,
            None => Seq::empty(),
        },
        ..prev
    }
}

/// A session with nothing in it.
pub open spec fn blank() -> SessionView {
    SessionView {
        session_id: None,
        current_path: None,
        history: Seq::empty(),
        pending_uploads: Seq::empty(),
        cleared: false,
    }
}

/// A session after a reset: only its directory is left.
pub open spec fn reset_view(s: SessionView) -> SessionView {
    SessionView {
        session_id: None,
        current_path: s.current_path,
        history: Seq::empty(),
        pending_uploads: Seq::empty(),
        cleared: true,
    }
}

/// A session after an exchange was recorded in it: unchanged where it was
/// reset while the request ran.
pub open spec fn exchanged(
    s: SessionView,
    new_session_id: Option<Seq<char>>,
    user_text: Seq<char>,
    answer: Seq<char>,
) -> SessionView {
    if s.cleared {
        s
    } else {
        SessionView {
            session_id: if new_session_id is Some {
                new_session_id
            } else {
                s.session_id
            },
            history: s.history.push((HistoryType::User, user_text)).push(
                (HistoryType::Assistant, answer),
            ),
            ..s
        }
    }
}

/// A session after an upload was recorded in it.
pub open spec fn uploaded(s: SessionView, record: Seq<char>) -> SessionView {
    SessionView {
        history: s.history.push((HistoryType::User, record)),
        pending_uploads: s.pending_uploads.push(record),
        ..s
    }
}

impl ChatSession {
    /// A session with no directory, no assistant session and no history.
    pub fn empty() -> (s: Self)
        ensures
            s@ == blank(),
    {
        let s = ChatSession {
            session_id: None,
            current_path: None,
            history: Vec::new(),
            pending_uploads: Vec::new(),
            cleared: false,
        };
        proof {
            assert(history_view(s.history@) =~= Seq::empty());
            assert(string_views(s.pending_uploads@) =~= Seq::empty());
        }
        s
    }

    /// A session opened at `path`.
    pub fn open_at(path: &str) -> (s: Self)
        ensures
            s@ == opened_at(path@),
    {
        let mut s = ChatSession::empty();
        s.current_path = Some(String::from_str(path));
        s
    }

    /// Points the session at `path`: with the stored session's identifier and
    /// history where one was found, else with neither. Pending uploads and
    /// the reset mark stay.
    pub fn enter(&mut self, path: &str, existing: Option<&SessionData>)
        ensures
            final(self)@ == entered(old(self)@, path@, stored_view(existing)),
    {
        self.current_path = Some(String::from_str(path));
        match existing {
            Some(d) => {
                self.session_id = Some(d.session_id.clone());
                self.history = clone_history(&d.history);
            },
            None => {
                self.session_id = None;
                self.history = Vec::new();
                proof {
                    assert(history_view(self.history@) =~= Seq::empty());
                }
            },
        }
    }

    /// Forgets the assistant session, the history and the pending uploads,
    /// and marks the session as reset. The directory stays.
    pub fn reset(&mut self)
        ensures
            final(self)@ == reset_view(old(self)@),
    {
        self.session_id = None;
        self.history = Vec::new();
        self.pending_uploads = Vec::new();
        self.cleared = true;
        proof {
            assert(history_view(self.history@) =~= Seq::empty());
            assert(string_views(self.pending_uploads@) =~= Seq::empty());
        }
    }

    /// Hands out the pending upload records, leaving none, and lifts the
    /// reset mark: a new request has begun.
    pub fn take_uploads(&mut self) -> (uploads: Vec<String>)
        ensures
            string_views(uploads@) == old(self)@.pending_uploads,
            final(self)@ == (SessionView {
                pending_uploads: Seq::empty(),
                cleared: false,
                ..old(self)@
            }),
    {
        self.cleared = false;
        let mut taken: Vec<String> = Vec::new();
        std::mem::swap(&mut taken, &mut self.pending_uploads);
        proof {
            assert(string_views(self.pending_uploads@) =~= Seq::empty());
        }
        taken
    }

    /// Appends one entry to the history.
    pub fn push_item(&mut self, item_type: HistoryType, content: &str)
        ensures
            final(self)@ == (SessionView {
                history: old(self)@.history.push((item_type, content@)),
                ..old(self)@
            }),
    {
        let ghost before = history_view(self.history@);
        self.history.push(HistoryItem { item_type, content: String::from_str(content) });
        proof {
            assert(history_view(self.history@) =~= before.push((item_type, content@)));
        }
    }

    /// Records an upload: once in the history, as said by the user, and once
    /// among the records that the assistant is still to be told of.
    pub fn record_upload(&mut self, record: &str)
        ensures
            final(self)@ == uploaded(old(self)@, record@),
    {
        self.push_item(HistoryType::User, record);
        let ghost before = string_views(self.pending_uploads@);
        self.pending_uploads.push(String::from_str(record));
        proof {
            assert(string_views(self.pending_uploads@) =~= before.push(record@));
        }
    }

    /// Records a finished exchange, unless the session was reset while the
    /// request ran: the assistant's new session identifier where it gave
    /// one, then what the user said and what the assistant answered.
    pub fn record_exchange(&mut self, new_session_id: Option<String>, user_text: &str, answer: &str) -> (recorded: bool)
        ensures
            recorded == !old(self)@.cleared,
            final(self)@ == exchanged(old(self)@, text_of(new_session_id), user_text@, answer@),
    {
        if self.cleared {
            return false;
        }
        if new_session_id.is_some() {
            self.session_id = new_session_id;
        }
        self.push_item(HistoryType::User, user_text);
        self.push_item(HistoryType::Assistant, answer);
        true
    }
}

/// The session that a scheduled run leaves behind in its workspace, where
/// the assistant named one: the prompt as said by the user, and the answer,
/// where there is one, as said by the assistant.
pub open spec fn run_session(
    workspace: Seq<char>,
    session_id: Option<Seq<char>>,
    prompt: Seq<char>,
    answer: Seq<char>,
) -> Option<SessionView> {
    if session_id is Some {
        Some(
            SessionView {
                session_id,
                history: if answer.len() > 0 {
                    seq![(HistoryType::User, prompt), (HistoryType::Assistant, answer)]
                } else {
                    seq![(HistoryType::User, prompt)]
                },
                ..opened_at(workspace)
            },
        )
    } else {
        None
    }
}

/// Builds the session that a scheduled run leaves behind in its workspace;
/// none where the assistant named no session.
pub fn session_of_run(workspace: &str, session_id: Option<&str>, prompt: &str, answer: &str) -> (r:
    Option<ChatSession>)
    ensures
        match r {
            Some(s) => Some(s@),
            None => None,
        } == run_session(
            workspace@,
            match session_id {
                Some(i) => Some(i@),
                None => None,
            },
            prompt@,
            answer@,
        ),
{
    match session_id {
        Some(id) => {
            let mut session = ChatSession::open_at(workspace);
            session.session_id = Some(String::from_str(id));
            session.push_item(HistoryType::User, prompt);
            if !answer.is_empty() {
                session.push_item(HistoryType::Assistant, answer);
            }
            proof {
                assert(session@.history =~= run_session(
                    workspace@,
                    Some(id@),
                    prompt@,
                    answer@,
                ).unwrap().history);
            }
            Some(session)
        },
        None => None,
    }
}

/// The entries of a history that are written to disk: all but those of the
/// system.
pub open spec fn saveable(h: Seq<(HistoryType, Seq<char>)>) -> Seq<(HistoryType, Seq<char>)> {
    h.filter(|i: (HistoryType, Seq<char>)| i.0 != HistoryType::System)
}

/// Whether every character may stand in the name of a session's file: ASCII
/// letters and digits, `-` and `_`.
pub open spec fn file_safe(id: Seq<char>) -> bool {
    forall|i: int| 0 <= i < id.len() ==> crate::claude::is_id_char(#[trigger] id[i])
}

/// What is written to disk of a session: nothing without an assistant
/// session, without entries to save, or with an identifier that is unsafe as
/// a file name; else the identifier, the entries to save and the directory.
pub open spec fn stored_form(s: SessionView, path: Seq<char>) -> Option<
    (Seq<char>, Seq<(HistoryType, Seq<char>)>, Seq<char>),
> {
    match s.session_id {
        Some(id) => if saveable(s.history).len() > 0 && file_safe(id) {
            Some((id, saveable(s.history), path))
        } else {
            None
        },
        None => None,
    }
}

fn id_is_file_safe(id: &str) -> (r: bool)
    ensures
        r == file_safe(id@),
{
    let v = chars_of(id);
    let mut i: usize = 0;
    while i < v.len()
        invariant
            i <= v@.len(),
            v@ == id@,
            forall|j: int| 0 <= j < i ==> crate::claude::is_id_char(#[trigger] v@[j]),
        decreases v@.len() - i,
    {
        let c = v[i];
        if !(('a' <= c && c <= 'z') || ('A' <= c && c <= 'Z') || ('0' <= c && c <= '9') || c == '_'
            || c == '-') {
            return false;
        }
        i += 1;
    }
    true
}

/// The stored form of a session, stamped with the time of writing, or `None`
/// where nothing is to be written.
pub fn session_to_store(session: &ChatSession, current_path: &str, created_at: &str) -> (r: Option<
    SessionData,
>)
    ensures
        match r {
            Some(d) => stored_form(session@, current_path@) == Some(
                (d.session_id@, history_view(d.history@), d.current_path@),
            ) && d.created_at@ == created_at@,
            None => stored_form(session@, current_path@).is_none(),
        },
{
    let id = match &session.session_id {
        Some(id) => id,
        None => {
            return None;
        },
    };
    let mut kept: Vec<HistoryItem> = Vec::new();
    let ghost h = history_view(session.history@);
    let ghost pred = |i: (HistoryType, Seq<char>)| i.0 != HistoryType::System;
    let mut i: usize = 0;
    while i < session.history.len()
        invariant
            i <= session.history@.len(),
            h == history_view(session.history@),
            pred == (|i: (HistoryType, Seq<char>)| i.0 != HistoryType::System),
            history_view(kept@) == h.take(i as int).filter(pred),
        decreases session.history@.len() - i,
    {
        proof {
            assert(h.take(i + 1).drop_last() =~= h.take(i as int));
            reveal(Seq::filter);
        }
        match session.history[i].item_type {
            HistoryType::System => {},
            _ => {
                let item = session.history[i].clone();
                kept.push(item);
            },
        }
        i += 1;
    }
    proof {
        assert(h.take(session.history@.len() as int) =~= h);
    }
    if kept.len() == 0 || !id_is_file_safe(id.as_str()) {
        return None;
    }
    Some(
        SessionData {
            session_id: id.clone(),
            history: kept,
            current_path: String::from_str(current_path),
            created_at: String::from_str(created_at),
        },
    )
}

} // verus!
