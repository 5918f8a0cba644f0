//! The state of the screen that follows a search for duplicate files: what
//! the search reports is taken up message by message, its log is kept within
//! a limit, and keys scroll the log or end the search.

use crate::text::{push_str, string_of, string_views};
use vstd::prelude::*;

verus! {
/// The most lines that the log keeps.
pub const MAX_LOG_LINES: usize = 10_000;

/// The lines by which a page key moves the log.
pub const PAGE_LINES: usize = 10;

/// What the search is doing.
#[derive(Clone, Copy, Debug, PartialEq, Eq, Structural)]
pub enum DedupPhase {
    Scanning,
    Hashing,
    Deleting,
    Complete,
}

/// What the search reports.
#[derive(Debug)]
pub enum DedupMessage {
    Phase(DedupPhase),
    /// The file that is looked at.
    Scanning(String),
    /// The file that is hashed, and how far the hashing is, in percent.
    Hashing(String, u8),
    /// The file that is removed.
    Deleting(String),
    /// A line for the log.
    Log(String),
    /// Files looked at, duplicates found, bytes freed.
    Stats { scanned: usize, duplicates: usize, freed: u64 },
    /// Something that went wrong, for the log.
    Error(String),
    /// The search is over.
    Complete,
}

/// A report of the search, its texts as characters.
pub enum MessageView {
    Phase(DedupPhase),
    Scanning(Seq<char>),
    Hashing(Seq<char>, u8),
    Deleting(Seq<char>),
    Log(Seq<char>),
    Stats(usize, usize, u64),
    Error(Seq<char>),
    Complete,
}

impl View for DedupMessage {
    type V = MessageView;

    open spec fn view(&self) -> MessageView {
        match *self {
            DedupMessage::Phase(p) => MessageView::Phase(p),
            DedupMessage::Scanning(f) => MessageView::Scanning(f@),
            DedupMessage::Hashing(f, pct) => MessageView::Hashing(f@, pct),
            DedupMessage::Deleting(f) => MessageView::Deleting(f@),
            DedupMessage::Log(l) => MessageView::Log(l@),
            DedupMessage::Stats { scanned, duplicates, freed } => MessageView::Stats(
                scanned,
                duplicates,
                freed,
            ),
            DedupMessage::Error(e) => MessageView::Error(e@),
            DedupMessage::Complete => MessageView::Complete,
        }
    }
}

/// A key that the screen takes up.
#[derive(Clone, Copy, Debug, PartialEq, Eq, Structural)]
pub enum ScreenKey {
    Esc,
    Up,
    Down,
    PageUp,
    PageDown,
    Other,
}

/// The state of the screen.
#[derive(Debug)]
pub struct DedupScreenState {
    pub target_path: String,
    pub phase: DedupPhase,
    pub current_file: String,
    pub progress: u8,
    pub log_lines: Vec<String>,
    /// The line of the log that is shown last.
    pub log_scroll: usize,
    pub scanned: usize,
    pub duplicates: usize,
    pub freed: u64,
    pub is_complete: bool,
    /// Reports of the search are still awaited.
    pub listening: bool,
    /// The search was asked to end.
    pub cancel_requested: bool,
}

/// The state of the screen, its texts as characters.
pub struct ScreenView {
    pub target_path: Seq<char>,
    pub phase: DedupPhase,
    pub current_file: Seq<char>,
    pub progress: u8,
    pub log_lines: Seq<Seq<char>>,
    pub log_scroll: usize,
    pub scanned: usize,
    pub duplicates: usize,
    pub freed: u64,
    pub is_complete: bool,
    pub listening: bool,
    pub cancel_requested: bool,
}

impl View for DedupScreenState {
    type V = ScreenView;

    open spec fn view(&self) -> ScreenView {
        ScreenView {
            target_path: self.target_path@,
            phase: self.phase,
            current_file: self.current_file@,
            progress: self.progress,
            log_lines: string_views(self.log_lines@),
            log_scroll: self.log_scroll,
            scanned: self.scanned,
            duplicates: self.duplicates,
            freed: self.freed,
            is_complete: self.is_complete,
            listening: self.listening,
            cancel_requested: self.cancel_requested,
        }
    }
}

/// The screen of a search that has just begun at `path`.
pub open spec fn opened(path: Seq<char>) -> ScreenView {
    ScreenView {
        target_path: path,
        phase: DedupPhase::Scanning,
        current_file: Seq::empty(),
        progress: 0,
        log_lines: Seq::empty(),
        log_scroll: 0,
        scanned: 0,
        duplicates: 0,
        freed: 0,
        is_complete: false,
        listening: true,
        cancel_requested: false,
    }
}

/// The last line of a log of `len` lines; 0 for an empty log.
pub open spec fn last_line(len: nat) -> usize {
    if len == 0 {
        0
    } else {
        (len - 1) as usize
    }
}

/// The state is well formed: the log is within its limit, and the line
/// shown last is one of the log.
pub open spec fn well_formed(s: ScreenView) -> bool {
    s.log_lines.len() <= MAX_LOG_LINES && s.log_scroll <= last_line(s.log_lines.len())
}

/// The screen after a line was added to its log: a full log gives up its
/// oldest line, and the new line is the one shown last.
pub open spec fn logged(s: ScreenView, line: Seq<char>) -> ScreenView {
    let kept = if s.log_lines.len() >= MAX_LOG_LINES {
        s.log_lines.drop_first()
    } else {
        s.log_lines
    };
    ScreenView { log_lines: kept.push(line), log_scroll: kept.len() as usize, ..s }
}

/// The screen after a report of the search was taken up.
pub open spec fn absorbed(s: ScreenView, m: MessageView) -> ScreenView {
    match m {
        MessageView::Phase(p) => ScreenView { phase: p, ..s },
        MessageView::Scanning(f) => ScreenView { current_file: f, ..s },
        MessageView::Hashing(f, pct) => ScreenView { current_file: f, progress: pct, ..s },
        MessageView::Deleting(f) => ScreenView { current_file: f, ..s },
        MessageView::Log(l) => logged(s, l),
        MessageView::Stats(scanned, duplicates, freed) => ScreenView {
            scanned,
            duplicates,
            freed,
            ..s
        },
        MessageView::Error(e) => logged(s, "[ERROR] "@ + e),
        MessageView::Complete => ScreenView { is_complete: true, listening: false, ..s },
    }
}

/// `scroll` moved back by `by` lines, not before the first.
pub open spec fn scrolled_up(scroll: usize, by: usize) -> usize {
    if scroll >= by {
        (scroll - by) as usize
    } else {
        0
    }
}

/// `scroll` moved on by `by` lines, not past the last line of the log.
pub open spec fn scrolled_down(scroll: usize, by: usize, len: nat) -> usize {
    let last = last_line(len);
    if scroll + by <= last {
        (scroll + by) as usize
    } else {
        last
    }
}

/// The screen after a key, and whether the key closes it. Escape closes a
/// screen whose search is over; else it asks the search to end, and closes
/// the screen only where no report is awaited any more. The arrow keys move
/// the log by a line, or by a page with shift; the page keys by a page. A
/// line down is not taken from a position at or past the last line.
pub open spec fn after_key(s: ScreenView, key: ScreenKey, shift: bool) -> (ScreenView, bool) {
    match key {
        ScreenKey::Esc => if s.is_complete {
            (s, true)
        } else {
            (ScreenView { cancel_requested: true, ..s }, !s.listening)
        },
        ScreenKey::Up => (
            ScreenView {
                log_scroll: scrolled_up(
                    s.log_scroll,
                    if shift {
                        PAGE_LINES
                    } else {
                        1
                    },
                ),
                ..s
            },
            false,
        ),
        ScreenKey::Down => (
            ScreenView {
                log_scroll: if shift {
                    scrolled_down(s.log_scroll, PAGE_LINES, s.log_lines.len())
                } else if s.log_scroll < last_line(s.log_lines.len()) {
                    (s.log_scroll + 1) as usize
                } else {
                    s.log_scroll
                },
                ..s
            },
            false,
        ),
        ScreenKey::PageUp => (
            ScreenView { log_scroll: scrolled_up(s.log_scroll, PAGE_LINES), ..s },
            false,
        ),
        ScreenKey::PageDown => (
            ScreenView {
                log_scroll: scrolled_down(s.log_scroll, PAGE_LINES, s.log_lines.len()),
                ..s
            },
            false,
        ),
        ScreenKey::Other => (s, false),
    }
}

/// Taking up a report keeps the state well formed.
pub proof fn law_absorbed_well_formed(s: ScreenView, m: MessageView)
    requires
        well_formed(s),
    ensures
        well_formed(absorbed(s, m)),
{
}

/// A key keeps the state well formed.
pub proof fn law_key_well_formed(s: ScreenView, key: ScreenKey, shift: bool)
    requires
        well_formed(s),
    ensures
        well_formed(after_key(s, key, shift).0),
{
}

fn scroll_up(scroll: usize, by: usize) -> (r: usize)
    ensures
        r == scrolled_up(scroll, by),
{
    if scroll >= by {
        scroll - by
    } else {
        0
    }
}

fn scroll_down(scroll: usize, by: usize, len: usize) -> (r: usize)
    ensures
        r == scrolled_down(scroll, by, len as nat),
{
    let last = if len == 0 {
        0
    } else {
        len - 1
    };
    if scroll <= last && last - scroll >= by {
        scroll + by
    } else {
        last
    }
}

impl DedupScreenState {
    /// The screen of a search that has just begun at `path`.
    pub fn new(path: &str) -> (s: Self)
        ensures
            s@ == opened(path@),
            well_formed(s@),
    {
        let s = DedupScreenState {
            target_path: path.to_string(),
            phase: DedupPhase::Scanning,
            current_file: String::new(),
            progress: 0,
            log_lines: Vec::new(),
            log_scroll: 0,
            scanned: 0,
            duplicates: 0,
            freed: 0,
            is_complete: false,
            listening: true,
            cancel_requested: false,
        };
        proof {
            assert(string_views(s.log_lines@) =~= Seq::<Seq<char>>::empty());
        }
        s
    }

    /// Adds a line to the log: a full log gives up its oldest line, and the
    /// new line is the one shown last.
    pub fn push_log(&mut self, line: String)
        ensures
            final(self)@ == logged(old(self)@, line@),
    {
        let ghost before = string_views(self.log_lines@);
        if self.log_lines.len() >= MAX_LOG_LINES {
            self.log_lines.remove(0);
            proof {
                assert(string_views(self.log_lines@) =~= before.drop_first());
            }
        }
        let ghost kept = string_views(self.log_lines@);
        self.log_scroll = self.log_lines.len();
        self.log_lines.push(line);
        proof {
            assert(string_views(self.log_lines@) =~= kept.push(line@));
        }
    }

    /// Takes up one report of the search.
    pub fn absorb(&mut self, message: DedupMessage)
        ensures
            final(self)@ == absorbed(old(self)@, message@),
    {
        match message {
            DedupMessage::Phase(p) => {
                self.phase = p;
            },
            DedupMessage::Scanning(f) => {
                self.current_file = f;
            },
            DedupMessage::Hashing(f, pct) => {
                self.current_file = f;
                self.progress = pct;
            },
            DedupMessage::Deleting(f) => {
                self.current_file = f;
            },
            DedupMessage::Log(l) => {
                self.push_log(l);
            },
            DedupMessage::Stats { scanned, duplicates, freed } => {
                self.scanned = scanned;
                self.duplicates = duplicates;
                self.freed = freed;
            },
            DedupMessage::Error(e) => {
                let mut v: Vec<char> = Vec::new();
                push_str(&mut v, "[ERROR] ");
                push_str(&mut v, e.as_str());
                self.push_log(string_of(v.as_slice()));
            },
            DedupMessage::Complete => {
                self.is_complete = true;
                self.listening = false;
            },
        }
    }

    /// Takes up a key; returns whether the key closes the screen.
    pub fn handle_input(&mut self, key: ScreenKey, shift: bool) -> (close: bool)
        ensures
            (final(self)@, close) == after_key(old(self)@, key, shift),
    {
        let len = self.log_lines.len();
        match key {
            ScreenKey::Esc => {
                if self.is_complete {
                    return true;
                }
                self.cancel_requested = true;
                return !self.listening;
            },
            ScreenKey::Up => {
                self.log_scroll = scroll_up(
                    self.log_scroll,
                    if shift {
                        PAGE_LINES
                    } else {
                        1
                    },
                );
            },
            ScreenKey::Down => {
                if shift {
                    self.log_scroll = scroll_down(self.log_scroll, PAGE_LINES, len);
                } else if len > 0 && self.log_scroll < len - 1 {
                    self.log_scroll += 1;
                }
            },
            ScreenKey::PageUp => {
                self.log_scroll = scroll_up(self.log_scroll, PAGE_LINES);
            },
            ScreenKey::PageDown => {
                self.log_scroll = scroll_down(self.log_scroll, PAGE_LINES, len);
            },
            ScreenKey::Other => {},
        }
        false
    }
}

} // verus!
