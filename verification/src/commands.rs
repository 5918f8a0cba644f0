//! The commands of the bot: what each changes in the shared state, and what
//! it answers.

use crate::markup::{escape, escaped};
use crate::paths::{workspace_in, workspace_of};
use crate::session::{history_view, HistoryItem, HistoryType};
use crate::settings::{
    all_tools, apply_tool_ops, default_allowed_tools, get_model, is_model_name, lowercase,
    resolve_model_name, to_lowercase, tool_info, ToolOp,
};
use crate::state::{SharedData, MIN_POLLING_TIME_MS};
use crate::text::{
    chars_of, decimal, decimal_of, extend, is_text, parse_bounded, parse_decimal, push_str,
    string_of, string_views,
};
use vstd::prelude::*;
use vstd::string::StringExecFns;
use vstd::utf8::encode_utf8;

verus! {
broadcast use vstd::std_specs::hash::group_hash_axioms;

/// What a command answers.
pub struct Reply {
    pub text: String,
    /// The text is HTML.
    pub html: bool,
    /// The settings have changed and are to be written.
    pub save_settings: bool,
}

/// The answer to anything but a stop while a request runs.
pub fn busy_notice() -> (s: &'static str)
    ensures
        s@ == "AI request in progress. Use /stop to cancel."@,
{
    "AI request in progress. Use /stop to cancel."
}

/// The answer to a command that needs a session where there is none.
pub fn no_session_notice() -> (s: &'static str)
    ensures
        s@ == "No active session. Use /start <path> first."@,
{
    "No active session. Use /start <path> first."
}

/// The line that tells how to come back to a workspace.
pub open spec fn resume_hint(workspace: Seq<char>, verb: Seq<char>) -> Seq<char> {
    "Use /"@ + workspace + " to "@ + verb + " this session."@
}

fn push_hint(v: &mut Vec<char>, path: &str, lead: &str, verb: &str)
    ensures
        final(v)@ == old(v)@ + match workspace_in(path@) {
            Some(w) => lead@ + resume_hint(w, verb@),
            None => Seq::<char>::empty(),
        },
{
    match workspace_of(path) {
        Some(w) => {
            push_str(v, lead);
            push_str(v, "Use /");
            push_str(v, w.as_str());
            push_str(v, " to ");
            push_str(v, verb);
            push_str(v, " this session.");
        },
        None => {
        },
    }
}

/// The answer to a reset: the directory that stays, where there is one,
/// and the way back to it where it is a workspace.
pub open spec fn clear_view(path: Option<Seq<char>>) -> Seq<char> {
    match path {
        Some(p) => "Session cleared."@ + "\nCurrent path: `"@ + p + "`"@ + match workspace_in(p) {
            Some(w) => "\n"@ + resume_hint(w, "resume"@),
            None => Seq::<char>::empty(),
        },
        None => "Session cleared."@,
    }
}

/// Writes the answer to a reset.
pub fn clear_reply(path: Option<&str>) -> (s: String)
    ensures
        s@ == clear_view(
            match path {
                Some(p) => Some(p@),
                None => None,
            },
        ),
{
    let mut v: Vec<char> = Vec::new();
    push_str(&mut v, "Session cleared.");
    if let Some(p) = path {
        push_str(&mut v, "\nCurrent path: `");
        push_str(&mut v, p);
        push_str(&mut v, "`");
        push_hint(&mut v, p, "\n", "resume");
    }
    let s = string_of(v.as_slice());
    s
}

/// The answer to the question where the session is.
pub open spec fn pwd_view(path: Option<Seq<char>>) -> Seq<char> {
    match path {
        Some(p) => "`"@ + p + "`"@ + match workspace_in(p) {
            Some(w) => "\n"@ + resume_hint(w, "switch back to"@),
            None => Seq::<char>::empty(),
        },
        None => "No active session. Use /start <path> first."@,
    }
}

/// Writes the answer to the question where the session is.
pub fn pwd_reply(path: Option<&str>) -> (s: String)
    ensures
        s@ == pwd_view(
            match path {
                Some(p) => Some(p@),
                None => None,
            },
        ),
{
    match path {
        Some(p) => {
            let mut v: Vec<char> = Vec::new();
            push_str(&mut v, "`");
            push_str(&mut v, p);
            push_str(&mut v, "`");
            push_hint(&mut v, p, "\n", "switch back to");
            let s = string_of(v.as_slice());
            s
        },
        None => String::from_str("No active session. Use /start <path> first."),
    }
}

/// The mark before an entry of a history.
pub open spec fn history_mark(t: HistoryType) -> Seq<char> {
    match t {
        HistoryType::User => "👤"@,
        HistoryType::Assistant => "🤖"@,
        HistoryType::Error => "❌"@,
        HistoryType::System => "⚙️"@,
        HistoryType::ToolUse => "🔧"@,
        HistoryType::ToolResult => "📋"@,
    }
}

/// An entry of a history as a preview shows it.
pub open spec fn preview_line(item: (HistoryType, Seq<char>)) -> Seq<char> {
    history_mark(item.0) + " "@ + item.1
}

/// How many of the newest entries of a history a preview shows: as many as
/// fit, each with its line feed, into `room` bytes, counted from the
/// newest.
pub open spec fn shown_count(h: Seq<(HistoryType, Seq<char>)>, room: int) -> nat
    decreases h.len(),
{
    if h.len() == 0 {
        0
    } else {
        let need = encode_utf8(preview_line(h.last())).len() + 1;
        if need > room {
            0
        } else {
            1 + shown_count(h.drop_last(), room - need)
        }
    }
}

/// The lines of the entries of a history, oldest first.
pub open spec fn preview_lines(h: Seq<(HistoryType, Seq<char>)>) -> Seq<Seq<char>> {
    h.map_values(|i: (HistoryType, Seq<char>)| preview_line(i))
}

/// Bytes that the fence around a preview takes.
pub const PREVIEW_OVERHEAD: usize = 8;

/// The preview of a history within `budget` bytes: its newest entries, as
/// many as fit, oldest first, in a code block; nothing where the history is
/// empty, the budget too small, or no entry fits.
pub open spec fn history_preview(h: Seq<(HistoryType, Seq<char>)>, budget: int) -> Seq<char> {
    if h.len() == 0 || budget <= PREVIEW_OVERHEAD + 10 {
        Seq::<char>::empty()
    } else {
        let n = shown_count(h, budget - PREVIEW_OVERHEAD);
        if n == 0 {
            Seq::<char>::empty()
        } else {
            "```\n"@ + crate::text::join(preview_lines(h.skip(h.len() - n)), "\n"@) + "\n```"@
        }
    }
}

fn line_of(item: &HistoryItem) -> (v: Vec<char>)
    ensures
        v@ == preview_line(item@),
{
    let mut v: Vec<char> = Vec::new();
    match item.item_type {
        HistoryType::User => push_str(&mut v, "👤"),
        HistoryType::Assistant => push_str(&mut v, "🤖"),
        HistoryType::Error => push_str(&mut v, "❌"),
        HistoryType::System => push_str(&mut v, "⚙️"),
        HistoryType::ToolUse => push_str(&mut v, "🔧"),
        HistoryType::ToolResult => push_str(&mut v, "📋"),
    }
    push_str(&mut v, " ");
    push_str(&mut v, item.content.as_str());
    v
}

proof fn lemma_shown_count(h: Seq<(HistoryType, Seq<char>)>, room: int)
    ensures
        shown_count(h, room) <= h.len(),
    decreases h.len(),
{
    if h.len() > 0 {
        let need = encode_utf8(preview_line(h.last())).len() + 1;
        if need <= room {
            lemma_shown_count(h.drop_last(), room - need);
        }
    }
}

/// Builds the preview of a history that is shown when a session is taken
/// up again.
pub fn build_history_preview(history: &Vec<HistoryItem>, budget: usize) -> (s: String)
    ensures
        s@ == history_preview(history_view(history@), budget as int),
{
    let ghost h = history_view(history@);
    if history.len() == 0 || budget <= PREVIEW_OVERHEAD + 10 {
        return String::new();
    }
    let room = budget - PREVIEW_OVERHEAD;
    let mut used: usize = 0;
    let mut k: usize = history.len();
    // the entries from `k` on are shown
    proof {
        assert(h.take(h.len() as int) =~= h);
    }
    while k > 0
        invariant
            k <= history@.len(),
            h == history_view(history@),
            used <= room,
            shown_count(h, room as int) == (history@.len() - k) + shown_count(
                h.take(k as int),
                room - used,
            ),
        ensures
            k <= history@.len(),
            shown_count(h, room as int) == history@.len() - k,
        decreases k,
    {
        let line = line_of(&history[k - 1]);
        let text = string_of(line.as_slice());
        let len = crate::format::byte_len(text.as_str());
        proof {
            assert(h.take(k as int).drop_last() =~= h.take(k - 1));
        }
        if len >= room - used {
            break ;
        }
        used = used + len + 1;
        k -= 1;
    }
    let ghost n = shown_count(h, room as int);
    if k == history.len() {
        return String::new();
    }
    let mut lines: Vec<Vec<char>> = Vec::new();
    let mut i: usize = k;
    while i < history.len()
        invariant
            k <= i <= history@.len(),
            h == history_view(history@),
            crate::text::views(lines@) == preview_lines(h.subrange(k as int, i as int)),
        decreases history@.len() - i,
    {
        lines.push(line_of(&history[i]));
        proof {
            assert(preview_lines(h.subrange(k as int, i + 1)) =~= preview_lines(
                h.subrange(k as int, i as int),
            ).push(preview_line(h[i as int])));
        }
        i += 1;
    }
    let mut v: Vec<char> = Vec::new();
    push_str(&mut v, "```\n");
    let body = crate::text::join_with(&lines, "\n");
    extend(&mut v, body.as_slice());
    push_str(&mut v, "\n```");
    string_of(v.as_slice())
}

/// The first line of the answer to a session taken up: whether the session
/// was found again or begins.
pub open spec fn session_line(path: Seq<char>, restored: bool) -> Seq<char> {
    (if restored {
        "Session restored at `"@
    } else {
        "Session started at `"@
    }) + path + "`."@
}

/// The answer to a session taken up at `path`, in markdown: what happened,
/// the way back where the directory is a workspace and `hint` is set, and,
/// for a session found again, a preview of its history in the room that one
/// message leaves.
pub open spec fn start_view(
    path: Seq<char>,
    found: Option<Seq<(HistoryType, Seq<char>)>>,
    hint: bool,
) -> Seq<char> {
    let head = session_line(path, found is Some) + if hint {
        match workspace_in(path) {
            Some(w) => "\n"@ + resume_hint(w, "resume"@),
            None => Seq::<char>::empty(),
        }
    } else {
        Seq::<char>::empty()
    };
    match found {
        Some(h) => {
            let room = crate::chunk::TELEGRAM_MSG_LIMIT - (encode_utf8(head).len() + 1 + 2);
            let p = history_preview(
                h,
                if room < 0 {
                    0
                } else {
                    room
                },
            );
            if p.len() > 0 {
                head + "\n\n"@ + p
            } else {
                head
            }
        },
        None => head,
    }
}

/// Writes the answer to a session taken up.
pub fn start_reply(path: &str, found: Option<&Vec<HistoryItem>>, hint: bool) -> (s: String)
    ensures
        s@ == start_view(
            path@,
            match found {
                Some(h) => Some(history_view(h@)),
                None => None,
            },
            hint,
        ),
{
    let mut v: Vec<char> = Vec::new();
    if found.is_some() {
        push_str(&mut v, "Session restored at `");
    } else {
        push_str(&mut v, "Session started at `");
    }
    push_str(&mut v, path);
    push_str(&mut v, "`.");
    if hint {
        push_hint(&mut v, path, "\n", "resume");
    }
    if let Some(h) = found {
        let head_text = string_of(v.as_slice());
        let head_len = crate::format::byte_len(head_text.as_str());
        let room = if head_len > crate::chunk::TELEGRAM_MSG_LIMIT - 3 {
            0
        } else {
            crate::chunk::TELEGRAM_MSG_LIMIT - (head_len + 3)
        };
        let p = build_history_preview(h, room);
        if !p.as_str().is_empty() {
            push_str(&mut v, "\n\n");
            push_str(&mut v, p.as_str());
        }
    }
    let s = string_of(v.as_slice());
    s
}

/// What a text asks about the model of a conversation.
pub enum ModelRequest {
    /// Which model it is.
    Show,
    /// To go back to the default.
    Reset,
    /// To use the model named.
    Use(String),
    /// Something that is no model.
    Unknown,
}

/// A request about the model, its name as characters.
pub enum ModelRequestView {
    Show,
    Reset,
    Use(Seq<char>),
    Unknown,
}

impl View for ModelRequest {
    type V = ModelRequestView;

    open spec fn view(&self) -> ModelRequestView {
        match self {
            ModelRequest::Show => ModelRequestView::Show,
            ModelRequest::Reset => ModelRequestView::Reset,
            ModelRequest::Use(m) => ModelRequestView::Use(m@),
            ModelRequest::Unknown => ModelRequestView::Unknown,
        }
    }
}

/// An ASCII letter in lowercase; any other character as it is.
pub open spec fn ascii_lower(c: char) -> char {
    if 'A' <= c <= 'Z' {
        ((c as u8) + 32) as char
    } else {
        c
    }
}

/// Whether two texts are the same but for the case of their ASCII letters.
pub open spec fn same_ignoring_case(a: Seq<char>, b: Seq<char>) -> bool {
    a.len() == b.len() && forall|i: int|
        0 <= i < a.len() ==> ascii_lower(#[trigger] a[i]) == ascii_lower(b[i])
}

fn eq_ignore_ascii_case(a: &[char], b: &str) -> (r: bool)
    ensures
        r == same_ignoring_case(a@, b@),
{
    let bv = chars_of(b);
    if a.len() != bv.len() {
        return false;
    }
    let mut i: usize = 0;
    while i < a.len()
        invariant
            i <= a@.len(),
            a@.len() == bv@.len(),
            bv@ == b@,
            forall|j: int| 0 <= j < i ==> ascii_lower(#[trigger] a@[j]) == ascii_lower(bv@[j]),
        decreases a@.len() - i,
    {
        let x = a[i];
        let y = bv[i];
        let lx = if 'A' <= x && x <= 'Z' {
            ((x as u8) + 32) as char
        } else {
            x
        };
        let ly = if 'A' <= y && y <= 'Z' {
            ((y as u8) + 32) as char
        } else {
            y
        };
        if lx != ly {
            return false;
        }
        i += 1;
    }
    true
}

/// What the argument of the model command asks.
pub open spec fn model_request(arg: Seq<char>) -> ModelRequestView {
    if arg.len() == 0 {
        ModelRequestView::Show
    } else if same_ignoring_case(arg, "default"@) || same_ignoring_case(arg, "reset"@) {
        ModelRequestView::Reset
    } else if is_model_name(arg) {
        ModelRequestView::Use(arg)
    } else {
        ModelRequestView::Unknown
    }
}

/// Reads what the argument of the model command asks.
pub fn parse_model_request(arg: &str) -> (r: ModelRequest)
    ensures
        r@ == model_request(arg@),
{
    let a = chars_of(arg);
    if a.len() == 0 {
        ModelRequest::Show
    } else if eq_ignore_ascii_case(a.as_slice(), "default") || eq_ignore_ascii_case(
        a.as_slice(),
        "reset",
    ) {
        ModelRequest::Reset
    } else {
        match resolve_model_name(arg) {
            Some(m) => ModelRequest::Use(m),
            None => ModelRequest::Unknown,
        }
    }
}

/// The answer to a request about the model, given the model that the
/// conversation had.
pub open spec fn model_view(req: ModelRequestView, current: Option<Seq<char>>) -> Seq<char> {
    match req {
        ModelRequestView::Show => match current {
            Some(m) => "Current model: <b>"@ + m + "</b>"@,
            None => "Current model: <b>default</b>"@,
        },
        ModelRequestView::Reset => "Model reset to <b>default</b>."@,
        ModelRequestView::Use(m) => "Model set to <b>"@ + m + "</b>."@,
        ModelRequestView::Unknown => "Unknown model. Available:\n<code>/model sonnet</code>\n<code>/model opus</code>\n<code>/model haiku</code>\n<code>/model sonnet[1m]</code>\n<code>/model opus[1m]</code>\n<code>/model haiku[1m]</code>\n<code>/model default</code> — reset to default"@,
    }
}

/// What a text asks about the openness of a group.
#[derive(Clone, Copy, Debug, PartialEq, Eq, Structural)]
pub enum PublicRequest {
    /// Asked outside a group.
    NotGroup,
    /// Asked by someone who does not own the bot.
    NotOwner,
    On,
    Off,
    Show,
    Usage,
}

/// What the argument of the public command asks, from whom and where.
pub open spec fn public_request(arg: Seq<char>, is_group: bool, is_owner: bool) -> PublicRequest {
    if !is_group {
        PublicRequest::NotGroup
    } else if !is_owner {
        PublicRequest::NotOwner
    } else if lowercase(arg) == "on"@ {
        PublicRequest::On
    } else if lowercase(arg) == "off"@ {
        PublicRequest::Off
    } else if lowercase(arg).len() == 0 {
        PublicRequest::Show
    } else {
        PublicRequest::Usage
    }
}

/// The request that the lowercase form of the argument names, for the
/// owner in a group.
pub open spec fn public_named(lower: Seq<char>) -> PublicRequest {
    if lower == "on"@ {
        PublicRequest::On
    } else if lower == "off"@ {
        PublicRequest::Off
    } else if lower.len() == 0 {
        PublicRequest::Show
    } else {
        PublicRequest::Usage
    }
}

/// Names the request that the lowercase form of the argument stands for.
pub fn name_public_request(lower: &str) -> (r: PublicRequest)
    ensures
        r == public_named(lower@),
{
    let l = chars_of(lower);
    if is_text(l.as_slice(), "on") {
        PublicRequest::On
    } else if is_text(l.as_slice(), "off") {
        PublicRequest::Off
    } else if l.len() == 0 {
        PublicRequest::Show
    } else {
        PublicRequest::Usage
    }
}

/// Reads what the argument of the public command asks.
pub fn parse_public_request(arg: &str, is_group: bool, is_owner: bool) -> (r: PublicRequest)
    ensures
        r == public_request(arg@, is_group, is_owner),
{
    if !is_group {
        PublicRequest::NotGroup
    } else if !is_owner {
        PublicRequest::NotOwner
    } else {
        let lower = to_lowercase(arg);
        name_public_request(lower.as_str())
    }
}

/// The answer to a request about the openness of a group, which afterwards
/// is open or not.
pub open spec fn public_view(req: PublicRequest, open_now: bool) -> Seq<char> {
    match req {
        PublicRequest::NotGroup => "This command is only available in group chats."@,
        PublicRequest::NotOwner => "Only the bot owner can change public access settings."@,
        PublicRequest::On => "✅ Public access <b>enabled</b> for this group.\nAll members can now use the bot."@,
        PublicRequest::Off => "❌ Public access <b>disabled</b> for this group.\nOnly the owner can use the bot."@,
        PublicRequest::Show => "Public access is currently <b>"@ + (if open_now {
            "enabled"@
        } else {
            "disabled"@
        })
            + "</b> for this group.\n\n<code>/public on</code> — Allow all members\n<code>/public off</code> — Owner only"@,
        PublicRequest::Usage => "Usage:\n<code>/public on</code> — Allow all group members\n<code>/public off</code> — Owner only"@,
    }
}

/// What a text asks about the polling interval.
#[derive(Clone, Copy, Debug, PartialEq, Eq, Structural)]
pub enum PollingRequest {
    Show,
    /// Something that is no number.
    Invalid,
    /// A number below the least allowed.
    TooSmall,
    Change(u64),
}

/// What the argument of the polling command asks.
pub open spec fn polling_request(arg: Seq<char>) -> PollingRequest {
    if arg.len() == 0 {
        PollingRequest::Show
    } else {
        match parse_bounded(arg, u64::MAX) {
            None => PollingRequest::Invalid,
            Some(v) => if v < MIN_POLLING_TIME_MS {
                PollingRequest::TooSmall
            } else {
                PollingRequest::Change(v)
            },
        }
    }
}

/// Reads what the argument of the polling command asks.
pub fn parse_polling_request(arg: &str) -> (r: PollingRequest)
    ensures
        r == polling_request(arg@),
{
    let a = chars_of(arg);
    if a.len() == 0 {
        return PollingRequest::Show;
    }
    match parse_decimal(a.as_slice(), u64::MAX) {
        None => PollingRequest::Invalid,
        Some(v) => if v < MIN_POLLING_TIME_MS {
            PollingRequest::TooSmall
        } else {
            PollingRequest::Change(v)
        },
    }
}

/// A request as it is carried out: a change to an interval below the least
/// allowed is refused like any interval that is too small.
pub open spec fn checked_request(req: PollingRequest) -> PollingRequest {
    match req {
        PollingRequest::Change(v) => if v < MIN_POLLING_TIME_MS {
            PollingRequest::TooSmall
        } else {
            req
        },
        _ => req,
    }
}

/// The answer to a request about the polling interval, which is `current`
/// before it.
pub open spec fn polling_view(req: PollingRequest, current: u64) -> Seq<char> {
    match checked_request(req) {
        PollingRequest::Show => "Current polling time: "@ + decimal(current as nat)
            + "ms\nUsage: /setpollingtime <ms>\nMinimum: 2500ms"@,
        PollingRequest::Invalid => "Invalid number. Usage: /setpollingtime <ms>\nExample: /setpollingtime 3000"@,
        PollingRequest::TooSmall => "Minimum polling time is 2500ms."@,
        PollingRequest::Change(v) => "✅ Polling time set to "@ + decimal(v as nat) + "ms"@,
    }
}

/// The answer to a change of debug logging.
pub open spec fn debug_view(on: bool) -> Seq<char> {
    "🔍 Debug logging: "@ + if on {
        "ON"@
    } else {
        "OFF"@
    }
}

impl SharedData {
    /// Carries out a request about the model of a conversation.
    pub fn handle_model(&mut self, chat_id: i64, req: &ModelRequest) -> (r: Reply)
        ensures
            old(self).wf() ==> final(self).wf(),
            r.text@ == model_view(
                req@,
                if old(self).settings.models@.contains_key(chat_id) {
                    Some(old(self).settings.models@[chat_id]@)
                } else {
                    None
                },
            ),
            r.html,
            r.save_settings == (req@ is Reset || req@ is Use),
            match req@ {
                ModelRequestView::Reset => final(self).settings.models@ == old(
                    self,
                ).settings.models@.remove(chat_id),
                ModelRequestView::Use(m) => {
                    &&& final(self).settings.models@.contains_key(chat_id)
                    &&& final(self).settings.models@[chat_id]@ == m
                    &&& final(self).settings.models@.remove(chat_id) == old(
                        self,
                    ).settings.models@.remove(chat_id)
                },
                _ => final(self).settings.models == old(self).settings.models,
            },
            final(self).settings.allowed_tools == old(self).settings.allowed_tools,
            final(self).settings.last_sessions == old(self).settings.last_sessions,
            final(self).settings.owner_user_id == old(self).settings.owner_user_id,
            final(self).settings.as_public_for_group_chat == old(
                self,
            ).settings.as_public_for_group_chat,
            final(self).settings.debug == old(self).settings.debug,
            final(self).sessions == old(self).sessions,
            final(self).cancel_tokens == old(self).cancel_tokens,
            final(self).stop_message_ids == old(self).stop_message_ids,
            final(self).api_timestamps == old(self).api_timestamps,
            final(self).polling_time_ms == old(self).polling_time_ms,
            final(self).pending_schedules == old(self).pending_schedules,
            final(self).next_token == old(self).next_token,
    {
        let mut v: Vec<char> = Vec::new();
        let mut save = false;
        match req {
            ModelRequest::Show => {
                match get_model(&self.settings, chat_id) {
                    Some(m) => {
                        push_str(&mut v, "Current model: <b>");
                        push_str(&mut v, m.as_str());
                        push_str(&mut v, "</b>");
                    },
                    None => push_str(&mut v, "Current model: <b>default</b>"),
                }
            },
            ModelRequest::Reset => {
                self.settings.models.remove(&chat_id);
                save = true;
                push_str(&mut v, "Model reset to <b>default</b>.");
            },
            ModelRequest::Use(m) => {
                self.settings.models.insert(chat_id, m.clone());
                save = true;
                push_str(&mut v, "Model set to <b>");
                push_str(&mut v, m.as_str());
                push_str(&mut v, "</b>.");
            },
            ModelRequest::Unknown => push_str(
                &mut v,
                "Unknown model. Available:\n<code>/model sonnet</code>\n<code>/model opus</code>\n<code>/model haiku</code>\n<code>/model sonnet[1m]</code>\n<code>/model opus[1m]</code>\n<code>/model haiku[1m]</code>\n<code>/model default</code> — reset to default",
            ),
        }
        let text = string_of(v.as_slice());
        Reply { text, html: true, save_settings: save }
    }

    /// Carries out a request about the openness of a group.
    pub fn handle_public(&mut self, chat_id: i64, req: PublicRequest) -> (r: Reply)
        ensures
            old(self).wf() ==> final(self).wf(),
            r.text@ == public_view(req, crate::router::is_public(old(self).settings, chat_id)),
            r.html,
            r.save_settings == (req == PublicRequest::On || req == PublicRequest::Off),
            final(self).settings.as_public_for_group_chat@ == match req {
                PublicRequest::On => old(self).settings.as_public_for_group_chat@.insert(
                    chat_id,
                    true,
                ),
                PublicRequest::Off => old(self).settings.as_public_for_group_chat@.remove(chat_id),
                _ => old(self).settings.as_public_for_group_chat@,
            },
            final(self).settings.allowed_tools == old(self).settings.allowed_tools,
            final(self).settings.last_sessions == old(self).settings.last_sessions,
            final(self).settings.owner_user_id == old(self).settings.owner_user_id,
            final(self).settings.models == old(self).settings.models,
            final(self).settings.debug == old(self).settings.debug,
            final(self).sessions == old(self).sessions,
            final(self).cancel_tokens == old(self).cancel_tokens,
            final(self).stop_message_ids == old(self).stop_message_ids,
            final(self).api_timestamps == old(self).api_timestamps,
            final(self).polling_time_ms == old(self).polling_time_ms,
            final(self).pending_schedules == old(self).pending_schedules,
            final(self).next_token == old(self).next_token,
    {
        let mut v: Vec<char> = Vec::new();
        let mut save = false;
        match req {
            PublicRequest::NotGroup => push_str(
                &mut v,
                "This command is only available in group chats.",
            ),
            PublicRequest::NotOwner => push_str(
                &mut v,
                "Only the bot owner can change public access settings.",
            ),
            PublicRequest::On => {
                self.settings.as_public_for_group_chat.insert(chat_id, true);
                save = true;
                push_str(
                    &mut v,
                    "✅ Public access <b>enabled</b> for this group.\nAll members can now use the bot.",
                );
            },
            PublicRequest::Off => {
                self.settings.as_public_for_group_chat.remove(&chat_id);
                save = true;
                push_str(
                    &mut v,
                    "❌ Public access <b>disabled</b> for this group.\nOnly the owner can use the bot.",
                );
            },
            PublicRequest::Show => {
                let open_now = match self.settings.as_public_for_group_chat.get(&chat_id) {
                    Some(p) => *p,
                    None => false,
                };
                push_str(&mut v, "Public access is currently <b>");
                if open_now {
                    push_str(&mut v, "enabled");
                } else {
                    push_str(&mut v, "disabled");
                }
                push_str(
                    &mut v,
                    "</b> for this group.\n\n<code>/public on</code> — Allow all members\n<code>/public off</code> — Owner only",
                );
            },
            PublicRequest::Usage => push_str(
                &mut v,
                "Usage:\n<code>/public on</code> — Allow all group members\n<code>/public off</code> — Owner only",
            ),
        }
        let text = string_of(v.as_slice());
        Reply { text, html: true, save_settings: save }
    }

    /// Carries out a request about the polling interval.
    pub fn handle_polling(&mut self, req: PollingRequest) -> (r: Reply)
        ensures
            old(self).wf() ==> final(self).wf(),
            r.text@ == polling_view(req, old(self).polling_time_ms),
            !r.html,
            !r.save_settings,
            final(self).polling_time_ms == match checked_request(req) {
                PollingRequest::Change(v) => v,
                _ => old(self).polling_time_ms,
            },
            final(self).settings == old(self).settings,
            final(self).sessions == old(self).sessions,
            final(self).cancel_tokens == old(self).cancel_tokens,
            final(self).stop_message_ids == old(self).stop_message_ids,
            final(self).api_timestamps == old(self).api_timestamps,
            final(self).pending_schedules == old(self).pending_schedules,
            final(self).next_token == old(self).next_token,
    {
        let mut v: Vec<char> = Vec::new();
        let req = match req {
            PollingRequest::Change(value) => if value < MIN_POLLING_TIME_MS {
                PollingRequest::TooSmall
            } else {
                req
            },
            _ => req,
        };
        match req {
            PollingRequest::Show => {
                push_str(&mut v, "Current polling time: ");
                let d = decimal_of(self.polling_time_ms);
                extend(&mut v, d.as_slice());
                push_str(&mut v, "ms\nUsage: /setpollingtime <ms>\nMinimum: 2500ms");
            },
            PollingRequest::Invalid => push_str(
                &mut v,
                "Invalid number. Usage: /setpollingtime <ms>\nExample: /setpollingtime 3000",
            ),
            PollingRequest::TooSmall => push_str(&mut v, "Minimum polling time is 2500ms."),
            PollingRequest::Change(value) => {
                self.polling_time_ms = value;
                push_str(&mut v, "✅ Polling time set to ");
                let d = decimal_of(value);
                extend(&mut v, d.as_slice());
                push_str(&mut v, "ms");
            },
        }
        let text = string_of(v.as_slice());
        Reply { text, html: false, save_settings: false }
    }

    /// Switches debug logging: on where it was off, off where it was on.
    pub fn handle_debug(&mut self) -> (r: Reply)
        ensures
            old(self).wf() ==> final(self).wf(),
            final(self).settings.debug == !old(self).settings.debug,
            r.text@ == debug_view(!old(self).settings.debug),
            !r.html,
            r.save_settings,
            final(self).settings.allowed_tools == old(self).settings.allowed_tools,
            final(self).settings.last_sessions == old(self).settings.last_sessions,
            final(self).settings.owner_user_id == old(self).settings.owner_user_id,
            final(self).settings.as_public_for_group_chat == old(
                self,
            ).settings.as_public_for_group_chat,
            final(self).settings.models == old(self).settings.models,
            final(self).sessions == old(self).sessions,
            final(self).cancel_tokens == old(self).cancel_tokens,
            final(self).stop_message_ids == old(self).stop_message_ids,
            final(self).api_timestamps == old(self).api_timestamps,
            final(self).polling_time_ms == old(self).polling_time_ms,
            final(self).pending_schedules == old(self).pending_schedules,
            final(self).next_token == old(self).next_token,
    {
        let next = !self.settings.debug;
        self.settings.debug = next;
        let mut v: Vec<char> = Vec::new();
        push_str(&mut v, "🔍 Debug logging: ");
        if next {
            push_str(&mut v, "ON");
        } else {
            push_str(&mut v, "OFF");
        }
        Reply { text: string_of(v.as_slice()), html: false, save_settings: true }
    }

    /// Changes the tools allowed in a conversation. A conversation that has
    /// made no choice yet starts from the defaults. Returns the report of
    /// the changes, and whether the list was altered.
    pub fn handle_allowed(&mut self, chat_id: i64, ops: &Vec<ToolOp>) -> (r: Reply)
        ensures
            old(self).wf() ==> final(self).wf(),
            ({
                let outcome = crate::settings::ops_outcome(
                    crate::settings::allowed_tools_of(old(self).settings, chat_id),
                    crate::settings::op_views(ops@),
                );
                &&& final(self).settings.allowed_tools@.contains_key(chat_id)
                &&& crate::settings::allowed_tools_of(final(self).settings, chat_id)
                    == outcome.list
                &&& r.text@ == crate::text::join(outcome.lines, "\n"@)
                &&& r.save_settings == outcome.changed
            }),
            r.html,
            final(self).settings.allowed_tools@.remove(chat_id) == old(
                self,
            ).settings.allowed_tools@.remove(chat_id),
            final(self).settings.last_sessions == old(self).settings.last_sessions,
            final(self).settings.owner_user_id == old(self).settings.owner_user_id,
            final(self).settings.as_public_for_group_chat == old(
                self,
            ).settings.as_public_for_group_chat,
            final(self).settings.models == old(self).settings.models,
            final(self).settings.debug == old(self).settings.debug,
            final(self).sessions == old(self).sessions,
            final(self).cancel_tokens == old(self).cancel_tokens,
            final(self).stop_message_ids == old(self).stop_message_ids,
            final(self).api_timestamps == old(self).api_timestamps,
            final(self).polling_time_ms == old(self).polling_time_ms,
            final(self).pending_schedules == old(self).pending_schedules,
            final(self).next_token == old(self).next_token,
    {
        let mut tools = match self.settings.allowed_tools.remove(&chat_id) {
            Some(t) => t,
            None => default_allowed_tools(),
        };
        let (text, changed) = apply_tool_ops(&mut tools, ops);
        self.settings.allowed_tools.insert(chat_id, tools);
        Reply { text, html: true, save_settings: changed }
    }
}

/// What is answered to a change of the allowed tools that names none.
pub fn allowed_usage(arg_is_empty: bool) -> (s: &'static str)
    ensures
        s@ == if arg_is_empty {
            "Usage:\n/allowed +toolname — Add a tool\n/allowed -toolname — Remove a tool\n/allowed +tool1 -tool2 — Multiple at once\n/allowedtools — Show current list"@
        } else {
            "Use +toolname to add or -toolname to remove.\nExample: /allowed +Bash -Edit"@
        },
{
    if arg_is_empty {
        "Usage:\n/allowed +toolname — Add a tool\n/allowed -toolname — Remove a tool\n/allowed +tool1 -tool2 — Multiple at once\n/allowedtools — Show current list"
    } else {
        "Use +toolname to add or -toolname to remove.\nExample: /allowed +Bash -Edit"
    }
}

/// The line of a list for one tool.
pub open spec fn tool_line(name: Seq<char>, description: Seq<char>, destructive: bool) -> Seq<char> {
    if destructive {
        "<code>"@ + escaped(name) + "</code> !!! — "@ + escaped(description) + "\n"@
    } else {
        "<code>"@ + escaped(name) + "</code> — "@ + escaped(description) + "\n"@
    }
}

/// The end of a list of tools: what the mark means, and how many tools
/// there are.
pub open spec fn tools_footer(total: nat) -> Seq<char> {
    "\n!!! = destructive\nTotal: "@ + decimal(total)
}

fn push_tool_line(v: &mut Vec<char>, name: &str, description: &str, destructive: bool)
    ensures
        final(v)@ == old(v)@ + tool_line(name@, description@, destructive),
{
    push_str(v, "<code>");
    let n = chars_of(name);
    extend(v, escape(n.as_slice()).as_slice());
    if destructive {
        push_str(v, "</code> !!! — ");
    } else {
        push_str(v, "</code> — ");
    }
    let d = chars_of(description);
    extend(v, escape(d.as_slice()).as_slice());
    push_str(v, "\n");
}

/// The lines of a list of tools.
pub open spec fn tool_lines(t: Seq<(Seq<char>, Seq<char>, bool)>) -> Seq<char>
    decreases t.len(),
{
    if t.len() == 0 {
        Seq::<char>::empty()
    } else {
        tool_lines(t.drop_last()) + tool_line(t.last().0, t.last().1, t.last().2)
    }
}

/// The list of all tools of the assistant, as HTML.
pub open spec fn available_tools_view() -> Seq<char> {
    "<b>Available Tools</b>\n\n"@ + tool_lines(crate::settings::tool_table()) + tools_footer(
        crate::settings::tool_table().len(),
    )
}

/// Lists all tools of the assistant, as HTML.
pub fn available_tools_text() -> (s: String)
    ensures
        s@ == available_tools_view(),
{
    let all = all_tools();
    let ghost table = crate::settings::tool_table();
    let mut v: Vec<char> = Vec::new();
    push_str(&mut v, "<b>Available Tools</b>\n\n");
    let mut i: usize = 0;
    while i < all.len()
        invariant
            i <= all@.len(),
            all@.len() == 20,
            table == crate::settings::tool_table(),
            crate::settings::entry_views(all@) == table,
            v@ == "<b>Available Tools</b>\n\n"@ + tool_lines(table.take(i as int)),
        decreases all@.len() - i,
    {
        push_tool_line(&mut v, all[i].name, all[i].description, all[i].destructive);
        proof {
            assert(table.take(i + 1).drop_last() =~= table.take(i as int));
        }
        i += 1;
    }
    proof {
        assert(table.take(20) =~= table);
    }
    push_str(&mut v, "\n!!! = destructive\nTotal: ");
    let d = decimal_of(all.len() as u64);
    extend(&mut v, d.as_slice());
    let s = string_of(v.as_slice());
    s
}

/// A list of tools with what is known of each.
pub open spec fn with_info(tools: Seq<Seq<char>>) -> Seq<(Seq<char>, Seq<char>, bool)> {
    tools.map_values(
        |n: Seq<char>| (n, crate::settings::info_of(n).0, crate::settings::info_of(n).1),
    )
}

/// The list of the tools allowed in a conversation, as HTML.
pub open spec fn allowed_tools_view(tools: Seq<Seq<char>>) -> Seq<char> {
    "<b>Allowed Tools</b>\n\n"@ + tool_lines(with_info(tools)) + tools_footer(tools.len())
}

/// Lists the tools allowed in a conversation, as HTML.
pub fn allowed_tools_text(tools: &Vec<String>) -> (s: String)
    ensures
        s@ == allowed_tools_view(string_views(tools@)),
{
    let ghost t = with_info(string_views(tools@));
    let mut v: Vec<char> = Vec::new();
    push_str(&mut v, "<b>Allowed Tools</b>\n\n");
    let mut i: usize = 0;
    while i < tools.len()
        invariant
            i <= tools@.len(),
            t == with_info(string_views(tools@)),
            v@ == "<b>Allowed Tools</b>\n\n"@ + tool_lines(t.take(i as int)),
        decreases tools@.len() - i,
    {
        let (description, destructive) = tool_info(tools[i].as_str());
        push_tool_line(&mut v, tools[i].as_str(), description, destructive);
        proof {
            assert(t.take(i + 1).drop_last() =~= t.take(i as int));
        }
        i += 1;
    }
    proof {
        assert(t.take(tools@.len() as int) =~= t);
    }
    push_str(&mut v, "\n!!! = destructive\nTotal: ");
    let d = decimal_of(tools.len() as u64);
    extend(&mut v, d.as_slice());
    let s = string_of(v.as_slice());
    s
}

} // verus!
