//! The way of a message into the bot: who may use it, and which command a
//! text is.

use crate::settings::BotSettings;
use crate::text::{
    chars_of, extend, find_from, has_prefix, is_alnum, is_ascii_alphanumeric, next_index,
    split_words, starts_with, string_of, subvec, trim, trimmed, words,
};
use vstd::prelude::*;
use vstd::string::StringExecFns;

verus! {
broadcast use vstd::std_specs::hash::group_hash_axioms;

/// How a message's sender stands to the bot.
#[derive(Clone, Copy, Debug, PartialEq, Eq, Structural)]
pub enum Access {
    /// The message has no sender: it is dropped.
    NoUser,
    /// The bot had no owner: the sender has become it.
    Imprinted,
    /// The sender owns the bot.
    Owner,
    /// The sender does not own the bot, but writes in a group that is open
    /// to all.
    PublicMember,
    /// The sender may not use the bot: the message is dropped, without an
    /// answer.
    Rejected,
}

/// How a sender stands to a bot with the given owner, in a conversation
/// that is or is not a group, open to all or not.
pub open spec fn access(owner: Option<u64>, user: Option<u64>, is_group: bool, public: bool) -> Access {
    match user {
        None => Access::NoUser,
        Some(u) => match owner {
            None => Access::Imprinted,
            Some(o) => if u == o {
                Access::Owner
            } else if is_group && public {
                Access::PublicMember
            } else {
                Access::Rejected
            },
        },
    }
}

/// Whether the conversation is open to all.
pub open spec fn is_public(settings: BotSettings, chat_id: i64) -> bool {
    settings.as_public_for_group_chat@.contains_key(chat_id)
        && settings.as_public_for_group_chat@[chat_id]
}

/// Decides how the sender of a message stands to the bot. The first sender
/// ever becomes the owner; nothing else changes the settings.
pub fn authorize(settings: &mut BotSettings, user_id: Option<u64>, chat_id: i64, is_group: bool) -> (a:
    Access)
    ensures
        a == access(old(settings).owner_user_id, user_id, is_group, is_public(*old(settings), chat_id)),
        final(settings).owner_user_id == if a == Access::Imprinted {
            user_id
        } else {
            old(settings).owner_user_id
        },
        final(settings).allowed_tools == old(settings).allowed_tools,
        final(settings).last_sessions == old(settings).last_sessions,
        final(settings).as_public_for_group_chat == old(settings).as_public_for_group_chat,
        final(settings).models == old(settings).models,
        final(settings).debug == old(settings).debug,
{
    let uid = match user_id {
        Some(u) => u,
        None => {
            return Access::NoUser;
        },
    };
    match settings.owner_user_id {
        None => {
            settings.owner_user_id = Some(uid);
            Access::Imprinted
        },
        Some(owner) => {
            if uid == owner {
                Access::Owner
            } else {
                let public = match settings.as_public_for_group_chat.get(&chat_id) {
                    Some(p) => *p,
                    None => false,
                };
                if is_group && public {
                    Access::PublicMember
                } else {
                    Access::Rejected
                }
            }
        },
    }
}

/// Whether the user owns the bot.
pub fn is_owner(settings: &BotSettings, user_id: u64) -> (r: bool)
    ensures
        r == (settings.owner_user_id == Some(user_id)),
{
    match settings.owner_user_id {
        Some(o) => o == user_id,
        None => false,
    }
}

/// A command without the bot's name behind it: `/pwd@bot` is `/pwd`, and
/// `/start@bot dir` is `/start dir`. A text that is no command stays.
pub open spec fn without_bot_name(raw: Seq<char>) -> Seq<char> {
    if raw.len() > 0 && raw[0] == '/' {
        let sp = next_index(raw, ' ', 0);
        let at = next_index(raw.take(sp), '@', 0);
        if at < sp {
            raw.take(at) + raw.skip(sp)
        } else {
            raw
        }
    } else {
        raw
    }
}

/// Takes the bot's name off a command.
pub fn strip_bot_suffix(raw: &str) -> (text: String)
    ensures
        text@ == without_bot_name(raw@),
{
    let r = chars_of(raw);
    if r.len() == 0 || r[0] != '/' {
        return String::from_str(raw);
    }
    let sp = find_from(r.as_slice(), ' ', 0);
    let head = subvec(r.as_slice(), 0, sp);
    let at = find_from(head.as_slice(), '@', 0);
    if at < sp {
        let mut v = subvec(r.as_slice(), 0, at);
        let tail = subvec(r.as_slice(), sp, r.len());
        extend(&mut v, tail.as_slice());
        string_of(v.as_slice())
    } else {
        String::from_str(raw)
    }
}

/// Whether a text names a workspace: eight ASCII letters or digits.
pub open spec fn workspace_id(s: Seq<char>) -> bool {
    s.len() == 8 && forall|i: int| 0 <= i < s.len() ==> is_alnum(#[trigger] s[i])
}

/// Whether the characters name a workspace.
pub fn is_workspace_chars(s: &[char]) -> (r: bool)
    ensures
        r == workspace_id(s@),
{
    if s.len() != 8 {
        return false;
    }
    let mut i: usize = 0;
    while i < 8
        invariant
            i <= 8,
            s@.len() == 8,
            forall|j: int| 0 <= j < i ==> is_alnum(#[trigger] s@[j]),
        decreases 8 - i,
    {
        if !is_ascii_alphanumeric(s[i]) {
            return false;
        }
        i += 1;
    }
    true
}

/// Whether a text names a workspace.
pub fn is_workspace_id(s: &str) -> (r: bool)
    ensures
        r == workspace_id(s@),
{
    let v = chars_of(s);
    is_workspace_chars(v.as_slice())
}

/// What a text asks of the bot.
pub enum Command {
    /// Nothing: the text is not meant for the bot, or is empty.
    Ignore,
    /// Anything but a stop, while a request runs: the sender is told so.
    Busy,
    Stop,
    Help,
    /// Start a session; holds the directory asked for, which may be empty.
    Start(String),
    Clear,
    Pwd,
    /// Send a file; holds its path.
    Down(String),
    /// Open or close a group; holds `on`, `off` or nothing.
    Public(String),
    AvailableTools,
    AllowedTools,
    /// Holds the interval asked for.
    SetPollingTime(String),
    /// Holds the model asked for.
    Model(String),
    Debug,
    /// Holds the changes asked for.
    Allowed(String),
    /// Go back to a workspace; holds its name.
    WorkspaceResume(String),
    /// Run a shell command; holds the whole text.
    Shell(String),
    /// Anything else is said to the assistant.
    Prompt(String),
}

/// A command, its argument as characters.
pub enum CommandView {
    Ignore,
    Busy,
    Stop,
    Help,
    Start(Seq<char>),
    Clear,
    Pwd,
    Down(Seq<char>),
    Public(Seq<char>),
    AvailableTools,
    AllowedTools,
    SetPollingTime(Seq<char>),
    Model(Seq<char>),
    Debug,
    Allowed(Seq<char>),
    WorkspaceResume(Seq<char>),
    Shell(Seq<char>),
    Prompt(Seq<char>),
}

impl View for Command {
    type V = CommandView;

    open spec fn view(&self) -> CommandView {
        match self {
            Command::Ignore => CommandView::Ignore,
            Command::Busy => CommandView::Busy,
            Command::Stop => CommandView::Stop,
            Command::Help => CommandView::Help,
            Command::Start(a) => CommandView::Start(a@),
            Command::Clear => CommandView::Clear,
            Command::Pwd => CommandView::Pwd,
            Command::Down(a) => CommandView::Down(a@),
            Command::Public(a) => CommandView::Public(a@),
            Command::AvailableTools => CommandView::AvailableTools,
            Command::AllowedTools => CommandView::AllowedTools,
            Command::SetPollingTime(a) => CommandView::SetPollingTime(a@),
            Command::Model(a) => CommandView::Model(a@),
            Command::Debug => CommandView::Debug,
            Command::Allowed(a) => CommandView::Allowed(a@),
            Command::WorkspaceResume(a) => CommandView::WorkspaceResume(a@),
            Command::Shell(a) => CommandView::Shell(a@),
            Command::Prompt(a) => CommandView::Prompt(a@),
        }
    }
}

/// What follows the name of a command, without white space around it.
pub open spec fn argument(text: Seq<char>, name: Seq<char>) -> Seq<char> {
    trim(text.skip(name.len() as int))
}

/// The first word after the slash of a command.
pub open spec fn first_word(text: Seq<char>) -> Seq<char> {
    let w = words(text.skip(1));
    if w.len() > 0 {
        w[0]
    } else {
        Seq::<char>::empty()
    }
}

/// Whether a text in a group is meant for the bot: it begins with `/`, `!`
/// or `;`.
pub open spec fn addressed(text: Seq<char>) -> bool {
    text.len() > 0 && (text[0] == '/' || text[0] == '!' || text[0] == ';')
}

/// The command that a text is, whatever the state of its conversation.
pub open spec fn command_named(text: Seq<char>) -> CommandView {
    if has_prefix(text, "/stop"@) {
        CommandView::Stop
    } else if has_prefix(text, "/help"@) {
        CommandView::Help
    } else if has_prefix(text, "/start"@) {
        CommandView::Start(argument(text, "/start"@))
    } else if has_prefix(text, "/clear"@) {
        CommandView::Clear
    } else if has_prefix(text, "/pwd"@) {
        CommandView::Pwd
    } else if has_prefix(text, "/down"@) {
        CommandView::Down(argument(text, "/down"@))
    } else if has_prefix(text, "/public"@) {
        CommandView::Public(argument(text, "/public"@))
    } else if has_prefix(text, "/availabletools"@) {
        CommandView::AvailableTools
    } else if has_prefix(text, "/allowedtools"@) {
        CommandView::AllowedTools
    } else if has_prefix(text, "/setpollingtime"@) {
        CommandView::SetPollingTime(argument(text, "/setpollingtime"@))
    } else if has_prefix(text, "/model"@) {
        CommandView::Model(argument(text, "/model"@))
    } else if has_prefix(text, "/debug"@) {
        CommandView::Debug
    } else if has_prefix(text, "/allowed"@) {
        CommandView::Allowed(argument(text, "/allowed"@))
    } else if text.len() > 0 && text[0] == '/' && workspace_id(first_word(text)) {
        CommandView::WorkspaceResume(first_word(text))
    } else if text.len() > 0 && text[0] == '!' {
        CommandView::Shell(text)
    } else if text.len() > 0 && text[0] == ';' {
        if trim(text.skip(1)).len() == 0 {
            CommandView::Ignore
        } else {
            CommandView::Prompt(trim(text.skip(1)))
        }
    } else {
        CommandView::Prompt(text)
    }
}

/// What a text asks of the bot. In a group, a text that is not addressed
/// to the bot asks nothing. While a request runs in the conversation,
/// nothing is taken up but a stop: this is the admission check that keeps
/// the requests of a conversation one at a time.
pub open spec fn routed(text: Seq<char>, is_group: bool, busy: bool) -> CommandView {
    if is_group && !addressed(text) {
        CommandView::Ignore
    } else if busy && !has_prefix(text, "/stop"@) {
        CommandView::Busy
    } else {
        command_named(text)
    }
}

fn arg_of(t: &[char], name: &str) -> (a: String)
    requires
        has_prefix(t@, name@),
    ensures
        a@ == argument(t@, name@),
{
    let n = chars_of(name);
    let rest = subvec(t, n.len(), t.len());
    let a = trimmed(rest.as_slice());
    string_of(a.as_slice())
}

fn first_word_of(t: &[char]) -> (w: Vec<char>)
    requires
        t@.len() > 0,
    ensures
        w@ == first_word(t@),
{
    let rest = subvec(t, 1, t.len());
    let ws = split_words(rest.as_slice());
    if ws.len() > 0 {
        subvec(ws[0].as_slice(), 0, ws[0].len())
    } else {
        Vec::new()
    }
}

/// Reads the command that a text is.
pub fn parse_command(text: &str) -> (c: Command)
    ensures
        c@ == command_named(text@),
{
    let tv = chars_of(text);
    let t = tv.as_slice();
    if starts_with(t, "/stop") {
        Command::Stop
    } else if starts_with(t, "/help") {
        Command::Help
    } else if starts_with(t, "/start") {
        Command::Start(arg_of(t, "/start"))
    } else if starts_with(t, "/clear") {
        Command::Clear
    } else if starts_with(t, "/pwd") {
        Command::Pwd
    } else if starts_with(t, "/down") {
        Command::Down(arg_of(t, "/down"))
    } else if starts_with(t, "/public") {
        Command::Public(arg_of(t, "/public"))
    } else if starts_with(t, "/availabletools") {
        Command::AvailableTools
    } else if starts_with(t, "/allowedtools") {
        Command::AllowedTools
    } else if starts_with(t, "/setpollingtime") {
        Command::SetPollingTime(arg_of(t, "/setpollingtime"))
    } else if starts_with(t, "/model") {
        Command::Model(arg_of(t, "/model"))
    } else if starts_with(t, "/debug") {
        Command::Debug
    } else if starts_with(t, "/allowed") {
        Command::Allowed(arg_of(t, "/allowed"))
    } else if t.len() > 0 && t[0] == '/' {
        let w = first_word_of(t);
        if is_workspace_chars(w.as_slice()) {
            Command::WorkspaceResume(string_of(w.as_slice()))
        } else {
            Command::Prompt(String::from_str(text))
        }
    } else if t.len() > 0 && t[0] == '!' {
        Command::Shell(String::from_str(text))
    } else if t.len() > 0 && t[0] == ';' {
        let rest = subvec(t, 1, t.len());
        let s = trimmed(rest.as_slice());
        if s.len() == 0 {
            Command::Ignore
        } else {
            Command::Prompt(string_of(s.as_slice()))
        }
    } else {
        Command::Prompt(String::from_str(text))
    }
}

/// Decides what a text asks of the bot, in a conversation that is or is
/// not a group and has or has not a request running.
pub fn route(text: &str, is_group: bool, busy: bool) -> (c: Command)
    ensures
        c@ == routed(text@, is_group, busy),
{
    let tv = chars_of(text);
    let t = tv.as_slice();
    if is_group && !(t.len() > 0 && (t[0] == '/' || t[0] == '!' || t[0] == ';')) {
        return Command::Ignore;
    }
    if busy && !starts_with(t, "/stop") {
        return Command::Busy;
    }
    parse_command(text)
}

/// Whether a text leaves the conversation's session to be brought back
/// before it is taken up: any text does but one that starts a session.
pub fn restores_session(text: &str) -> (r: bool)
    ensures
        r == !has_prefix(text@, "/start"@),
{
    let t = chars_of(text);
    !starts_with(t.as_slice(), "/start")
}

/// What is done with an uploaded file.
pub enum UploadPlan {
    /// Nothing: in a group, a file whose caption does not address the bot.
    Ignore,
    /// The file is stored.
    Store,
    /// The file is stored, and the text is then said to the assistant.
    StoreThenPrompt(String),
}

/// An upload plan, its text as characters.
pub enum UploadPlanView {
    Ignore,
    Store,
    StoreThenPrompt(Seq<char>),
}

impl View for UploadPlan {
    type V = UploadPlanView;

    open spec fn view(&self) -> UploadPlanView {
        match self {
            UploadPlan::Ignore => UploadPlanView::Ignore,
            UploadPlan::Store => UploadPlanView::Store,
            UploadPlan::StoreThenPrompt(t) => UploadPlanView::StoreThenPrompt(t@),
        }
    }
}

/// What is done with an upload that has the given caption. In a group, the
/// caption must begin with `;`, and what follows is said to the assistant;
/// elsewhere the whole caption is. White space around the text does not
/// count, and an empty text is not said.
pub open spec fn upload_planned(caption: Option<Seq<char>>, is_group: bool) -> UploadPlanView {
    match caption {
        None => if is_group {
            UploadPlanView::Ignore
        } else {
            UploadPlanView::Store
        },
        Some(c) => {
            let said = if is_group {
                trim(c.skip(1))
            } else {
                trim(c)
            };
            if is_group && !(c.len() > 0 && c[0] == ';') {
                UploadPlanView::Ignore
            } else if said.len() > 0 {
                UploadPlanView::StoreThenPrompt(said)
            } else {
                UploadPlanView::Store
            }
        },
    }
}

/// Decides what is done with an upload.
pub fn upload_plan(caption: Option<&str>, is_group: bool) -> (p: UploadPlan)
    ensures
        p@ == upload_planned(
            match caption {
                Some(c) => Some(c@),
                None => None,
            },
            is_group,
        ),
{
    match caption {
        None => if is_group {
            UploadPlan::Ignore
        } else {
            UploadPlan::Store
        },
        Some(c) => {
            let cv = chars_of(c);
            if is_group && !(cv.len() > 0 && cv[0] == ';') {
                return UploadPlan::Ignore;
            }
            let said = if is_group {
                let rest = subvec(cv.as_slice(), 1, cv.len());
                trimmed(rest.as_slice())
            } else {
                trimmed(cv.as_slice())
            };
            if said.len() > 0 {
                UploadPlan::StoreThenPrompt(string_of(said.as_slice()))
            } else {
                UploadPlan::Store
            }
        },
    }
}

} // verus!
