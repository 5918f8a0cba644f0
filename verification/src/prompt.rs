//! What the assistant is told before a conversation: where it works, how it
//! is to speak, and the subcommands of the file manager that it may call.

use crate::text::{extend, push_str, signed_decimal, signed_decimal_of, string_of};
use vstd::prelude::*;

verus! {
/// The role of the assistant in a conversation.
pub const CHAT_ROLE: &'static str = "You are chatting with a user through Telegram.";

/// Before the working directory.
pub const DIRECTORY_LINE: &'static str = "\nCurrent working directory: ";

/// How the assistant is to speak, and the head of the command reference, up
/// to the conversation in the command that sends a file.
pub const MANNERS: &'static str = "\n\nAlways keep the user informed about what you are doing. Briefly explain each step as you work (e.g. \"Reading the file...\", \"Creating the script...\", \"Running tests...\"). The user cannot see your tool calls, so narrate your progress so they know what is happening.\n\nIMPORTANT: The user is on Telegram and CANNOT interact with any interactive prompts, dialogs, or confirmation requests. All tools that require user interaction (such as AskUserQuestion, EnterPlanMode, ExitPlanMode) will NOT work. Never use tools that expect user interaction. If you need clarification, just ask in plain text.\n\nResponse format: Use Markdown by default, but do NOT use Markdown tables.\n\n═══════════════════════════════════════\nCOKACDIR COMMAND REFERENCE\n═══════════════════════════════════════\nAll commands output JSON. Success: {\"status\":\"ok\",...}, Error: {\"status\":\"error\",\"message\":\"...\"}\n\n── FILE DELIVERY ──\nSend a file to the user's Telegram chat:\ncokacdir --sendfile <FILEPATH> --chat ";

/// Between the conversation and the key of the bot in a command.
pub const KEY_OPTION: &'static str = " --key ";

/// From the command that sends a file to the command that registers a
/// schedule.
pub const DELIVERY_AND_TIME: &'static str = "\n• Use this whenever your work produces a file (code, reports, images, archives, etc.)\n• Do NOT tell the user to use /down — always use this command instead\n• Output: {\"status\":\"ok\",\"path\":\"<absolute_path>\"}\n\n── SERVER TIME ──\nGet current server time (use before scheduling to confirm timezone):\ncokacdir --currenttime\n• Output: {\"status\":\"ok\",\"time\":\"2026-02-25 14:30:00\"}\n\n── SCHEDULE: REGISTER ──\ncokacdir --cron \"<PROMPT>\" --at \"<TIME>\" --chat ";

/// The rules of registering a schedule.
pub const REGISTER_RULES: &'static str = " [--once] [--session <SESSION_ID>]\n• --at formats:\n- \"2026-02-25 18:00:00\" or \"30m\", \"4h\", \"1d\" → one-time (auto-deleted after execution)\n- \"0 * * * *\" (5-field cron) → recurring\n• --once: cron only — run once at the next match then auto-delete\n• --session <SID>: pass ONLY when the task continues the current conversation context\n• PROMPT rules:\n1. Write as an imperative INSTRUCTION for another AI, not conversational text\n2. ★ MUST be in the user's language (한국어 사용자 → 한국어, English user → English)\n• Output: {\"status\":\"ok\",\"id\":\"...\",\"prompt\":\"...\",\"schedule\":\"...\"}";

/// The head of the command that lists schedules.
pub const LIST_HEAD: &'static str = "\n\n── SCHEDULE: LIST ──\ncokacdir --cron-list --chat ";

/// From the command that lists schedules to the one that removes one.
pub const LIST_TO_REMOVE: &'static str = "\n• Output: {\"status\":\"ok\",\"schedules\":[{\"id\":\"...\",\"prompt\":\"...\",\"schedule\":\"...\",\"created_at\":\"...\"},...]}\n\n── SCHEDULE: REMOVE ──\ncokacdir --cron-remove <SCHEDULE_ID> --chat ";

/// From the command that removes a schedule to the one that moves one.
pub const REMOVE_TO_UPDATE: &'static str = "\n• Output: {\"status\":\"ok\",\"id\":\"...\"}\n\n── SCHEDULE: UPDATE TIME ──\ncokacdir --cron-update <SCHEDULE_ID> --at \"<NEW_TIME>\" --chat ";

/// The end of the command reference.
pub const REFERENCE_END: &'static str = "\n• --at accepts the same formats as --cron\n• Output: {\"status\":\"ok\",\"id\":\"...\",\"schedule\":\"...\"}\n\n═══════════════════════════════════════";

/// Before the session in the note on sessions.
pub const SESSION_HEAD: &'static str = "\n\nCurrent session ID: ";

/// Between the two places of the session in the note on sessions.
pub const SESSION_MIDDLE: &'static str = "\nWhen scheduling a task that CONTINUES or EXTENDS the current conversation (e.g. \"finish this later\", \"do the rest tomorrow\", \"remind me to continue this\"), add --session ";

/// The end of the note on sessions.
pub const SESSION_END: &'static str = " to the --cron command so the scheduled task inherits this conversation context.\nDo NOT use --session for independent tasks that don't need the current conversation history (e.g. \"check server status every hour\", \"send a daily report\").";

/// Before the project directory in the role of a scheduled task.
pub const TASK_ROLE_HEAD: &'static str = "You are executing a scheduled task through Telegram.\nProject directory: ";

/// After the project directory in the role of a scheduled task.
pub const TASK_ROLE_END: &'static str = "\nYour current working directory is a dedicated workspace for this schedule.\nThis workspace will be preserved after execution. The user can continue work here via /start.\nTo work with project files, use absolute paths to the project directory.\nAny files you want to deliver must be sent via the cokacdir --sendfile command before the task ends.";

/// The note on sessions: how a schedule is made to continue the
/// conversation; nothing where the conversation has no session.
pub open spec fn session_notice(session_id: Option<Seq<char>>) -> Seq<char> {
    match session_id {
        Some(sid) => SESSION_HEAD@ + sid + SESSION_MIDDLE@ + sid + SESSION_END@,
        None => Seq::<char>::empty(),
    }
}

/// The conversation and the key of the bot, as the options of a command.
pub open spec fn addressing(chat_id: i64, bot_key: Seq<char>) -> Seq<char> {
    signed_decimal(chat_id as int) + KEY_OPTION@ + bot_key
}

/// What the assistant is told before a conversation.
pub open spec fn system_prompt(
    role: Seq<char>,
    current_path: Seq<char>,
    chat_id: i64,
    bot_key: Seq<char>,
    disabled_notice: Seq<char>,
    session_id: Option<Seq<char>>,
) -> Seq<char> {
    role + DIRECTORY_LINE@ + current_path + MANNERS@ + addressing(chat_id, bot_key)
        + DELIVERY_AND_TIME@ + addressing(chat_id, bot_key) + REGISTER_RULES@ + session_notice(
        session_id,
    ) + LIST_HEAD@ + addressing(chat_id, bot_key) + LIST_TO_REMOVE@ + addressing(chat_id, bot_key)
        + REMOVE_TO_UPDATE@ + addressing(chat_id, bot_key) + REFERENCE_END@ + disabled_notice
}

fn push_addressing(v: &mut Vec<char>, chat_id: i64, bot_key: &str)
    ensures
        final(v)@ == old(v)@ + addressing(chat_id, bot_key@),
{
    let ghost before = v@;
    let d = signed_decimal_of(chat_id);
    extend(v, d.as_slice());
    push_str(v, KEY_OPTION);
    push_str(v, bot_key);
}

/// Writes what the assistant is told before a conversation.
pub fn build_system_prompt(
    role: &str,
    current_path: &str,
    chat_id: i64,
    bot_key: &str,
    disabled_notice: &str,
    session_id: Option<&str>,
) -> (s: String)
    ensures
        s@ == system_prompt(
            role@,
            current_path@,
            chat_id,
            bot_key@,
            disabled_notice@,
            match session_id {
                Some(sid) => Some(sid@),
                None => None,
            },
        ),
{
    let mut v: Vec<char> = Vec::new();
    push_str(&mut v, role);
    push_str(&mut v, DIRECTORY_LINE);
    push_str(&mut v, current_path);
    push_str(&mut v, MANNERS);
    push_addressing(&mut v, chat_id, bot_key);
    push_str(&mut v, DELIVERY_AND_TIME);
    push_addressing(&mut v, chat_id, bot_key);
    push_str(&mut v, REGISTER_RULES);
    if let Some(sid) = session_id {
        push_str(&mut v, SESSION_HEAD);
        push_str(&mut v, sid);
        push_str(&mut v, SESSION_MIDDLE);
        push_str(&mut v, sid);
        push_str(&mut v, SESSION_END);
    }
    push_str(&mut v, LIST_HEAD);
    push_addressing(&mut v, chat_id, bot_key);
    push_str(&mut v, LIST_TO_REMOVE);
    push_addressing(&mut v, chat_id, bot_key);
    push_str(&mut v, REMOVE_TO_UPDATE);
    push_addressing(&mut v, chat_id, bot_key);
    push_str(&mut v, REFERENCE_END);
    push_str(&mut v, disabled_notice);
    string_of(v.as_slice())
}

/// The role of the assistant in a scheduled task on the given project.
pub open spec fn task_role(project_path: Seq<char>) -> Seq<char> {
    TASK_ROLE_HEAD@ + project_path + TASK_ROLE_END@
}

/// Writes the role of the assistant in a scheduled task.
pub fn build_task_role(project_path: &str) -> (s: String)
    ensures
        s@ == task_role(project_path@),
{
    let mut v: Vec<char> = Vec::new();
    push_str(&mut v, TASK_ROLE_HEAD);
    push_str(&mut v, project_path);
    push_str(&mut v, TASK_ROLE_END);
    string_of(v.as_slice())
}

/// What the assistant gets as its prompt: the user's text, after the
/// records of the files uploaded since the last request, where there are
/// any.
pub open spec fn context_prompt(uploads: Seq<Seq<char>>, input: Seq<char>) -> Seq<char> {
    if uploads.len() == 0 {
        input
    } else {
        crate::text::join(uploads, "\n"@) + "\n\n"@ + input
    }
}

/// Writes the prompt of a request.
pub fn build_context_prompt(uploads: &Vec<String>, input: &str) -> (s: String)
    ensures
        s@ == context_prompt(crate::text::string_views(uploads@), input@),
{
    let ghost u = crate::text::string_views(uploads@);
    if uploads.len() == 0 {
        return string_of(crate::text::chars_of(input).as_slice());
    }
    let mut parts: Vec<Vec<char>> = Vec::new();
    let mut i: usize = 0;
    while i < uploads.len()
        invariant
            i <= uploads@.len(),
            u == crate::text::string_views(uploads@),
            crate::text::views(parts@) == u.take(i as int),
        decreases uploads@.len() - i,
    {
        parts.push(crate::text::chars_of(uploads[i].as_str()));
        proof {
            assert(u.take(i + 1) =~= u.take(i as int).push(uploads@[i as int]@));
        }
        i += 1;
    }
    proof {
        assert(u.take(uploads@.len() as int) =~= u);
    }
    let mut v = crate::text::join_with(&parts, "\n");
    push_str(&mut v, "\n\n");
    push_str(&mut v, input);
    string_of(v.as_slice())
}

} // verus!
