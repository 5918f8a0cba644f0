//! What a conversation is shown of a run: the growing answer while the run
//! goes on, the final answer, and the order in which the ways of delivering
//! it are tried.

use crate::chunk::TELEGRAM_MSG_LIMIT;
use crate::format::byte_len;
use crate::markup::{normalize_empty_lines, squeezed, truncate_str, truncated};
use crate::text::{chars_of, push_str, string_of, trim, trimmed};
use vstd::prelude::*;
use vstd::string::StringExecFns;
use vstd::string::StringSliceAdditionalSpecFns;

verus! {
/// How many frames the progress indicator has.
pub const SPINNER_FRAMES: usize = 12;

/// The frames of the progress indicator.
pub open spec fn spinner_frames() -> Seq<Seq<char>> {
    seq![
        "🕐 P"@,
        "🕑 Pr"@,
        "🕒 Pro"@,
        "🕓 Proc"@,
        "🕔 Proce"@,
        "🕕 Proces"@,
        "🕖 Process"@,
        "🕗 Processi"@,
        "🕘 Processin"@,
        "🕙 Processing"@,
        "🕚 Processing."@,
        "🕛 Processing.."@,
    ]
}

/// The frame of the progress indicator for the given tick.
pub fn spinner(tick: usize) -> (frame: &'static str)
    ensures
        frame@ == spinner_frames()[(tick % SPINNER_FRAMES) as int],
{
    let k = tick % SPINNER_FRAMES;
    if k == 0 {
        "🕐 P"
    } else if k == 1 {
        "🕑 Pr"
    } else if k == 2 {
        "🕒 Pro"
    } else if k == 3 {
        "🕓 Proc"
    } else if k == 4 {
        "🕔 Proce"
    } else if k == 5 {
        "🕕 Proces"
    } else if k == 6 {
        "🕖 Process"
    } else if k == 7 {
        "🕗 Processi"
    } else if k == 8 {
        "🕘 Processin"
    } else if k == 9 {
        "🕙 Processing"
    } else if k == 10 {
        "🕚 Processing."
    } else {
        "🕛 Processing.."
    }
}

/// What is shown while a request runs: the indicator alone while there is
/// no answer yet; else the answer so far, its empty lines squeezed, cut to
/// leave room, and the indicator below it.
pub open spec fn progress_view(full_response: Seq<char>, indicator: Seq<char>) -> Seq<char> {
    if full_response.len() == 0 {
        indicator
    } else {
        truncated(squeezed(full_response), TELEGRAM_MSG_LIMIT - 20) + "\n\n"@ + indicator
    }
}

/// Writes what is shown while a request runs.
pub fn progress_text(full_response: &str, indicator: &str) -> (s: String)
    ensures
        s@ == progress_view(full_response@, indicator@),
{
    if full_response.is_empty() {
        return String::from_str(indicator);
    }
    let normalized = normalize_empty_lines(full_response);
    let cut = truncate_str(normalized.as_str(), TELEGRAM_MSG_LIMIT - 20);
    let mut v = chars_of(cut.as_str());
    push_str(&mut v, "\n\n");
    push_str(&mut v, indicator);
    string_of(v.as_slice())
}

/// What is shown while a scheduled task runs: the task, then as for a
/// request, with a little more room left.
pub open spec fn schedule_progress_view(
    prompt: Seq<char>,
    full_response: Seq<char>,
    indicator: Seq<char>,
) -> Seq<char> {
    if full_response.len() == 0 {
        "⏰ "@ + prompt + "\n\n"@ + indicator
    } else {
        "⏰ "@ + prompt + "\n\n"@ + truncated(squeezed(full_response), TELEGRAM_MSG_LIMIT - 40)
            + "\n\n"@ + indicator
    }
}

/// Writes what is shown while a scheduled task runs.
pub fn schedule_progress_text(prompt: &str, full_response: &str, indicator: &str) -> (s: String)
    ensures
        s@ == schedule_progress_view(prompt@, full_response@, indicator@),
{
    let mut v: Vec<char> = Vec::new();
    push_str(&mut v, "⏰ ");
    push_str(&mut v, prompt);
    push_str(&mut v, "\n\n");
    if !full_response.is_empty() {
        let normalized = normalize_empty_lines(full_response);
        let cut = truncate_str(normalized.as_str(), TELEGRAM_MSG_LIMIT - 40);
        push_str(&mut v, cut.as_str());
        push_str(&mut v, "\n\n");
    }
    push_str(&mut v, indicator);
    let s = string_of(v.as_slice());
    s
}

/// The answer of a run, or a note that there is none.
pub open spec fn answer_or_note(full_response: Seq<char>) -> Seq<char> {
    if full_response.len() == 0 {
        "(No response)"@
    } else {
        full_response
    }
}

/// The final answer of a request: the answer, or a note that there is
/// none, with its empty lines squeezed.
pub open spec fn final_view(full_response: Seq<char>) -> Seq<char> {
    squeezed(answer_or_note(full_response))
}

/// Writes the final answer of a request.
pub fn final_response(full_response: &str) -> (s: String)
    ensures
        s@ == final_view(full_response@),
{
    if full_response.is_empty() {
        normalize_empty_lines("(No response)")
    } else {
        normalize_empty_lines(full_response)
    }
}

/// What stands for a request that was stopped: the answer so far, its
/// empty lines squeezed, above a mark; the mark alone where there is no
/// answer.
pub open spec fn stopped_view(full_response: Seq<char>) -> Seq<char> {
    if trim(full_response).len() == 0 {
        "[Stopped]"@
    } else {
        squeezed(full_response) + "\n\n[Stopped]"@
    }
}

/// Writes what stands for a request that was stopped.
pub fn stopped_response(full_response: &str) -> (s: String)
    ensures
        s@ == stopped_view(full_response@),
{
    let f = chars_of(full_response);
    let t = trimmed(f.as_slice());
    if t.len() == 0 {
        return String::from_str("[Stopped]");
    }
    let normalized = normalize_empty_lines(full_response);
    let mut v = chars_of(normalized.as_str());
    push_str(&mut v, "\n\n[Stopped]");
    string_of(v.as_slice())
}

/// The final message of a scheduled task: the task, the answer, and how to
/// go on in the task's session.
pub open spec fn schedule_final_view(
    prompt: Seq<char>,
    full_response: Seq<char>,
    schedule_id: Seq<char>,
) -> Seq<char> {
    "⏰ "@ + prompt + "\n\n"@ + squeezed(answer_or_note(full_response)) + "\n\nUse /"@ + schedule_id
        + " to continue this schedule session."@
}

/// Writes the final message of a scheduled task.
pub fn schedule_final_text(prompt: &str, full_response: &str, schedule_id: &str) -> (s: String)
    ensures
        s@ == schedule_final_view(prompt@, full_response@, schedule_id@),
{
    let mut v: Vec<char> = Vec::new();
    push_str(&mut v, "⏰ ");
    push_str(&mut v, prompt);
    push_str(&mut v, "\n\n");
    push_str(&mut v, final_response(full_response).as_str());
    push_str(&mut v, "\n\nUse /");
    push_str(&mut v, schedule_id);
    push_str(&mut v, " to continue this schedule session.");
    let s = string_of(v.as_slice());
    s
}

/// The message of a scheduled task that was stopped.
pub open spec fn schedule_stopped_view(prompt: Seq<char>, schedule_id: Seq<char>) -> Seq<char> {
    "⏰ "@ + prompt + "\n\n⛔ Stopped\n\nUse /"@ + schedule_id
        + " to continue this schedule session."@
}

/// Writes the message of a scheduled task that was stopped.
pub fn schedule_stopped_text(prompt: &str, schedule_id: &str) -> (s: String)
    ensures
        s@ == schedule_stopped_view(prompt@, schedule_id@),
{
    let mut v: Vec<char> = Vec::new();
    push_str(&mut v, "⏰ ");
    push_str(&mut v, prompt);
    push_str(&mut v, "\n\n⛔ Stopped\n\nUse /");
    push_str(&mut v, schedule_id);
    push_str(&mut v, " to continue this schedule session.");
    let s = string_of(v.as_slice());
    s
}

/// What a task does in one tick of its polling loop while the run goes on.
#[derive(Clone, Copy, Debug, PartialEq, Eq, Structural)]
pub enum TickAction {
    /// Show the progress text in place of what is shown.
    Edit,
    /// Nothing new to show: signal that the bot is at work.
    Typing,
    /// Nothing: the run has ended.
    Nothing,
}

/// What a tick does: nothing once the run has ended; else it shows the
/// progress text where that differs from what is shown, and signals work
/// where it does not.
pub open spec fn tick_action(done: bool, changed: bool) -> TickAction {
    if done {
        TickAction::Nothing
    } else if changed {
        TickAction::Edit
    } else {
        TickAction::Typing
    }
}

/// Decides what a tick does, from the progress text and what is shown.
pub fn decide_tick(done: bool, display_text: &str, last_edit_text: &str) -> (a: TickAction)
    ensures
        a == tick_action(done, display_text@ != last_edit_text@),
{
    if done {
        return TickAction::Nothing;
    }
    let d = chars_of(display_text);
    let l = chars_of(last_edit_text);
    if crate::text::same(d.as_slice(), l.as_slice()) {
        TickAction::Typing
    } else {
        TickAction::Edit
    }
}

/// A way of delivering a final answer.
#[derive(Clone, Copy, Debug, PartialEq, Eq, Structural)]
pub enum DeliveryStep {
    /// Put the HTML in place of the placeholder.
    EditHtml,
    /// Put the plain text in place of the placeholder.
    EditPlain,
    /// Send the HTML as a run of messages.
    SendLongHtml,
    /// Send the plain text as a run of messages.
    SendLongPlain,
    /// Remove the placeholder: the answer stands in messages of its own.
    DeletePlaceholder,
    /// Put the plain text, cut to one message, in place of the placeholder.
    EditTruncated,
    /// Nothing is left to try.
    Finished,
}

/// The first way tried: the placeholder is edited where the HTML fits one
/// message, else the HTML is sent as a run of messages.
pub open spec fn first_delivery(html_bytes: int) -> DeliveryStep {
    if html_bytes <= TELEGRAM_MSG_LIMIT {
        DeliveryStep::EditHtml
    } else {
        DeliveryStep::SendLongHtml
    }
}

/// The way tried after `step`, which succeeded or failed: HTML that the
/// transport refuses is followed by plain text, and a run of messages that
/// cannot be sent by the text cut to one message.
pub open spec fn next_delivery(step: DeliveryStep, ok: bool) -> DeliveryStep {
    match step {
        DeliveryStep::EditHtml => if ok {
            DeliveryStep::Finished
        } else {
            DeliveryStep::EditPlain
        },
        DeliveryStep::SendLongHtml => if ok {
            DeliveryStep::DeletePlaceholder
        } else {
            DeliveryStep::SendLongPlain
        },
        DeliveryStep::SendLongPlain => if ok {
            DeliveryStep::DeletePlaceholder
        } else {
            DeliveryStep::EditTruncated
        },
        _ => DeliveryStep::Finished,
    }
}

/// How many ways are tried from `step` on at most.
pub open spec fn ways_left(step: DeliveryStep) -> nat {
    match step {
        DeliveryStep::EditHtml => 2,
        DeliveryStep::EditPlain => 1,
        DeliveryStep::SendLongHtml => 3,
        DeliveryStep::SendLongPlain => 2,
        DeliveryStep::DeletePlaceholder => 1,
        DeliveryStep::EditTruncated => 1,
        DeliveryStep::Finished => 0,
    }
}

/// Every delivery ends: each way leaves fewer to try, whatever its outcome.
pub proof fn law_delivery_ends(step: DeliveryStep, ok: bool)
    ensures
        step != DeliveryStep::Finished ==> ways_left(next_delivery(step, ok)) < ways_left(step),
{
}

/// The first way of delivering an answer whose HTML form is `html`.
pub fn start_delivery(html: &str) -> (step: DeliveryStep)
    ensures
        step == first_delivery(html.spec_bytes().len() as int),
{
    if byte_len(html) <= TELEGRAM_MSG_LIMIT {
        DeliveryStep::EditHtml
    } else {
        DeliveryStep::SendLongHtml
    }
}

/// The way to try after `step`.
pub fn advance_delivery(step: DeliveryStep, ok: bool) -> (next: DeliveryStep)
    ensures
        next == next_delivery(step, ok),
{
    match step {
        DeliveryStep::EditHtml => if ok {
            DeliveryStep::Finished
        } else {
            DeliveryStep::EditPlain
        },
        DeliveryStep::SendLongHtml => if ok {
            DeliveryStep::DeletePlaceholder
        } else {
            DeliveryStep::SendLongPlain
        },
        DeliveryStep::SendLongPlain => if ok {
            DeliveryStep::DeletePlaceholder
        } else {
            DeliveryStep::EditTruncated
        },
        _ => DeliveryStep::Finished,
    }
}

/// Where a polling loop stands.
#[derive(Clone, Copy, Debug, PartialEq, Eq, Structural)]
pub struct LoopState {
    /// The run has ended.
    pub done: bool,
    /// After the run's end, a turn found no file waiting to be sent.
    pub queue_done: bool,
    /// The final answer has been delivered.
    pub rendered: bool,
}

/// What a polling loop does next.
#[derive(Clone, Copy, Debug, PartialEq, Eq, Structural)]
pub enum LoopStep {
    /// Go through one more turn.
    Turn,
    /// Leave: the request was stopped before the run ended.
    Stopped,
    /// Leave: the request was told to stop after the run had ended.
    Leave,
    /// Leave: the run has ended and no file waits to be sent.
    Complete,
}

/// What a polling loop does next: it leaves when the run has ended and no
/// file waits, or when the request was told to stop, which counts as a stop
/// only before the run's end.
pub open spec fn loop_step(s: LoopState, cancelled: bool) -> LoopStep {
    if s.done && s.queue_done {
        LoopStep::Complete
    } else if cancelled {
        if s.done {
            LoopStep::Leave
        } else {
            LoopStep::Stopped
        }
    } else {
        LoopStep::Turn
    }
}

/// Decides what a polling loop does next.
pub fn next_loop_step(s: &LoopState, cancelled: bool) -> (step: LoopStep)
    ensures
        step == loop_step(*s, cancelled),
{
    if s.done && s.queue_done {
        LoopStep::Complete
    } else if cancelled {
        if s.done {
            LoopStep::Leave
        } else {
            LoopStep::Stopped
        }
    } else {
        LoopStep::Turn
    }
}

/// The loop's state after a turn in which a file was or was not sent: once
/// the run has ended, a turn that sends none is the last.
pub fn after_turn(s: &LoopState, sent_file: bool) -> (n: LoopState)
    ensures
        n == (LoopState {
            queue_done: if s.done {
                !sent_file
            } else {
                s.queue_done
            },
            ..*s
        }),
{
    LoopState {
        done: s.done,
        queue_done: if s.done {
            !sent_file
        } else {
            s.queue_done
        },
        rendered: s.rendered,
    }
}

} // verus!
