use cokacdir::render::{
    advance_delivery, after_turn, decide_tick, final_response, next_loop_step, progress_text,
    schedule_final_text, schedule_progress_text, schedule_stopped_text, spinner, start_delivery,
    stopped_response, DeliveryStep, LoopState, LoopStep, TickAction,
};

#[test]
fn spinner_goes_round() {
    assert_eq!(spinner(0), "🕐 P");
    assert_eq!(spinner(9), "🕙 Processing");
    assert_eq!(spinner(11), "🕛 Processing..");
    assert_eq!(spinner(12), "🕐 P");
    assert_eq!(spinner(25), "🕑 Pr");
}

#[test]
fn progress_shows_answer_and_indicator() {
    assert_eq!(progress_text("", "🕐 P"), "🕐 P");
    assert_eq!(progress_text("a\n\n\nb", "🕐 P"), "a\n\nb\n\n🕐 P");
    let long = format!("{}\n{}", "a".repeat(3000), "b".repeat(3000));
    assert_eq!(progress_text(&long, "i"), format!("{}\n\ni", "a".repeat(3000)));
    let one = "c".repeat(5000);
    assert_eq!(progress_text(&one, "i"), format!("{}\n\ni", "c".repeat(4076)));
    assert_eq!(schedule_progress_text("task", "", "i"), "⏰ task\n\ni");
    assert_eq!(schedule_progress_text("task", "x", "i"), "⏰ task\n\nx\n\ni");
    assert_eq!(
        schedule_progress_text("task", &one, "i"),
        format!("⏰ task\n\n{}\n\ni", "c".repeat(4056))
    );
}

#[test]
fn final_and_stopped_answers() {
    assert_eq!(final_response(""), "(No response)");
    assert_eq!(final_response("a\n\n\n\nb\n"), "a\n\nb");
    assert_eq!(stopped_response(""), "[Stopped]");
    assert_eq!(stopped_response(" \n "), "[Stopped]");
    assert_eq!(stopped_response("so far\n\n\nmore"), "so far\n\nmore\n\n[Stopped]");
    assert_eq!(
        schedule_final_text("task", "", "abc12345"),
        "⏰ task\n\n(No response)\n\nUse /abc12345 to continue this schedule session."
    );
    assert_eq!(
        schedule_final_text("task", "done\n\n\nok", "abc12345"),
        "⏰ task\n\ndone\n\nok\n\nUse /abc12345 to continue this schedule session."
    );
    assert_eq!(
        schedule_stopped_text("task", "abc12345"),
        "⏰ task\n\n⛔ Stopped\n\nUse /abc12345 to continue this schedule session."
    );
}

#[test]
fn ticks_edit_or_signal() {
    assert_eq!(decide_tick(false, "new", "old"), TickAction::Edit);
    assert_eq!(decide_tick(false, "same", "same"), TickAction::Typing);
    assert_eq!(decide_tick(true, "new", "old"), TickAction::Nothing);
    assert_eq!(decide_tick(true, "same", "same"), TickAction::Nothing);
}

#[test]
fn delivery_falls_back_step_by_step() {
    assert_eq!(start_delivery("short"), DeliveryStep::EditHtml);
    assert_eq!(start_delivery(&"x".repeat(4096)), DeliveryStep::EditHtml);
    assert_eq!(start_delivery(&"x".repeat(4097)), DeliveryStep::SendLongHtml);
    assert_eq!(advance_delivery(DeliveryStep::EditHtml, true), DeliveryStep::Finished);
    assert_eq!(advance_delivery(DeliveryStep::EditHtml, false), DeliveryStep::EditPlain);
    assert_eq!(advance_delivery(DeliveryStep::EditPlain, false), DeliveryStep::Finished);
    assert_eq!(advance_delivery(DeliveryStep::SendLongHtml, true), DeliveryStep::DeletePlaceholder);
    assert_eq!(advance_delivery(DeliveryStep::SendLongHtml, false), DeliveryStep::SendLongPlain);
    assert_eq!(advance_delivery(DeliveryStep::SendLongPlain, true), DeliveryStep::DeletePlaceholder);
    assert_eq!(advance_delivery(DeliveryStep::SendLongPlain, false), DeliveryStep::EditTruncated);
    assert_eq!(advance_delivery(DeliveryStep::DeletePlaceholder, false), DeliveryStep::Finished);
    assert_eq!(advance_delivery(DeliveryStep::EditTruncated, true), DeliveryStep::Finished);
    assert_eq!(advance_delivery(DeliveryStep::Finished, true), DeliveryStep::Finished);
}

#[test]
fn loops_end_when_run_and_queue_are_done() {
    let start = LoopState { done: false, queue_done: false, rendered: false };
    assert_eq!(next_loop_step(&start, false), LoopStep::Turn);
    assert_eq!(next_loop_step(&start, true), LoopStep::Stopped);
    // files sent while the run goes on do not end the loop
    assert_eq!(after_turn(&start, false), start);
    let done = LoopState { done: true, queue_done: false, rendered: true };
    assert_eq!(next_loop_step(&done, false), LoopStep::Turn);
    assert_eq!(next_loop_step(&done, true), LoopStep::Leave);
    assert_eq!(after_turn(&done, true), done);
    let drained = after_turn(&done, false);
    assert!(drained.queue_done);
    assert_eq!(next_loop_step(&drained, false), LoopStep::Complete);
    assert_eq!(next_loop_step(&drained, true), LoopStep::Complete);
}
