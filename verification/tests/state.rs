use cokacdir::session::{ChatSession, HistoryItem, HistoryType, SessionData};
use cokacdir::settings::BotSettings;
use cokacdir::session::session_of_run;
use cokacdir::state::{RequestStart, SchedAction, SharedData, StopDecision};

fn fresh() -> SharedData {
    SharedData::new(BotSettings::default(), 3000)
}

#[test]
fn second_attempt_observes_busy() {
    let mut s = fresh();
    assert!(!s.is_busy(7));
    let first = s.try_begin(7);
    assert!(first.is_some());
    assert!(s.is_busy(7));
    let second = s.try_begin(7);
    assert!(second.is_none());
    assert_eq!(s.cancel_tokens.len(), 1);
    assert_eq!(s.cancel_tokens.get(&7).map(|t| t.id), first);
    // another conversation is not in the way
    assert!(s.try_begin(8).is_some());
    assert_ne!(s.cancel_tokens.get(&8).map(|t| t.id), first);
    s.release(7);
    assert!(!s.is_busy(7));
    assert!(s.try_begin(7).is_some());
}

#[test]
fn back_to_back_reservations_are_one_interval_apart() {
    let mut s = fresh();
    let t1 = s.reserve_slot(1, 100_000);
    let t2 = s.reserve_slot(1, 100_000);
    let t3 = s.reserve_slot(1, 100_001);
    assert_eq!(t1, 100_000);
    assert_eq!(t2, 103_000);
    assert_eq!(t3, 106_000);
    // a conversation of its own is not held up
    assert_eq!(s.reserve_slot(2, 100_001), 100_001);
    // after a pause the present is taken
    assert_eq!(s.reserve_slot(1, 200_000), 200_000);
}

#[test]
fn first_reservation_counts_from_ten_seconds_back() {
    let mut s = SharedData::new(BotSettings::default(), 15_000);
    assert_eq!(s.reserve_slot(1, 100_000), 105_000);
    let mut early = SharedData::new(BotSettings::default(), 15_000);
    assert_eq!(early.reserve_slot(1, 1_000), 6_000);
    let mut late = fresh();
    assert_eq!(late.reserve_slot(1, u64::MAX), u64::MAX);
    assert_eq!(late.reserve_slot(1, u64::MAX), u64::MAX);
}

#[test]
fn polling_time_has_a_floor() {
    let mut s = SharedData::new(BotSettings::default(), 100);
    assert_eq!(s.polling_time_ms, 2500);
    assert!(!s.set_polling_time(2499));
    assert_eq!(s.polling_time_ms, 2500);
    assert!(s.set_polling_time(2500));
    assert!(s.set_polling_time(9000));
    assert_eq!(s.polling_time_ms, 9000);
}

#[test]
fn busy_conversation_defers_a_due_entry() {
    let mut s = fresh();
    s.start_session(5, "/home/u", None);
    let user = s.try_begin(5).unwrap();
    // due while busy: neither run nor discarded, but pending
    assert!(matches!(s.schedule_step(5, "job", "/proj", true, true, false), SchedAction::Skip));
    assert!(s.has_pending(5, "job"));
    assert_eq!(s.current_path(5), Some("/home/u".to_string()));
    // still busy, no longer due: stays pending, nothing happens
    assert!(matches!(s.schedule_step(5, "job", "/proj", true, false, true), SchedAction::Skip));
    assert!(s.has_pending(5, "job"));
    assert_eq!(s.pending_schedules.get(&5).map(|v| v.len()), Some(1));
    assert!(!s.is_cancelled(5, user));
    // the first idle cycle runs it, due or not
    s.release(5);
    let prev = match s.schedule_step(5, "job", "/proj", true, false, false) {
        SchedAction::Execute(prev) => prev,
        _ => panic!("the entry runs once the conversation is idle"),
    };
    assert_eq!(prev.as_ref().and_then(|p| p.current_path.clone()), Some("/home/u".to_string()));
    assert!(s.is_busy(5));
    assert_eq!(s.current_path(5), Some("/proj".to_string()));
    // while it runs, no cycle runs it again, and no request gets in
    assert!(matches!(s.schedule_step(5, "job", "/proj", true, true, false), SchedAction::Skip));
    assert!(s.try_begin(5).is_none());
    // when it ends the session is back and nothing is pending
    s.finish_schedule(5, "job", prev);
    assert!(!s.is_busy(5));
    assert!(!s.has_pending(5, "job"));
    assert_eq!(s.current_path(5), Some("/home/u".to_string()));
    // not due any more: it does not run again
    assert!(matches!(s.schedule_step(5, "job", "/proj", true, false, false), SchedAction::Skip));
}

#[test]
fn idle_conversation_runs_a_due_entry_at_once() {
    let mut s = fresh();
    assert!(matches!(s.schedule_step(9, "a", "/p", true, false, false), SchedAction::Skip));
    assert!(matches!(s.schedule_step(9, "a", "/p", true, false, true), SchedAction::DiscardExpired));
    assert!(!s.has_pending(9, "a"));
    let prev = match s.schedule_step(9, "a", "/p", true, true, true) {
        SchedAction::Execute(prev) => prev,
        _ => panic!("a due entry runs"),
    };
    assert!(prev.is_none());
    assert!(s.has_pending(9, "a"));
    // another entry of the conversation waits meanwhile
    assert!(matches!(s.schedule_step(9, "b", "/q", true, true, false), SchedAction::Skip));
    assert!(s.has_pending(9, "b"));
    s.finish_schedule(9, "a", None);
    assert!(s.current_path(9).is_none());
    assert!(!s.has_pending(9, "a"));
    assert!(s.has_pending(9, "b"));
    assert!(matches!(s.schedule_step(9, "b", "/q", true, false, false), SchedAction::Execute(None)));
}

#[test]
fn stopping_marks_the_token() {
    let mut s = fresh();
    assert_eq!(s.stop_decision(1), StopDecision::NoRequest);
    let id = s.try_begin(1).unwrap();
    assert_eq!(s.stop_decision(1), StopDecision::Proceed);
    assert!(!s.is_cancelled(1, id));
    s.set_child_pid(1, id, 4321);
    s.set_child_pid(1, id + 1, 9999);
    assert_eq!(s.mark_stopped(1, 77), Some(4321));
    assert!(s.is_cancelled(1, id));
    assert_eq!(s.stop_decision(1), StopDecision::AlreadyStopping);
    assert_eq!(s.take_stop_message(1), Some(77));
    assert_eq!(s.take_stop_message(1), None);
    s.release(1);
    assert!(s.is_cancelled(1, id));
    let next = s.try_begin(1).unwrap();
    assert!(s.is_cancelled(1, id));
    assert!(!s.is_cancelled(1, next));
}

#[test]
fn requests_read_and_write_the_session() {
    let mut s = fresh();
    let none = s.prepare_request(3);
    assert!(none.session.is_none());
    assert!(none.uploads.is_empty());
    assert_eq!(none.allowed_tools.len(), 17);
    assert!(none.model.is_none());

    let stored = SessionData {
        session_id: "sid-1".to_string(),
        history: vec![HistoryItem { item_type: HistoryType::User, content: "hi".to_string() }],
        current_path: "/w".to_string(),
        created_at: "t".to_string(),
    };
    s.start_session(3, "/w", Some(&stored));
    assert_eq!(s.settings.last_sessions.get(&3), Some(&"/w".to_string()));
    assert!(s.record_upload(3, "[File uploaded] a").is_some());
    let ctx = s.prepare_request(3);
    assert_eq!(ctx.session, Some((Some("sid-1".to_string()), "/w".to_string())));
    assert_eq!(ctx.uploads, vec!["[File uploaded] a".to_string()]);
    assert!(s.prepare_request(3).uploads.is_empty());

    let saved = s.record_exchange(3, Some("sid-2".to_string()), "question", "answer").unwrap();
    assert_eq!(saved.session_id, Some("sid-2".to_string()));
    assert_eq!(saved.history.len(), 4);
    assert_eq!(saved.history[2].content, "question");
    assert_eq!(saved.history[3].item_type, HistoryType::Assistant);
    let kept = s.record_exchange(3, None, "q2", "a2").unwrap();
    assert_eq!(kept.session_id, Some("sid-2".to_string()));
    assert!(s.record_exchange(4, None, "q", "a").is_none());
    assert!(s.record_upload(4, "x").is_none());
}

#[test]
fn clearing_resets_and_frees_the_conversation() {
    let mut s = fresh();
    s.start_session(3, "/w", None);
    let id = s.try_begin(3).unwrap();
    s.set_child_pid(3, id, 55);
    s.mark_stopped(3, 1);
    s.record_upload(3, "up");
    let (pid, path) = s.clear_conversation(3);
    assert_eq!(pid, Some(55));
    assert_eq!(path, Some("/w".to_string()));
    assert!(!s.is_busy(3));
    assert_eq!(s.take_stop_message(3), None);
    // an exchange that ends after the reset leaves no trace
    assert!(s.record_exchange(3, Some("late".to_string()), "q", "a").is_none());
    let session: &ChatSession = s.sessions.get(&3).unwrap();
    assert!(session.history.is_empty());
    assert!(session.session_id.is_none());
    assert!(session.cleared);
    // the next request lifts the mark
    s.prepare_request(3);
    assert!(s.record_exchange(3, None, "q", "a").is_some());
    assert_eq!(s.clear_conversation(99), (None, None));
}

#[test]
fn sessions_come_back_after_a_restart() {
    let mut settings = BotSettings::default();
    settings.last_sessions.insert(3, "/w".to_string());
    let mut s = SharedData::new(settings, 3000);
    assert_eq!(s.restore_path(3), Some("/w".to_string()));
    assert_eq!(s.restore_path(4), None);
    s.restore_session(3, "/w", None);
    assert_eq!(s.current_path(3), Some("/w".to_string()));
    assert_eq!(s.restore_path(3), None);
    s.restore_session(3, "/other", None);
    assert_eq!(s.current_path(3), Some("/w".to_string()));
}

#[test]
fn entry_without_its_directory_is_left_alone() {
    let mut s = fresh();
    s.start_session(5, "/home/u", None);
    assert!(matches!(s.schedule_step(5, "job", "/gone", false, true, false), SchedAction::PathMissing));
    assert!(matches!(s.schedule_step(5, "job", "/gone", false, true, true), SchedAction::PathMissing));
    assert!(matches!(s.schedule_step(5, "job", "/gone", false, false, true), SchedAction::PathMissing));
    assert!(!s.is_busy(5));
    assert!(!s.has_pending(5, "job"));
    assert_eq!(s.current_path(5).as_deref(), Some("/home/u"));
    assert_eq!(s.next_token, 0);
    // once the directory is back the entry runs
    assert!(matches!(s.schedule_step(5, "job", "/gone", true, true, false), SchedAction::Execute(Some(_))));
    assert!(s.is_busy(5));
}

#[test]
fn token_identifiers_do_not_repeat() {
    let mut s = fresh();
    assert_eq!(s.try_begin(1), Some(0));
    assert_eq!(s.ensure_token(1), 0);
    assert_eq!(s.next_token, 1);
    assert_eq!(s.ensure_token(2), 1);
    assert_eq!(s.next_token, 2);
    assert!(matches!(s.schedule_step(3, "job", "/p", true, true, false), SchedAction::Execute(None)));
    assert_eq!(s.cancel_tokens.get(&3).map(|t| t.id), Some(2));
    assert_eq!(s.next_token, 3);
    s.release(1);
    assert_eq!(s.try_begin(1), Some(3));
    s.next_token = u64::MAX;
    assert_eq!(s.ensure_token(9), u64::MAX);
    assert_eq!(s.next_token, 0);
}

#[test]
fn refused_request_changes_nothing() {
    let mut s = fresh();
    assert!(matches!(s.begin_request(4), RequestStart::NoSession));
    assert!(!s.is_busy(4));
    s.start_session(4, "/home/u", None);
    s.record_upload(4, "[File uploaded] a.txt");
    let (token, ctx) = match s.begin_request(4) {
        RequestStart::Begun(token, ctx) => (token, ctx),
        _ => panic!("an idle conversation with a directory begins its request"),
    };
    assert_eq!(token, 0);
    assert_eq!(ctx.uploads, vec!["[File uploaded] a.txt".to_string()]);
    assert_eq!(ctx.session, Some((None, "/home/u".to_string())));
    assert!(s.is_busy(4));
    s.record_upload(4, "[File uploaded] b.txt");
    assert!(matches!(s.begin_request(4), RequestStart::Busy));
    assert_eq!(s.sessions.get(&4).unwrap().pending_uploads, vec!["[File uploaded] b.txt".to_string()]);
    assert_eq!(s.next_token, 1);
    s.release(4);
    match s.begin_request(4) {
        RequestStart::Begun(token, ctx) => {
            assert_eq!(token, 1);
            assert_eq!(ctx.uploads, vec!["[File uploaded] b.txt".to_string()]);
        }
        _ => panic!("the conversation is idle again"),
    }
}

#[test]
fn scheduled_run_leaves_its_session() {
    assert!(session_of_run("/w", None, "do it", "done").is_none());
    let s = session_of_run("/w", Some("sid"), "do it", "done").unwrap();
    assert_eq!(s.session_id.as_deref(), Some("sid"));
    assert_eq!(s.current_path.as_deref(), Some("/w"));
    assert_eq!(s.history.len(), 2);
    assert_eq!(s.history[0].item_type, HistoryType::User);
    assert_eq!(s.history[0].content, "do it");
    assert_eq!(s.history[1].item_type, HistoryType::Assistant);
    assert_eq!(s.history[1].content, "done");
    assert!(s.pending_uploads.is_empty());
    assert!(!s.cleared);
    let silent = session_of_run("/w", Some("sid"), "do it", "").unwrap();
    assert_eq!(silent.history.len(), 1);
    assert_eq!(silent.history[0].content, "do it");
}
