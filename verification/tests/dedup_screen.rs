use cokacdir::dedup_screen::{
    DedupMessage, DedupPhase, DedupScreenState, ScreenKey, MAX_LOG_LINES,
};

#[test]
fn new_screen_awaits_reports() {
    let s = DedupScreenState::new("/data");
    assert_eq!(s.target_path, "/data");
    assert_eq!(s.phase, DedupPhase::Scanning);
    assert!(s.log_lines.is_empty());
    assert_eq!(s.log_scroll, 0);
    assert!(!s.is_complete);
    assert!(s.listening);
    assert!(!s.cancel_requested);
}

#[test]
fn log_follows_its_last_line() {
    let mut s = DedupScreenState::new("/data");
    s.push_log("one".to_string());
    assert_eq!(s.log_scroll, 0);
    s.push_log("two".to_string());
    s.push_log("three".to_string());
    assert_eq!(s.log_lines, vec!["one", "two", "three"]);
    assert_eq!(s.log_scroll, 2);
}

#[test]
fn full_log_gives_up_its_oldest_line() {
    let mut s = DedupScreenState::new("/data");
    for i in 0..MAX_LOG_LINES {
        s.push_log(format!("line {i}"));
    }
    assert_eq!(s.log_lines.len(), MAX_LOG_LINES);
    assert_eq!(s.log_scroll, MAX_LOG_LINES - 1);
    s.push_log("last".to_string());
    assert_eq!(s.log_lines.len(), MAX_LOG_LINES);
    assert_eq!(s.log_lines[0], "line 1");
    assert_eq!(s.log_lines[MAX_LOG_LINES - 1], "last");
    assert_eq!(s.log_scroll, MAX_LOG_LINES - 1);
}

#[test]
fn reports_are_taken_up() {
    let mut s = DedupScreenState::new("/data");
    s.absorb(DedupMessage::Phase(DedupPhase::Hashing));
    assert_eq!(s.phase, DedupPhase::Hashing);
    s.absorb(DedupMessage::Scanning("/data/a".to_string()));
    assert_eq!(s.current_file, "/data/a");
    s.absorb(DedupMessage::Hashing("/data/b".to_string(), 42));
    assert_eq!(s.current_file, "/data/b");
    assert_eq!(s.progress, 42);
    s.absorb(DedupMessage::Deleting("/data/c".to_string()));
    assert_eq!(s.current_file, "/data/c");
    s.absorb(DedupMessage::Stats { scanned: 10, duplicates: 3, freed: 4096 });
    assert_eq!((s.scanned, s.duplicates, s.freed), (10, 3, 4096));
    s.absorb(DedupMessage::Log("removed c".to_string()));
    s.absorb(DedupMessage::Error("no access".to_string()));
    assert_eq!(s.log_lines, vec!["removed c", "[ERROR] no access"]);
    assert_eq!(s.log_scroll, 1);
    assert!(s.listening);
    s.absorb(DedupMessage::Complete);
    assert!(s.is_complete);
    assert!(!s.listening);
}

#[test]
fn keys_scroll_the_log_within_its_lines() {
    let mut s = DedupScreenState::new("/data");
    for i in 0..25 {
        s.push_log(format!("line {i}"));
    }
    assert_eq!(s.log_scroll, 24);
    assert!(!s.handle_input(ScreenKey::Down, false));
    assert_eq!(s.log_scroll, 24);
    s.handle_input(ScreenKey::Up, false);
    assert_eq!(s.log_scroll, 23);
    s.handle_input(ScreenKey::PageUp, false);
    assert_eq!(s.log_scroll, 13);
    s.handle_input(ScreenKey::Up, true);
    assert_eq!(s.log_scroll, 3);
    s.handle_input(ScreenKey::PageUp, false);
    assert_eq!(s.log_scroll, 0);
    s.handle_input(ScreenKey::Up, false);
    assert_eq!(s.log_scroll, 0);
    s.handle_input(ScreenKey::Down, false);
    assert_eq!(s.log_scroll, 1);
    s.handle_input(ScreenKey::PageDown, false);
    assert_eq!(s.log_scroll, 11);
    s.handle_input(ScreenKey::Down, true);
    assert_eq!(s.log_scroll, 21);
    s.handle_input(ScreenKey::PageDown, false);
    assert_eq!(s.log_scroll, 24);
    assert!(!s.handle_input(ScreenKey::Other, false));
    assert_eq!(s.log_scroll, 24);
    let mut empty = DedupScreenState::new("/data");
    empty.handle_input(ScreenKey::PageDown, false);
    empty.handle_input(ScreenKey::Down, false);
    assert_eq!(empty.log_scroll, 0);
}

#[test]
fn escape_ends_the_search_before_it_closes_the_screen() {
    let mut s = DedupScreenState::new("/data");
    assert!(!s.handle_input(ScreenKey::Esc, false));
    assert!(s.cancel_requested);
    s.absorb(DedupMessage::Complete);
    assert!(s.handle_input(ScreenKey::Esc, false));
    let mut lost = DedupScreenState::new("/data");
    lost.listening = false;
    assert!(lost.handle_input(ScreenKey::Esc, false));
    assert!(lost.cancel_requested);
}
