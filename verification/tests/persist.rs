use cokacdir::persist::{
    load_bot_settings, resolve_current_path_for_chat, resolve_token_by_hash, settings_of_entry,
};

const FILE: &str = r#"{
  "aaaa": {
    "token": "123:abc",
    "owner_user_id": 42,
    "debug": true,
    "last_sessions": {"7": "/home/u", "-100": "/srv", "name": "/x", "8": 9},
    "allowed_tools": {"7": ["Read", 3, "Bash"], "x": ["Read"], "9": "Read", "-100": []},
    "as_public_for_group_chat": {"-100": true, "7": "yes", "5": false},
    "models": {"7": "opus"}
  },
  "bbbb": {
    "token": "456:def",
    "last_sessions": {"1": "/a", "2": "/b", "3": 4},
    "allowed_tools": ["Read", null, "Grep"]
  },
  "cccc": {"allowed_tools": [], "last_sessions": {"1": "/a"}},
  "dddd": "broken"
}"#;

#[test]
fn settings_are_read_by_the_key_of_the_bot() {
    let s = load_bot_settings(FILE, "aaaa");
    assert_eq!(s.owner_user_id, Some(42));
    assert!(s.debug);
    assert_eq!(s.last_sessions.len(), 2);
    assert_eq!(s.last_sessions.get(&7), Some(&"/home/u".to_string()));
    assert_eq!(s.last_sessions.get(&-100), Some(&"/srv".to_string()));
    assert_eq!(s.allowed_tools.len(), 2);
    assert_eq!(s.allowed_tools.get(&7), Some(&vec!["Read".to_string(), "Bash".to_string()]));
    assert_eq!(s.allowed_tools.get(&-100), Some(&vec![]));
    assert_eq!(s.as_public_for_group_chat.len(), 2);
    assert_eq!(s.as_public_for_group_chat.get(&-100), Some(&true));
    assert_eq!(s.as_public_for_group_chat.get(&5), Some(&false));
    assert_eq!(s.models.get(&7), Some(&"opus".to_string()));
}

#[test]
fn an_old_list_of_tools_counts_for_every_known_conversation() {
    let s = load_bot_settings(FILE, "bbbb");
    assert_eq!(s.owner_user_id, None);
    assert!(!s.debug);
    let list = vec!["Read".to_string(), "Grep".to_string()];
    assert_eq!(s.allowed_tools.len(), 2);
    assert_eq!(s.allowed_tools.get(&1), Some(&list));
    assert_eq!(s.allowed_tools.get(&2), Some(&list));
    let empty = load_bot_settings(FILE, "cccc");
    assert!(empty.allowed_tools.is_empty());
    assert_eq!(empty.last_sessions.len(), 1);
}

#[test]
fn what_cannot_be_read_gives_the_defaults() {
    for (content, key) in [(FILE, "zzzz"), (FILE, "dddd"), ("not json", "aaaa"), ("", "aaaa"), ("[]", "0")] {
        let s = load_bot_settings(content, key);
        assert_eq!(s.owner_user_id, None);
        assert!(!s.debug);
        assert!(s.last_sessions.is_empty());
        assert!(s.allowed_tools.is_empty());
        assert!(s.as_public_for_group_chat.is_empty());
        assert!(s.models.is_empty());
    }
    let odd = settings_of_entry(r#"{"owner_user_id":-1,"debug":"on","models":[1],"last_sessions":null}"#);
    assert_eq!(odd.owner_user_id, None);
    assert!(!odd.debug);
    assert!(odd.models.is_empty());
    assert!(odd.last_sessions.is_empty());
}

#[test]
fn tokens_and_paths_are_found_by_key() {
    assert_eq!(resolve_token_by_hash(FILE, "aaaa"), Some("123:abc".to_string()));
    assert_eq!(resolve_token_by_hash(FILE, "bbbb"), Some("456:def".to_string()));
    assert_eq!(resolve_token_by_hash(FILE, "cccc"), None);
    assert_eq!(resolve_token_by_hash(FILE, "nope"), None);
    assert_eq!(resolve_token_by_hash("{", "aaaa"), None);
    assert_eq!(resolve_current_path_for_chat(FILE, 7, "aaaa"), Some("/home/u".to_string()));
    assert_eq!(resolve_current_path_for_chat(FILE, -100, "aaaa"), Some("/srv".to_string()));
    assert_eq!(resolve_current_path_for_chat(FILE, 8, "aaaa"), None);
    assert_eq!(resolve_current_path_for_chat(FILE, 1, "aaaa"), None);
    assert_eq!(resolve_current_path_for_chat(FILE, 7, "zzzz"), None);
}
