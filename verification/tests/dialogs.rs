use cokacdir::dialogs::{
    advance_to_next_conflict, apply_completion, find_common_prefix, matches_subsequence,
    expand_path_string, get_path_suggestions, parse_path_for_completion, resolve_current_conflict,
    trigger_path_completion, update_path_suggestions, ConflictResolution,
    ConflictState, Dialog, DialogType, PathCompletion,
};

#[test]
fn test_common_prefix_single() {
    let suggestions = vec!["apple".to_string()];
    let common = find_common_prefix(&suggestions);
    assert_eq!(common, "apple");
}

#[test]
fn test_common_prefix_multiple() {
    let suggestions = vec![
        "application".to_string(),
        "apple".to_string(),
        "apartment".to_string(),
    ];
    let common = find_common_prefix(&suggestions);
    assert_eq!(common, "ap");
}

#[test]
fn test_common_prefix_same() {
    let suggestions = vec![
        "test".to_string(),
        "test".to_string(),
    ];
    let common = find_common_prefix(&suggestions);
    assert_eq!(common, "test");
}

#[test]
fn test_common_prefix_empty() {
    let suggestions: Vec<String> = vec![];
    let common = find_common_prefix(&suggestions);
    assert_eq!(common, "");
}

#[test]
fn test_common_prefix_no_common() {
    let suggestions = vec![
        "apple".to_string(),
        "banana".to_string(),
    ];
    let common = find_common_prefix(&suggestions);
    assert_eq!(common, "");
}

#[test]
fn test_common_prefix_strips_trailing_slash() {
    let suggestions = vec![
        "dir/".to_string(),
        "dir2/".to_string(),
    ];
    let common = find_common_prefix(&suggestions);
    assert_eq!(common, "dir");
}

#[test]
fn common_prefix_ignores_case_and_keeps_the_first_spelling() {
    let suggestions = vec!["README.md".to_string(), "readme.txt".to_string()];
    assert_eq!(find_common_prefix(&suggestions), "README.");
    let accents = vec!["Éa".to_string(), "éb".to_string()];
    // one character in common, two bytes long: two characters are taken
    assert_eq!(find_common_prefix(&accents), "Éa");
    let slashes = vec!["a//".to_string(), "a//b".to_string()];
    assert_eq!(find_common_prefix(&slashes), "a");
}

#[test]
fn subsequences_keep_the_order() {
    assert!(matches_subsequence("library", "lbr"));
    assert!(matches_subsequence("library", ""));
    assert!(matches_subsequence("library", "library"));
    assert!(!matches_subsequence("library", "bil"));
    assert!(!matches_subsequence("library", "librarys"));
    assert!(!matches_subsequence("", "a"));
    assert!(matches_subsequence("", ""));
    assert!(!matches_subsequence("abc", "aa"));
    assert!(matches_subsequence("abca", "aa"));
}

#[test]
fn test_path_completion_default() {
    let completion = PathCompletion::default();
    assert!(completion.suggestions.is_empty());
    assert_eq!(completion.selected_index, 0);
    assert!(!completion.visible);
}

#[test]
fn test_dialog_creation() {
    let dialog = Dialog {
        dialog_type: DialogType::Copy,
        input: "/home/user/".to_string(),
        cursor_pos: 11,
        message: "Copy files".to_string(),
        completion: Some(PathCompletion::default()),
        selected_button: 0,
    };

    assert_eq!(dialog.dialog_type, DialogType::Copy);
    assert_eq!(dialog.input, "/home/user/");
    assert!(dialog.completion.is_some());
}

fn goto(input: &str) -> Dialog {
    Dialog {
        dialog_type: DialogType::Goto,
        input: input.to_string(),
        cursor_pos: input.chars().count(),
        message: String::new(),
        completion: Some(PathCompletion::default()),
        selected_button: 0,
    }
}

fn names(list: &[&str]) -> Vec<String> {
    list.iter().map(|s| s.to_string()).collect()
}

#[test]
fn matching_paths_are_offered_from_the_first() {
    let mut d = goto("/tmp/");
    update_path_suggestions(&mut d, names(&["a/", "b.txt"]));
    let c = d.completion.as_ref().unwrap();
    assert_eq!(c.suggestions, names(&["a/", "b.txt"]));
    assert_eq!(c.selected_index, 0);
    assert!(c.visible);
    d.completion.as_mut().unwrap().selected_index = 1;
    update_path_suggestions(&mut d, Vec::new());
    let c = d.completion.as_ref().unwrap();
    assert!(c.suggestions.is_empty());
    assert!(!c.visible);
    assert_eq!(c.selected_index, 1);
    let mut plain = goto("/tmp/");
    plain.completion = None;
    update_path_suggestions(&mut plain, names(&["a/"]));
    assert!(plain.completion.is_none());
}

#[test]
fn offered_path_becomes_the_input() {
    let mut d = goto("/tmp/do");
    apply_completion(&mut d, "/tmp", "docs/");
    assert_eq!(d.input, "/tmp/docs/");
    assert_eq!(d.cursor_pos, 10);
    apply_completion(&mut d, "/tmp/", "résumé.txt");
    assert_eq!(d.input, "/tmp/résumé.txt");
    assert_eq!(d.cursor_pos, 15);
    apply_completion(&mut d, "/", "etc/");
    assert_eq!(d.input, "/etc/");
    apply_completion(&mut d, "", "etc");
    assert_eq!(d.input, "etc");
    assert_eq!(d.cursor_pos, 3);
}

#[test]
fn completion_key_takes_what_the_matches_share() {
    let mut d = goto("/tmp/do");
    assert!(!trigger_path_completion(&mut d, "/tmp", "do", Vec::new()));
    assert_eq!(d.input, "/tmp/do");
    assert!(!d.completion.as_ref().unwrap().visible);

    assert!(trigger_path_completion(&mut d, "/tmp", "do", names(&["docs/"])));
    assert_eq!(d.input, "/tmp/docs/");
    assert_eq!(d.cursor_pos, 10);

    let mut d = goto("/tmp/do");
    assert!(trigger_path_completion(&mut d, "/tmp", "do", names(&["document.txt", "documents/"])));
    assert_eq!(d.input, "/tmp/document");
    assert_eq!(d.cursor_pos, 7);

    let mut d = goto("/tmp/do");
    assert!(trigger_path_completion(&mut d, "/tmp", "do", names(&["dock", "done"])));
    assert_eq!(d.input, "/tmp/do");

    let mut plain = goto("/tmp/do");
    plain.completion = None;
    assert!(!trigger_path_completion(&mut plain, "/tmp", "do", names(&["docs/"])));
    assert_eq!(plain.input, "/tmp/do");
}

fn conflicts() -> ConflictState {
    ConflictState {
        conflicts: vec![
            ("/a/1".to_string(), "/b/1".to_string(), "1".to_string()),
            ("/a/2".to_string(), "/b/2".to_string(), "2".to_string()),
            ("/a/3".to_string(), "/b/3".to_string(), "3".to_string()),
        ],
        current_index: 0,
        files_to_overwrite: Vec::new(),
        files_to_skip: Vec::new(),
    }
}

#[test]
fn conflicts_are_decided_one_by_one_or_all_at_once() {
    let mut s = conflicts();
    assert!(!resolve_current_conflict(&mut s, ConflictResolution::Overwrite));
    assert!(!resolve_current_conflict(&mut s, ConflictResolution::Skip));
    assert!(resolve_current_conflict(&mut s, ConflictResolution::Overwrite));
    assert_eq!(s.files_to_overwrite, names(&["/a/1", "/a/3"]));
    assert_eq!(s.files_to_skip, names(&["/a/2"]));
    assert_eq!(s.current_index, 3);
    // nothing is left to decide
    assert!(resolve_current_conflict(&mut s, ConflictResolution::Skip));
    assert_eq!(s.files_to_skip, names(&["/a/2"]));
    assert!(resolve_current_conflict(&mut s, ConflictResolution::SkipAll));
    assert_eq!(s.files_to_skip, names(&["/a/2"]));

    let mut s = conflicts();
    assert!(!resolve_current_conflict(&mut s, ConflictResolution::Skip));
    assert!(resolve_current_conflict(&mut s, ConflictResolution::OverwriteAll));
    assert_eq!(s.files_to_overwrite, names(&["/a/2", "/a/3"]));
    assert_eq!(s.files_to_skip, names(&["/a/1"]));
    assert_eq!(s.current_index, 1);

    let mut s = conflicts();
    assert!(resolve_current_conflict(&mut s, ConflictResolution::SkipAll));
    assert_eq!(s.files_to_skip, names(&["/a/1", "/a/2", "/a/3"]));
    assert!(s.files_to_overwrite.is_empty());

    let mut s = conflicts();
    assert!(!advance_to_next_conflict(&mut s));
    assert!(!advance_to_next_conflict(&mut s));
    assert!(advance_to_next_conflict(&mut s));
}

fn listing(list: &[(&str, bool)]) -> Vec<(String, bool)> {
    list.iter().map(|(n, d)| (n.to_string(), *d)).collect()
}

#[test]
fn directories_are_offered_first_and_each_kind_by_name() {
    let entries = listing(&[
        ("beta.txt", false),
        ("Alpha", true),
        ("alpha.txt", false),
        (".", true),
        ("..", true),
        ("docs", true),
        ("Beta", false),
    ]);
    assert_eq!(
        get_path_suggestions(&entries, ""),
        names(&["Alpha/", "docs/", "alpha.txt", "Beta", "beta.txt"])
    );
    assert_eq!(get_path_suggestions(&entries, "bt"), names(&["Beta", "beta.txt"]));
    assert_eq!(get_path_suggestions(&entries, "BT"), names(&["Beta", "beta.txt"]));
    assert_eq!(get_path_suggestions(&entries, "dc"), names(&["docs/"]));
    assert!(get_path_suggestions(&entries, "zz").is_empty());
    assert!(get_path_suggestions(&Vec::new(), "").is_empty());
    // what no rule orders stays as the directory gave it
    let same = listing(&[("a", false), ("A", false), ("b", true), ("B", true)]);
    assert_eq!(get_path_suggestions(&same, ""), names(&["b/", "B/", "a", "A"]));
}

#[test]
fn typed_path_is_read_as_directory_and_name() {
    let parts = |input: &str, home: Option<&str>| {
        let (dir, name) = parse_path_for_completion(input, home);
        (dir, name)
    };
    assert_eq!(parts("/home/user/doc", None), ("/home/user".to_string(), "doc".to_string()));
    assert_eq!(parts("/home/user/", None), ("/home/user/".to_string(), String::new()));
    assert_eq!(parts("/home/.", None), ("/home".to_string(), ".".to_string()));
    assert_eq!(parts("/.", None), ("/".to_string(), ".".to_string()));
    assert_eq!(parts(".", None), (".".to_string(), ".".to_string()));
    assert_eq!(parts("/", None), ("/".to_string(), String::new()));
    assert_eq!(parts("", None), ("/".to_string(), String::new()));
    assert_eq!(parts("foo", None), (String::new(), "foo".to_string()));
    assert_eq!(parts("a/..", None), ("a".to_string(), String::new()));
    assert_eq!(parts("~/pro", Some("/home/u")), ("/home/u".to_string(), "pro".to_string()));
    assert_eq!(parts("~", Some("/home/u")), ("/home".to_string(), "u".to_string()));
    assert_eq!(parts("~/pro", None), ("~".to_string(), "pro".to_string()));
}

#[test]
fn tilde_stands_for_the_home_directory() {
    assert_eq!(expand_path_string("~/x", Some("/h")), "/h/x");
    assert_eq!(expand_path_string("~x", Some("/h")), "/h/x");
    assert_eq!(expand_path_string("~", Some("/h")), "/h");
    assert_eq!(expand_path_string("~/", Some("/h")), "/h");
    assert_eq!(expand_path_string("~//x", Some("/h")), "/x");
    assert_eq!(expand_path_string("~/x", None), "~/x");
    assert_eq!(expand_path_string("/abs", Some("/h")), "/abs");
    assert_eq!(expand_path_string("", Some("/h")), "");
}
