//! The logic behind the dialogs of the file manager: completing a path that
//! is typed from the entries of a directory, and deciding what becomes of
//! the files that are in the way of a copy or a move.

use crate::format::byte_len;
use crate::paths::{join_path, joined, unslashed, unslashed_len};
use crate::schedule::{is_text_less, lemma_text_order, text_less};
use crate::settings::{lowercase, to_lowercase};
use crate::text::{
    chars_of, ends_with, has_suffix, is_text, same, string_of, string_views, subvec,
};
use crate::session::text_of;
use vstd::prelude::*;
use vstd::string::StringExecFns;
use vstd::utf8::encode_utf8;

verus! {
/// Whether the characters of `pattern` occur in `text` in their order, not
/// necessarily side by side.
pub open spec fn subsequence(text: Seq<char>, pattern: Seq<char>) -> bool
    decreases text.len(),
{
    if pattern.len() == 0 {
        true
    } else if text.len() == 0 {
        false
    } else if text[0] == pattern[0] {
        subsequence(text.drop_first(), pattern.drop_first())
    } else {
        subsequence(text.drop_first(), pattern)
    }
}

/// Whether the characters of `pattern` occur in `text` in their order.
pub fn matches_subsequence(text: &str, pattern: &str) -> (r: bool)
    ensures
        r == subsequence(text@, pattern@),
{
    let t = chars_of(text);
    let p = chars_of(pattern);
    let mut i: usize = 0;
    let mut j: usize = 0;
    proof {
        assert(t@.skip(0) =~= t@);
        assert(p@.skip(0) =~= p@);
    }
    while i < t.len() && j < p.len()
        invariant
            i <= t@.len(),
            j <= p@.len(),
            t@ == text@,
            p@ == pattern@,
            subsequence(t@, p@) == subsequence(t@.skip(i as int), p@.skip(j as int)),
        decreases t@.len() - i,
    {
        proof {
            assert(t@.skip(i as int).drop_first() =~= t@.skip(i + 1));
            assert(p@.skip(j as int).drop_first() =~= p@.skip(j + 1));
        }
        if t[i] == p[j] {
            j += 1;
        }
        i += 1;
    }
    j >= p.len()
}

/// The lowercase form of a character, which can be more than one
/// character.
pub uninterp spec fn char_lowercase(c: char) -> Seq<char>;

/// `char::to_lowercase`, collected.
#[verifier::external_body]
fn to_lowercase_char(c: char) -> (r: Vec<char>)
    ensures
        r@ == char_lowercase(c),
{
    c.to_lowercase().collect()
}

/// How many bytes a character takes in UTF-8.
pub open spec fn utf8_width(c: char) -> nat {
    let u = c as u32;
    if u < 0x80 {
        1
    } else if u < 0x800 {
        2
    } else if u < 0x10000 {
        3
    } else {
        4
    }
}

/// How many bytes of `first` stand before the first place at which `first`
/// and `other` differ by more than case, or at which one of them ends.
pub open spec fn common_bytes(first: Seq<char>, other: Seq<char>) -> nat
    decreases first.len(),
{
    if first.len() == 0 || other.len() == 0 || char_lowercase(first[0]) != char_lowercase(
        other[0],
    ) {
        0
    } else {
        utf8_width(first[0]) + common_bytes(first.drop_first(), other.drop_first())
    }
}

/// The least of `start` and of what `first` has in common with each of
/// `others`.
pub open spec fn least_common(first: Seq<char>, others: Seq<Seq<char>>, start: nat) -> nat
    decreases others.len(),
{
    if others.len() == 0 {
        start
    } else {
        let before = least_common(first, others.drop_last(), start);
        let here = common_bytes(first, others.last());
        if here < before {
            here
        } else {
            before
        }
    }
}

/// What a list of names has in common at its start, case not counted, as
/// the first of them writes it, without slashes at its end. The length in
/// common is counted in bytes and taken in characters.
pub open spec fn common_prefix(names: Seq<Seq<char>>) -> Seq<char> {
    if names.len() == 0 {
        Seq::<char>::empty()
    } else {
        let first = names[0];
        let n = least_common(first, names.skip(1), encode_utf8(first).len());
        unslashed(
            first.take(
                if n < first.len() {
                    n as int
                } else {
                    first.len() as int
                },
            ),
        )
    }
}

proof fn lemma_common_bytes_bound(first: Seq<char>, other: Seq<char>)
    ensures
        common_bytes(first, other) <= 4 * first.len(),
    decreases first.len(),
{
    if !(first.len() == 0 || other.len() == 0 || char_lowercase(first[0]) != char_lowercase(
        other[0],
    )) {
        lemma_common_bytes_bound(first.drop_first(), other.drop_first());
    }
}

fn common_with(first: &[char], other: &[char]) -> (n: u128)
    ensures
        n == common_bytes(first@, other@),
{
    let mut n: u128 = 0;
    let mut i: usize = 0;
    let _len = first.len();
    proof {
        assert(first@.skip(0) =~= first@);
        assert(other@.skip(0) =~= other@);
    }
    while i < first.len() && i < other.len()
        invariant
            i <= first@.len(),
            i <= other@.len(),
            first@.len() <= usize::MAX,
            n <= 4 * i,
            common_bytes(first@, other@) == n + common_bytes(
                first@.skip(i as int),
                other@.skip(i as int),
            ),
        decreases first@.len() - i,
    {
        proof {
            assert(first@.skip(i as int).drop_first() =~= first@.skip(i + 1));
            assert(other@.skip(i as int).drop_first() =~= other@.skip(i + 1));
        }
        let a = to_lowercase_char(first[i]);
        let b = to_lowercase_char(other[i]);
        if !same(a.as_slice(), b.as_slice()) {
            return n;
        }
        let u = first[i] as u32;
        let w: u128 = if u < 0x80 {
            1
        } else if u < 0x800 {
            2
        } else if u < 0x10000 {
            3
        } else {
            4
        };
        n += w;
        i += 1;
    }
    n
}

/// Finds what a list of names has in common at its start.
pub fn find_common_prefix(suggestions: &Vec<String>) -> (r: String)
    ensures
        r@ == common_prefix(string_views(suggestions@)),
{
    let ghost names = string_views(suggestions@);
    if suggestions.len() == 0 {
        return String::new();
    }
    let first = chars_of(suggestions[0].as_str());
    let mut common_len: u128 = byte_len(suggestions[0].as_str()) as u128;
    let ghost others = names.skip(1);
    let mut i: usize = 1;
    while i < suggestions.len()
        invariant
            1 <= i <= suggestions@.len(),
            names == string_views(suggestions@),
            others == names.skip(1),
            first@ == names[0],
            common_len == least_common(
                first@,
                others.take(i - 1),
                encode_utf8(first@).len(),
            ),
        decreases suggestions@.len() - i,
    {
        let other = chars_of(suggestions[i].as_str());
        proof {
            assert(others.take(i as int).drop_last() =~= others.take(i - 1));
        }
        let len = common_with(first.as_slice(), other.as_slice());
        if len < common_len {
            common_len = len;
        }
        i += 1;
    }
    proof {
        assert(others.take(suggestions@.len() - 1) =~= others);
    }
    let take: usize = if common_len < first.len() as u128 {
        common_len as usize
    } else {
        first.len()
    };
    let head = subvec(first.as_slice(), 0, take);
    let mut end: usize = head.len();
    proof {
        assert(head@.take(head@.len() as int) =~= head@);
    }
    while end > 0 && head[end - 1] == '/'
        invariant
            end <= head@.len(),
            unslashed_len(head@) == unslashed_len(head@.take(end as int)),
        decreases end,
    {
        proof {
            assert(head@.take(end as int).drop_last() =~= head@.take(end - 1));
        }
        end -= 1;
    }
    let r = subvec(head.as_slice(), 0, end);
    string_of(r.as_slice())
}

/// The kinds of dialog.
#[derive(Clone, Copy, Debug, PartialEq, Eq, Structural)]
pub enum DialogType {
    Copy,
    Move,
    Delete,
    Mkdir,
    Rename,
    Search,
    Goto,
    Tar,
    TarExcludeConfirm,
    CopyExcludeConfirm,
    LargeImageConfirm,
    TrueColorWarning,
    Progress,
    DuplicateConflict,
    Settings,
}

/// The list of paths offered for the path that is typed.
#[derive(Debug)]
pub struct PathCompletion {
    pub suggestions: Vec<String>,
    pub selected_index: usize,
    pub visible: bool,
}

/// A list of offered paths, as plain values.
pub struct CompletionView {
    pub suggestions: Seq<Seq<char>>,
    pub selected_index: usize,
    pub visible: bool,
}

impl View for PathCompletion {
    type V = CompletionView;

    open spec fn view(&self) -> CompletionView {
        CompletionView {
            suggestions: string_views(self.suggestions@),
            selected_index: self.selected_index,
            visible: self.visible,
        }
    }
}

impl Default for PathCompletion {
    /// Nothing is offered, and the list is not shown.
    fn default() -> (c: Self)
        ensures
            c@ == (CompletionView {
                suggestions: Seq::empty(),
                selected_index: 0,
                visible: false,
            }),
    {
        let c = PathCompletion { suggestions: Vec::new(), selected_index: 0, visible: false };
        proof {
            assert(string_views(c.suggestions@) =~= Seq::<Seq<char>>::empty());
        }
        c
    }
}

/// A dialog with a line of input.
#[derive(Debug)]
pub struct Dialog {
    pub dialog_type: DialogType,
    pub input: String,
    /// The cursor's place in the input, in characters.
    pub cursor_pos: usize,
    pub message: String,
    /// The list of offered paths, in a dialog that completes paths.
    pub completion: Option<PathCompletion>,
    pub selected_button: usize,
}

/// A dialog, its texts as characters.
pub struct DialogView {
    pub dialog_type: DialogType,
    pub input: Seq<char>,
    pub cursor_pos: usize,
    pub message: Seq<char>,
    pub completion: Option<CompletionView>,
    pub selected_button: usize,
}

impl View for Dialog {
    type V = DialogView;

    open spec fn view(&self) -> DialogView {
        DialogView {
            dialog_type: self.dialog_type,
            input: self.input@,
            cursor_pos: self.cursor_pos,
            message: self.message@,
            completion: match self.completion {
                Some(c) => Some(c@),
                None => None,
            },
            selected_button: self.selected_button,
        }
    }
}

/// A dialog after the paths that match its input were looked up: they are
/// offered from the first, or the list is emptied and hidden where there
/// are none. A dialog that completes no paths stays as it is.
pub open spec fn offered(d: DialogView, suggestions: Seq<Seq<char>>) -> DialogView {
    match d.completion {
        Some(c) => DialogView {
            completion: Some(
                if suggestions.len() == 0 {
                    CompletionView { suggestions: Seq::empty(), visible: false, ..c }
                } else {
                    CompletionView { suggestions, selected_index: 0, visible: true }
                },
            ),
            ..d
        },
        None => d,
    }
}

/// The input that stands for an offered path under `base_dir`: the path
/// without the slashes at its end, under the directory, and one slash at
/// the end where the offered path is a directory.
pub open spec fn completed_input(base_dir: Seq<char>, suggestion: Seq<char>) -> Seq<char> {
    let path = joined(base_dir, unslashed(suggestion));
    if has_suffix(suggestion, seq!['/']) && !has_suffix(path, seq!['/']) {
        path.push('/')
    } else {
        path
    }
}

/// A dialog after an offered path was taken: the input stands for the path,
/// and the cursor is at its end. The length of the input fits the cursor.
pub open spec fn completed(d: DialogView, base_dir: Seq<char>, suggestion: Seq<char>) -> DialogView {
    DialogView {
        input: completed_input(base_dir, suggestion),
        cursor_pos: completed_input(base_dir, suggestion).len() as usize,
        ..d
    }
}

/// A dialog after the key that completes its input, and whether the paths
/// that match the new input are to be looked up. `base_dir` and `prefix` are
/// the directory and the beginning of a name that the input stands for,
/// `suggestions` the paths that match them. Where nothing matches, the list
/// is emptied and hidden; a single match is taken; of several, what they
/// have in common is taken where it is longer than what was typed.
pub open spec fn triggered(
    d: DialogView,
    base_dir: Seq<char>,
    prefix: Seq<char>,
    suggestions: Seq<Seq<char>>,
) -> (DialogView, bool) {
    if d.completion is None {
        (d, false)
    } else if suggestions.len() == 0 {
        (offered(d, suggestions), false)
    } else if suggestions.len() == 1 {
        (completed(d, base_dir, suggestions[0]), true)
    } else if encode_utf8(common_prefix(suggestions)).len() > encode_utf8(prefix).len() {
        (DialogView { input: joined(base_dir, common_prefix(suggestions)), ..d }, true)
    } else {
        (d, true)
    }
}

/// Offers the paths that match the dialog's input.
pub fn update_path_suggestions(dialog: &mut Dialog, suggestions: Vec<String>)
    ensures
        final(dialog)@ == offered(old(dialog)@, string_views(suggestions@)),
{
    match dialog.completion.take() {
        Some(mut completion) => {
            if suggestions.len() == 0 {
                completion.suggestions = Vec::new();
                completion.visible = false;
                proof {
                    assert(string_views(completion.suggestions@) =~= Seq::<Seq<char>>::empty());
                }
            } else {
                completion.suggestions = suggestions;
                completion.selected_index = 0;
                completion.visible = true;
            }
            dialog.completion = Some(completion);
        },
        None => {},
    }
}

/// Takes an offered path into the dialog's input.
pub fn apply_completion(dialog: &mut Dialog, base_dir: &str, suggestion: &str)
    ensures
        final(dialog)@ == completed(old(dialog)@, base_dir@, suggestion@),
{
    let sug = chars_of(suggestion);
    let mut end: usize = sug.len();
    proof {
        assert(sug@.take(sug@.len() as int) =~= sug@);
    }
    while end > 0 && sug[end - 1] == '/'
        invariant
            end <= sug@.len(),
            unslashed_len(sug@) == unslashed_len(sug@.take(end as int)),
        decreases end,
    {
        proof {
            assert(sug@.take(end as int).drop_last() =~= sug@.take(end - 1));
        }
        end -= 1;
    }
    let name = subvec(sug.as_slice(), 0, end);
    let name_text = string_of(name.as_slice());
    let path = join_path(base_dir, name_text.as_str());
    let mut chars = chars_of(path.as_str());
    if ends_with(sug.as_slice(), "/") && !ends_with(chars.as_slice(), "/") {
        chars.push('/');
    }
    proof {
        reveal_strlit("/");
        assert("/"@ =~= seq!['/']);
    }
    dialog.input = string_of(chars.as_slice());
    dialog.cursor_pos = chars.len();
}

/// Completes the dialog's input from the paths that match it; returns
/// whether the paths that match the new input are to be looked up.
pub fn trigger_path_completion(
    dialog: &mut Dialog,
    base_dir: &str,
    prefix: &str,
    suggestions: Vec<String>,
) -> (refresh: bool)
    ensures
        (final(dialog)@, refresh) == triggered(
            old(dialog)@,
            base_dir@,
            prefix@,
            string_views(suggestions@),
        ),
{
    if dialog.completion.is_none() {
        return false;
    }
    if suggestions.len() == 0 {
        update_path_suggestions(dialog, suggestions);
        return false;
    }
    if suggestions.len() == 1 {
        apply_completion(dialog, base_dir, suggestions[0].as_str());
        return true;
    }
    let common = find_common_prefix(&suggestions);
    if byte_len(common.as_str()) > byte_len(prefix) {
        dialog.input = join_path(base_dir, common.as_str());
    }
    true
}

/// What is done about a file that is in the way of a copy or a move.
#[derive(Clone, Copy, Debug, PartialEq, Eq, Structural)]
pub enum ConflictResolution {
    Overwrite,
    Skip,
    OverwriteAll,
    SkipAll,
}

/// The files in the way of a copy or a move, and what was decided of those
/// asked about so far.
#[derive(Debug)]
pub struct ConflictState {
    /// Source, destination and name of each file in the way.
    pub conflicts: Vec<(String, String, String)>,
    /// The file that is asked about.
    pub current_index: usize,
    pub files_to_overwrite: Vec<String>,
    pub files_to_skip: Vec<String>,
}

/// The sources of the files in the way.
pub open spec fn sources(conflicts: Seq<(String, String, String)>) -> Seq<Seq<char>> {
    conflicts.map_values(|c: (String, String, String)| c.0@)
}

/// The files in the way and the decisions, as plain values.
pub struct ConflictView {
    pub sources: Seq<Seq<char>>,
    pub current_index: usize,
    pub files_to_overwrite: Seq<Seq<char>>,
    pub files_to_skip: Seq<Seq<char>>,
}

impl View for ConflictState {
    type V = ConflictView;

    open spec fn view(&self) -> ConflictView {
        ConflictView {
            sources: sources(self.conflicts@),
            current_index: self.current_index,
            files_to_overwrite: string_views(self.files_to_overwrite@),
            files_to_skip: string_views(self.files_to_skip@),
        }
    }
}

/// The index after `i`; the largest number stays.
pub open spec fn index_after(i: usize) -> usize {
    if i < usize::MAX {
        (i + 1) as usize
    } else {
        i
    }
}

/// The sources from the file asked about on: those still undecided.
pub open spec fn undecided(s: ConflictView) -> Seq<Seq<char>> {
    if s.current_index <= s.sources.len() {
        s.sources.skip(s.current_index as int)
    } else {
        Seq::empty()
    }
}

/// `list` with the file asked about, where there is one.
pub open spec fn with_current(list: Seq<Seq<char>>, s: ConflictView) -> Seq<Seq<char>> {
    if s.current_index < s.sources.len() {
        list.push(s.sources[s.current_index as int])
    } else {
        list
    }
}

/// The state after a decision, and whether every file is decided. A
/// decision for one file notes it and goes on to the next; a decision for
/// all notes every file still undecided.
pub open spec fn resolved(s: ConflictView, r: ConflictResolution) -> (ConflictView, bool) {
    match r {
        ConflictResolution::Overwrite => (
            ConflictView {
                files_to_overwrite: with_current(s.files_to_overwrite, s),
                current_index: index_after(s.current_index),
                ..s
            },
            index_after(s.current_index) >= s.sources.len(),
        ),
        ConflictResolution::Skip => (
            ConflictView {
                files_to_skip: with_current(s.files_to_skip, s),
                current_index: index_after(s.current_index),
                ..s
            },
            index_after(s.current_index) >= s.sources.len(),
        ),
        ConflictResolution::OverwriteAll => (
            ConflictView { files_to_overwrite: s.files_to_overwrite + undecided(s), ..s },
            true,
        ),
        ConflictResolution::SkipAll => (
            ConflictView { files_to_skip: s.files_to_skip + undecided(s), ..s },
            true,
        ),
    }
}

/// Goes on to the next file in the way; returns whether there is none left.
pub fn advance_to_next_conflict(state: &mut ConflictState) -> (finished: bool)
    ensures
        final(state)@ == (ConflictView {
            current_index: index_after(old(state).current_index),
            ..old(state)@
        }),
        finished == (index_after(old(state).current_index) >= old(state).conflicts@.len()),
{
    if state.current_index < usize::MAX {
        state.current_index += 1;
    }
    state.current_index >= state.conflicts.len()
}

/// The sources from index `from` on.
pub open spec fn sources_from(conflicts: Seq<(String, String, String)>, from: usize) -> Seq<
    Seq<char>,
> {
    if from <= conflicts.len() {
        sources(conflicts).skip(from as int)
    } else {
        Seq::empty()
    }
}

fn push_current(list: &mut Vec<String>, conflicts: &Vec<(String, String, String)>, at: usize)
    ensures
        string_views(final(list)@) == if at < conflicts@.len() {
            string_views(old(list)@).push(sources(conflicts@)[at as int])
        } else {
            string_views(old(list)@)
        },
{
    let ghost before = string_views(list@);
    if at < conflicts.len() {
        list.push(conflicts[at].0.clone());
        proof {
            assert(string_views(list@) =~= before.push(sources(conflicts@)[at as int]));
        }
    }
}

fn push_undecided(list: &mut Vec<String>, conflicts: &Vec<(String, String, String)>, from: usize)
    ensures
        string_views(final(list)@) == string_views(old(list)@) + sources_from(conflicts@, from),
{
    let ghost before = string_views(list@);
    let mut i: usize = from;
    proof {
        assert(before + Seq::<Seq<char>>::empty() =~= before);
        if from <= conflicts@.len() {
            assert(sources(conflicts@).subrange(from as int, from as int) =~= Seq::<
                Seq<char>,
            >::empty());
        }
    }
    while i < conflicts.len()
        invariant
            from <= i,
            i <= conflicts@.len() || i == from,
            string_views(list@) == before + if i <= conflicts@.len() {
                sources(conflicts@).subrange(from as int, i as int)
            } else {
                Seq::<Seq<char>>::empty()
            },
        decreases conflicts@.len() - i,
    {
        let ghost so_far = string_views(list@);
        list.push(conflicts[i].0.clone());
        proof {
            assert(string_views(list@) =~= so_far.push(sources(conflicts@)[i as int]));
            assert(sources(conflicts@).subrange(from as int, i + 1) =~= sources(
                conflicts@,
            ).subrange(from as int, i as int).push(sources(conflicts@)[i as int]));
        }
        i += 1;
    }
    proof {
        if from <= conflicts@.len() {
            assert(sources(conflicts@).subrange(from as int, conflicts@.len() as int)
                =~= sources_from(conflicts@, from));
        }
    }
}

/// Notes what was decided of the file asked about, or of all files still
/// undecided; returns whether every file is decided, so that the copy or
/// the move can go on.
pub fn resolve_current_conflict(state: &mut ConflictState, resolution: ConflictResolution) -> (finished:
    bool)
    ensures
        (final(state)@, finished) == resolved(old(state)@, resolution),
{
    let at = state.current_index;
    match resolution {
        ConflictResolution::Overwrite => {
            push_current(&mut state.files_to_overwrite, &state.conflicts, at);
            advance_to_next_conflict(state)
        },
        ConflictResolution::Skip => {
            push_current(&mut state.files_to_skip, &state.conflicts, at);
            advance_to_next_conflict(state)
        },
        ConflictResolution::OverwriteAll => {
            push_undecided(&mut state.files_to_overwrite, &state.conflicts, at);
            true
        },
        ConflictResolution::SkipAll => {
            push_undecided(&mut state.files_to_skip, &state.conflicts, at);
            true
        },
    }
}

/// A path that is offered: its name as it is shown, a directory's with a
/// slash at its end, and whether it is a directory.
pub struct Candidate {
    pub name: Seq<char>,
    pub is_dir: bool,
}

/// A path that may be offered, with the lowercase form of its name.
struct Offer {
    name: String,
    is_dir: bool,
    key: String,
}

impl Offer {
    spec fn view(&self) -> Candidate {
        Candidate { name: self.name@, is_dir: self.is_dir }
    }
}

/// Whether an entry of a directory is offered for what was typed of a name:
/// never the directory itself or the one above it; else every entry where
/// nothing was typed, and otherwise those in whose name the characters
/// typed occur in their order, whatever their case.
pub open spec fn is_offered(name: Seq<char>, prefix: Seq<char>) -> bool {
    name != seq!['.'] && name != seq!['.', '.'] && (prefix.len() == 0 || subsequence(
        lowercase(name),
        lowercase(prefix),
    ))
}

/// An entry of a directory as it is offered.
pub open spec fn candidate_of(name: Seq<char>, is_dir: bool) -> Candidate {
    Candidate {
        name: if is_dir {
            name.push('/')
        } else {
            name
        },
        is_dir,
    }
}

/// Whether `a` is offered before `b`: a directory before any other entry,
/// and of two of a kind the one whose name comes first, whatever the case.
pub open spec fn goes_before(a: Candidate, b: Candidate) -> bool {
    (a.is_dir && !b.is_dir) || (a.is_dir == b.is_dir && text_less(
        lowercase(a.name),
        lowercase(b.name),
    ))
}

/// Where a candidate goes into the list: behind every one of the first `n`
/// that it does not go before.
pub open spec fn offer_point(s: Seq<Candidate>, c: Candidate, n: int) -> int
    decreases n,
{
    if n <= 0 || n > s.len() {
        0
    } else if goes_before(c, s[n - 1]) {
        offer_point(s, c, n - 1)
    } else {
        n
    }
}

/// The entries of a directory that are offered for what was typed of a
/// name, directories first and each kind by name; entries that no rule
/// orders stay in the order in which the directory gave them.
pub open spec fn candidates(entries: Seq<(Seq<char>, bool)>, prefix: Seq<char>) -> Seq<Candidate>
    decreases entries.len(),
{
    if entries.len() == 0 {
        Seq::empty()
    } else {
        let before = candidates(entries.drop_last(), prefix);
        let e = entries.last();
        if is_offered(e.0, prefix) {
            let c = candidate_of(e.0, e.1);
            before.insert(offer_point(before, c, before.len() as int), c)
        } else {
            before
        }
    }
}

/// The names of a list of candidates.
pub open spec fn candidate_names(s: Seq<Candidate>) -> Seq<Seq<char>> {
    s.map_values(|c: Candidate| c.name)
}

/// Whether no candidate of a list goes before one that stands before it.
pub open spec fn in_offer_order(s: Seq<Candidate>) -> bool {
    forall|i: int, j: int| 0 <= i < j < s.len() ==> !goes_before(#[trigger] s[j], #[trigger] s[i])
}

proof fn lemma_offer_point(s: Seq<Candidate>, c: Candidate, n: int)
    requires
        0 <= n <= s.len(),
    ensures
        0 <= offer_point(s, c, n) <= n,
        forall|k: int| offer_point(s, c, n) <= k < n ==> goes_before(c, s[k]),
        offer_point(s, c, n) > 0 ==> !goes_before(c, s[offer_point(s, c, n) - 1]),
    decreases n,
{
    if n > 0 && goes_before(c, s[n - 1]) {
        lemma_offer_point(s, c, n - 1);
    }
}

/// The order of the offers is transitive, and so is its contrary; no
/// candidate goes before itself.
proof fn lemma_offer_order(a: Candidate, b: Candidate, c: Candidate)
    ensures
        goes_before(a, b) && goes_before(b, c) ==> goes_before(a, c),
        !goes_before(a, b) && !goes_before(b, c) ==> !goes_before(a, c),
        !(goes_before(a, b) && goes_before(b, a)),
{
    lemma_text_order(lowercase(a.name), lowercase(b.name), lowercase(c.name));
    lemma_text_order(lowercase(a.name), lowercase(b.name), lowercase(a.name));
}

/// The paths offered are in their order: directories first, each kind by
/// name.
pub proof fn law_candidates_ordered(entries: Seq<(Seq<char>, bool)>, prefix: Seq<char>)
    ensures
        in_offer_order(candidates(entries, prefix)),
    decreases entries.len(),
{
    if entries.len() > 0 {
        law_candidates_ordered(entries.drop_last(), prefix);
        let before = candidates(entries.drop_last(), prefix);
        let e = entries.last();
        if is_offered(e.0, prefix) {
            let c = candidate_of(e.0, e.1);
            let p = offer_point(before, c, before.len() as int);
            lemma_offer_point(before, c, before.len() as int);
            let after = before.insert(p, c);
            assert forall|i: int, j: int| 0 <= i < j < after.len() implies !goes_before(
                #[trigger] after[j],
                #[trigger] after[i],
            ) by {
                if j == p {
                    if p > 0 {
                        lemma_offer_order(c, before[p - 1], before[i]);
                    }
                } else if i == p {
                    lemma_offer_order(c, before[j - 1], c);
                } else {
                    let bi = if i < p {
                        i
                    } else {
                        i - 1
                    };
                    let bj = if j < p {
                        j
                    } else {
                        j - 1
                    };
                    assert(after[i] == before[bi]);
                    assert(after[j] == before[bj]);
                }
            }
        }
    }
}

/// The names and kinds of the entries of a directory, as plain values.
pub open spec fn entry_pairs(entries: Seq<(String, bool)>) -> Seq<(Seq<char>, bool)> {
    entries.map_values(|e: (String, bool)| (e.0@, e.1))
}

spec fn offer_views(v: Seq<Offer>) -> Seq<Candidate> {
    v.map_values(|o: Offer| o@)
}

spec fn keyed(v: Seq<Offer>) -> bool {
    forall|i: int| 0 <= i < v.len() ==> (#[trigger] v[i]).key@ == lowercase(v[i].name@)
}

fn offer_goes_before(a: &Offer, b: &Offer) -> (r: bool)
    requires
        a.key@ == lowercase(a.name@),
        b.key@ == lowercase(b.name@),
    ensures
        r == goes_before(a@, b@),
{
    if a.is_dir != b.is_dir {
        a.is_dir
    } else {
        is_text_less(a.key.as_str(), b.key.as_str())
    }
}

/// Chooses and orders the paths that are offered for what was typed of a
/// name, from the entries of the directory, each with whether it is a
/// directory.
pub fn get_path_suggestions(entries: &Vec<(String, bool)>, prefix: &str) -> (r: Vec<String>)
    ensures
        string_views(r@) == candidate_names(candidates(entry_pairs(entries@), prefix@)),
{
    let ghost all = entry_pairs(entries@);
    let lower_prefix = to_lowercase(prefix);
    let typed = chars_of(prefix);
    let mut offers: Vec<Offer> = Vec::new();
    let mut i: usize = 0;
    while i < entries.len()
        invariant
            i <= entries@.len(),
            all == entry_pairs(entries@),
            lower_prefix@ == lowercase(prefix@),
            typed@ == prefix@,
            keyed(offers@),
            offer_views(offers@) == candidates(all.take(i as int), prefix@),
        decreases entries@.len() - i,
    {
        let name = &entries[i].0;
        let is_dir = entries[i].1;
        proof {
            assert(all.take(i + 1).drop_last() =~= all.take(i as int));
            assert(all.take(i + 1).last() == (name@, is_dir));
            reveal_strlit(".");
            reveal_strlit("..");
            assert("."@ =~= seq!['.']);
            assert(".."@ =~= seq!['.', '.']);
        }
        let n = chars_of(name.as_str());
        let lower_name = to_lowercase(name.as_str());
        let wanted = !is_text(n.as_slice(), ".") && !is_text(n.as_slice(), "..") && (typed.len()
            == 0 || matches_subsequence(lower_name.as_str(), lower_prefix.as_str()));
        if wanted {
            let mut shown = n;
            if is_dir {
                shown.push('/');
            }
            let shown_name = string_of(shown.as_slice());
            let key = to_lowercase(shown_name.as_str());
            let offer = Offer { name: shown_name, is_dir, key };
            let ghost before = offer_views(offers@);
            let mut p: usize = offers.len();
            while p > 0 && offer_goes_before(&offer, &offers[p - 1])
                invariant
                    p <= offers@.len(),
                    keyed(offers@),
                    offer.key@ == lowercase(offer.name@),
                    before == offer_views(offers@),
                    offer_point(before, offer@, before.len() as int) == offer_point(
                        before,
                        offer@,
                        p as int,
                    ),
                decreases p,
            {
                p -= 1;
            }
            let ghost old_offers = offers@;
            offers.insert(p, offer);
            proof {
                assert(offer_views(offers@) =~= before.insert(p as int, offer@));
                assert forall|k: int| 0 <= k < offers@.len() implies (#[trigger] offers@[k]).key@
                    == lowercase(offers@[k].name@) by {
                    if k < p {
                        assert(offers@[k] == old_offers[k]);
                    } else if k > p {
                        assert(offers@[k] == old_offers[k - 1]);
                    }
                }
            }
        }
        i += 1;
    }
    proof {
        assert(all.take(entries@.len() as int) =~= all);
    }
    let ghost listed = offer_views(offers@);
    let mut r: Vec<String> = Vec::new();
    let mut k: usize = 0;
    while k < offers.len()
        invariant
            k <= offers@.len(),
            listed == offer_views(offers@),
            string_views(r@) == candidate_names(listed).take(k as int),
        decreases offers@.len() - k,
    {
        r.push(offers[k].name.clone());
        proof {
            assert(string_views(r@) =~= candidate_names(listed).take(k as int).push(
                listed[k as int].name,
            ));
            assert(candidate_names(listed).take(k + 1) =~= candidate_names(listed).take(
                k as int,
            ).push(listed[k as int].name));
        }
        k += 1;
    }
    proof {
        assert(candidate_names(listed).take(offers@.len() as int) =~= candidate_names(listed));
    }
    r
}

/// The path above `path`, as the standard library's paths have it; `None`
/// for a root and for the empty path.
pub uninterp spec fn path_parent(path: Seq<char>) -> Option<Seq<char>>;

/// The last component of `path`, as the standard library's paths have it;
/// `None` where the path ends in `..` or has no component.
pub uninterp spec fn path_file_name(path: Seq<char>) -> Option<Seq<char>>;

/// `std::path::Path::parent`, written out by `Path::display`.
#[verifier::external_body]
fn parent_of(path: &str) -> (r: Option<String>)
    ensures
        text_of(r) == path_parent(path@),
{
    std::path::Path::new(path).parent().map(|p| p.display().to_string())
}

/// `std::path::Path::file_name`, written out by `OsStr::to_string_lossy`.
#[verifier::external_body]
fn file_name_of(path: &str) -> (r: Option<String>)
    ensures
        text_of(r) == path_file_name(path@),
{
    std::path::Path::new(path).file_name().map(|n| n.to_string_lossy().to_string())
}

/// A typed path with the `~` at its start replaced by the home directory,
/// where that is known: the home directory itself for `~` and `~/`, else
/// what follows `~` and one slash, under the home directory.
pub open spec fn home_expanded(input: Seq<char>, home: Option<Seq<char>>) -> Seq<char> {
    match home {
        Some(h) => if input.len() > 0 && input[0] == '~' {
            let rest = input.skip(1);
            let below = if rest.len() > 0 && rest[0] == '/' {
                rest.skip(1)
            } else {
                rest
            };
            if below.len() == 0 {
                h
            } else {
                joined(h, below)
            }
        } else {
            input
        },
        None => input,
    }
}

/// The directory to look in and the beginning of a name to look for, for a
/// path as far as it is typed: the path itself and no name where it ends
/// with a slash; a single dot as the name where it ends with one after a
/// slash, or is one; else the path above and the last component, or the
/// root and no name where the path has none above.
pub open spec fn completion_parts(expanded: Seq<char>) -> (Seq<char>, Seq<char>) {
    if has_suffix(expanded, seq!['/']) {
        (expanded, Seq::empty())
    } else if has_suffix(expanded, seq!['/', '.']) && !has_suffix(expanded, seq!['/', '.', '.']) {
        (
            if expanded.len() == 2 {
                seq!['/']
            } else {
                expanded.take(expanded.len() - 2)
            },
            seq!['.'],
        )
    } else if expanded == seq!['.'] {
        (seq!['.'], seq!['.'])
    } else {
        match path_parent(expanded) {
            Some(parent) => (
                parent,
                match path_file_name(expanded) {
                    Some(name) => name,
                    None => Seq::empty(),
                },
            ),
            None => (seq!['/'], Seq::empty()),
        }
    }
}

/// Replaces the `~` at the start of a typed path by the home directory.
pub fn expand_path_string(input: &str, home: Option<&str>) -> (r: String)
    ensures
        r@ == home_expanded(
            input@,
            match home {
                Some(h) => Some(h@),
                None => None,
            },
        ),
{
    let v = chars_of(input);
    match home {
        Some(h) => {
            if v.len() > 0 && v[0] == '~' {
                let from: usize = if v.len() > 1 && v[1] == '/' {
                    2
                } else {
                    1
                };
                let below = subvec(v.as_slice(), from, v.len());
                proof {
                    let rest = input@.skip(1);
                    if rest.len() > 0 && rest[0] == '/' {
                        assert(rest.skip(1) =~= below@);
                    } else {
                        assert(rest =~= below@);
                    }
                }
                if below.len() == 0 {
                    string_of(chars_of(h).as_slice())
                } else {
                    let b = string_of(below.as_slice());
                    join_path(h, b.as_str())
                }
            } else {
                string_of(v.as_slice())
            }
        },
        None => string_of(v.as_slice()),
    }
}

/// Reads from a typed path the directory to look in and the beginning of a
/// name to look for.
pub fn parse_path_for_completion(input: &str, home: Option<&str>) -> (r: (String, String))
    ensures
        (r.0@, r.1@) == completion_parts(
            home_expanded(
                input@,
                match home {
                    Some(h) => Some(h@),
                    None => None,
                },
            ),
        ),
{
    let expanded = expand_path_string(input, home);
    let e = chars_of(expanded.as_str());
    proof {
        reveal_strlit("/");
        reveal_strlit("/.");
        reveal_strlit("/..");
        reveal_strlit(".");
        assert("/"@ =~= seq!['/']);
        assert("/."@ =~= seq!['/', '.']);
        assert("/.."@ =~= seq!['/', '.', '.']);
        assert("."@ =~= seq!['.']);
        assert(Seq::<char>::empty() =~= ""@) by {
            reveal_strlit("");
        }
    }
    if ends_with(e.as_slice(), "/") {
        return (expanded, String::new());
    }
    if ends_with(e.as_slice(), "/.") && !ends_with(e.as_slice(), "/..") {
        let dir = if e.len() == 2 {
            String::from_str("/")
        } else {
            let d = subvec(e.as_slice(), 0, e.len() - 2);
            string_of(d.as_slice())
        };
        return (dir, String::from_str("."));
    }
    if is_text(e.as_slice(), ".") {
        return (String::from_str("."), String::from_str("."));
    }
    match parent_of(expanded.as_str()) {
        Some(parent) => {
            let name = match file_name_of(expanded.as_str()) {
                Some(name) => name,
                None => String::new(),
            };
            (parent, name)
        },
        None => (String::from_str("/"), String::new()),
    }
}

} // verus!
