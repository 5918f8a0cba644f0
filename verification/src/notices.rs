//! Small texts and names: uploads, the queue of files to send, workspaces,
//! what the scheduler says when it skips a task, and the greeting after a
//! start.

use crate::json::{int_member, json_int};
use crate::markup::{escape, escaped, truncate_str, truncated};
use crate::paths::{join_path, joined, last_component, unslashed_len};
use crate::router::workspace_id;
use crate::session::text_of;
use crate::text::{
    chars_of, decimal, decimal_of, extend, has_prefix, is_alnum, is_text, lines, parse_bounded,
    parse_decimal, push_str, rfind_before, same, split, split_lines, split_on, starts_with,
    string_of, subvec, views,
};
use crate::tools::{member, member_or_empty};
use rand::Rng;
use vstd::prelude::*;
use vstd::string::StringExecFns;

verus! {
/// The name under which an upload without a usable name is stored.
pub const FALLBACK_FILE_NAME: &'static str = "uploaded_file";

/// The name under which an uploaded file is stored: the last component of
/// the name it came with, so that it cannot leave the session's directory;
/// a fixed name where there is no such component.
pub open spec fn safe_name(file_name: Seq<char>) -> Seq<char> {
    let c = last_component(file_name);
    if c.len() == 0 || c == "."@ || c == ".."@ {
        FALLBACK_FILE_NAME@
    } else {
        c
    }
}

/// Makes the name under which an uploaded file is stored.
pub fn safe_file_name(file_name: &str) -> (s: String)
    ensures
        s@ == safe_name(file_name@),
{
    let p = chars_of(file_name);
    let mut end: usize = p.len();
    proof {
        assert(p@.take(p@.len() as int) =~= p@);
    }
    while end > 0 && p[end - 1] == '/'
        invariant
            end <= p@.len(),
            unslashed_len(p@) == unslashed_len(p@.take(end as int)),
        decreases end,
    {
        proof {
            assert(p@.take(end as int).drop_last() =~= p@.take(end - 1));
        }
        end -= 1;
    }
    let start = rfind_before(p.as_slice(), '/', end);
    let c = subvec(p.as_slice(), start, end);
    if c.len() == 0 || is_text(c.as_slice(), ".") || is_text(c.as_slice(), "..") {
        String::from_str(FALLBACK_FILE_NAME)
    } else {
        string_of(c.as_slice())
    }
}

/// The name given to an uploaded photo.
pub open spec fn photo_name(unique_id: Seq<char>) -> Seq<char> {
    "photo_"@ + unique_id + ".jpg"@
}

/// Names an uploaded photo.
pub fn photo_file_name(unique_id: &str) -> (s: String)
    ensures
        s@ == photo_name(unique_id@),
{
    let mut v: Vec<char> = Vec::new();
    push_str(&mut v, "photo_");
    push_str(&mut v, unique_id);
    push_str(&mut v, ".jpg");
    string_of(v.as_slice())
}

/// Where an upload is stored.
pub fn upload_destination(save_dir: &str, file_name: &str) -> (s: String)
    ensures
        s@ == joined(save_dir@, safe_name(file_name@)),
{
    let name = safe_file_name(file_name);
    join_path(save_dir, name.as_str())
}

/// What is answered when an upload has been stored.
pub open spec fn saved_view(dest: Seq<char>, size: nat) -> Seq<char> {
    "Saved: "@ + dest + "\n("@ + decimal(size) + " bytes)"@
}

/// The record of an upload, for the history and for the assistant.
pub open spec fn upload_record_view(file_name: Seq<char>, dest: Seq<char>, size: nat) -> Seq<char> {
    "[File uploaded] "@ + file_name + " → "@ + dest + " ("@ + decimal(size) + " bytes)"@
}

/// Writes what is answered when an upload has been stored.
pub fn saved_text(dest: &str, size: usize) -> (s: String)
    ensures
        s@ == saved_view(dest@, size as nat),
{
    let mut v: Vec<char> = Vec::new();
    push_str(&mut v, "Saved: ");
    push_str(&mut v, dest);
    push_str(&mut v, "\n(");
    extend(&mut v, decimal_of(size as u64).as_slice());
    push_str(&mut v, " bytes)");
    let s = string_of(v.as_slice());
    s
}

/// Writes the record of an upload.
pub fn upload_record(file_name: &str, dest: &str, size: usize) -> (s: String)
    ensures
        s@ == upload_record_view(file_name@, dest@, size as nat),
{
    let mut v: Vec<char> = Vec::new();
    push_str(&mut v, "[File uploaded] ");
    push_str(&mut v, file_name);
    push_str(&mut v, " → ");
    push_str(&mut v, dest);
    push_str(&mut v, " (");
    extend(&mut v, decimal_of(size as u64).as_slice());
    push_str(&mut v, " bytes)");
    let s = string_of(v.as_slice());
    s
}

/// The file that an entry of the queue asks to send to the conversation of
/// the bot with the given key: the entry's path, where the entry is for
/// that conversation and that bot and names a file.
pub open spec fn queued_path(content: Seq<char>, chat_id: i64, key: Seq<char>) -> Option<Seq<char>> {
    let for_chat = match json_int(content, "chat_id"@) {
        Some(c) => c,
        None => 0i64,
    };
    if crate::json::json_valid(content) && for_chat == chat_id && member_or_empty(content, "key"@)
        == key && member_or_empty(content, "path"@).len() > 0 {
        Some(member_or_empty(content, "path"@))
    } else {
        None
    }
}

/// Reads the file that an entry of the queue asks to send.
pub fn queue_entry_path(content: &str, chat_id: i64, key: &str) -> (r: Option<String>)
    ensures
        text_of(r) == queued_path(content@, chat_id, key@),
{
    if !crate::json::is_json(content) {
        return None;
    }
    let for_chat = match int_member(content, "chat_id") {
        Some(c) => c,
        None => 0,
    };
    let file_key = member(content, "key");
    let path = member(content, "path");
    let k1 = chars_of(file_key.as_str());
    let k2 = chars_of(key);
    if for_chat != chat_id || !same(k1.as_slice(), k2.as_slice()) || path.as_str().is_empty() {
        None
    } else {
        Some(path)
    }
}

/// Whether every byte is an ASCII letter or digit.
pub open spec fn all_alnum_bytes(b: Seq<u8>) -> bool {
    forall|i: int| 0 <= i < b.len() ==> is_alnum(#[trigger] b[i] as char)
}

/// `rand::thread_rng`, `Rng::sample_iter` with
/// `rand::distributions::Alphanumeric`, and `take`: `n` bytes drawn at
/// random, each an ASCII letter or digit.
#[verifier::external_body]
fn sample_alphanumeric(n: usize) -> (bytes: Vec<u8>)
    ensures
        bytes@.len() == n,
        all_alnum_bytes(bytes@),
{
    rand::thread_rng().sample_iter(&rand::distributions::Alphanumeric).take(n).collect()
}

/// A lowercase ASCII letter or a digit.
pub open spec fn is_lower_alnum(c: char) -> bool {
    ('0' <= c <= '9') || ('a' <= c <= 'z')
}

/// Makes up the name of a new workspace: eight characters drawn at random
/// from the lowercase ASCII letters and the digits.
pub fn new_workspace_name() -> (name: String)
    ensures
        workspace_id(name@),
        forall|i: int| 0 <= i < name@.len() ==> is_lower_alnum(#[trigger] name@[i]),
{
    let bytes = sample_alphanumeric(8);
    let mut v: Vec<char> = Vec::new();
    let mut i: usize = 0;
    while i < 8
        invariant
            i <= 8,
            bytes@.len() == 8,
            all_alnum_bytes(bytes@),
            v@.len() == i,
            forall|j: int| 0 <= j < i ==> is_lower_alnum(#[trigger] v@[j]),
        decreases 8 - i,
    {
        let b = bytes[i];
        let c: char = if b >= 65 && b <= 90 {
            (b + 32) as char
        } else {
            b as char
        };
        v.push(c);
        i += 1;
    }
    let name = string_of(v.as_slice());
    name
}

/// The directory of a workspace under the home directory.
pub open spec fn workspace_dir(home: Seq<char>, id: Seq<char>) -> Seq<char> {
    joined(joined(joined(home, ".cokacdir"@), "workspace"@), id)
}

/// Names the directory of a workspace.
pub fn workspace_path(home: &str, id: &str) -> (p: String)
    ensures
        p@ == workspace_dir(home@, id@),
{
    let a = join_path(home, ".cokacdir");
    let b = join_path(a.as_str(), "workspace");
    join_path(b.as_str(), id)
}

/// What the scheduler says of a task whose directory is gone.
pub open spec fn skipped_view(prompt: Seq<char>, path: Seq<char>) -> Seq<char> {
    "⏰ "@ + escaped(truncated(prompt, 40)) + "\n\n⚠️ Skipped — path no longer exists\n📂 <code>"@
        + escaped(path) + "</code>"@
}

/// Writes what the scheduler says of a task whose directory is gone.
pub fn skipped_text(prompt: &str, path: &str) -> (s: String)
    ensures
        s@ == skipped_view(prompt@, path@),
{
    let mut v: Vec<char> = Vec::new();
    push_str(&mut v, "⏰ ");
    let t = truncate_str(prompt, 40);
    extend(&mut v, escape(chars_of(t.as_str()).as_slice()).as_slice());
    push_str(&mut v, "\n\n⚠️ Skipped — path no longer exists\n📂 <code>");
    extend(&mut v, escape(chars_of(path).as_slice()).as_slice());
    push_str(&mut v, "</code>");
    let s = string_of(v.as_slice());
    s
}

/// What stands in the conversation when a scheduled task begins.
pub fn schedule_placeholder(prompt: &str) -> (s: String)
    ensures
        s@ == "⏰ "@ + prompt@,
{
    let mut v: Vec<char> = Vec::new();
    push_str(&mut v, "⏰ ");
    push_str(&mut v, prompt);
    string_of(v.as_slice())
}

/// The greeting of a conversation after a start of the bot.
pub open spec fn greeting_view(
    version: Seq<char>,
    last_path: Option<Seq<char>>,
    notice: Option<Seq<char>>,
) -> Seq<char> {
    "🟢 cokacdir started (v"@ + version + ")\n📂 Resuming session at "@ + (match last_path {
        Some(p) => p,
        None => "(unknown)"@,
    }) + match notice {
        Some(n) => "\n"@ + n,
        None => Seq::<char>::empty(),
    }
}

/// Writes the greeting of a conversation after a start of the bot.
pub fn greeting_text(version: &str, last_path: Option<&str>, notice: Option<&str>) -> (s: String)
    ensures
        s@ == greeting_view(
            version@,
            match last_path {
                Some(p) => Some(p@),
                None => None,
            },
            match notice {
                Some(n) => Some(n@),
                None => None,
            },
        ),
{
    let mut v: Vec<char> = Vec::new();
    push_str(&mut v, "🟢 cokacdir started (v");
    push_str(&mut v, version);
    push_str(&mut v, ")\n📂 Resuming session at ");
    match last_path {
        Some(p) => push_str(&mut v, p),
        None => push_str(&mut v, "(unknown)"),
    }
    if let Some(n) = notice {
        push_str(&mut v, "\n");
        push_str(&mut v, n);
    }
    let s = string_of(v.as_slice());
    s
}

/// The numbers among the parts of a version: the parts between dots that
/// are numbers of at most 64 bits, in their order.
pub open spec fn version_numbers(parts: Seq<Seq<char>>) -> Seq<u64>
    decreases parts.len(),
{
    if parts.len() == 0 {
        Seq::empty()
    } else {
        let before = version_numbers(parts.drop_last());
        match parse_bounded(parts.last(), u64::MAX) {
            Some(n) => before.push(n),
            None => before,
        }
    }
}

/// Whether `a` comes after `b` in the order of a dictionary.
pub open spec fn lex_greater(a: Seq<u64>, b: Seq<u64>) -> bool
    decreases a.len(),
{
    if a.len() == 0 {
        false
    } else if b.len() == 0 {
        true
    } else if a[0] != b[0] {
        a[0] > b[0]
    } else {
        lex_greater(a.drop_first(), b.drop_first())
    }
}

/// Whether the version `a` is newer than the version `b`.
pub open spec fn newer(a: Seq<char>, b: Seq<char>) -> bool {
    lex_greater(version_numbers(split(a, '.')), version_numbers(split(b, '.')))
}

fn numbers_of(version: &str) -> (n: Vec<u64>)
    ensures
        n@ == version_numbers(split(version@, '.')),
{
    let v = chars_of(version);
    let parts = split_on(v.as_slice(), '.');
    let ghost p = split(version@, '.');
    let mut n: Vec<u64> = Vec::new();
    let mut i: usize = 0;
    while i < parts.len()
        invariant
            i <= parts@.len(),
            views(parts@) == p,
            n@ == version_numbers(p.take(i as int)),
        decreases parts@.len() - i,
    {
        proof {
            assert(p.take(i + 1).drop_last() =~= p.take(i as int));
        }
        match parse_decimal(parts[i].as_slice(), u64::MAX) {
            Some(x) => n.push(x),
            None => {},
        }
        i += 1;
    }
    proof {
        assert(p.take(parts@.len() as int) =~= p);
    }
    n
}

/// Compares two versions number by number: whether `a` is newer than `b`.
pub fn version_is_newer(a: &str, b: &str) -> (r: bool)
    ensures
        r == newer(a@, b@),
{
    let va = numbers_of(a);
    let vb = numbers_of(b);
    let mut i: usize = 0;
    proof {
        assert(va@.skip(0) =~= va@);
        assert(vb@.skip(0) =~= vb@);
    }
    while i < va.len() && i < vb.len()
        invariant
            i <= va@.len(),
            i <= vb@.len(),
            va@ == version_numbers(split(a@, '.')),
            vb@ == version_numbers(split(b@, '.')),
            lex_greater(va@, vb@) == lex_greater(va@.skip(i as int), vb@.skip(i as int)),
        decreases va@.len() - i,
    {
        proof {
            assert(va@.skip(i as int).drop_first() =~= va@.skip(i + 1));
            assert(vb@.skip(i as int).drop_first() =~= vb@.skip(i + 1));
        }
        if va[i] != vb[i] {
            return va[i] > vb[i];
        }
        i += 1;
    }
    i < va.len()
}

/// What is said when a newer version is there.
pub open spec fn update_notice_view(latest: Seq<char>) -> Seq<char> {
    "🆕 v"@ + latest + " available — https://cokacdir.cokac.com/"@
}

/// Tells of a newer version, where `latest` is newer than `current`.
pub fn update_notice(latest: &str, current: &str) -> (r: Option<String>)
    ensures
        text_of(r) == if newer(latest@, current@) {
            Some(update_notice_view(latest@))
        } else {
            None
        },
{
    if version_is_newer(latest, current) {
        let mut v: Vec<char> = Vec::new();
        push_str(&mut v, "🆕 v");
        push_str(&mut v, latest);
        push_str(&mut v, " available — https://cokacdir.cokac.com/");
        Some(string_of(v.as_slice()))
    } else {
        None
    }
}

/// Index of the first line that begins with `version`; the number of lines
/// where none does.
pub open spec fn version_line(ls: Seq<Seq<char>>, from: int) -> int
    decreases ls.len() - from,
{
    if from < 0 || from >= ls.len() {
        ls.len() as int
    } else if has_prefix(ls[from], "version"@) {
        from
    } else {
        version_line(ls, from + 1)
    }
}

/// The version that a package description declares: what stands between
/// the first two double quotes of its first line that begins with
/// `version`.
pub open spec fn declared_version(text: Seq<char>) -> Option<Seq<char>> {
    let ls = lines(text);
    let k = version_line(ls, 0);
    if k < ls.len() {
        let parts = split(ls[k], '"');
        if parts.len() > 1 {
            Some(parts[1])
        } else {
            None
        }
    } else {
        None
    }
}

/// Reads the version that a package description declares.
pub fn latest_version(text: &str) -> (r: Option<String>)
    ensures
        text_of(r) == declared_version(text@),
{
    let t = chars_of(text);
    let ls = split_lines(t.as_slice());
    let ghost l = lines(text@);
    let mut k: usize = 0;
    while k < ls.len()
        invariant
            k <= ls@.len(),
            views(ls@) == l,
            version_line(l, 0) == version_line(l, k as int),
        ensures
            k <= ls@.len(),
            version_line(l, 0) == k,
        decreases ls@.len() - k,
    {
        if starts_with(ls[k].as_slice(), "version") {
            break ;
        }
        k += 1;
    }
    if k >= ls.len() {
        return None;
    }
    let parts = split_on(ls[k].as_slice(), '"');
    if parts.len() > 1 {
        Some(string_of(parts[1].as_slice()))
    } else {
        None
    }
}

} // verus!
