//! Which names a new file or directory may be given.

use crate::format::byte_len;
use crate::text::{
    chars_of, find_from, is_control, is_ctl, is_text, leading_ws, trim, trim_end, trim_start,
    trimmed_end_len,
};
use vstd::prelude::*;
use vstd::utf8::encode_utf8;

verus! {
/// Longest file name, in bytes.
pub const MAX_FILENAME_LENGTH: usize = 255;

/// Whether some character of `s` is a control character.
pub open spec fn holds_control(s: Seq<char>) -> bool {
    exists|i: int| 0 <= i < s.len() && is_ctl(#[trigger] s[i])
}

/// Why `name` is refused as a file name, if it is: the first of the checks
/// that it fails.
pub open spec fn filename_error(name: Seq<char>) -> Option<Seq<char>> {
    if name.len() == 0 || trim(name).len() == 0 {
        Some("Filename cannot be empty"@)
    } else if name.contains('/') || name.contains('\\') {
        Some("Filename cannot contain path separators"@)
    } else if name.contains('\0') {
        Some("Filename cannot contain null bytes"@)
    } else if name == "."@ || name == ".."@ {
        Some("Invalid filename"@)
    } else if encode_utf8(name).len() > MAX_FILENAME_LENGTH {
        Some("Filename too long (max 255 characters)"@)
    } else if holds_control(name) {
        Some("Filename cannot contain control characters"@)
    } else if name != trim(name) {
        Some("Filename cannot start or end with whitespace"@)
    } else if name[0] == '-' {
        Some("Filename cannot start with hyphen"@)
    } else {
        None
    }
}

fn contains_char(s: &[char], c: char) -> (r: bool)
    ensures
        r == s@.contains(c),
{
    let at = find_from(s, c, 0);
    at < s.len()
}

fn has_control(s: &[char]) -> (r: bool)
    ensures
        r == holds_control(s@),
{
    let mut i: usize = 0;
    while i < s.len()
        invariant
            i <= s@.len(),
            forall|j: int| 0 <= j < i ==> !is_ctl(#[trigger] s@[j]),
        decreases s@.len() - i,
    {
        if is_control(s[i]) {
            return true;
        }
        i += 1;
    }
    false
}

/// A sequence is its own trimmed form exactly when it neither starts nor
/// ends with white space.
proof fn lemma_trim_same(s: Seq<char>, lead: int, end: int)
    requires
        0 <= lead <= s.len(),
        0 <= end <= s.len(),
        s.skip(lead) == trim_start(s),
        s.take(end) == trim_end(s),
    ensures
        (s == trim(s)) <==> (lead == 0 && end == s.len()),
        trim(s).len() == 0 <==> lead == s.len(),
{
    lemma_trim_end_len(trim_start(s));
    lemma_trim_start_nonws(s);
    if lead == 0 {
        if end == s.len() {
        } else {
        }
    } else {
    }
    if lead == s.len() {
    } else {
        lemma_trim_end_of_nonws_start(trim_start(s));
    }
}

/// Trimming the end never lengthens.
proof fn lemma_trim_end_len(s: Seq<char>)
    ensures
        trim_end(s).len() <= s.len(),
    decreases s.len(),
{
    if s.len() > 0 && crate::text::is_ws(s.last()) {
        lemma_trim_end_len(s.drop_last());
    }
}

/// What is left after trimming the start does not begin with white space.
proof fn lemma_trim_start_nonws(s: Seq<char>)
    ensures
        trim_start(s).len() > 0 ==> !crate::text::is_ws(trim_start(s)[0]),
    decreases s.len(),
{
    if s.len() > 0 && crate::text::is_ws(s[0]) {
        lemma_trim_start_nonws(s.drop_first());
    }
}

/// Trimming the end of a sequence that begins with a character other than
/// white space leaves at least that character.
proof fn lemma_trim_end_of_nonws_start(s: Seq<char>)
    requires
        s.len() > 0,
        !crate::text::is_ws(s[0]),
    ensures
        trim_end(s).len() > 0,
    decreases s.len(),
{
    if crate::text::is_ws(s.last()) {
        lemma_trim_end_of_nonws_start(s.drop_last());
    }
}

/// Checks a name for a new file or directory, and says why it is refused.
pub fn is_valid_filename(name: &str) -> (r: Result<(), &'static str>)
    ensures
        match r {
            Ok(()) => filename_error(name@) is None,
            Err(e) => filename_error(name@) == Some(e@),
        },
{
    let s = chars_of(name);
    let lead = leading_ws(s.as_slice());
    let end = trimmed_end_len(s.as_slice());
    proof {
        lemma_trim_same(s@, lead as int, end as int);
    }
    if s.len() == 0 || lead == s.len() {
        return Err("Filename cannot be empty");
    }
    if contains_char(s.as_slice(), '/') || contains_char(s.as_slice(), '\\') {
        return Err("Filename cannot contain path separators");
    }
    if contains_char(s.as_slice(), '\0') {
        return Err("Filename cannot contain null bytes");
    }
    if is_text(s.as_slice(), ".") || is_text(s.as_slice(), "..") {
        return Err("Invalid filename");
    }
    if byte_len(name) > MAX_FILENAME_LENGTH {
        return Err("Filename too long (max 255 characters)");
    }
    if has_control(s.as_slice()) {
        return Err("Filename cannot contain control characters");
    }
    if lead != 0 || end != s.len() {
        return Err("Filename cannot start or end with whitespace");
    }
    if s[0] == '-' {
        return Err("Filename cannot start with hyphen");
    }
    Ok(())
}

} // verus!
