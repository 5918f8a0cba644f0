//! Translation of the markdown that the assistant writes into the small
//! subset of HTML that the chat transport accepts, and the trimming of
//! texts that are shown while they grow.

use crate::format::{floor_boundary, safe_prefix};
use crate::text::{
    after_last, chars_of, extend, find_from, has_prefix, is_whitespace, is_ws, join, join_with,
    lines, next_index, push_str, rfind_before, split_lines, starts_with, string_of, subvec,
    trim_end, trim_start, trimmed_end, trimmed_start, views,
};
use vstd::prelude::*;
use vstd::utf8::{decode_utf8, encode_utf8};

verus! {
/// What stands for one character in HTML text.
pub open spec fn escaped_char(c: char) -> Seq<char> {
    if c == '&' {
        "&amp;"@
    } else if c == '<' {
        "&lt;"@
    } else if c == '>' {
        "&gt;"@
    } else {
        seq![c]
    }
}

/// `s` with `&`, `<` and `>` written as HTML entities.
pub open spec fn escaped(s: Seq<char>) -> Seq<char>
    decreases s.len(),
{
    if s.len() == 0 {
        Seq::<char>::empty()
    } else {
        escaped(s.drop_last()) + escaped_char(s.last())
    }
}

/// Writes `&`, `<` and `>` as HTML entities.
pub fn escape(s: &[char]) -> (out: Vec<char>)
    ensures
        out@ == escaped(s@),
{
    let mut out: Vec<char> = Vec::new();
    let mut i: usize = 0;
    while i < s.len()
        invariant
            i <= s@.len(),
            out@ == escaped(s@.take(i as int)),
        decreases s@.len() - i,
    {
        proof {
            assert(s@.take(i + 1).drop_last() =~= s@.take(i as int));
        }
        let c = s[i];
        if c == '&' {
            push_str(&mut out, "&amp;");
        } else if c == '<' {
            push_str(&mut out, "&lt;");
        } else if c == '>' {
            push_str(&mut out, "&gt;");
        } else {
            out.push(c);
        }
        i += 1;
    }
    proof {
        assert(s@.take(s@.len() as int) =~= s@);
    }
    out
}

/// Escapes the special characters of HTML for the chat transport.
pub fn html_escape(s: &str) -> (out: String)
    ensures
        out@ == escaped(s@),
{
    let v = chars_of(s);
    let e = escape(v.as_slice());
    string_of(e.as_slice())
}

/// State of a pass over lines that keeps at most one empty line in a row:
/// the text so far, and whether the last line was empty.
pub open spec fn squeeze_scan(ls: Seq<Seq<char>>) -> (Seq<char>, bool)
    decreases ls.len(),
{
    if ls.len() == 0 {
        (Seq::<char>::empty(), false)
    } else {
        let (text, prev_empty) = squeeze_scan(ls.drop_last());
        let l = ls.last();
        if l.len() == 0 {
            (
                if prev_empty {
                    text
                } else {
                    text.push('\n')
                },
                true,
            )
        } else {
            (
                (if text.len() > 0 {
                    text.push('\n')
                } else {
                    text
                }) + l,
                false,
            )
        }
    }
}

/// `s` with every run of empty lines reduced to one.
pub open spec fn squeezed(s: Seq<char>) -> Seq<char> {
    squeeze_scan(lines(s)).0
}

/// Reduces every run of empty lines to one.
pub fn squeeze(s: &[char]) -> (out: Vec<char>)
    ensures
        out@ == squeezed(s@),
{
    let ls = split_lines(s);
    let ghost l = lines(s@);
    let mut out: Vec<char> = Vec::new();
    let mut prev_empty = false;
    let mut i: usize = 0;
    while i < ls.len()
        invariant
            i <= ls@.len(),
            views(ls@) == l,
            (out@, prev_empty) == squeeze_scan(l.take(i as int)),
        decreases ls@.len() - i,
    {
        proof {
            assert(l.take(i + 1).drop_last() =~= l.take(i as int));
        }
        if ls[i].len() == 0 {
            if !prev_empty {
                out.push('\n');
            }
            prev_empty = true;
        } else {
            if out.len() > 0 {
                out.push('\n');
            }
            extend(&mut out, ls[i].as_slice());
            prev_empty = false;
        }
        i += 1;
    }
    proof {
        assert(l.take(ls@.len() as int) =~= l);
    }
    out
}

/// Reduces every run of empty lines to one.
pub fn normalize_empty_lines(s: &str) -> (out: String)
    ensures
        out@ == squeezed(s@),
{
    let v = chars_of(s);
    let q = squeeze(v.as_slice());
    string_of(q.as_slice())
}

/// `head` up to its last line feed, or all of it where it has none.
pub open spec fn whole_lines(head: Seq<char>) -> Seq<char> {
    let p = after_last(head, '\n', head.len() as int);
    if p > 0 {
        head.take(p - 1)
    } else {
        head
    }
}

/// `s` cut to at most `max_len` bytes: unchanged where it fits; else its
/// longest prefix of whole characters within the limit, cut back to the end
/// of the last complete line where it holds a line feed.
pub open spec fn truncated(s: Seq<char>, max_len: int) -> Seq<char> {
    if encode_utf8(s).len() <= max_len {
        s
    } else {
        whole_lines(decode_utf8(encode_utf8(s).take(floor_boundary(encode_utf8(s), max_len))))
    }
}

/// Cuts a text to at most `max_len` bytes, at a character boundary and, if
/// it can, at a line boundary.
pub fn truncate_str(s: &str, max_len: usize) -> (out: String)
    ensures
        out@ == truncated(s@, max_len as int),
{
    let head = safe_prefix(s, max_len);
    if crate::format::byte_len(s) <= max_len {
        return string_of(chars_of(s).as_slice());
    }
    let h = chars_of(head);
    let p = rfind_before(h.as_slice(), '\n', h.len());
    if p > 0 {
        let v = subvec(h.as_slice(), 0, p - 1);
        string_of(v.as_slice())
    } else {
        string_of(h.as_slice())
    }
}

/// Index of the first character at or after `i` that is not `#`.
pub open spec fn hashes_end(s: Seq<char>, i: int) -> int
    decreases s.len() - i,
{
    if i < 0 || i >= s.len() || s[i] != '#' {
        i
    } else {
        hashes_end(s, i + 1)
    }
}

/// The title of a heading line: what follows one to six `#` and a space,
/// without leading white space; `None` where the line is no heading.
pub open spec fn heading(line: Seq<char>) -> Option<Seq<char>> {
    let h = hashes_end(line, 0);
    if 1 <= h <= 6 && h < line.len() && line[h] == ' ' {
        Some(trim_start(line.skip(h)))
    } else {
        None
    }
}

/// The title of a heading line, if the line is one.
pub fn strip_heading(line: &[char]) -> (r: Option<Vec<char>>)
    ensures
        match r {
            Some(t) => heading(line@) == Some(t@),
            None => heading(line@).is_none(),
        },
{
    let mut h: usize = 0;
    while h < line.len() && line[h] == '#'
        invariant
            h <= line@.len(),
            hashes_end(line@, 0) == hashes_end(line@, h as int),
        decreases line@.len() - h,
    {
        h += 1;
    }
    if 1 <= h && h <= 6 && h < line.len() && line[h] == ' ' {
        let rest = subvec(line, h, line.len());
        Some(trimmed_start(rest.as_slice()))
    } else {
        None
    }
}

/// Index of the first `**` at or after `i` that is past `start`; -1 where
/// there is none.
pub open spec fn closing_double(c: Seq<char>, start: int, i: int) -> int
    decreases c.len() - i,
{
    if i < 0 || i + 1 >= c.len() {
        -1
    } else if c[i] == '*' && c[i + 1] == '*' && i > start {
        i
    } else {
        closing_double(c, start, i + 1)
    }
}

/// Index of the first `*` at or after `i` that is past `start` and has no
/// second `*` behind it; -1 where there is none.
pub open spec fn closing_single(c: Seq<char>, start: int, i: int) -> int
    decreases c.len() - i,
{
    if i < 0 || i >= c.len() {
        -1
    } else if c[i] == '*' && i > start && (i + 1 >= c.len() || c[i + 1] != '*') {
        i
    } else {
        closing_single(c, start, i + 1)
    }
}

/// A closing `**` that is found lies past the start, with room for its
/// second character.
pub proof fn lemma_closing_double(c: Seq<char>, start: int, i: int)
    requires
        0 <= start <= i,
    ensures
        closing_double(c, start, i) == -1 || (start < closing_double(c, start, i) && i
            <= closing_double(c, start, i) && closing_double(c, start, i) + 1 < c.len()),
    decreases c.len() - i,
{
    if i + 1 < c.len() && !(c[i] == '*' && c[i + 1] == '*' && i > start) {
        lemma_closing_double(c, start, i + 1);
    }
}

/// A closing `*` that is found lies past the start, within the text.
pub proof fn lemma_closing_single(c: Seq<char>, start: int, i: int)
    requires
        0 <= start <= i,
    ensures
        closing_single(c, start, i) == -1 || (start < closing_single(c, start, i) && i
            <= closing_single(c, start, i) && closing_single(c, start, i) < c.len()),
    decreases c.len() - i,
{
    if i < c.len() && !(c[i] == '*' && i > start && (i + 1 >= c.len() || c[i + 1] != '*')) {
        lemma_closing_single(c, start, i + 1);
    }
}

/// Finds the `**` that closes a bold span whose text begins at `start`.
pub fn find_closing_marker(chars: &[char], start: usize) -> (r: Option<usize>)
    ensures
        match r {
            Some(e) => closing_double(chars@, start as int, start as int) == e,
            None => closing_double(chars@, start as int, start as int) == -1,
        },
{
    let len = chars.len();
    let mut i: usize = start;
    while i < len && i + 1 < len
        invariant
            start <= i,
            len == chars@.len(),
            closing_double(chars@, start as int, start as int) == closing_double(
                chars@,
                start as int,
                i as int,
            ),
        decreases len - i,
    {
        if chars[i] == '*' && chars[i + 1] == '*' && i > start {
            return Some(i);
        }
        i += 1;
    }
    None
}

/// Finds the `*` that closes an italic span whose text begins at `start`.
pub fn find_closing_single(chars: &[char], start: usize) -> (r: Option<usize>)
    ensures
        match r {
            Some(e) => closing_single(chars@, start as int, start as int) == e,
            None => closing_single(chars@, start as int, start as int) == -1,
        },
{
    let len = chars.len();
    let mut i: usize = start;
    while i < len
        invariant
            start <= i,
            len == chars@.len(),
            closing_single(chars@, start as int, start as int) == closing_single(
                chars@,
                start as int,
                i as int,
            ),
        decreases len - i,
    {
        if chars[i] == '*' && i > start && (i + 1 >= len || chars[i + 1] != '*') {
            return Some(i);
        }
        i += 1;
    }
    None
}

/// The text from index `i` on, with `**bold**` and `*italic*` spans turned
/// into `<b>` and `<i>` elements. A marker without its closing partner
/// stands for itself.
pub open spec fn emphasized_from(c: Seq<char>, i: int) -> Seq<char>
    decreases c.len() - i,
{
    if i < 0 || i >= c.len() {
        Seq::<char>::empty()
    } else {
        let d = closing_double(c, i + 2, i + 2);
        let s = closing_single(c, i + 1, i + 1);
        if i + 1 < c.len() && c[i] == '*' && c[i + 1] == '*' && i < d && d + 1 < c.len() {
            "<b>"@ + c.subrange(i + 2, d) + "</b>"@ + emphasized_from(c, d + 2)
        } else if c[i] == '*' && i < s < c.len() {
            "<i>"@ + c.subrange(i + 1, s) + "</i>"@ + emphasized_from(c, s + 1)
        } else {
            seq![c[i]] + emphasized_from(c, i + 1)
        }
    }
}

/// `c` with its bold and italic spans turned into HTML elements.
pub open spec fn emphasized(c: Seq<char>) -> Seq<char> {
    emphasized_from(c, 0)
}

/// Turns `**bold**` and `*italic*` into `<b>` and `<i>` elements.
pub fn convert_bold_italic(chars: &[char]) -> (out: Vec<char>)
    ensures
        out@ == emphasized(chars@),
{
    let mut out: Vec<char> = Vec::new();
    let len = chars.len();
    let mut i: usize = 0;
    while i < len
        invariant
            i <= len,
            len == chars@.len(),
            out@ + emphasized_from(chars@, i as int) == emphasized(chars@),
        decreases len - i,
    {
        if i + 1 < len && chars[i] == '*' && chars[i + 1] == '*' {
            proof {
                lemma_closing_double(chars@, i + 2, i + 2);
            }
            if let Some(end) = find_closing_marker(chars, i + 2) {
                let inner = subvec(chars, i + 2, end);
                push_str(&mut out, "<b>");
                extend(&mut out, inner.as_slice());
                push_str(&mut out, "</b>");
                i = end + 2;
                continue ;
            }
        }
        if chars[i] == '*' {
            proof {
                lemma_closing_single(chars@, i + 1, i + 1);
            }
            if let Some(end) = find_closing_single(chars, i + 1) {
                let inner = subvec(chars, i + 1, end);
                push_str(&mut out, "<i>");
                extend(&mut out, inner.as_slice());
                push_str(&mut out, "</i>");
                i = end + 1;
                continue ;
            }
        }
        out.push(chars[i]);
        i += 1;
    }
    out
}

/// The text from index `i` on, with each `` `code` `` span turned into a
/// `<code>` element and the text between the spans emphasized. A backtick
/// without a partner stands for itself.
pub open spec fn inlined_from(s: Seq<char>, i: int) -> Seq<char>
    decreases s.len() - i,
{
    if i < 0 || i > s.len() {
        Seq::<char>::empty()
    } else {
        let a = next_index(s, '`', i);
        let b = next_index(s, '`', a + 1);
        if a < s.len() && i < b < s.len() {
            emphasized(s.subrange(i, a)) + "<code>"@ + s.subrange(a + 1, b) + "</code>"@
                + inlined_from(s, b + 1)
        } else {
            emphasized(s.subrange(i, s.len() as int))
        }
    }
}

/// `s` with its inline markdown turned into HTML elements.
pub open spec fn inlined(s: Seq<char>) -> Seq<char> {
    inlined_from(s, 0)
}

/// Turns inline code, bold and italic spans of escaped text into HTML
/// elements.
pub fn convert_inline(text: &[char]) -> (out: Vec<char>)
    ensures
        out@ == inlined(text@),
{
    let mut out: Vec<char> = Vec::new();
    let len = text.len();
    let mut i: usize = 0;
    loop
        invariant_except_break
            i <= len,
            len == text@.len(),
            out@ + inlined_from(text@, i as int) == inlined(text@),
        ensures
            out@ == inlined(text@),
        decreases len - i,
    {
        let a = find_from(text, '`', i);
        if a < len {
            let b = find_from(text, '`', a + 1);
            if b < len {
                let plain = subvec(text, i, a);
                let code = subvec(text, a + 1, b);
                let em = convert_bold_italic(plain.as_slice());
                extend(&mut out, em.as_slice());
                push_str(&mut out, "<code>");
                extend(&mut out, code.as_slice());
                push_str(&mut out, "</code>");
                i = b + 1;
                continue ;
            }
        }
        let rest = subvec(text, i, len);
        let em = convert_bold_italic(rest.as_slice());
        extend(&mut out, em.as_slice());
        break ;
    }
    out
}

/// A line that opens or closes a code block: three backticks after optional
/// white space.
pub open spec fn is_fence(line: Seq<char>) -> bool {
    has_prefix(trim_start(line), "```"@)
}

/// What a line outside a code block becomes, without its line feed: a
/// heading in bold, a list item after a bullet, or the line itself; in each
/// case escaped, with its inline markdown converted.
pub open spec fn rendered_line(line: Seq<char>) -> Seq<char> {
    let t = trim_start(line);
    match heading(t) {
        Some(title) => "<b>"@ + inlined(escaped(title)) + "</b>"@,
        None => if has_prefix(t, "- "@) || has_prefix(t, "* "@) {
            "• "@ + inlined(escaped(t.skip(2)))
        } else {
            inlined(escaped(line))
        },
    }
}

/// What a finished code block becomes, with the line feed after it: the
/// escaped lines in a `<pre>` element, without trailing white space, or
/// nothing for a block without text.
pub open spec fn rendered_block(code: Seq<Seq<char>>) -> Seq<char> {
    let text = join(code, "\n"@);
    (if text.len() > 0 {
        "<pre>"@ + escaped(trim_end(text)) + "</pre>"@
    } else {
        Seq::<char>::empty()
    }).push('\n')
}

/// State of a pass over the lines of a markdown text.
pub struct RenderState {
    /// The HTML written so far.
    pub out: Seq<char>,
    /// Whether the pass is inside a code block.
    pub in_code: bool,
    /// The lines of the open code block.
    pub code: Seq<Seq<char>>,
}

/// The state after the given lines.
pub open spec fn render_scan(ls: Seq<Seq<char>>) -> RenderState
    decreases ls.len(),
{
    if ls.len() == 0 {
        RenderState { out: Seq::empty(), in_code: false, code: Seq::empty() }
    } else {
        let st = render_scan(ls.drop_last());
        let l = ls.last();
        if st.in_code {
            if is_fence(l) {
                RenderState {
                    out: st.out + rendered_block(st.code),
                    in_code: false,
                    code: Seq::empty(),
                }
            } else {
                RenderState { code: st.code.push(l), ..st }
            }
        } else if is_fence(l) {
            RenderState { in_code: true, code: Seq::empty(), ..st }
        } else {
            RenderState { out: st.out + rendered_line(l).push('\n'), ..st }
        }
    }
}

/// The HTML for a markdown text: its lines rendered one by one, a code
/// block left open at the end closed there, and trailing white space
/// removed.
pub open spec fn rendered(md: Seq<char>) -> Seq<char> {
    let st = render_scan(lines(md));
    trim_end(
        if st.in_code {
            st.out + rendered_block(st.code)
        } else {
            st.out
        },
    )
}

fn render_line(line: &[char], out: &mut Vec<char>)
    ensures
        final(out)@ == old(out)@ + rendered_line(line@).push('\n'),
{
    let t = trimmed_start(line);
    match strip_heading(t.as_slice()) {
        Some(title) => {
            let e = escape(title.as_slice());
            let c = convert_inline(e.as_slice());
            push_str(out, "<b>");
            extend(out, c.as_slice());
            push_str(out, "</b>");
        },
        None => {
            if starts_with(t.as_slice(), "- ") || starts_with(t.as_slice(), "* ") {
                proof {
                    reveal_strlit("- ");
                    reveal_strlit("* ");
                }
                let rest = subvec(t.as_slice(), 2, t.len());
                let e = escape(rest.as_slice());
                let c = convert_inline(e.as_slice());
                push_str(out, "• ");
                extend(out, c.as_slice());
            } else {
                let e = escape(line);
                let c = convert_inline(e.as_slice());
                extend(out, c.as_slice());
            }
        },
    }
    out.push('\n');
}

fn render_block(code: &Vec<Vec<char>>, out: &mut Vec<char>)
    ensures
        final(out)@ == old(out)@ + rendered_block(views(code@)),
{
    let text = join_with(code, "\n");
    if text.len() > 0 {
        let t = trimmed_end(text.as_slice());
        let e = escape(t.as_slice());
        push_str(out, "<pre>");
        extend(out, e.as_slice());
        push_str(out, "</pre>");
    }
    out.push('\n');
}

fn line_is_fence(line: &[char]) -> (r: bool)
    ensures
        r == is_fence(line@),
{
    let t = trimmed_start(line);
    starts_with(t.as_slice(), "```")
}

/// Translates markdown into the HTML subset of the chat transport.
pub fn render(md: &[char]) -> (out: Vec<char>)
    ensures
        out@ == rendered(md@),
{
    let ls = split_lines(md);
    let ghost l = lines(md@);
    let mut out: Vec<char> = Vec::new();
    let mut in_code = false;
    let mut code: Vec<Vec<char>> = Vec::new();
    let mut i: usize = 0;
    proof {
        assert(views(code@) =~= Seq::<Seq<char>>::empty());
    }
    while i < ls.len()
        invariant
            i <= ls@.len(),
            views(ls@) == l,
            render_scan(l.take(i as int)) == (RenderState {
                out: out@,
                in_code,
                code: views(code@),
            }),
        decreases ls@.len() - i,
    {
        proof {
            assert(l.take(i + 1).drop_last() =~= l.take(i as int));
        }
        let fence = line_is_fence(ls[i].as_slice());
        if in_code {
            if fence {
                render_block(&code, &mut out);
                in_code = false;
                code = Vec::new();
                proof {
                    assert(views(code@) =~= Seq::<Seq<char>>::empty());
                }
            } else {
                let ghost prev = views(code@);
                let copy = subvec(ls[i].as_slice(), 0, ls[i].len());
                proof {
                    assert(copy@ =~= ls@[i as int]@);
                }
                code.push(copy);
                proof {
                    assert(views(code@) =~= prev.push(ls@[i as int]@));
                }
            }
        } else if fence {
            in_code = true;
            code = Vec::new();
            proof {
                assert(views(code@) =~= Seq::<Seq<char>>::empty());
            }
        } else {
            render_line(ls[i].as_slice(), &mut out);
        }
        i += 1;
    }
    proof {
        assert(l.take(ls@.len() as int) =~= l);
    }
    if in_code {
        render_block(&code, &mut out);
    }
    trimmed_end(out.as_slice())
}

/// Translates markdown into the HTML subset of the chat transport:
/// headings, bold, italic, inline code, fenced code blocks and bullet lists,
/// with the special characters of HTML escaped first.
pub fn markdown_to_telegram_html(md: &str) -> (out: String)
    ensures
        out@ == rendered(md@),
{
    let v = chars_of(md);
    let r = render(v.as_slice());
    string_of(r.as_slice())
}

/// Whether a line holds nothing but white space.
pub open spec fn is_blank(line: Seq<char>) -> bool {
    forall|i: int| 0 <= i < line.len() ==> is_ws(#[trigger] line[i])
}

/// The lines that are kept when runs of blank lines are reduced: of each
/// run one line, empty, and every other line as it is.
pub open spec fn kept_lines(ls: Seq<Seq<char>>) -> Seq<Seq<char>>
    decreases ls.len(),
{
    if ls.len() == 0 {
        Seq::empty()
    } else {
        let before = kept_lines(ls.drop_last());
        if is_blank(ls.last()) {
            if ls.len() > 1 && is_blank(ls[ls.len() - 2]) {
                before
            } else {
                before.push(Seq::<char>::empty())
            }
        } else {
            before.push(ls.last())
        }
    }
}

fn line_is_blank(line: &[char]) -> (r: bool)
    ensures
        r == is_blank(line@),
{
    let mut i: usize = 0;
    while i < line.len()
        invariant
            i <= line@.len(),
            forall|j: int| 0 <= j < i ==> is_ws(#[trigger] line@[j]),
        decreases line@.len() - i,
    {
        if !is_whitespace(line[i]) {
            return false;
        }
        i += 1;
    }
    true
}

/// Reduces every run of blank lines of a text to one empty line.
pub fn normalize_consecutive_empty_lines(text: &str) -> (out: String)
    ensures
        out@ == join(kept_lines(lines(text@)), "\n"@),
{
    let t = chars_of(text);
    let ls = split_lines(t.as_slice());
    let ghost l = lines(text@);
    let mut kept: Vec<Vec<char>> = Vec::new();
    let mut prev_blank = false;
    let mut i: usize = 0;
    while i < ls.len()
        invariant
            i <= ls@.len(),
            views(ls@) == l,
            views(kept@) == kept_lines(l.take(i as int)),
            prev_blank == (i > 0 && is_blank(l[i - 1])),
        decreases ls@.len() - i,
    {
        proof {
            assert(l.take(i + 1).drop_last() =~= l.take(i as int));
            if i > 0 {
            }
        }
        let blank = line_is_blank(ls[i].as_slice());
        if blank {
            if !prev_blank {
                kept.push(Vec::new());
            }
        } else {
            let copy = subvec(ls[i].as_slice(), 0, ls[i].len());
            proof {
                assert(copy@ =~= ls@[i as int]@);
            }
            kept.push(copy);
        }
        prev_blank = blank;
        i += 1;
    }
    proof {
        assert(l.take(ls@.len() as int) =~= l);
    }
    let joined = join_with(&kept, "\n");
    string_of(joined.as_slice())
}

} // verus!
