//! Splitting a text that is too long for one message of the chat transport.
//!
//! A text is cut on line boundaries where it can be, never inside a
//! character, and a `<pre>` element that a cut leaves open is closed at the
//! end of one message and opened again at the start of the next. Room for
//! these tags is set aside, so that no message passes the limit with them.

use crate::format::{byte_len, floor_boundary, floor_char_boundary, lemma_floor_boundary};
use crate::text::{push_str, string_of};
use vstd::prelude::*;
use vstd::string::StringExecFns;
use vstd::string::StringSliceAdditionalSpecFns;
use vstd::utf8::{
    encode_utf8, is_char_boundary, length_of_first_scalar, pop_first_scalar, valid_utf8,
};

verus! {
broadcast use vstd::utf8::group_utf8_lib;

/// The most bytes that one message may hold.
pub const TELEGRAM_MSG_LIMIT: usize = 4096;

/// Bytes set aside, in a message that begins inside a `<pre>` element, for
/// the tag that opens it again and the tag that closes it.
pub const TAG_OVERHEAD: usize = 11;

/// Bytes set aside for the tag that closes a `<pre>` element, in a message
/// of a text with markup that ends at a cut.
pub const CLOSE_TAG_LEN: usize = 6;

/// The line feed.
pub open spec fn nl() -> u8 {
    10u8
}

/// The bytes of `<pre>`.
pub open spec fn open_tag() -> Seq<u8> {
    encode_utf8("<pre>"@)
}

/// The bytes of `</pre>`.
pub open spec fn close_tag() -> Seq<u8> {
    encode_utf8("</pre>"@)
}

/// One message of a split text.
#[derive(Debug)]
pub struct Chunk {
    /// The message begins with a `<pre>` tag that the text does not hold.
    pub reopen: bool,
    /// The part of the text that the message carries.
    pub body: String,
    /// The message ends with a `</pre>` tag that the text does not hold.
    pub close: bool,
    /// The text has a line feed after this part that no message carries.
    pub newline_dropped: bool,
}

/// A message of a split text, its part of the text as bytes.
pub struct ChunkView {
    pub reopen: bool,
    pub body: Seq<u8>,
    pub close: bool,
    pub newline_dropped: bool,
}

impl View for Chunk {
    type V = ChunkView;

    open spec fn view(&self) -> ChunkView {
        ChunkView {
            reopen: self.reopen,
            body: encode_utf8(self.body@),
            close: self.close,
            newline_dropped: self.newline_dropped,
        }
    }
}

/// The views of a list of chunks.
pub open spec fn chunk_views(c: Seq<Chunk>) -> Seq<ChunkView> {
    c.map_values(|x: Chunk| x@)
}

impl ChunkView {
    /// The bytes that the message holds.
    pub open spec fn message(self) -> Seq<u8> {
        (if self.reopen {
            open_tag()
        } else {
            Seq::<u8>::empty()
        }) + self.body + (if self.close {
            close_tag()
        } else {
            Seq::<u8>::empty()
        })
    }

    /// The bytes of the text that the message stands for: its part, and the
    /// line feed dropped after it.
    pub open spec fn source(self) -> Seq<u8> {
        if self.newline_dropped {
            self.body.push(nl())
        } else {
            self.body
        }
    }
}

/// Index just after the last line feed among the first `to` bytes; 0 where
/// there is none.
pub open spec fn after_last_nl(b: Seq<u8>, to: int) -> int
    decreases to,
{
    if to <= 0 || to > b.len() {
        0
    } else if b[to - 1] == nl() {
        to
    } else {
        after_last_nl(b, to - 1)
    }
}

/// Where a text that does not fit `limit` bytes is cut: before the last line
/// feed within the longest prefix of whole characters that fits, or at the
/// end of that prefix where it holds no line feed but, at most, as its first
/// byte: a cut before that one would leave nothing for the message.
pub open spec fn cut_point(rem: Seq<u8>, limit: int) -> int {
    let safe_end = floor_boundary(rem, limit);
    let p = after_last_nl(rem, safe_end);
    if p > 1 {
        p - 1
    } else {
        safe_end
    }
}

/// Largest index at most `from` at which `pat` occurs in `hay`; -1 where
/// there is none.
pub open spec fn last_occurrence(hay: Seq<u8>, pat: Seq<u8>, from: int) -> int
    decreases from + 1,
{
    if from < 0 {
        -1
    } else if from + pat.len() <= hay.len() && hay.subrange(from, from + pat.len()) == pat {
        from
    } else {
        last_occurrence(hay, pat, from - 1)
    }
}

/// Whether a `<pre>` element is open after `raw`, given whether one was open
/// before it: decided by which of the two tags occurs last in `raw`, and
/// unchanged where neither occurs.
pub open spec fn open_after(raw: Seq<u8>, in_pre: bool) -> bool {
    let o = last_occurrence(raw, open_tag(), raw.len() as int);
    let c = last_occurrence(raw, close_tag(), raw.len() as int);
    if o == -1 && c == -1 {
        in_pre
    } else {
        o > c
    }
}

/// The bytes of the text that the last message may carry: the limit, less
/// the room for tags where the message begins inside a `<pre>` element.
pub open spec fn room(in_pre: bool, is_html: bool) -> int {
    if is_html && in_pre {
        TELEGRAM_MSG_LIMIT - TAG_OVERHEAD
    } else {
        TELEGRAM_MSG_LIMIT as int
    }
}

/// The bytes of the text that a message may carry when more follows. In a
/// text with markup the message may have to close a `<pre>` element, so the
/// closing tag has its room set aside; where the message begins inside one,
/// so has the tag that opens it again.
pub open spec fn budget(in_pre: bool, is_html: bool) -> int {
    if !is_html {
        TELEGRAM_MSG_LIMIT as int
    } else if in_pre {
        TELEGRAM_MSG_LIMIT - TAG_OVERHEAD
    } else {
        TELEGRAM_MSG_LIMIT - CLOSE_TAG_LEN
    }
}

/// The messages for what remains of a text.
pub open spec fn pieces(rem: Seq<u8>, in_pre: bool, is_html: bool) -> Seq<ChunkView>
    decreases rem.len(),
{
    if rem.len() == 0 {
        Seq::empty()
    } else if rem.len() <= room(in_pre, is_html) {
        seq![
            ChunkView { reopen: is_html && in_pre, body: rem, close: false, newline_dropped: false },
        ]
    } else {
        let cut = cut_point(rem, budget(in_pre, is_html));
        let raw = rem.take(cut);
        let rest = rem.skip(cut);
        let still_open = is_html && open_after(raw, in_pre);
        let dropped = rest.len() > 0 && rest[0] == nl();
        let next = if dropped {
            rest.skip(1)
        } else {
            rest
        };
        let first = ChunkView {
            reopen: is_html && in_pre,
            body: raw,
            close: still_open,
            newline_dropped: dropped,
        };
        if 0 <= cut <= rem.len() && next.len() < rem.len() {
            seq![first] + pieces(next, if is_html {
                still_open
            } else {
                in_pre
            }, is_html)
        } else {
            seq![first]
        }
    }
}

/// The messages for a text: the text itself where it fits one message, else
/// its pieces.
pub open spec fn planned(text: Seq<u8>, is_html: bool) -> Seq<ChunkView> {
    if text.len() <= TELEGRAM_MSG_LIMIT {
        seq![ChunkView { reopen: false, body: text, close: false, newline_dropped: false }]
    } else {
        pieces(text, false, is_html)
    }
}

/// The text that a list of messages stands for.
pub open spec fn reassembled(chunks: Seq<ChunkView>) -> Seq<u8>
    decreases chunks.len(),
{
    if chunks.len() == 0 {
        Seq::empty()
    } else {
        chunks[0].source() + reassembled(chunks.drop_first())
    }
}

/// Within any four consecutive indices of a valid text lies a character
/// boundary.
proof fn lemma_boundary_near(bytes: Seq<u8>, index: int)
    requires
        valid_utf8(bytes),
        0 <= index <= bytes.len(),
    ensures
        exists|b: int| index - 4 < b <= index && 0 <= b && is_char_boundary(bytes, b),
    decreases bytes.len(),
{
    if bytes.len() == 0 || index < length_of_first_scalar(bytes) {
        assert(is_char_boundary(bytes, 0));
    } else {
        let l = length_of_first_scalar(bytes);
        let tail = pop_first_scalar(bytes);
        lemma_boundary_near(tail, index - l);
        let b = choose|b: int| index - l - 4 < b <= index - l && 0 <= b && is_char_boundary(tail, b);
        assert(is_char_boundary(bytes, b + l));
    }
}

/// Rounding an index down to a character boundary moves it by less than four.
pub proof fn lemma_floor_boundary_near(bytes: Seq<u8>, index: int)
    requires
        valid_utf8(bytes),
        0 <= index <= bytes.len(),
    ensures
        floor_boundary(bytes, index) > index - 4,
{
    lemma_boundary_near(bytes, index);
    lemma_floor_boundary(bytes, index);
    let b = choose|b: int| index - 4 < b <= index && 0 <= b && is_char_boundary(bytes, b);
    if index == bytes.len() {
    } else if floor_boundary(bytes, index) < b {
    }
}

proof fn lemma_after_last_nl(b: Seq<u8>, to: int)
    requires
        0 <= to <= b.len(),
    ensures
        0 <= after_last_nl(b, to) <= to,
        after_last_nl(b, to) > 0 ==> b[after_last_nl(b, to) - 1] == nl(),
    decreases to,
{
    if to > 0 && b[to - 1] != nl() {
        lemma_after_last_nl(b, to - 1);
    }
}

/// A cut is between characters, leaves something before it, and no more
/// than the limit.
proof fn lemma_cut_progress(rem: Seq<u8>, limit: int)
    requires
        valid_utf8(rem),
        4 <= limit < rem.len(),
    ensures
        0 < cut_point(rem, limit) <= limit,
        is_char_boundary(rem, cut_point(rem, limit)),
{
    lemma_floor_boundary(rem, limit);
    lemma_floor_boundary_near(rem, limit);
    let safe_end = floor_boundary(rem, limit);
    lemma_after_last_nl(rem, safe_end);
    let p = after_last_nl(rem, safe_end);
    if p > 0 {
        vstd::utf8::is_char_boundary_iff_not_is_continuation_byte(rem, p - 1);
    }
}

/// The messages of a split text stand for the text: put one after another,
/// each without the tags added to it and with the line feed dropped after
/// it, they are the text again.
pub proof fn law_pieces_reassemble(rem: Seq<u8>, in_pre: bool, is_html: bool)
    requires
        valid_utf8(rem),
    ensures
        reassembled(pieces(rem, in_pre, is_html)) == rem,
    decreases rem.len(),
{
    let limit = budget(in_pre, is_html);
    if rem.len() == 0 {
    } else if rem.len() <= room(in_pre, is_html) {
        let only = pieces(rem, in_pre, is_html);
        reveal_with_fuel(reassembled, 2);
    } else {
        lemma_cut_progress(rem, limit);
        let cut = cut_point(rem, limit);
        let raw = rem.take(cut);
        let rest = rem.skip(cut);
        let dropped = rest.len() > 0 && rest[0] == nl();
        let next = if dropped {
            rest.skip(1)
        } else {
            rest
        };
        let still_open = is_html && open_after(raw, in_pre);
        let state = if is_html {
            still_open
        } else {
            in_pre
        };
        vstd::utf8::valid_utf8_split(rem, cut);
        if dropped {
            assert(is_char_boundary(rest, 1)) by {
                reveal_with_fuel(vstd::utf8::is_char_boundary, 2);
            }
            vstd::utf8::valid_utf8_split(rest, 1);
        }
        law_pieces_reassemble(next, state, is_html);
        let all = pieces(rem, in_pre, is_html);
        assert(all.drop_first() =~= pieces(next, state, is_html));
    }
}

/// The two tags are five and six bytes long.
pub proof fn lemma_tag_lengths()
    ensures
        open_tag().len() == 5,
        close_tag().len() == CLOSE_TAG_LEN,
        open_tag().len() + close_tag().len() == TAG_OVERHEAD,
{
    reveal_strlit("<pre>");
    reveal_strlit("</pre>");
    assert(vstd::utf8::is_ascii_chars("<pre>"@));
    assert(vstd::utf8::is_ascii_chars("</pre>"@));
    vstd::utf8::is_ascii_chars_encode_utf8("<pre>"@);
    vstd::utf8::is_ascii_chars_encode_utf8("</pre>"@);
}

/// Whether each message can be sent: with the tags added to it, it is no
/// longer than the limit of a message, and it carries some of the text.
pub open spec fn sendable(chunks: Seq<ChunkView>) -> bool {
    forall|i: int|
        0 <= i < chunks.len() ==> 0 < (#[trigger] chunks[i]).body.len() && chunks[i].message().len()
            <= TELEGRAM_MSG_LIMIT
}

/// Every message of a split text can be sent: none is longer than the limit,
/// tags included, and none is empty.
pub proof fn law_pieces_fit(rem: Seq<u8>, in_pre: bool, is_html: bool)
    requires
        valid_utf8(rem),
    ensures
        sendable(pieces(rem, in_pre, is_html)),
        rem.len() > 0 ==> pieces(rem, in_pre, is_html).len() > 0,
    decreases rem.len(),
{
    lemma_tag_lengths();
    let limit = budget(in_pre, is_html);
    if rem.len() == 0 {
    } else if rem.len() <= room(in_pre, is_html) {
    } else {
        lemma_cut_progress(rem, limit);
        let cut = cut_point(rem, limit);
        let raw = rem.take(cut);
        let rest = rem.skip(cut);
        let dropped = rest.len() > 0 && rest[0] == nl();
        let next = if dropped {
            rest.skip(1)
        } else {
            rest
        };
        let still_open = is_html && open_after(raw, in_pre);
        let state = if is_html {
            still_open
        } else {
            in_pre
        };
        vstd::utf8::valid_utf8_split(rem, cut);
        if dropped {
            assert(is_char_boundary(rest, 1)) by {
                reveal_with_fuel(vstd::utf8::is_char_boundary, 2);
            }
            vstd::utf8::valid_utf8_split(rest, 1);
        }
        law_pieces_fit(next, state, is_html);
        let all = pieces(rem, in_pre, is_html);
        let tail = pieces(next, state, is_html);
        assert(all =~= seq![all[0]] + tail);
        assert(all[0].body.len() == cut);
        assert forall|i: int| 0 <= i < all.len() implies 0 < (#[trigger] all[i]).body.len()
            && all[i].message().len() <= TELEGRAM_MSG_LIMIT by {
            if i > 0 {
                assert(all[i] == tail[i - 1]);
            }
        }
    }
}

/// Whether the messages carry an open `<pre>` element from one to the next:
/// the first begins with the tag where one is open before it; a message
/// ends with the closing tag only where one is open after its part of the
/// text; and every message but the last then does end with it, and the next
/// begins with the opening tag.
pub open spec fn tags_tracked(chunks: Seq<ChunkView>, in_pre: bool, is_html: bool) -> bool {
    &&& chunks.len() > 0 ==> chunks[0].reopen == (is_html && in_pre)
    &&& forall|i: int|
        0 <= i < chunks.len() ==> ((#[trigger] chunks[i]).close ==> is_html && open_after(
            chunks[i].body,
            chunks[i].reopen,
        ))
    &&& forall|i: int|
        0 <= i < chunks.len() - 1 ==> (#[trigger] chunks[i]).close == (is_html && open_after(
            chunks[i].body,
            chunks[i].reopen,
        )) && chunks[i + 1].reopen == chunks[i].close
}

/// The messages of a split text carry an open `<pre>` element from one to
/// the next.
pub proof fn law_tags_tracked(rem: Seq<u8>, in_pre: bool, is_html: bool)
    requires
        valid_utf8(rem),
    ensures
        tags_tracked(pieces(rem, in_pre, is_html), in_pre, is_html),
    decreases rem.len(),
{
    let limit = budget(in_pre, is_html);
    if rem.len() == 0 {
    } else if rem.len() <= room(in_pre, is_html) {
    } else {
        lemma_cut_progress(rem, limit);
        let cut = cut_point(rem, limit);
        let raw = rem.take(cut);
        let rest = rem.skip(cut);
        let dropped = rest.len() > 0 && rest[0] == nl();
        let next = if dropped {
            rest.skip(1)
        } else {
            rest
        };
        let still_open = is_html && open_after(raw, in_pre);
        let state = if is_html {
            still_open
        } else {
            in_pre
        };
        vstd::utf8::valid_utf8_split(rem, cut);
        if dropped {
            assert(is_char_boundary(rest, 1)) by {
                reveal_with_fuel(vstd::utf8::is_char_boundary, 2);
            }
            vstd::utf8::valid_utf8_split(rest, 1);
        }
        law_tags_tracked(next, state, is_html);
        let all = pieces(rem, in_pre, is_html);
        let tail = pieces(next, state, is_html);
        assert(all =~= seq![all[0]] + tail);
        assert forall|i: int| 0 <= i < all.len() implies ((#[trigger] all[i]).close ==> is_html
            && open_after(all[i].body, all[i].reopen)) by {
            if i > 0 {
                assert(all[i] == tail[i - 1]);
            }
        }
        assert forall|i: int| 0 <= i < all.len() - 1 implies (#[trigger] all[i]).close == (is_html
            && open_after(all[i].body, all[i].reopen)) && all[i + 1].reopen == all[i].close by {
            if i > 0 {
                assert(all[i] == tail[i - 1]);
                assert(all[i + 1] == tail[i]);
            } else {
                assert(all[1] == tail[0]);
            }
        }
    }
}

/// Every message planned for a text that is not empty can be sent, and
/// there is at least one message for any text.
pub proof fn law_chunks_fit(text: Seq<u8>, is_html: bool)
    requires
        valid_utf8(text),
    ensures
        text.len() > 0 ==> sendable(planned(text, is_html)),
        planned(text, is_html).len() > 0,
{
    if text.len() > TELEGRAM_MSG_LIMIT {
        law_pieces_fit(text, false, is_html);
    }
}

/// The messages planned for a text stand for the text.
pub proof fn law_chunks_reassemble(text: Seq<u8>, is_html: bool)
    requires
        valid_utf8(text),
    ensures
        reassembled(planned(text, is_html)) == text,
{
    if text.len() <= TELEGRAM_MSG_LIMIT {
        let only = planned(text, is_html);
        reveal_with_fuel(reassembled, 2);
    } else {
        law_pieces_reassemble(text, false, is_html);
    }
}

fn last_nl_before(b: &[u8], to: usize) -> (r: usize)
    requires
        to <= b@.len(),
    ensures
        r == after_last_nl(b@, to as int),
        r <= to,
{
    let mut i: usize = to;
    while i > 0 && b[i - 1] != 10u8
        invariant
            i <= to <= b@.len(),
            after_last_nl(b@, to as int) == after_last_nl(b@, i as int),
        decreases i,
    {
        i -= 1;
    }
    i
}

fn occurs(hay: &[u8], pat: &[u8], at: usize) -> (r: bool)
    requires
        at + pat@.len() <= hay@.len(),
    ensures
        r == (hay@.subrange(at as int, at + pat@.len()) == pat@),
{
    let _len = hay.len();
    let mut i: usize = 0;
    while i < pat.len()
        invariant
            i <= pat@.len(),
            at + pat@.len() <= hay@.len() <= usize::MAX,
            hay@.subrange(at as int, at + i) == pat@.take(i as int),
        decreases pat@.len() - i,
    {
        if hay[at + i] != pat[i] {
            return false;
        }
        i += 1;
    }
    assert(pat@.take(pat@.len() as int) =~= pat@);
    true
}

/// Index of the last occurrence of `pat` in `hay`, if there is one.
fn rfind_bytes(hay: &[u8], pat: &[u8]) -> (r: Option<usize>)
    ensures
        match r {
            Some(i) => last_occurrence(hay@, pat@, hay@.len() as int) == i,
            None => last_occurrence(hay@, pat@, hay@.len() as int) == -1,
        },
{
    if pat.len() > hay.len() {
        proof {
            lemma_no_occurrence(hay@, pat@, hay@.len() as int);
        }
        return None;
    }
    let top = hay.len() - pat.len();
    proof {
        lemma_skip_high(hay@, pat@, hay@.len() as int, top as int);
    }
    let mut i: usize = top;
    loop
        invariant_except_break
            i <= top,
            top + pat@.len() == hay@.len(),
            last_occurrence(hay@, pat@, hay@.len() as int) == last_occurrence(
                hay@,
                pat@,
                i as int,
            ),
        ensures
            last_occurrence(hay@, pat@, hay@.len() as int) == -1,
        decreases i,
    {
        if occurs(hay, pat, i) {
            return Some(i);
        }
        if i == 0 {
            proof {
                assert(last_occurrence(hay@, pat@, -1) == -1);
            }
            break ;
        }
        i -= 1;
    }
    None
}

/// There is no occurrence where the pattern is longer than the text.
proof fn lemma_no_occurrence(hay: Seq<u8>, pat: Seq<u8>, from: int)
    requires
        pat.len() > hay.len(),
    ensures
        last_occurrence(hay, pat, from) == -1,
    decreases from + 1,
{
    if from >= 0 {
        lemma_no_occurrence(hay, pat, from - 1);
    }
}

/// An occurrence cannot start where the pattern would pass the end.
proof fn lemma_skip_high(hay: Seq<u8>, pat: Seq<u8>, from: int, top: int)
    requires
        top + pat.len() == hay.len(),
        0 <= top <= from,
    ensures
        last_occurrence(hay, pat, from) == last_occurrence(hay, pat, top),
    decreases from - top,
{
    if from > top {
        if pat.len() == 0 {
        }
        lemma_skip_high(hay, pat, from - 1, top);
    }
}

fn pre_open_after(raw: &[u8], in_pre: bool) -> (r: bool)
    ensures
        r == open_after(raw@, in_pre),
{
    let o = rfind_bytes(raw, "<pre>".as_bytes());
    let c = rfind_bytes(raw, "</pre>".as_bytes());
    match (o, c) {
        (Some(o), Some(c)) => o > c,
        (Some(_), None) => true,
        (None, Some(_)) => false,
        (None, None) => in_pre,
    }
}

/// Cuts a text into its pieces.
fn split_pieces(text: &str, is_html: bool) -> (chunks: Vec<Chunk>)
    ensures
        chunk_views(chunks@) == pieces(text.spec_bytes(), false, is_html),
{
    let mut chunks: Vec<Chunk> = Vec::new();
    let mut remaining: &str = text;
    let mut in_pre = false;
    while byte_len(remaining) > 0
        invariant
            chunk_views(chunks@) + pieces(remaining.spec_bytes(), in_pre, is_html) == pieces(
                text.spec_bytes(),
                false,
                is_html,
            ),
        decreases remaining.spec_bytes().len(),
    {
        let ghost rem = remaining.spec_bytes();
        let ghost done = chunk_views(chunks@);
        let reopen = is_html && in_pre;
        let room = if reopen {
            TELEGRAM_MSG_LIMIT - TAG_OVERHEAD
        } else {
            TELEGRAM_MSG_LIMIT
        };
        let limit = if !is_html {
            TELEGRAM_MSG_LIMIT
        } else if in_pre {
            TELEGRAM_MSG_LIMIT - TAG_OVERHEAD
        } else {
            TELEGRAM_MSG_LIMIT - CLOSE_TAG_LEN
        };
        if byte_len(remaining) <= room {
            chunks.push(
                Chunk { reopen, body: String::from_str(remaining), close: false, newline_dropped: false },
            );
            proof {
                assert(chunk_views(chunks@) =~= done + pieces(rem, in_pre, is_html));
            }
            return chunks;
        }
        proof {
            lemma_cut_progress(rem, limit as int);
        }
        let safe_end = floor_char_boundary(remaining, limit);
        let p = last_nl_before(remaining.as_bytes(), safe_end);
        let cut = if p > 1 {
            p - 1
        } else {
            safe_end
        };
        let (raw, rest) = remaining.split_at(cut);
        let still_open = is_html && pre_open_after(raw.as_bytes(), in_pre);
        let rest_bytes = rest.as_bytes();
        let dropped = rest_bytes.len() > 0 && rest_bytes[0] == 10u8;
        let next: &str = if dropped {
            proof {
                assert(is_char_boundary(rest.spec_bytes(), 1)) by {
                    reveal_with_fuel(vstd::utf8::is_char_boundary, 2);
                }
            }
            let (_nl, tail) = rest.split_at(1);
            tail
        } else {
            rest
        };
        chunks.push(
            Chunk { reopen, body: String::from_str(raw), close: still_open, newline_dropped: dropped },
        );
        proof {
            let first = ChunkView {
                reopen,
                body: raw.spec_bytes(),
                close: still_open,
                newline_dropped: dropped,
            };
            assert(chunk_views(chunks@) =~= done.push(first));
            assert(pieces(rem, in_pre, is_html) =~= seq![first] + pieces(
                next.spec_bytes(),
                if is_html {
                    still_open
                } else {
                    in_pre
                },
                is_html,
            ));
        }
        if is_html {
            in_pre = still_open;
        }
        remaining = next;
    }
    proof {
        assert(chunk_views(chunks@) + Seq::<ChunkView>::empty() =~= chunk_views(chunks@));
    }
    chunks
}

/// Plans the messages for a text: one where the text fits the limit, else
/// the pieces between cuts. There is at least one message; the messages
/// stand for the text; where the text is not empty, no message is; none is
/// longer than the limit with the tags added to it; and a `<pre>` element
/// that a cut leaves open is closed before the cut and opened after it.
pub fn split_long_message(text: &str, is_html: bool) -> (chunks: Vec<Chunk>)
    ensures
        chunk_views(chunks@) == planned(text.spec_bytes(), is_html),
        reassembled(chunk_views(chunks@)) == text.spec_bytes(),
        chunks@.len() > 0,
        text@.len() > 0 ==> sendable(chunk_views(chunks@)),
        tags_tracked(chunk_views(chunks@), false, is_html),
        forall|i: int|
            0 <= i < chunks@.len() ==> (#[trigger] chunk_views(chunks@)[i]).message().len()
                <= TELEGRAM_MSG_LIMIT,
{
    proof {
        law_chunks_reassemble(text.spec_bytes(), is_html);
        law_chunks_fit(text.spec_bytes(), is_html);
        if text.spec_bytes().len() > TELEGRAM_MSG_LIMIT {
            law_tags_tracked(text.spec_bytes(), false, is_html);
        }
        if text@.len() == 0 {
            let only = planned(text.spec_bytes(), is_html);
            assert(only[0].message() =~= Seq::<u8>::empty());
        }
    }
    if byte_len(text) <= TELEGRAM_MSG_LIMIT {
        let mut chunks: Vec<Chunk> = Vec::new();
        chunks.push(
            Chunk { reopen: false, body: String::from_str(text), close: false, newline_dropped: false },
        );
        proof {
            assert(chunk_views(chunks@) =~= planned(text.spec_bytes(), is_html));
        }
        return chunks;
    }
    split_pieces(text, is_html)
}

/// The bytes of two texts, one after the other, are the bytes of the one
/// followed by the bytes of the other.
pub proof fn lemma_encode_concat(a: Seq<char>, b: Seq<char>)
    ensures
        encode_utf8(a + b) == encode_utf8(a) + encode_utf8(b),
    decreases a.len(),
{
    if a.len() == 0 {
        assert(a + b =~= b);
        assert(encode_utf8(a) + encode_utf8(b) =~= encode_utf8(b));
    } else {
        lemma_encode_concat(a.drop_first(), b);
        assert((a + b).drop_first() =~= a.drop_first() + b);
        assert(encode_utf8(a + b) =~= encode_utf8(a) + encode_utf8(b));
    }
}

impl Chunk {
    /// The text of the message: the part of the text that it carries,
    /// between the tags added to it. Its bytes are the message that the
    /// plan speaks of.
    pub fn message(&self) -> (m: String)
        ensures
            m@ == (if self.reopen {
                "<pre>"@
            } else {
                Seq::<char>::empty()
            }) + self.body@ + (if self.close {
                "</pre>"@
            } else {
                Seq::<char>::empty()
            }),
            encode_utf8(m@) == self@.message(),
    {
        let mut v: Vec<char> = Vec::new();
        if self.reopen {
            push_str(&mut v, "<pre>");
        }
        push_str(&mut v, self.body.as_str());
        if self.close {
            push_str(&mut v, "</pre>");
        }
        let m = string_of(v.as_slice());
        proof {
            let head = if self.reopen {
                "<pre>"@
            } else {
                Seq::<char>::empty()
            };
            let tail = if self.close {
                "</pre>"@
            } else {
                Seq::<char>::empty()
            };
            lemma_encode_concat(head + self.body@, tail);
            lemma_encode_concat(head, self.body@);
            assert(encode_utf8(Seq::<char>::empty()) =~= Seq::<u8>::empty());
        }
        m
    }
}

} // verus!
