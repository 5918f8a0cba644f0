//! What the file manager's own subcommands answer when the assistant calls
//! them, and how an answer is shown in a conversation.

use crate::json::{
    array_len, is_json, item_str, json_array_len, json_item_str, json_str, json_valid, str_member,
};
use crate::text::{
    chars_of, decimal, decimal_of, extend, is_text, join, join_with, push_str, split_words,
    string_of, subvec, trim, trimmed, views, words,
};
use crate::tools::{member, member_or_empty};
use vstd::prelude::*;
use vstd::string::StringExecFns;

verus! {
/// One schedule of a list, as an answer holds it. A member that the answer
/// lacks is the empty text.
pub struct ListedSchedule {
    pub id: Option<String>,
    pub schedule: String,
    pub prompt: String,
}

/// A listed schedule, its texts as characters.
pub struct ListedView {
    pub id: Option<Seq<char>>,
    pub schedule: Seq<char>,
    pub prompt: Seq<char>,
}

impl View for ListedSchedule {
    type V = ListedView;

    open spec fn view(&self) -> ListedView {
        ListedView {
            id: crate::json::opt_view(self.id),
            schedule: self.schedule@,
            prompt: self.prompt@,
        }
    }
}

/// The views of a list of schedules.
pub open spec fn listed_views(l: Seq<ListedSchedule>) -> Seq<ListedView> {
    l.map_values(|x: ListedSchedule| x@)
}

/// What is read of an answer.
pub struct Answer {
    /// Whether the answer is a JSON document.
    pub valid: bool,
    pub status: String,
    pub message: Option<String>,
    pub time: Option<String>,
    pub id: Option<String>,
    pub prompt: String,
    pub schedule: String,
    pub path: Option<String>,
    /// The schedules listed, where the answer holds a list.
    pub schedules: Option<Vec<ListedSchedule>>,
}

/// An answer, its texts as characters.
pub struct AnswerView {
    pub valid: bool,
    pub status: Seq<char>,
    pub message: Option<Seq<char>>,
    pub time: Option<Seq<char>>,
    pub id: Option<Seq<char>>,
    pub prompt: Seq<char>,
    pub schedule: Seq<char>,
    pub path: Option<Seq<char>>,
    pub schedules: Option<Seq<ListedView>>,
}

impl View for Answer {
    type V = AnswerView;

    open spec fn view(&self) -> AnswerView {
        AnswerView {
            valid: self.valid,
            status: self.status@,
            message: crate::json::opt_view(self.message),
            time: crate::json::opt_view(self.time),
            id: crate::json::opt_view(self.id),
            prompt: self.prompt@,
            schedule: self.schedule@,
            path: crate::json::opt_view(self.path),
            schedules: match self.schedules {
                Some(l) => Some(listed_views(l@)),
                None => None,
            },
        }
    }
}

/// The schedule at `index` of the list in `text`.
pub open spec fn listed_at(text: Seq<char>, index: usize) -> ListedView {
    ListedView {
        id: json_item_str(text, "schedules"@, index, "id"@),
        schedule: match json_item_str(text, "schedules"@, index, "schedule"@) {
            Some(s) => s,
            None => Seq::<char>::empty(),
        },
        prompt: match json_item_str(text, "schedules"@, index, "prompt"@) {
            Some(s) => s,
            None => Seq::<char>::empty(),
        },
    }
}

/// What is read of the answer `text`.
pub open spec fn answer_of(text: Seq<char>) -> AnswerView {
    AnswerView {
        valid: json_valid(text),
        status: member_or_empty(text, "status"@),
        message: json_str(text, "message"@),
        time: json_str(text, "time"@),
        id: json_str(text, "id"@),
        prompt: member_or_empty(text, "prompt"@),
        schedule: member_or_empty(text, "schedule"@),
        path: json_str(text, "path"@),
        schedules: match json_array_len(text, "schedules"@) {
            Some(n) => Some(Seq::new(n as nat, |i: int| listed_at(text, i as usize))),
            None => None,
        },
    }
}

/// Reads an answer.
pub fn read_answer(text: &str) -> (a: Answer)
    ensures
        a@ == answer_of(text@),
{
    let schedules = match array_len(text, "schedules") {
        Some(n) => {
            let mut list: Vec<ListedSchedule> = Vec::new();
            let mut i: usize = 0;
            while i < n
                invariant
                    i <= n,
                    listed_views(list@) == Seq::new(i as nat, |k: int| listed_at(text@, k as usize)),
                decreases n - i,
            {
                let ghost before = listed_views(list@);
                let item = ListedSchedule {
                    id: item_str(text, "schedules", i, "id"),
                    schedule: match item_str(text, "schedules", i, "schedule") {
                        Some(s) => s,
                        None => String::new(),
                    },
                    prompt: match item_str(text, "schedules", i, "prompt") {
                        Some(s) => s,
                        None => String::new(),
                    },
                };
                list.push(item);
                proof {
                    assert(listed_views(list@) =~= before.push(listed_at(text@, i)));
                }
                i += 1;
            }
            Some(list)
        },
        None => None,
    };
    Answer {
        valid: is_json(text),
        status: member(text, "status"),
        message: str_member(text, "message"),
        time: str_member(text, "time"),
        id: str_member(text, "id"),
        prompt: member(text, "prompt"),
        schedule: member(text, "schedule"),
        path: str_member(text, "path"),
        schedules,
    }
}

/// An optional text, or `?` in its place.
pub open spec fn or_unknown(o: Option<Seq<char>>) -> Seq<char> {
    match o {
        Some(s) => s,
        None => "?"@,
    }
}

/// A prompt as a list shows it: its first 40 characters and three dots
/// where it is longer.
pub open spec fn preview(prompt: Seq<char>) -> Seq<char> {
    if prompt.len() > 40 {
        prompt.take(40) + "..."@
    } else {
        prompt
    }
}

/// The entry of a list for the schedule at `index`, counted from 0.
pub open spec fn listed_line(s: ListedView, index: nat) -> Seq<char> {
    "\n"@ + decimal(index + 1) + ". "@ + preview(s.prompt) + "\n   🕐 `"@ + s.schedule
        + "`\n   🔖 "@ + or_unknown(s.id)
}

/// The lines of a list of schedules: how many there are, then one entry
/// for each.
pub open spec fn list_lines(l: Seq<ListedView>) -> Seq<Seq<char>> {
    seq!["📋 "@ + decimal(l.len()) + " schedule(s)"@] + Seq::new(
        l.len(),
        |i: int| listed_line(l[i], i as nat),
    )
}

/// How an answer to the subcommand `cmd` is shown. `content` is the answer
/// as the assistant reported it, `effective` the text that was read, which
/// is the same but for a schedule registered without a reported answer.
pub open spec fn shown(cmd: Seq<char>, content: Seq<char>, effective: Seq<char>, a: AnswerView) -> Seq<char> {
    if !a.valid {
        effective
    } else if a.status == "error"@ {
        "❌ "@ + (match a.message {
            Some(m) => m,
            None => "unknown error"@,
        })
    } else if cmd == "currenttime"@ {
        "🕐 "@ + or_unknown(a.time)
    } else if cmd == "cron"@ {
        "✅ Scheduled ["@ + (if words(a.schedule).len() == 5 {
            "cron"@
        } else {
            "once"@
        }) + "]\n🔖 "@ + or_unknown(a.id) + "\n📝 "@ + a.prompt + "\n🕐 `"@ + a.schedule + "`"@
    } else if cmd == "cron-list"@ {
        match a.schedules {
            Some(l) => if l.len() == 0 {
                "📋 No schedules found."@
            } else {
                join(list_lines(l), "\n"@)
            },
            None => content,
        }
    } else if cmd == "cron-remove"@ {
        "✅ Removed\n🔖 "@ + or_unknown(a.id)
    } else if cmd == "cron-update"@ {
        "✅ Updated\n🕐 `"@ + a.schedule + "`\n🔖 "@ + or_unknown(a.id)
    } else if cmd == "sendfile"@ {
        "📎 "@ + or_unknown(a.path)
    } else {
        content
    }
}

fn push_or_unknown(v: &mut Vec<char>, o: &Option<String>)
    ensures
        final(v)@ == old(v)@ + or_unknown(crate::json::opt_view(*o)),
{
    match o {
        Some(s) => push_str(v, s.as_str()),
        None => push_str(v, "?"),
    }
}

fn count_line(n: usize) -> (v: Vec<char>)
    ensures
        v@ == "📋 "@ + decimal(n as nat) + " schedule(s)"@,
{
    let mut v: Vec<char> = Vec::new();
    push_str(&mut v, "📋 ");
    let d = decimal_of(n as u64);
    extend(&mut v, d.as_slice());
    push_str(&mut v, " schedule(s)");
    v
}

fn schedule_line(s: &ListedSchedule, index: usize) -> (v: Vec<char>)
    requires
        index < usize::MAX,
    ensures
        v@ == listed_line(s@, index as nat),
{
    let mut v: Vec<char> = Vec::new();
    push_str(&mut v, "\n");
    let d = decimal_of((index + 1) as u64);
    extend(&mut v, d.as_slice());
    push_str(&mut v, ". ");
    let p = chars_of(s.prompt.as_str());
    if p.len() > 40 {
        let head = subvec(p.as_slice(), 0, 40);
        extend(&mut v, head.as_slice());
        push_str(&mut v, "...");
    } else {
        extend(&mut v, p.as_slice());
    }
    push_str(&mut v, "\n   🕐 `");
    push_str(&mut v, s.schedule.as_str());
    push_str(&mut v, "`\n   🔖 ");
    push_or_unknown(&mut v, &s.id);
    v
}

fn list_text(list: &Vec<ListedSchedule>) -> (v: Vec<char>)
    ensures
        v@ == join(list_lines(listed_views(list@)), "\n"@),
{
    let ghost l = listed_views(list@);
    let ghost head = "📋 "@ + decimal(list@.len() as nat) + " schedule(s)"@;
    let mut lines: Vec<Vec<char>> = Vec::new();
    lines.push(count_line(list.len()));
    let mut i: usize = 0;
    while i < list.len()
        invariant
            i <= list@.len(),
            l == listed_views(list@),
            head == "📋 "@ + decimal(list@.len() as nat) + " schedule(s)"@,
            views(lines@) == seq![head] + Seq::new(i as nat, |k: int| listed_line(l[k], k as nat)),
        decreases list@.len() - i,
    {
        let ghost before = views(lines@);
        lines.push(schedule_line(&list[i], i));
        proof {
            assert(views(lines@) =~= before.push(listed_line(l[i as int], i as nat)));
        }
        i += 1;
    }
    join_with(&lines, "\n")
}

/// Shows an answer that was read.
pub fn describe_answer(cmd: &str, content: &str, effective: &str, a: &Answer) -> (s: String)
    ensures
        s@ == shown(cmd@, content@, effective@, a@),
{
    if !a.valid {
        return String::from_str(effective);
    }
    let c = chars_of(cmd);
    let c = c.as_slice();
    let status = chars_of(a.status.as_str());
    let mut v: Vec<char> = Vec::new();
    if is_text(status.as_slice(), "error") {
        push_str(&mut v, "❌ ");
        match &a.message {
            Some(m) => push_str(&mut v, m.as_str()),
            None => push_str(&mut v, "unknown error"),
        }
    } else if is_text(c, "currenttime") {
        push_str(&mut v, "🕐 ");
        push_or_unknown(&mut v, &a.time);
    } else if is_text(c, "cron") {
        let sched = chars_of(a.schedule.as_str());
        let w = split_words(sched.as_slice());
        push_str(&mut v, "✅ Scheduled [");
        if w.len() == 5 {
            push_str(&mut v, "cron");
        } else {
            push_str(&mut v, "once");
        }
        push_str(&mut v, "]\n🔖 ");
        push_or_unknown(&mut v, &a.id);
        push_str(&mut v, "\n📝 ");
        push_str(&mut v, a.prompt.as_str());
        push_str(&mut v, "\n🕐 `");
        push_str(&mut v, a.schedule.as_str());
        push_str(&mut v, "`");
    } else if is_text(c, "cron-list") {
        match &a.schedules {
            Some(list) => {
                if list.len() == 0 {
                    push_str(&mut v, "📋 No schedules found.");
                } else {
                    v = list_text(list);
                }
            },
            None => push_str(&mut v, content),
        }
    } else if is_text(c, "cron-remove") {
        push_str(&mut v, "✅ Removed\n🔖 ");
        push_or_unknown(&mut v, &a.id);
    } else if is_text(c, "cron-update") {
        push_str(&mut v, "✅ Updated\n🕐 `");
        push_str(&mut v, a.schedule.as_str());
        push_str(&mut v, "`\n🔖 ");
        push_or_unknown(&mut v, &a.id);
    } else if is_text(c, "sendfile") {
        push_str(&mut v, "📎 ");
        push_or_unknown(&mut v, &a.path);
    } else {
        push_str(&mut v, content);
    }
    string_of(v.as_slice())
}

/// Whether the answer of a subcommand is to be read from the file that the
/// subcommand left: so for a schedule registered without a reported answer.
pub open spec fn result_file_wanted(cmd: Seq<char>, content: Seq<char>) -> bool {
    trim(content).len() == 0 && cmd == "cron"@
}

/// Whether the answer is to be read from the file that the subcommand
/// left.
pub fn wants_result_file(cmd: &str, content: &str) -> (r: bool)
    ensures
        r == result_file_wanted(cmd@, content@),
{
    let c = chars_of(content);
    let t = trimmed(c.as_slice());
    let n = chars_of(cmd);
    t.len() == 0 && is_text(n.as_slice(), "cron")
}

/// Shows the answer of the subcommand `cmd`: `effective` is read, without
/// white space around it, and shown; an answer that is no JSON document is
/// shown as it is.
pub fn format_cokacdir_result(cmd: &str, content: &str, effective: &str) -> (s: String)
    ensures
        s@ == shown(cmd@, content@, effective@, answer_of(trim(effective@))),
{
    let e = chars_of(effective);
    let t = trimmed(e.as_slice());
    let text = string_of(t.as_slice());
    let answer = read_answer(text.as_str());
    describe_answer(cmd, content, effective, &answer)
}

} // verus!
