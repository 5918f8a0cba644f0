//! Settings of one bot: its owner, and what each conversation has chosen.

use crate::markup::{escape, escaped};
use crate::session::clone_texts;
use crate::text::{
    chars_of, extend, join, join_with, push_str, same, split_words, string_of, string_views,
    subvec, views, words,
};
use std::collections::HashMap;
use vstd::prelude::*;
use vstd::string::StringExecFns;

verus! {
broadcast use vstd::std_specs::hash::group_hash_axioms;

/// What a bot remembers between runs.
pub struct BotSettings {
    /// Conversation to the tools the assistant may use there.
    pub allowed_tools: HashMap<i64, Vec<String>>,
    /// Conversation to its last working directory.
    pub last_sessions: HashMap<i64, String>,
    /// The user who owns the bot: the first who wrote to it.
    pub owner_user_id: Option<u64>,
    /// Group conversations that anyone may use.
    pub as_public_for_group_chat: HashMap<i64, bool>,
    /// Conversation to the model chosen for it.
    pub models: HashMap<i64, String>,
    pub debug: bool,
}

impl Default for BotSettings {
    fn default() -> (s: Self)
        ensures
            s.allowed_tools@ == Map::<i64, Vec<String>>::empty(),
            s.last_sessions@ == Map::<i64, String>::empty(),
            s.owner_user_id.is_none(),
            s.as_public_for_group_chat@ == Map::<i64, bool>::empty(),
            s.models@ == Map::<i64, String>::empty(),
            !s.debug,
    {
        BotSettings {
            allowed_tools: HashMap::new(),
            last_sessions: HashMap::new(),
            owner_user_id: None,
            as_public_for_group_chat: HashMap::new(),
            models: HashMap::new(),
            debug: false,
        }
    }
}

/// A tool of the assistant.
pub struct ToolEntry {
    pub name: &'static str,
    pub description: &'static str,
    /// Whether the tool can change or destroy something.
    pub destructive: bool,
}

/// The tools that the assistant has, in the order in which they are
/// listed: the name of each, what it does, and whether it is destructive.
pub open spec fn tool_table() -> Seq<(Seq<char>, Seq<char>, bool)> {
    seq![
        ("Bash"@, "Execute shell commands"@, true),
        ("Read"@, "Read file contents from the filesystem"@, false),
        ("Edit"@, "Perform find-and-replace edits in files"@, true),
        ("Write"@, "Create or overwrite files"@, true),
        ("Glob"@, "Find files by name pattern"@, false),
        ("Grep"@, "Search file contents with regex"@, false),
        ("Task"@, "Launch autonomous sub-agents for complex tasks"@, true),
        ("TaskOutput"@, "Retrieve output from background tasks"@, false),
        ("TaskStop"@, "Stop a running background task"@, false),
        ("WebFetch"@, "Fetch and process web page content"@, true),
        ("WebSearch"@, "Search the web for up-to-date information"@, true),
        ("NotebookEdit"@, "Edit Jupyter notebook cells"@, true),
        ("Skill"@, "Invoke slash-command skills"@, false),
        ("TaskCreate"@, "Create a structured task in the task list"@, false),
        ("TaskGet"@, "Retrieve task details by ID"@, false),
        ("TaskUpdate"@, "Update task status or details"@, false),
        ("TaskList"@, "List all tasks and their status"@, false),
        ("AskUserQuestion"@, "Ask the user a question (interactive)"@, false),
        ("EnterPlanMode"@, "Enter planning mode (interactive)"@, false),
        ("ExitPlanMode"@, "Exit planning mode (interactive)"@, false),
    ]
}

/// The names of the tools that the assistant has.
pub open spec fn tool_names() -> Seq<Seq<char>> {
    tool_table().map_values(|e: (Seq<char>, Seq<char>, bool)| e.0)
}

/// The entries of a tool list, as plain values.
pub open spec fn entry_views(t: Seq<ToolEntry>) -> Seq<(Seq<char>, Seq<char>, bool)> {
    t.map_values(|e: ToolEntry| (e.name@, e.description@, e.destructive))
}

/// How many of the listed tools are allowed where a conversation has made
/// no choice: all but the three that need a user at the terminal.
pub const DEFAULT_TOOL_COUNT: usize = 17;

/// The names of the entries of a tool list.
pub open spec fn entry_names(t: Seq<ToolEntry>) -> Seq<Seq<char>> {
    t.map_values(|e: ToolEntry| e.name@)
}

/// All tools of the assistant, with what they do.
pub fn all_tools() -> (t: Vec<ToolEntry>)
    ensures
        entry_views(t@) == tool_table(),
        entry_names(t@) == tool_names(),
        t@.len() == 20,
{
    let mut t: Vec<ToolEntry> = Vec::new();
    t.push(ToolEntry { name: "Bash", description: "Execute shell commands", destructive: true });
    t.push(
        ToolEntry {
            name: "Read",
            description: "Read file contents from the filesystem",
            destructive: false,
        },
    );
    t.push(
        ToolEntry {
            name: "Edit",
            description: "Perform find-and-replace edits in files",
            destructive: true,
        },
    );
    t.push(ToolEntry { name: "Write", description: "Create or overwrite files", destructive: true });
    t.push(ToolEntry { name: "Glob", description: "Find files by name pattern", destructive: false });
    t.push(
        ToolEntry { name: "Grep", description: "Search file contents with regex", destructive: false },
    );
    t.push(
        ToolEntry {
            name: "Task",
            description: "Launch autonomous sub-agents for complex tasks",
            destructive: true,
        },
    );
    t.push(
        ToolEntry {
            name: "TaskOutput",
            description: "Retrieve output from background tasks",
            destructive: false,
        },
    );
    t.push(
        ToolEntry {
            name: "TaskStop",
            description: "Stop a running background task",
            destructive: false,
        },
    );
    t.push(
        ToolEntry {
            name: "WebFetch",
            description: "Fetch and process web page content",
            destructive: true,
        },
    );
    t.push(
        ToolEntry {
            name: "WebSearch",
            description: "Search the web for up-to-date information",
            destructive: true,
        },
    );
    t.push(
        ToolEntry {
            name: "NotebookEdit",
            description: "Edit Jupyter notebook cells",
            destructive: true,
        },
    );
    t.push(
        ToolEntry { name: "Skill", description: "Invoke slash-command skills", destructive: false },
    );
    t.push(
        ToolEntry {
            name: "TaskCreate",
            description: "Create a structured task in the task list",
            destructive: false,
        },
    );
    t.push(
        ToolEntry { name: "TaskGet", description: "Retrieve task details by ID", destructive: false },
    );
    t.push(
        ToolEntry {
            name: "TaskUpdate",
            description: "Update task status or details",
            destructive: false,
        },
    );
    t.push(
        ToolEntry {
            name: "TaskList",
            description: "List all tasks and their status",
            destructive: false,
        },
    );
    t.push(
        ToolEntry {
            name: "AskUserQuestion",
            description: "Ask the user a question (interactive)",
            destructive: false,
        },
    );
    t.push(
        ToolEntry {
            name: "EnterPlanMode",
            description: "Enter planning mode (interactive)",
            destructive: false,
        },
    );
    t.push(
        ToolEntry {
            name: "ExitPlanMode",
            description: "Exit planning mode (interactive)",
            destructive: false,
        },
    );
    t
}

/// The tools allowed where a conversation has made no choice.
pub open spec fn default_tool_names() -> Seq<Seq<char>> {
    tool_names().take(DEFAULT_TOOL_COUNT as int)
}

/// The tools allowed where a conversation has made no choice.
pub fn default_allowed_tools() -> (t: Vec<String>)
    ensures
        string_views(t@) == default_tool_names(),
{
    let all = all_tools();
    let mut t: Vec<String> = Vec::new();
    let mut i: usize = 0;
    while i < DEFAULT_TOOL_COUNT
        invariant
            i <= DEFAULT_TOOL_COUNT,
            all@.len() == 20,
            entry_names(all@) == tool_names(),
            string_views(t@) == tool_names().take(i as int),
        decreases DEFAULT_TOOL_COUNT - i,
    {
        t.push(String::from_str(all[i].name));
        proof {
            assert(tool_names().take(i + 1) =~= tool_names().take(i as int).push(
                tool_names()[i as int],
            ));
        }
        i += 1;
    }
    t
}

/// Index of the first member of `list` that equals `name`; the length of
/// `list` where there is none.
pub open spec fn position(list: Seq<Seq<char>>, name: Seq<char>) -> int
    decreases list.len(),
{
    if list.len() == 0 {
        0
    } else if list[0] == name {
        0
    } else {
        1 + position(list.drop_first(), name)
    }
}

/// What `position` finds: the first place of the name, or the length of
/// the list exactly where the list does not hold the name.
pub proof fn lemma_position(list: Seq<Seq<char>>, name: Seq<char>)
    ensures
        0 <= position(list, name) <= list.len(),
        position(list, name) < list.len() ==> list[position(list, name)] == name,
        forall|j: int| 0 <= j < position(list, name) ==> list[j] != name,
        position(list, name) == list.len() <==> !list.contains(name),
    decreases list.len(),
{
    if list.len() > 0 && list[0] != name {
        lemma_position(list.drop_first(), name);
        let rest = list.drop_first();
        assert forall|j: int| 0 <= j < position(list, name) implies list[j] != name by {
            if j > 0 {
                assert(list[j] == rest[j - 1]);
            }
        }
        if rest.contains(name) {
            let k = choose|k: int| 0 <= k < rest.len() && rest[k] == name;
        }
        if list.contains(name) {
            let k = choose|k: int| 0 <= k < list.len() && list[k] == name;
        }
    }
}

/// Index of the first string of `list` that equals `name`.
pub fn find_name(list: &Vec<String>, name: &str) -> (r: usize)
    ensures
        r == position(string_views(list@), name@),
        r <= list@.len(),
        r < list@.len() <==> string_views(list@).contains(name@),
{
    let ghost l = string_views(list@);
    let target = chars_of(name);
    let mut i: usize = 0;
    proof {
        lemma_position(l, name@);
        assert(l.skip(0) =~= l);
    }
    while i < list.len()
        invariant
            i <= list@.len(),
            l == string_views(list@),
            target@ == name@,
            position(l, name@) == i + position(l.skip(i as int), name@),
        decreases list@.len() - i,
    {
        let cur = chars_of(list[i].as_str());
        proof {
            assert(l.skip(i as int).drop_first() =~= l.skip(i + 1));
        }
        if same(cur.as_slice(), target.as_slice()) {
            return i;
        }
        i += 1;
    }
    i
}

/// The tools that the assistant may use in a conversation.
pub open spec fn allowed_tools_of(settings: BotSettings, chat_id: i64) -> Seq<Seq<char>> {
    if settings.allowed_tools@.contains_key(chat_id) {
        string_views(settings.allowed_tools@[chat_id]@)
    } else {
        default_tool_names()
    }
}

/// The tools that the assistant may use in a conversation: those chosen for
/// it, or the defaults.
pub fn get_allowed_tools(settings: &BotSettings, chat_id: i64) -> (t: Vec<String>)
    ensures
        string_views(t@) == allowed_tools_of(*settings, chat_id),
{
    match settings.allowed_tools.get(&chat_id) {
        Some(list) => clone_texts(list),
        None => default_allowed_tools(),
    }
}

/// The model chosen for a conversation, if one was.
pub fn get_model(settings: &BotSettings, chat_id: i64) -> (m: Option<String>)
    ensures
        m is Some <==> settings.models@.contains_key(chat_id),
        m matches Some(s) ==> s@ == settings.models@[chat_id]@,
{
    match settings.models.get(&chat_id) {
        Some(m) => Some(m.clone()),
        None => None,
    }
}

/// The models that can be chosen.
pub open spec fn is_model_name(name: Seq<char>) -> bool {
    name == "sonnet"@ || name == "opus"@ || name == "haiku"@ || name == "sonnet[1m]"@ || name
        == "opus[1m]"@ || name == "haiku[1m]"@
}

/// The model that a name stands for: the name itself, where it is one of
/// those that can be chosen.
pub fn resolve_model_name(name: &str) -> (r: Option<String>)
    ensures
        r is Some <==> is_model_name(name@),
        r matches Some(s) ==> s@ == name@,
{
    let n = chars_of(name);
    if crate::text::is_text(n.as_slice(), "sonnet") || crate::text::is_text(n.as_slice(), "opus")
        || crate::text::is_text(n.as_slice(), "haiku") || crate::text::is_text(
        n.as_slice(),
        "sonnet[1m]",
    ) || crate::text::is_text(n.as_slice(), "opus[1m]") || crate::text::is_text(
        n.as_slice(),
        "haiku[1m]",
    ) {
        Some(String::from_str(name))
    } else {
        None
    }
}

/// The mark shown beside a destructive tool.
pub fn risk_badge(destructive: bool) -> (b: &'static str)
    ensures
        b@ == (if destructive {
            "!!!"@
        } else {
            ""@
        }),
{
    if destructive {
        "!!!"
    } else {
        ""
    }
}

/// What a tool does and whether it is destructive; for a tool that is not
/// listed, `Custom tool` and no.
pub open spec fn info_of(name: Seq<char>) -> (Seq<char>, bool) {
    let i = position(tool_names(), name);
    if 0 <= i < tool_table().len() {
        (tool_table()[i].1, tool_table()[i].2)
    } else {
        ("Custom tool"@, false)
    }
}

/// What a tool does and whether it is destructive.
pub fn tool_info(name: &str) -> (r: (&'static str, bool))
    ensures
        (r.0@, r.1) == info_of(name@),
{
    let all = all_tools();
    let target = chars_of(name);
    let ghost names = tool_names();
    let mut i: usize = 0;
    proof {
        assert(names.skip(0) =~= names);
    }
    while i < all.len()
        invariant
            i <= all@.len(),
            all@.len() == 20,
            target@ == name@,
            names == tool_names(),
            entry_names(all@) == names,
            entry_views(all@) == tool_table(),
            position(names, name@) == i + position(names.skip(i as int), name@),
        decreases all@.len() - i,
    {
        let cur = chars_of(all[i].name);
        proof {
            assert(names.skip(i as int).drop_first() =~= names.skip(i + 1));
        }
        if same(cur.as_slice(), target.as_slice()) {
            return (all[i].description, all[i].destructive);
        }
        i += 1;
    }
    ("Custom tool", false)
}

/// The lowercase form of a text.
pub uninterp spec fn lowercase(s: Seq<char>) -> Seq<char>;

/// The uppercase form of a character, which can be more than one character.
pub uninterp spec fn char_uppercase(c: char) -> Seq<char>;

/// `str::to_lowercase`.
#[verifier::external_body]
pub(crate) fn to_lowercase(s: &str) -> (r: String)
    ensures
        r@ == lowercase(s@),
{
    s.to_lowercase()
}

/// `char::to_uppercase`, collected.
#[verifier::external_body]
fn to_uppercase(c: char) -> (r: Vec<char>)
    ensures
        r@ == char_uppercase(c),
{
    c.to_uppercase().collect()
}

/// A tool's name as the lists hold it: in lowercase, but for its first
/// character, which is in uppercase.
pub open spec fn capitalized(lower: Seq<char>) -> Seq<char> {
    if lower.len() == 0 {
        Seq::<char>::empty()
    } else {
        char_uppercase(lower[0]) + lower.skip(1)
    }
}

/// Writes a lowercase name with its first character in uppercase.
pub fn capitalize(lower: &[char]) -> (out: Vec<char>)
    ensures
        out@ == capitalized(lower@),
{
    if lower.len() == 0 {
        return Vec::new();
    }
    let mut out = to_uppercase(lower[0]);
    let rest = subvec(lower, 1, lower.len());
    extend(&mut out, rest.as_slice());
    out
}

/// Brings a tool's name into the form in which the lists hold it.
pub fn normalize_tool_name(name: &str) -> (out: String)
    ensures
        out@ == capitalized(lowercase(name@)),
{
    let lower = to_lowercase(name);
    let l = chars_of(lower.as_str());
    let c = capitalize(l.as_slice());
    string_of(c.as_slice())
}

/// A change to a list of allowed tools.
pub enum ToolOp {
    Add(String),
    Remove(String),
}

/// A change to a list of allowed tools, its name as characters.
pub enum ToolOpView {
    Add(Seq<char>),
    Remove(Seq<char>),
}

impl View for ToolOp {
    type V = ToolOpView;

    open spec fn view(&self) -> ToolOpView {
        match self {
            ToolOp::Add(n) => ToolOpView::Add(n@),
            ToolOp::Remove(n) => ToolOpView::Remove(n@),
        }
    }
}

/// The views of a list of changes.
pub open spec fn op_views(ops: Seq<ToolOp>) -> Seq<ToolOpView> {
    ops.map_values(|o: ToolOp| o@)
}

/// The changes that a list of words asks for: `+name` adds, `-name`
/// removes, a bare sign and any other word ask for nothing.
pub open spec fn ops_of_words(w: Seq<Seq<char>>) -> Seq<ToolOpView>
    decreases w.len(),
{
    if w.len() == 0 {
        Seq::empty()
    } else {
        let before = ops_of_words(w.drop_last());
        let t = w.last();
        if t.len() > 1 && t[0] == '+' {
            before.push(ToolOpView::Add(capitalized(lowercase(t.skip(1)))))
        } else if t.len() > 1 && t[0] == '-' {
            before.push(ToolOpView::Remove(capitalized(lowercase(t.skip(1)))))
        } else {
            before
        }
    }
}

/// Reads the changes that the argument of the command asks for.
pub fn parse_tool_ops(arg: &str) -> (ops: Vec<ToolOp>)
    ensures
        op_views(ops@) == ops_of_words(words(arg@)),
{
    let a = chars_of(arg);
    let tokens = split_words(a.as_slice());
    let ghost w = words(arg@);
    let mut ops: Vec<ToolOp> = Vec::new();
    let mut i: usize = 0;
    while i < tokens.len()
        invariant
            i <= tokens@.len(),
            views(tokens@) == w,
            op_views(ops@) == ops_of_words(w.take(i as int)),
        decreases tokens@.len() - i,
    {
        proof {
            assert(w.take(i + 1).drop_last() =~= w.take(i as int));
        }
        let t = &tokens[i];
        if t.len() > 1 && (t[0] == '+' || t[0] == '-') {
            let rest = subvec(t.as_slice(), 1, t.len());
            let name = normalize_tool_name(string_of(rest.as_slice()).as_str());
            if t[0] == '+' {
                ops.push(ToolOp::Add(name));
            } else {
                ops.push(ToolOp::Remove(name));
            }
        }
        i += 1;
    }
    proof {
        assert(w.take(tokens@.len() as int) =~= w);
    }
    ops
}

/// A list without the members that equal `name`.
pub open spec fn without(list: Seq<Seq<char>>, name: Seq<char>) -> Seq<Seq<char>> {
    list.filter(|t: Seq<char>| t != name)
}

/// The list after one change.
pub open spec fn list_after(list: Seq<Seq<char>>, op: ToolOpView) -> Seq<Seq<char>> {
    match op {
        ToolOpView::Add(n) => if list.contains(n) {
            list
        } else {
            list.push(n)
        },
        ToolOpView::Remove(n) => without(list, n),
    }
}

/// Whether one change alters the list.
pub open spec fn alters(list: Seq<Seq<char>>, op: ToolOpView) -> bool {
    match op {
        ToolOpView::Add(n) => !list.contains(n),
        ToolOpView::Remove(n) => list.contains(n),
    }
}

/// The line that reports one change.
pub open spec fn report_line(list: Seq<Seq<char>>, op: ToolOpView) -> Seq<char> {
    match op {
        ToolOpView::Add(n) => if list.contains(n) {
            "<code>"@ + escaped(n) + "</code> already in list"@
        } else {
            "✅ <code>"@ + escaped(n) + "</code>"@
        },
        ToolOpView::Remove(n) => if list.contains(n) {
            "❌ <code>"@ + escaped(n) + "</code>"@
        } else {
            "<code>"@ + escaped(n) + "</code> not in list"@
        },
    }
}

/// The outcome of a run of changes.
pub struct OpsOutcome {
    pub list: Seq<Seq<char>>,
    pub lines: Seq<Seq<char>>,
    pub changed: bool,
}

/// The outcome of the changes `ops`, made one after another to `list`.
pub open spec fn ops_outcome(list: Seq<Seq<char>>, ops: Seq<ToolOpView>) -> OpsOutcome
    decreases ops.len(),
{
    if ops.len() == 0 {
        OpsOutcome { list, lines: Seq::empty(), changed: false }
    } else {
        let before = ops_outcome(list, ops.drop_last());
        OpsOutcome {
            list: list_after(before.list, ops.last()),
            lines: before.lines.push(report_line(before.list, ops.last())),
            changed: before.changed || alters(before.list, ops.last()),
        }
    }
}

/// Removes every member of a list that equals `name`.
pub fn remove_name(tools: &mut Vec<String>, name: &str)
    ensures
        string_views(final(tools)@) == without(string_views(old(tools)@), name@),
{
    let ghost l = string_views(tools@);
    let ghost pred = |t: Seq<char>| t != name@;
    let target = chars_of(name);
    let mut kept: Vec<String> = Vec::new();
    let mut i: usize = 0;
    while i < tools.len()
        invariant
            i <= tools@.len(),
            l == string_views(tools@),
            target@ == name@,
            pred == (|t: Seq<char>| t != name@),
            string_views(kept@) == l.take(i as int).filter(pred),
        decreases tools@.len() - i,
    {
        proof {
            assert(l.take(i + 1).drop_last() =~= l.take(i as int));
            reveal(Seq::filter);
        }
        let cur = chars_of(tools[i].as_str());
        if !same(cur.as_slice(), target.as_slice()) {
            kept.push(tools[i].clone());
        }
        i += 1;
    }
    proof {
        assert(l.take(tools@.len() as int) =~= l);
    }
    *tools = kept;
}

fn report(prefix: &str, name: &str, suffix: &str) -> (line: Vec<char>)
    ensures
        line@ == prefix@ + escaped(name@) + suffix@,
{
    let mut line: Vec<char> = Vec::new();
    push_str(&mut line, prefix);
    let n = chars_of(name);
    let e = escape(n.as_slice());
    extend(&mut line, e.as_slice());
    push_str(&mut line, suffix);
    line
}

/// Makes the changes to a list of allowed tools, one after another. Returns
/// the report, one line for each change, and whether the list was altered.
pub fn apply_tool_ops(tools: &mut Vec<String>, ops: &Vec<ToolOp>) -> (r: (String, bool))
    ensures
        string_views(final(tools)@) == ops_outcome(
            string_views(old(tools)@),
            op_views(ops@),
        ).list,
        r.0@ == join(ops_outcome(string_views(old(tools)@), op_views(ops@)).lines, "\n"@),
        r.1 == ops_outcome(string_views(old(tools)@), op_views(ops@)).changed,
{
    let ghost start = string_views(tools@);
    let ghost o = op_views(ops@);
    let mut lines: Vec<Vec<char>> = Vec::new();
    let mut changed = false;
    let mut i: usize = 0;
    proof {
        assert(views(lines@) =~= Seq::<Seq<char>>::empty());
    }
    while i < ops.len()
        invariant
            i <= ops@.len(),
            o == op_views(ops@),
            ops_outcome(start, o.take(i as int)) == (OpsOutcome {
                list: string_views(tools@),
                lines: views(lines@),
                changed,
            }),
        decreases ops@.len() - i,
    {
        let ghost before = views(lines@);
        let ghost list = string_views(tools@);
        proof {
            assert(o.take(i + 1).drop_last() =~= o.take(i as int));
        }
        match &ops[i] {
            ToolOp::Add(name) => {
                let at = find_name(tools, name.as_str());
                if at < tools.len() {
                    lines.push(report("<code>", name.as_str(), "</code> already in list"));
                } else {
                    tools.push(name.clone());
                    changed = true;
                    lines.push(report("✅ <code>", name.as_str(), "</code>"));
                    proof {
                        assert(string_views(tools@) =~= list.push(name@));
                    }
                }
            },
            ToolOp::Remove(name) => {
                let at = find_name(tools, name.as_str());
                if at < tools.len() {
                    remove_name(tools, name.as_str());
                    changed = true;
                    lines.push(report("❌ <code>", name.as_str(), "</code>"));
                } else {
                    proof {
                        lemma_without_absent(list, name@);
                    }
                    lines.push(report("<code>", name.as_str(), "</code> not in list"));
                }
            },
        }
        proof {
            assert(views(lines@) =~= before.push(report_line(list, ops@[i as int]@)));
        }
        i += 1;
    }
    proof {
        assert(o.take(ops@.len() as int) =~= o);
    }
    let text = join_with(&lines, "\n");
    (string_of(text.as_slice()), changed)
}

/// Removing a name that a list does not hold leaves the list as it is.
pub proof fn lemma_without_absent(list: Seq<Seq<char>>, name: Seq<char>)
    requires
        !list.contains(name),
    ensures
        without(list, name) == list,
    decreases list.len(),
{
    reveal(Seq::filter);
    if list.len() > 0 {
        let pred = |t: Seq<char>| t != name;
        assert forall|j: int| 0 <= j < list.drop_last().len() implies list.drop_last()[j]
            != name by {
        }
        lemma_without_absent(list.drop_last(), name);
    } else {
    }
}

/// The tools that are allowed by default but not in a conversation.
pub open spec fn disabled_tools(allowed: Seq<Seq<char>>) -> Seq<Seq<char>> {
    default_tool_names().filter(|t: Seq<char>| !allowed.contains(t))
}

/// What the assistant is told about tools that were switched off: nothing
/// where none was.
pub open spec fn disabled_notice(allowed: Seq<Seq<char>>) -> Seq<char> {
    if disabled_tools(allowed).len() == 0 {
        Seq::<char>::empty()
    } else {
        "\n\nDISABLED TOOLS: The following tools have been disabled by the user: "@ + join(
            disabled_tools(allowed),
            ", "@,
        )
            + ".\nYou MUST NOT attempt to use these tools. If a user's request requires a disabled tool, do NOT proceed with the task. Instead, clearly inform the user which tool is needed and that it is currently disabled. Suggest they re-enable it with: /allowed +ToolName"@
    }
}

/// Tells the assistant which of its usual tools a conversation has switched
/// off.
pub fn build_disabled_notice(allowed: &Vec<String>) -> (notice: String)
    ensures
        notice@ == disabled_notice(string_views(allowed@)),
{
    let defaults = default_allowed_tools();
    let ghost d = default_tool_names();
    let ghost a = string_views(allowed@);
    let ghost pred = |t: Seq<char>| !a.contains(t);
    let mut off: Vec<Vec<char>> = Vec::new();
    let mut i: usize = 0;
    while i < defaults.len()
        invariant
            i <= defaults@.len(),
            string_views(defaults@) == d,
            a == string_views(allowed@),
            pred == (|t: Seq<char>| !a.contains(t)),
            views(off@) == d.take(i as int).filter(pred),
        decreases defaults@.len() - i,
    {
        proof {
            assert(d.take(i + 1).drop_last() =~= d.take(i as int));
            reveal(Seq::filter);
        }
        let at = find_name(allowed, defaults[i].as_str());
        if at >= allowed.len() {
            off.push(chars_of(defaults[i].as_str()));
        }
        i += 1;
    }
    proof {
        assert(d.take(defaults@.len() as int) =~= d);
    }
    let mut v: Vec<char> = Vec::new();
    if off.len() > 0 {
        push_str(
            &mut v,
            "\n\nDISABLED TOOLS: The following tools have been disabled by the user: ",
        );
        let names = join_with(&off, ", ");
        extend(&mut v, names.as_slice());
        push_str(
            &mut v,
            ".\nYou MUST NOT attempt to use these tools. If a user's request requires a disabled tool, do NOT proceed with the task. Instead, clearly inform the user which tool is needed and that it is currently disabled. Suggest they re-enable it with: /allowed +ToolName",
        );
    }
    let notice = string_of(v.as_slice());
    notice
}

/// What is left of a list without a name is part of the list, and holds
/// nothing twice where the list holds nothing twice.
pub proof fn lemma_without_keeps_order(list: Seq<Seq<char>>, name: Seq<char>)
    ensures
        forall|x: Seq<char>| #[trigger]
            without(list, name).contains(x) ==> list.contains(x) && x != name,
        list.no_duplicates() ==> without(list, name).no_duplicates(),
    decreases list.len(),
{
    reveal(Seq::filter);
    if list.len() > 0 {
        let head = list.drop_last();
        let last = list.last();
        lemma_without_keeps_order(head, name);
        let kept = without(head, name);
        let all = without(list, name);
        assert forall|x: Seq<char>| #[trigger] all.contains(x) implies list.contains(x) && x
            != name by {
            let k = choose|k: int| 0 <= k < all.len() && all[k] == x;
            if k < kept.len() {
                assert(kept.contains(x));
                let j = choose|j: int| 0 <= j < head.len() && head[j] == x;
            } else {
            }
        }
        if list.no_duplicates() {
            assert forall|i: int, j: int| 0 <= i < head.len() && 0 <= j < head.len() && i
                != j implies head[i] != head[j] by {
            }
            if last != name {
                assert forall|i: int, j: int| 0 <= i < all.len() && 0 <= j < all.len() && i
                    != j implies all[i] != all[j] by {
                    if i < kept.len() && j < kept.len() {
                    } else {
                        let inner = if i < kept.len() {
                            i
                        } else {
                            j
                        };
                        assert(kept.contains(kept[inner]));
                        let m = choose|m: int| 0 <= m < head.len() && head[m] == kept[inner];
                    }
                }
            }
        }
    } else {
    }
}

} // verus!
