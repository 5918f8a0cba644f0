//! What the assistant's tool calls look like in a conversation: a short
//! line for each call, read from the JSON text of its input.

use crate::json::{
    array_len, bool_member, is_json, item_str, json_array_len, json_bool, json_item_str, json_str,
    json_valid, str_member,
};
use crate::text::{
    chars_of, decimal, decimal_of, extend, has_prefix, is_text, lines, push_str, same, split_lines,
    split_words, starts_with, string_of, subvec, trim_start, trimmed_start, views, words,
};
use vstd::prelude::*;
use vstd::string::StringExecFns;

verus! {
/// The tools whose calls are shown in a form of their own.
#[derive(Clone, Copy, Debug, PartialEq, Eq, Structural)]
pub enum ToolKind {
    /// `first`: description, `second`: command.
    Bash,
    /// `first`: file path.
    Read,
    /// `first`: file path, `second`: content.
    Write,
    /// `first`: file path, `flag`: replace all.
    Edit,
    /// `first`: pattern, `second`: path.
    Glob,
    /// `first`: pattern, `second`: path, `third`: output mode.
    Grep,
    /// `first`: notebook path, `second`: cell.
    NotebookEdit,
    /// `first`: query.
    WebSearch,
    /// `first`: address.
    WebFetch,
    /// `first`: description, `second`: kind of agent.
    Task,
    /// `first`: task.
    TaskOutput,
    /// `first`: task.
    TaskStop,
    /// `flag`: the list is there; `counts`: its entries that are pending, in
    /// progress and completed.
    TodoWrite,
    /// `first`: skill.
    Skill,
    /// `flag`: there is a first question; `first`: its text.
    AskUserQuestion,
    ExitPlanMode,
    EnterPlanMode,
    /// `first`: subject.
    TaskCreate,
    /// `first`: task, `second`: status.
    TaskUpdate,
    /// `first`: task.
    TaskGet,
    TaskList,
    /// Any other tool, and any tool whose input is no JSON document.
    Other,
}

/// What is read of a tool call's input. Which members are read, and where
/// they are kept, depends on the tool; a member that the input lacks is
/// kept as the empty text.
pub struct ToolCall {
    pub kind: ToolKind,
    pub first: String,
    pub second: String,
    pub third: String,
    pub flag: bool,
    pub counts: (usize, usize, usize),
}

/// A tool call, its texts as characters.
pub struct ToolCallView {
    pub kind: ToolKind,
    pub first: Seq<char>,
    pub second: Seq<char>,
    pub third: Seq<char>,
    pub flag: bool,
    pub counts: (usize, usize, usize),
}

impl View for ToolCall {
    type V = ToolCallView;

    open spec fn view(&self) -> ToolCallView {
        ToolCallView {
            kind: self.kind,
            first: self.first@,
            second: self.second@,
            third: self.third@,
            flag: self.flag,
            counts: self.counts,
        }
    }
}

/// The tool that a name stands for, where its input is a JSON document.
pub open spec fn kind_named(name: Seq<char>) -> ToolKind {
    if name == "Bash"@ {
        ToolKind::Bash
    } else if name == "Read"@ {
        ToolKind::Read
    } else if name == "Write"@ {
        ToolKind::Write
    } else if name == "Edit"@ {
        ToolKind::Edit
    } else if name == "Glob"@ {
        ToolKind::Glob
    } else if name == "Grep"@ {
        ToolKind::Grep
    } else if name == "NotebookEdit"@ {
        ToolKind::NotebookEdit
    } else if name == "WebSearch"@ {
        ToolKind::WebSearch
    } else if name == "WebFetch"@ {
        ToolKind::WebFetch
    } else if name == "Task"@ {
        ToolKind::Task
    } else if name == "TaskOutput"@ {
        ToolKind::TaskOutput
    } else if name == "TaskStop"@ {
        ToolKind::TaskStop
    } else if name == "TodoWrite"@ {
        ToolKind::TodoWrite
    } else if name == "Skill"@ {
        ToolKind::Skill
    } else if name == "AskUserQuestion"@ {
        ToolKind::AskUserQuestion
    } else if name == "ExitPlanMode"@ {
        ToolKind::ExitPlanMode
    } else if name == "EnterPlanMode"@ {
        ToolKind::EnterPlanMode
    } else if name == "TaskCreate"@ {
        ToolKind::TaskCreate
    } else if name == "TaskUpdate"@ {
        ToolKind::TaskUpdate
    } else if name == "TaskGet"@ {
        ToolKind::TaskGet
    } else if name == "TaskList"@ {
        ToolKind::TaskList
    } else {
        ToolKind::Other
    }
}

/// The tool that a name stands for.
pub fn tool_kind(name: &str) -> (k: ToolKind)
    ensures
        k == kind_named(name@),
{
    let n = chars_of(name);
    let n = n.as_slice();
    if is_text(n, "Bash") {
        ToolKind::Bash
    } else if is_text(n, "Read") {
        ToolKind::Read
    } else if is_text(n, "Write") {
        ToolKind::Write
    } else if is_text(n, "Edit") {
        ToolKind::Edit
    } else if is_text(n, "Glob") {
        ToolKind::Glob
    } else if is_text(n, "Grep") {
        ToolKind::Grep
    } else if is_text(n, "NotebookEdit") {
        ToolKind::NotebookEdit
    } else if is_text(n, "WebSearch") {
        ToolKind::WebSearch
    } else if is_text(n, "WebFetch") {
        ToolKind::WebFetch
    } else if is_text(n, "Task") {
        ToolKind::Task
    } else if is_text(n, "TaskOutput") {
        ToolKind::TaskOutput
    } else if is_text(n, "TaskStop") {
        ToolKind::TaskStop
    } else if is_text(n, "TodoWrite") {
        ToolKind::TodoWrite
    } else if is_text(n, "Skill") {
        ToolKind::Skill
    } else if is_text(n, "AskUserQuestion") {
        ToolKind::AskUserQuestion
    } else if is_text(n, "ExitPlanMode") {
        ToolKind::ExitPlanMode
    } else if is_text(n, "EnterPlanMode") {
        ToolKind::EnterPlanMode
    } else if is_text(n, "TaskCreate") {
        ToolKind::TaskCreate
    } else if is_text(n, "TaskUpdate") {
        ToolKind::TaskUpdate
    } else if is_text(n, "TaskGet") {
        ToolKind::TaskGet
    } else if is_text(n, "TaskList") {
        ToolKind::TaskList
    } else {
        ToolKind::Other
    }
}

/// The string that a document holds under `key`, or the empty text.
pub open spec fn member_or_empty(text: Seq<char>, key: Seq<char>) -> Seq<char> {
    match json_str(text, key) {
        Some(s) => s,
        None => Seq::<char>::empty(),
    }
}

/// The string that a document holds under `key`, or the empty text.
pub fn member(text: &str, key: &str) -> (s: String)
    ensures
        s@ == member_or_empty(text@, key@),
{
    match str_member(text, key) {
        Some(s) => s,
        None => String::new(),
    }
}

/// How many of the first `n` entries of the list under `todos` have the
/// given status.
pub open spec fn status_count(input: Seq<char>, n: nat, status: Seq<char>) -> nat
    decreases n,
{
    if n == 0 {
        0
    } else {
        status_count(input, (n - 1) as nat, status) + if json_item_str(
            input,
            "todos"@,
            (n - 1) as usize,
            "status"@,
        ) == Some(status) {
            1nat
        } else {
            0nat
        }
    }
}

/// The keys under which a tool's three texts are read; the empty key for a
/// text that the tool does not have.
pub open spec fn keys_of(kind: ToolKind) -> (Seq<char>, Seq<char>, Seq<char>) {
    match kind {
        ToolKind::Bash => ("description"@, "command"@, ""@),
        ToolKind::Read => ("file_path"@, ""@, ""@),
        ToolKind::Write => ("file_path"@, "content"@, ""@),
        ToolKind::Edit => ("file_path"@, ""@, ""@),
        ToolKind::Glob => ("pattern"@, "path"@, ""@),
        ToolKind::Grep => ("pattern"@, "path"@, "output_mode"@),
        ToolKind::NotebookEdit => ("notebook_path"@, "cell_id"@, ""@),
        ToolKind::WebSearch => ("query"@, ""@, ""@),
        ToolKind::WebFetch => ("url"@, ""@, ""@),
        ToolKind::Task => ("description"@, "subagent_type"@, ""@),
        ToolKind::TaskOutput => ("task_id"@, ""@, ""@),
        ToolKind::TaskStop => ("task_id"@, ""@, ""@),
        ToolKind::Skill => ("skill"@, ""@, ""@),
        ToolKind::TaskCreate => ("subject"@, ""@, ""@),
        ToolKind::TaskUpdate => ("taskId"@, "status"@, ""@),
        ToolKind::TaskGet => ("taskId"@, ""@, ""@),
        _ => (""@, ""@, ""@),
    }
}

/// A text of a tool call: the member under `key`, or the empty text for
/// the empty key.
pub open spec fn slot(input: Seq<char>, key: Seq<char>) -> Seq<char> {
    if key.len() == 0 {
        Seq::<char>::empty()
    } else {
        member_or_empty(input, key)
    }
}

/// The mark of a tool call: whether an edit replaces all, whether the list
/// of to-dos is there, whether there is a first question.
pub open spec fn flag_of(kind: ToolKind, input: Seq<char>) -> bool {
    match kind {
        ToolKind::Edit => json_bool(input, "replace_all"@) == Some(true),
        ToolKind::TodoWrite => json_array_len(input, "todos"@) is Some,
        ToolKind::AskUserQuestion => match json_array_len(input, "questions"@) {
            Some(n) => n > 0,
            None => false,
        },
        _ => false,
    }
}

/// What is read of the input of a call of the tool `name`.
pub open spec fn tool_call_of(name: Seq<char>, input: Seq<char>) -> ToolCallView {
    let kind = if json_valid(input) {
        kind_named(name)
    } else {
        ToolKind::Other
    };
    let keys = keys_of(kind);
    let n: nat = match json_array_len(input, "todos"@) {
        Some(n) => n as nat,
        None => 0,
    };
    ToolCallView {
        kind,
        first: if kind == ToolKind::AskUserQuestion {
            if flag_of(kind, input) {
                match json_item_str(input, "questions"@, 0, "question"@) {
                    Some(q) => q,
                    None => Seq::<char>::empty(),
                }
            } else {
                Seq::<char>::empty()
            }
        } else {
            slot(input, keys.0)
        },
        second: slot(input, keys.1),
        third: slot(input, keys.2),
        flag: flag_of(kind, input),
        counts: if kind == ToolKind::TodoWrite {
            (
                status_count(input, n, "pending"@) as usize,
                status_count(input, n, "in_progress"@) as usize,
                status_count(input, n, "completed"@) as usize,
            )
        } else {
            (0usize, 0usize, 0usize)
        },
    }
}

fn read_slot(input: &str, key: &str) -> (s: String)
    ensures
        s@ == slot(input@, key@),
{
    if key.is_empty() {
        String::new()
    } else {
        member(input, key)
    }
}

fn count_status(input: &str, n: usize, status: &str) -> (c: usize)
    ensures
        c == status_count(input@, n as nat, status@),
{
    let want = chars_of(status);
    let mut c: usize = 0;
    let mut i: usize = 0;
    while i < n
        invariant
            i <= n,
            c <= i,
            want@ == status@,
            c == status_count(input@, i as nat, status@),
        decreases n - i,
    {
        match item_str(input, "todos", i, "status") {
            Some(s) => {
                let have = chars_of(s.as_str());
                if same(have.as_slice(), want.as_slice()) {
                    c += 1;
                }
            },
            None => {},
        }
        i += 1;
    }
    c
}

/// Reads the input of a call of the tool `name`.
pub fn read_tool_call(name: &str, input: &str) -> (call: ToolCall)
    ensures
        call@ == tool_call_of(name@, input@),
{
    let kind = if is_json(input) {
        tool_kind(name)
    } else {
        ToolKind::Other
    };
    let (k1, k2, k3): (&str, &str, &str) = match kind {
        ToolKind::Bash => ("description", "command", ""),
        ToolKind::Read => ("file_path", "", ""),
        ToolKind::Write => ("file_path", "content", ""),
        ToolKind::Edit => ("file_path", "", ""),
        ToolKind::Glob => ("pattern", "path", ""),
        ToolKind::Grep => ("pattern", "path", "output_mode"),
        ToolKind::NotebookEdit => ("notebook_path", "cell_id", ""),
        ToolKind::WebSearch => ("query", "", ""),
        ToolKind::WebFetch => ("url", "", ""),
        ToolKind::Task => ("description", "subagent_type", ""),
        ToolKind::TaskOutput => ("task_id", "", ""),
        ToolKind::TaskStop => ("task_id", "", ""),
        ToolKind::Skill => ("skill", "", ""),
        ToolKind::TaskCreate => ("subject", "", ""),
        ToolKind::TaskUpdate => ("taskId", "status", ""),
        ToolKind::TaskGet => ("taskId", "", ""),
        _ => ("", "", ""),
    };
    let flag = match kind {
        ToolKind::Edit => match bool_member(input, "replace_all") {
            Some(b) => b,
            None => false,
        },
        ToolKind::TodoWrite => array_len(input, "todos").is_some(),
        ToolKind::AskUserQuestion => match array_len(input, "questions") {
            Some(n) => n > 0,
            None => false,
        },
        _ => false,
    };
    let first = match kind {
        ToolKind::AskUserQuestion => {
            if flag {
                match item_str(input, "questions", 0, "question") {
                    Some(q) => q,
                    None => String::new(),
                }
            } else {
                String::new()
            }
        },
        _ => read_slot(input, k1),
    };
    let counts = match kind {
        ToolKind::TodoWrite => {
            let n = match array_len(input, "todos") {
                Some(n) => n,
                None => 0,
            };
            (
                count_status(input, n, "pending"),
                count_status(input, n, "in_progress"),
                count_status(input, n, "completed"),
            )
        },
        _ => (0, 0, 0),
    };
    ToolCall { kind, first, second: read_slot(input, k2), third: read_slot(input, k3), flag, counts }
}

/// The line that shows a tool call. `name` and `input` are shown as they
/// are for a tool without a form of its own.
pub open spec fn described(call: ToolCallView, name: Seq<char>, input: Seq<char>) -> Seq<char> {
    match call.kind {
        ToolKind::Bash => if call.first.len() > 0 {
            call.first + ": `"@ + call.second + "`"@
        } else {
            "`"@ + call.second + "`"@
        },
        ToolKind::Read => "Read "@ + call.first,
        ToolKind::Write => if lines(call.second).len() > 0 {
            "Write "@ + call.first + " ("@ + decimal(lines(call.second).len()) + " lines)"@
        } else {
            "Write "@ + call.first
        },
        ToolKind::Edit => if call.flag {
            "Edit "@ + call.first + " (replace all)"@
        } else {
            "Edit "@ + call.first
        },
        ToolKind::Glob => if call.second.len() > 0 {
            "Glob "@ + call.first + " in "@ + call.second
        } else {
            "Glob "@ + call.first
        },
        ToolKind::Grep => if call.second.len() > 0 {
            if call.third.len() > 0 {
                "Grep \""@ + call.first + "\" in "@ + call.second + " ("@ + call.third + ")"@
            } else {
                "Grep \""@ + call.first + "\" in "@ + call.second
            }
        } else {
            "Grep \""@ + call.first + "\""@
        },
        ToolKind::NotebookEdit => if call.second.len() > 0 {
            "Notebook "@ + call.first + " ("@ + call.second + ")"@
        } else {
            "Notebook "@ + call.first
        },
        ToolKind::WebSearch => "Search: "@ + call.first,
        ToolKind::WebFetch => "Fetch "@ + call.first,
        ToolKind::Task => if call.second.len() > 0 {
            "Task ["@ + call.second + "]: "@ + call.first
        } else {
            "Task: "@ + call.first
        },
        ToolKind::TaskOutput => "Get task output: "@ + call.first,
        ToolKind::TaskStop => "Stop task: "@ + call.first,
        ToolKind::TodoWrite => if call.flag {
            "Todo: "@ + decimal(call.counts.0 as nat) + " pending, "@ + decimal(
                call.counts.1 as nat,
            ) + " in progress, "@ + decimal(call.counts.2 as nat) + " completed"@
        } else {
            "Update todos"@
        },
        ToolKind::Skill => "Skill: "@ + call.first,
        ToolKind::AskUserQuestion => if call.flag {
            call.first
        } else {
            "Ask user question"@
        },
        ToolKind::ExitPlanMode => "Exit plan mode"@,
        ToolKind::EnterPlanMode => "Enter plan mode"@,
        ToolKind::TaskCreate => "Create task: "@ + call.first,
        ToolKind::TaskUpdate => if call.second.len() > 0 {
            "Update task "@ + call.first + ": "@ + call.second
        } else {
            "Update task "@ + call.first
        },
        ToolKind::TaskGet => "Get task: "@ + call.first,
        ToolKind::TaskList => "List tasks"@,
        ToolKind::Other => name + " "@ + input,
    }
}

fn two(a: &str, b: &str) -> (v: Vec<char>)
    ensures
        v@ == a@ + b@,
{
    let mut v: Vec<char> = Vec::new();
    push_str(&mut v, a);
    push_str(&mut v, b);
    v
}

fn three(a: &str, b: &str, c: &str) -> (v: Vec<char>)
    ensures
        v@ == a@ + b@ + c@,
{
    let mut v = two(a, b);
    push_str(&mut v, c);
    v
}

fn four(a: &str, b: &str, c: &str, d: &str) -> (v: Vec<char>)
    ensures
        v@ == a@ + b@ + c@ + d@,
{
    let mut v = three(a, b, c);
    push_str(&mut v, d);
    v
}

/// Writes the line that shows a tool call.
pub fn describe_tool_call(call: &ToolCall, name: &str, input: &str) -> (line: String)
    ensures
        line@ == described(call@, name@, input@),
{
    let a = call.first.as_str();
    let b = call.second.as_str();
    let c = call.third.as_str();
    let v: Vec<char> = match call.kind {
        ToolKind::Bash => if call.first.as_str().is_empty() {
            three("`", b, "`")
        } else {
            four(a, ": `", b, "`")
        },
        ToolKind::Read => two("Read ", a),
        ToolKind::Write => {
            let content = chars_of(b);
            let ls = split_lines(content.as_slice());
            if ls.len() > 0 {
                let mut v = three("Write ", a, " (");
                let n = decimal_of(ls.len() as u64);
                extend(&mut v, n.as_slice());
                push_str(&mut v, " lines)");
                v
            } else {
                two("Write ", a)
            }
        },
        ToolKind::Edit => if call.flag {
            three("Edit ", a, " (replace all)")
        } else {
            two("Edit ", a)
        },
        ToolKind::Glob => if call.second.as_str().is_empty() {
            two("Glob ", a)
        } else {
            four("Glob ", a, " in ", b)
        },
        ToolKind::Grep => if call.second.as_str().is_empty() {
            three("Grep \"", a, "\"")
        } else if call.third.as_str().is_empty() {
            four("Grep \"", a, "\" in ", b)
        } else {
            let mut v = four("Grep \"", a, "\" in ", b);
            push_str(&mut v, " (");
            push_str(&mut v, c);
            push_str(&mut v, ")");
            v
        },
        ToolKind::NotebookEdit => if call.second.as_str().is_empty() {
            two("Notebook ", a)
        } else {
            let mut v = four("Notebook ", a, " (", b);
            push_str(&mut v, ")");
            v
        },
        ToolKind::WebSearch => two("Search: ", a),
        ToolKind::WebFetch => two("Fetch ", a),
        ToolKind::Task => if call.second.as_str().is_empty() {
            two("Task: ", a)
        } else {
            four("Task [", b, "]: ", a)
        },
        ToolKind::TaskOutput => two("Get task output: ", a),
        ToolKind::TaskStop => two("Stop task: ", a),
        ToolKind::TodoWrite => if call.flag {
            let mut v: Vec<char> = Vec::new();
            push_str(&mut v, "Todo: ");
            let n0 = decimal_of(call.counts.0 as u64);
            extend(&mut v, n0.as_slice());
            push_str(&mut v, " pending, ");
            let n1 = decimal_of(call.counts.1 as u64);
            extend(&mut v, n1.as_slice());
            push_str(&mut v, " in progress, ");
            let n2 = decimal_of(call.counts.2 as u64);
            extend(&mut v, n2.as_slice());
            push_str(&mut v, " completed");
            v
        } else {
            chars_of("Update todos")
        },
        ToolKind::Skill => two("Skill: ", a),
        ToolKind::AskUserQuestion => if call.flag {
            chars_of(a)
        } else {
            chars_of("Ask user question")
        },
        ToolKind::ExitPlanMode => chars_of("Exit plan mode"),
        ToolKind::EnterPlanMode => chars_of("Enter plan mode"),
        ToolKind::TaskCreate => two("Create task: ", a),
        ToolKind::TaskUpdate => if call.second.as_str().is_empty() {
            two("Update task ", a)
        } else {
            four("Update task ", a, ": ", b)
        },
        ToolKind::TaskGet => two("Get task: ", a),
        ToolKind::TaskList => chars_of("List tasks"),
        ToolKind::Other => three(name, " ", input),
    };
    string_of(v.as_slice())
}

/// Shows a tool call in one short line.
pub fn format_tool_input(name: &str, input: &str) -> (line: String)
    ensures
        line@ == described(tool_call_of(name@, input@), name@, input@),
{
    let call = read_tool_call(name, input);
    describe_tool_call(&call, name, input)
}

/// A shell command as it is shown: after its description, on a line of its
/// own, where it has one.
pub open spec fn bash_shown(description: Seq<char>, command: Seq<char>) -> Seq<char> {
    if description.len() > 0 {
        description + "\n"@ + command
    } else {
        command
    }
}

/// What is shown of the input of a shell call: the command and its
/// description, or the input as it is where it is no JSON document.
pub open spec fn bash_text(input: Seq<char>) -> Seq<char> {
    if json_valid(input) {
        bash_shown(member_or_empty(input, "description"@), member_or_empty(input, "command"@))
    } else {
        input
    }
}

/// Writes a shell command with its description.
pub fn show_bash(description: &str, command: &str) -> (s: String)
    ensures
        s@ == bash_shown(description@, command@),
{
    if description.is_empty() {
        String::from_str(command)
    } else {
        let v = three(description, "\n", command);
        string_of(v.as_slice())
    }
}

/// Shows the command of a shell call, with its description.
pub fn format_bash_command(input: &str) -> (s: String)
    ensures
        s@ == bash_text(input@),
{
    if !is_json(input) {
        return String::from_str(input);
    }
    let description = member(input, "description");
    let command = member(input, "command");
    show_bash(description.as_str(), command.as_str())
}

/// The first option among the words after the first: what follows `--` in
/// the first word that begins so.
pub open spec fn first_flag(w: Seq<Seq<char>>, from: int) -> Option<Seq<char>>
    decreases w.len() - from,
{
    if from < 0 || from >= w.len() {
        None
    } else if has_prefix(w[from], "--"@) {
        Some(w[from].skip(2))
    } else {
        first_flag(w, from + 1)
    }
}

/// The subcommand of the file manager that a shell command calls, where it
/// calls the file manager: its first option, or `unknown` where it has
/// none.
pub open spec fn subcommand(command: Seq<char>) -> Option<Seq<char>> {
    let t = trim_start(command);
    if has_prefix(t, "cokacdir"@) {
        match first_flag(words(t), 1) {
            Some(f) => Some(f),
            None => Some("unknown"@),
        }
    } else {
        None
    }
}

/// The subcommand of the file manager that a tool call runs, if it runs
/// one: only a shell call with a JSON input does.
pub open spec fn command_of(name: Seq<char>, input: Seq<char>) -> Option<Seq<char>> {
    if name == "Bash"@ && json_valid(input) {
        subcommand(member_or_empty(input, "command"@))
    } else {
        None
    }
}

/// Finds the subcommand of the file manager that a shell command calls.
pub fn find_subcommand(command: &str) -> (r: Option<String>)
    ensures
        crate::json::opt_view(r) == subcommand(command@),
{
    let c = chars_of(command);
    let t = trimmed_start(c.as_slice());
    if !starts_with(t.as_slice(), "cokacdir") {
        return None;
    }
    let w = split_words(t.as_slice());
    let ghost ws = words(t@);
    let mut i: usize = 1;
    while i < w.len()
        invariant
            1 <= i,
            views(w@) == ws,
            ws == words(t@),
            t@ == trim_start(command@),
            has_prefix(t@, "cokacdir"@),
            first_flag(ws, 1) == first_flag(ws, i as int),
        decreases w@.len() - i,
    {
        proof {
            reveal_strlit("--");
        }
        if starts_with(w[i].as_slice(), "--") {
            let f = subvec(w[i].as_slice(), 2, w[i].len());
            return Some(string_of(f.as_slice()));
        }
        i += 1;
    }
    Some(String::from_str("unknown"))
}

/// Tells whether a tool call runs a subcommand of the file manager, and
/// which.
pub fn detect_cokacdir_command(name: &str, input: &str) -> (r: Option<String>)
    ensures
        crate::json::opt_view(r) == command_of(name@, input@),
{
    let n = chars_of(name);
    if !is_text(n.as_slice(), "Bash") {
        return None;
    }
    if !is_json(input) {
        return None;
    }
    let command = member(input, "command");
    find_subcommand(command.as_str())
}

} // verus!
