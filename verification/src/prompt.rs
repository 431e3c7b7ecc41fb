//! What the models are told: the system prompt, the history of the
//! conversation, and what they need for summaries and for AGENTS.md.
use crate::effects::ChatMessage;
use crate::message::{Message, Role};
use crate::paths::{show_under, shown_under};
use crate::prompts::TOOL_GUIDANCE;
use crate::state::{AgentMode, AgentsFile, App};
use crate::text::{
    byte_len, byte_prefix, bytes_within, cat2, cat3, cat4, cat5, cut_bytes, join, join_text,
    lemma_byte_len_adds, lemma_prefix_fits, lemma_views_push, lines, opt_part, opt_text, push_part, split_lines, trim, trimmed, views,
};
use crate::tool::{mcp_name, prefixed_tool_name};
use std::fmt::Write;
use vstd::prelude::*;
use vstd::string::*;

verus! {

/// A time of day on the clock of the machine.
#[derive(Clone, Copy, Debug, PartialEq, Eq, Structural)]
pub struct LocalTime {
    pub year: i32,
    pub month: u32,
    pub day: u32,
    pub hour: u32,
    pub minute: u32,
}

/// How chrono writes a time, given the year, month, day, hour, minute and the
/// format; nothing where there is no such time or the format is malformed.
pub uninterp spec fn formatted_time(
    year: int,
    month: int,
    day: int,
    hour: int,
    minute: int,
    format: Seq<char>,
) -> Option<Seq<char>>;

/// `chrono::NaiveDateTime::format`, on the time that
/// `chrono::NaiveDate::from_ymd_opt` and `and_hms_opt` make of the numbers:
/// what is written depends on the numbers and the format alone, and nothing is
/// written where there is no such time or the format is malformed. Which text
/// stands for each part of the format is not stated.
#[verifier::external_body]
pub(crate) fn format_time(t: LocalTime, format: &str) -> (r: Option<String>)
    ensures
        opt_text(r) == formatted_time(
            t.year as int,
            t.month as int,
            t.day as int,
            t.hour as int,
            t.minute as int,
            format@,
        ),
{
    let date = chrono::NaiveDate::from_ymd_opt(t.year, t.month, t.day)?;
    let at = date.and_hms_opt(t.hour, t.minute, 0)?;
    let mut out = String::new();
    write!(out, "{}", at.format(format)).ok()?;
    Some(out)
}

/// How the date is written in the system prompt.
pub const DATE_FORMAT: &'static str = "%A, %B %-d, %Y at %-I:%M %p";

/// A resource that an MCP server offers.
#[derive(Debug, PartialEq, Eq)]
pub struct McpResource {
    pub server_id: String,
    pub name: String,
    pub description: Option<String>,
}

/// A tool that an MCP server offers.
#[derive(Debug, PartialEq, Eq)]
pub struct McpTool {
    pub server_id: String,
    pub name: String,
    pub description: Option<String>,
}

/// What is known outside that goes into the system prompt. The MCP servers are
/// missing where there are none or they are busy.
#[derive(Debug, PartialEq, Eq)]
pub struct PromptFacts {
    pub memory: Option<String>,
    pub task_summary: String,
    pub mcp: Option<(Vec<McpResource>, Vec<McpTool>)>,
}

pub const IDENTITY: &'static str =
    "You are Steve, a TUI AI coding agent. You help users understand, modify, and build software \
    by reading files, searching code, making edits, and running commands — all within this terminal interface.\n\n\
    ## Environment\n\
    - **Project root**: ";

pub const HOW_YOU_WORK: &'static str = "\n\n\
    ## How You Work\n\
    - You can only access files within the project root. All paths are resolved relative to it.\n\
    - **Build mode**: Read tools are auto-approved. Write tools (edit, write, patch) and bash require user permission.\n\
    - **Plan mode**: Read-only. Write tools are unavailable. Use this for analysis and planning.\n\
    - The user sees your tool calls and results in the TUI. Be concise — tool output consumes context window space.\n\
    - When context runs low, the conversation may be automatically compacted into a summary.\n\
    - Use the `memory` tool to persist important discoveries across sessions.";

pub const MCP_GUIDANCE: &'static str = "\n## MCP Tools\n\nExternal tools provided by MCP servers. \
    These tools use prefixed names (`mcp__{server}__{tool}`). Use them when native tools \
    don't cover the task.\n";

pub const PLAN_MODE: &'static str =
    "\n---\n\nYou are currently in PLAN mode. You can read files and analyze the codebase, but you CANNOT write, edit, patch, or create files. Focus on planning, analysis, and providing recommendations. If the user asks you to make changes, explain what you would do but note that the user must switch to BUILD mode (via the Tab key) before changes can be applied.";

/// Who the assistant is, where it works, and how.
pub open spec fn identity_part(app: App, date: Seq<char>) -> Seq<char> {
    let model = match app.current_model {
        Some(m) => m@,
        None => "unknown"@,
    };
    let mode = if app.mode == AgentMode::Plan {
        "Plan"@
    } else {
        "Build"@
    };
    let branch = match app.sidebar_state.git_branch {
        Some(b) => "\n- **Git branch**: "@ + b@,
        None => Seq::empty(),
    };
    IDENTITY@ + app.project.root@ + "\n- **Model**: "@ + model + "\n- **Mode**: "@ + mode
        + "\n- **Date**: "@ + date + branch + HOW_YOU_WORK@
}

/// What the prompt says of the project's memory, cut to 2000 bytes.
pub open spec fn memory_part(memory: Option<Seq<char>>) -> Option<Seq<char>> {
    match memory {
        Some(m) if trim(m).len() > 0 => Some(
            "\n## Project Memory\n\n"@ + (if byte_len(m) > 2000 {
                byte_prefix(m, 2000) + "...\n(use memory tool to read full content)"@
            } else {
                m
            }),
        ),
        _ => None,
    }
}

/// What the prompt says of the open tasks.
pub open spec fn tasks_part(summary: Seq<char>) -> Option<Seq<char>> {
    if summary.len() == 0 {
        None
    } else {
        Some("\n## Active Tasks\n\n"@ + summary)
    }
}

/// The instructions in `files`, each under its path from `root`.
pub open spec fn agents_sections(root: Seq<char>, files: Seq<AgentsFile>) -> Seq<char>
    decreases files.len(),
{
    if files.len() == 0 {
        Seq::empty()
    } else {
        let f = files.last();
        agents_sections(root, files.drop_last()) + ("\n### "@ + shown_under(root, f.path@)
            + "\n\n"@ + f.content@ + "\n"@)
    }
}

/// What the prompt says of the instructions in AGENTS.md files.
pub open spec fn agents_part(root: Seq<char>, files: Seq<AgentsFile>) -> Option<Seq<char>> {
    if files.len() == 0 {
        None
    } else {
        Some("\n---\n\n## Project Instructions (AGENTS.md)\n"@ + agents_sections(root, files))
    }
}

/// The line on a resource.
pub open spec fn resource_line(r: McpResource) -> Seq<char> {
    "\n- **"@ + r.server_id@ + "/"@ + r.name@ + "**: "@ + (match r.description {
        Some(d) => d@,
        None => ""@,
    }) + "\n"@
}

/// The lines on the resources, as many as fit into `room` bytes; where one
/// does not fit, a note stands for it and all that follow.
pub open spec fn resource_lines(resources: Seq<McpResource>, room: nat) -> Seq<char>
    decreases resources.len(),
{
    if resources.len() == 0 {
        Seq::empty()
    } else {
        let line = resource_line(resources[0]);
        if byte_len(line) > room {
            "\n(additional resources omitted)\n"@
        } else {
            line + resource_lines(resources.skip(1), (room - byte_len(line)) as nat)
        }
    }
}

/// What the prompt says of the resources.
pub open spec fn resources_part(resources: Seq<McpResource>) -> Option<Seq<char>> {
    if resources.len() == 0 {
        None
    } else {
        Some("\n## MCP Context\n"@ + resource_lines(resources, 2000))
    }
}

/// The line on a tool.
pub open spec fn tool_line(t: McpTool) -> Seq<char> {
    "\n- `"@ + mcp_name(t.server_id@, t.name@) + "`: "@ + (match t.description {
        Some(d) => d@,
        None => "(no description)"@,
    })
}

/// The lines on the tools.
pub open spec fn tool_lines(tools: Seq<McpTool>) -> Seq<char>
    decreases tools.len(),
{
    if tools.len() == 0 {
        Seq::empty()
    } else {
        tool_lines(tools.drop_last()) + tool_line(tools.last())
    }
}

/// What the prompt says of the tools of MCP servers.
pub open spec fn tools_part(tools: Seq<McpTool>) -> Option<Seq<char>> {
    if tools.len() == 0 {
        None
    } else {
        Some(MCP_GUIDANCE@ + tool_lines(tools) + "\n"@)
    }
}

/// The parts of the system prompt, in order.
pub open spec fn prompt_parts(app: App, date: Seq<char>, facts: PromptFacts) -> Seq<Seq<char>> {
    seq![identity_part(app, date), TOOL_GUIDANCE@] + opt_part(memory_part(opt_text(facts.memory)))
        + opt_part(tasks_part(facts.task_summary@)) + opt_part(
        agents_part(app.project.root@, app.agents_files@),
    ) + opt_part(
        match facts.mcp {
            Some((resources, _)) => resources_part(resources@),
            None => None,
        },
    ) + opt_part(
        match facts.mcp {
            Some((_, tools)) => tools_part(tools@),
            None => None,
        },
    ) + opt_part(
        if app.mode == AgentMode::Plan {
            Some(PLAN_MODE@)
        } else {
            None
        },
    )
}

fn write_memory(memory: &Option<String>) -> (r: Option<String>)
    ensures
        opt_text(r) == memory_part(opt_text(*memory)),
{
    match memory {
        Some(m) => {
            let bare = trimmed(m.as_str());
            if bare.as_str().is_empty() {
                return None;
            }
            let mut out = "\n## Project Memory\n\n".to_owned();
            match bytes_within(m.as_str(), 2000) {
                Some(_) => {
                    out.append(m.as_str());
                },
                None => {
                    let head = cut_bytes(m.as_str(), 2000);
                    let shown = cat2(head.as_str(), "...\n(use memory tool to read full content)");
                    out.append(shown.as_str());
                },
            }
            Some(out)
        },
        None => None,
    }
}

fn write_agents(root: &str, files: &Vec<AgentsFile>) -> (r: Option<String>)
    ensures
        opt_text(r) == agents_part(root@, files@),
{
    if files.len() == 0 {
        return None;
    }
    let mut out = "\n---\n\n## Project Instructions (AGENTS.md)\n".to_owned();
    let ghost start = out@;
    let mut i: usize = 0;
    proof {
        assert(start + agents_sections(root@, files@.take(0)) =~= start);
    }
    while i < files.len()
        invariant
            i <= files@.len(),
            out@ == start + agents_sections(root@, files@.take(i as int)),
        decreases files@.len() - i,
    {
        let f = &files[i];
        let ghost before = out@;
        let label = show_under(root, f.path.as_str());
        let section = cat5("\n### ", label.as_str(), "\n\n", f.content.as_str(), "\n");
        out.append(section.as_str());
        proof {
            assert(files@.take(i + 1).drop_last() =~= files@.take(i as int));
            assert(files@.take(i + 1).last() == *f);
            assert(out@ =~= start + agents_sections(root@, files@.take(i + 1)));
        }
        i = i + 1;
    }
    proof {
        assert(files@.take(files@.len() as int) =~= files@);
    }
    Some(out)
}

fn write_resource(r: &McpResource) -> (s: String)
    ensures
        s@ == resource_line(*r),
{
    let mut out = cat5("\n- **", r.server_id.as_str(), "/", r.name.as_str(), "**: ");
    match &r.description {
        Some(d) => {
            out.append(d.as_str());
        },
        None => {
            out.append("");
        },
    }
    out.append("\n");
    out
}

fn write_resources(resources: &Vec<McpResource>) -> (r: Option<String>)
    ensures
        opt_text(r) == resources_part(resources@),
{
    if resources.len() == 0 {
        return None;
    }
    let mut out = "\n## MCP Context\n".to_owned();
    let ghost start = out@;
    let mut room: usize = 2000;
    let mut i: usize = 0;
    proof {
        assert(resources@.skip(0) =~= resources@);
    }
    while i < resources.len()
        invariant
            i <= resources@.len(),
            room <= 2000,
            resources@.len() > 0,
            start == "\n## MCP Context\n"@,
            start + resource_lines(resources@, 2000) == out@ + resource_lines(
                resources@.skip(i as int),
                room as nat,
            ),
        decreases resources@.len() - i,
    {
        let line = write_resource(&resources[i]);
        let ghost rest = resources@.skip(i as int);
        let ghost before = out@;
        proof {
            assert(rest[0] == resources@[i as int]);
            assert(rest.skip(1) =~= resources@.skip(i + 1));
        }
        match bytes_within(line.as_str(), room) {
            Some(n) => {
                out.append(line.as_str());
                room = room - n;
                proof {
                    assert(before + (line@ + resource_lines(rest.skip(1), room as nat)) =~= out@
                        + resource_lines(rest.skip(1), room as nat));
                }
            },
            None => {
                out.append("\n(additional resources omitted)\n");
                return Some(out);
            },
        }
        i = i + 1;
    }
    proof {
        assert(out@ + resource_lines(resources@.skip(i as int), room as nat) =~= out@);
    }
    Some(out)
}

fn write_tools(tools: &Vec<McpTool>) -> (r: Option<String>)
    ensures
        opt_text(r) == tools_part(tools@),
{
    if tools.len() == 0 {
        return None;
    }
    let mut out = MCP_GUIDANCE.to_owned();
    let ghost start = out@;
    let mut i: usize = 0;
    proof {
        assert(start + tool_lines(tools@.take(0)) =~= start);
    }
    while i < tools.len()
        invariant
            i <= tools@.len(),
            out@ == start + tool_lines(tools@.take(i as int)),
        decreases tools@.len() - i,
    {
        let t = &tools[i];
        let ghost before = out@;
        let name = prefixed_tool_name(t.server_id.as_str(), t.name.as_str());
        let desc = match &t.description {
            Some(d) => d.as_str(),
            None => "(no description)",
        };
        let line = cat4("\n- `", name.as_str(), "`: ", desc);
        out.append(line.as_str());
        proof {
            assert(tools@.take(i + 1).drop_last() =~= tools@.take(i as int));
            assert(tools@.take(i + 1).last() == *t);
            assert(out@ =~= start + tool_lines(tools@.take(i + 1)));
        }
        i = i + 1;
    }
    proof {
        assert(tools@.take(tools@.len() as int) =~= tools@);
    }
    out.append("\n");
    Some(out)
}

/// The messages that go to the model as history: those with a text, without
/// system messages.
pub open spec fn history_of(messages: Seq<Message>) -> Seq<(Role, Seq<char>)>
    decreases messages.len(),
{
    if messages.len() == 0 {
        Seq::empty()
    } else {
        let m = messages.last();
        let before = history_of(messages.drop_last());
        if m.role == Role::System || m.text@.len() == 0 {
            before
        } else {
            before.push((m.role, m.text@))
        }
    }
}

/// What the model is sent besides the last of `messages`: all that was said
/// before it.
pub open spec fn sent_history(messages: Seq<Message>) -> Seq<(Role, Seq<char>)> {
    if messages.len() > 1 {
        history_of(messages.drop_last())
    } else {
        Seq::empty()
    }
}

/// Who said what.
pub open spec fn chat_view(m: ChatMessage) -> (Role, Seq<char>) {
    match m {
        ChatMessage::User(t) => (Role::User, t@),
        ChatMessage::Assistant(t) => (Role::Assistant, t@),
    }
}

/// Who said what, in order.
pub open spec fn chat_views(v: Seq<ChatMessage>) -> Seq<(Role, Seq<char>)> {
    Seq::new(v.len(), |i: int| chat_view(v[i]))
}

/// The name of a role in a transcript.
pub open spec fn role_label(role: Role) -> Seq<char> {
    match role {
        Role::User => "User"@,
        Role::Assistant => "Assistant"@,
        Role::System => "System"@,
    }
}

/// The messages as a transcript; those without a text are left out.
pub open spec fn transcript(messages: Seq<Message>) -> Seq<char>
    decreases messages.len(),
{
    if messages.len() == 0 {
        Seq::empty()
    } else {
        let m = messages.last();
        let before = transcript(messages.drop_last());
        if m.text@.len() == 0 {
            before
        } else {
            before + ("["@ + role_label(m.role) + "]: "@ + m.text@ + "\n\n"@)
        }
    }
}

/// The texts of the user.
pub open spec fn user_texts(messages: Seq<Message>) -> Seq<Seq<char>>
    decreases messages.len(),
{
    if messages.len() == 0 {
        Seq::empty()
    } else if messages.last().role == Role::User {
        user_texts(messages.drop_last()).push(messages.last().text@)
    } else {
        user_texts(messages.drop_last())
    }
}

/// The last `n` of `s`.
pub open spec fn last_n(s: Seq<Seq<char>>, n: nat) -> Seq<Seq<char>> {
    if s.len() > n {
        s.skip(s.len() - n)
    } else {
        s
    }
}

/// Texts of the user as a transcript; empty ones are left out.
pub open spec fn user_transcript(texts: Seq<Seq<char>>) -> Seq<char>
    decreases texts.len(),
{
    if texts.len() == 0 {
        Seq::empty()
    } else if texts.last().len() == 0 {
        user_transcript(texts.drop_last())
    } else {
        user_transcript(texts.drop_last()) + ("[User]: "@ + texts.last() + "\n\n"@)
    }
}

/// The files of a project that say how it is built, in the order in which they are shown.
pub fn config_file_names() -> (r: Vec<&'static str>)
    ensures
        r@.len() == 7,
        r@[0]@ == "Cargo.toml"@,
        r@[1]@ == "package.json"@,
        r@[2]@ == "pyproject.toml"@,
        r@[3]@ == "go.mod"@,
        r@[4]@ == "Makefile"@,
        r@[5]@ == "Dockerfile"@,
        r@[6]@ == ".gitignore"@,
{
    vec![
        "Cargo.toml",
        "package.json",
        "pyproject.toml",
        "go.mod",
        "Makefile",
        "Dockerfile",
        ".gitignore",
    ]
}

/// A file that was read: its name and what it holds.
#[derive(Debug, PartialEq, Eq)]
pub struct ReadFile {
    pub name: String,
    pub content: String,
}

/// The first hundred lines of a text.
pub open spec fn first_lines(content: Seq<char>) -> Seq<char> {
    join(
        if lines(content).len() > 100 {
            lines(content).take(100)
        } else {
            lines(content)
        },
        "\n"@,
    )
}

/// What the context says of each of `files`.
pub open spec fn file_parts(files: Seq<ReadFile>) -> Seq<Seq<char>> {
    Seq::new(
        files.len(),
        |i: int| "## "@ + files[i].name@ + "\n\n```\n"@ + first_lines(files[i].content@) + "\n```"@,
    )
}

/// What the context says of the present AGENTS.md.
pub open spec fn agents_context(files: Seq<AgentsFile>) -> Seq<Seq<char>> {
    if files.len() == 0 {
        seq!["## Current AGENTS.md\n\n(No AGENTS.md exists yet)"@]
    } else {
        Seq::new(
            files.len(),
            |i: int| "## Current AGENTS.md ("@ + files[i].path@ + ")\n\n"@ + files[i].content@,
        )
    }
}

/// What the context says of the last five texts of the user.
pub open spec fn recent_part(messages: Seq<Message>) -> Option<Seq<char>> {
    let recent = last_n(user_texts(messages), 5);
    if recent.len() == 0 {
        None
    } else {
        Some("## Recent Conversation\n\n"@ + user_transcript(recent))
    }
}

/// What the context says of the files of the project.
pub open spec fn tree_part(entries: Seq<Seq<char>>) -> Option<Seq<char>> {
    if entries.len() == 0 {
        None
    } else {
        Some("## File Tree\n\n```\n"@ + join(entries, "\n"@) + "\n```"@)
    }
}

/// The parts of the context, in order.
pub open spec fn context_parts(app: App, entries: Seq<Seq<char>>, files: Seq<ReadFile>) -> Seq<
    Seq<char>,
> {
    opt_part(tree_part(entries)) + file_parts(files) + agents_context(app.agents_files@) + opt_part(
        recent_part(app.stored_messages@),
    )
}

/// A context of more than 10000 bytes cut to that length, with a note.
pub open spec fn capped_context(s: Seq<char>) -> Seq<char> {
    if byte_len(s) > 10_000 {
        byte_prefix(s, 10_000) + "\n\n(truncated)"@
    } else {
        s
    }
}

fn push_text(parts: &mut Vec<String>, t: String)
    ensures
        views(final(parts)@) == views(old(parts)@).push(t@),
{
    proof {
        lemma_views_push(parts@, t);
    }
    parts.push(t);
}

fn collect_user_texts(messages: &Vec<Message>) -> (r: Vec<String>)
    ensures
        views(r@) == user_texts(messages@),
{
    let mut out: Vec<String> = Vec::new();
    let mut i: usize = 0;
    proof {
        assert(views(out@) =~= Seq::<Seq<char>>::empty());
    }
    while i < messages.len()
        invariant
            i <= messages@.len(),
            views(out@) == user_texts(messages@.take(i as int)),
        decreases messages@.len() - i,
    {
        proof {
            assert(messages@.take(i + 1).drop_last() =~= messages@.take(i as int));
            assert(messages@.take(i + 1).last() == messages@[i as int]);
        }
        if messages[i].role == Role::User {
            push_text(&mut out, messages[i].text_content());
        }
        i = i + 1;
    }
    proof {
        assert(messages@.take(messages@.len() as int) =~= messages@);
    }
    out
}

fn write_recent(messages: &Vec<Message>) -> (r: Option<String>)
    ensures
        opt_text(r) == recent_part(messages@),
{
    let texts = collect_user_texts(messages);
    let n: usize = texts.len();
    let ghost all = user_texts(messages@);
    proof {
        assert(all.len() == n);
    }
    if n == 0 {
        return None;
    }
    let from: usize = if n > 5 {
        n - 5
    } else {
        0
    };
    let ghost recent = last_n(all, 5);
    proof {
        assert(recent =~= all.skip(from as int));
    }
    let mut out = "## Recent Conversation\n\n".to_owned();
    let ghost start = out@;
    let mut i: usize = from;
    proof {
        assert(start + user_transcript(recent.take(0)) =~= start);
    }
    while i < n
        invariant
            from <= i <= n,
            n == texts@.len(),
            views(texts@) == all,
            recent == all.skip(from as int),
            out@ == start + user_transcript(recent.take(i - from)),
        decreases n - i,
    {
        let k: usize = i - from;
        let ghost before = out@;
        proof {
            assert(recent.take(k + 1).drop_last() =~= recent.take(k as int));
            assert(recent.take(k + 1).last() == all[i as int]);
            assert(all[i as int] == texts@[i as int]@);
        }
        if !texts[i].as_str().is_empty() {
            let line = cat3("[User]: ", texts[i].as_str(), "\n\n");
            out.append(line.as_str());
            proof {
                assert(out@ =~= start + user_transcript(recent.take(k + 1)));
            }
        }
        i = i + 1;
    }
    proof {
        assert(recent.take(recent.len() as int) =~= recent);
    }
    Some(out)
}

fn head_of(content: &str) -> (r: String)
    ensures
        r@ == first_lines(content@),
{
    let mut ls = split_lines(content);
    proof {
        assert(views(ls@).len() == ls@.len());
    }
    if ls.len() > 100 {
        ls.truncate(100);
        proof {
            assert(views(ls@) =~= lines(content@).take(100));
        }
    }
    join_text(&ls, "\n")
}

/// The instructions for the model, one file after the other.
pub open spec fn all_instructions(app: App) -> Option<Seq<char>> {
    if app.agents_files@.len() == 0 {
        None
    } else {
        Some(
            join(
                Seq::new(app.agents_files@.len(), |i: int| app.agents_files@[i].content@),
                "\n\n"@,
            ),
        )
    }
}

impl App {
    /// The history that goes to the model: all messages but the last, which is
    /// sent by itself.
    pub fn build_api_history(&self) -> (r: Vec<ChatMessage>)
        ensures
            chat_views(r@) == sent_history(self.stored_messages@),
    {
        let mut out: Vec<ChatMessage> = Vec::new();
        proof {
            assert(chat_views(out@) =~= Seq::<(Role, Seq<char>)>::empty());
        }
        if self.stored_messages.len() <= 1 {
            return out;
        }
        let n: usize = self.stored_messages.len() - 1;
        let ghost all = self.stored_messages@.drop_last();
        let mut i: usize = 0;
        while i < n
            invariant
                i <= n,
                n == self.stored_messages@.len() - 1,
                all == self.stored_messages@.drop_last(),
                chat_views(out@) == history_of(all.take(i as int)),
            decreases n - i,
        {
            let m = &self.stored_messages[i];
            let ghost before = out@;
            proof {
                assert(all.take(i + 1).drop_last() =~= all.take(i as int));
                assert(all.take(i + 1).last() == *m);
            }
            if !m.text.as_str().is_empty() {
                match m.role {
                    Role::User => {
                        out.push(ChatMessage::User(m.text_content()));
                        proof {
                            assert(chat_views(out@) =~= chat_views(before).push((m.role, m.text@)));
                        }
                    },
                    Role::Assistant => {
                        out.push(ChatMessage::Assistant(m.text_content()));
                        proof {
                            assert(chat_views(out@) =~= chat_views(before).push((m.role, m.text@)));
                        }
                    },
                    Role::System => {},
                }
            }
            i = i + 1;
        }
        proof {
            assert(all.take(all.len() as int) =~= all);
        }
        out
    }

    /// All instructions together, where there are any.
    pub fn combined_agents_content(&self) -> (r: Option<String>)
        ensures
            opt_text(r) == all_instructions(*self),
    {
        if self.agents_files.len() == 0 {
            return None;
        }
        let mut parts: Vec<String> = Vec::new();
        let ghost all = Seq::new(
            self.agents_files@.len(),
            |i: int| self.agents_files@[i].content@,
        );
        let mut i: usize = 0;
        proof {
            assert(views(parts@) =~= all.take(0));
        }
        while i < self.agents_files.len()
            invariant
                i <= self.agents_files@.len(),
                all == Seq::new(
                    self.agents_files@.len(),
                    |i: int| self.agents_files@[i].content@,
                ),
                views(parts@) == all.take(i as int),
            decreases self.agents_files@.len() - i,
        {
            push_text(&mut parts, self.agents_files[i].content.clone());
            proof {
                assert(all.take(i + 1) =~= all.take(i as int).push(all[i as int]));
            }
            i = i + 1;
        }
        proof {
            assert(all.take(all.len() as int) =~= all);
        }
        Some(join_text(&parts, "\n\n"))
    }

    fn write_identity(&self, date: &str) -> (r: String)
        ensures
            r@ == identity_part(*self, date@),
    {
        let mut out = IDENTITY.to_owned();
        out.append(self.project.root.as_str());
        out.append("\n- **Model**: ");
        match &self.current_model {
            Some(m) => {
                out.append(m.as_str());
            },
            None => {
                out.append("unknown");
            },
        }
        out.append("\n- **Mode**: ");
        if self.mode == AgentMode::Plan {
            out.append("Plan");
        } else {
            out.append("Build");
        }
        out.append("\n- **Date**: ");
        out.append(date);
        let branch = match &self.sidebar_state.git_branch {
            Some(b) => cat2("\n- **Git branch**: ", b.as_str()),
            None => String::new(),
        };
        out.append(branch.as_str());
        out.append(HOW_YOU_WORK);
        out
    }

    /// The system prompt, given the date as it is written there.
    pub fn system_prompt_on(&self, date: &str, facts: &PromptFacts) -> (r: String)
        ensures
            r@ == join(prompt_parts(*self, date@, *facts), "\n"@),
    {
        let mut parts: Vec<String> = Vec::new();
        push_text(&mut parts, self.write_identity(date));
        push_text(&mut parts, TOOL_GUIDANCE.to_owned());
        proof {
            assert(views(parts@) =~= seq![identity_part(*self, date@), TOOL_GUIDANCE@]);
        }
        push_part(&mut parts, write_memory(&facts.memory));
        let tasks = if facts.task_summary.as_str().is_empty() {
            None
        } else {
            Some(cat2("\n## Active Tasks\n\n", facts.task_summary.as_str()))
        };
        push_part(&mut parts, tasks);
        push_part(&mut parts, write_agents(self.project.root.as_str(), &self.agents_files));
        let (resources, tools) = match &facts.mcp {
            Some((resources, tools)) => (write_resources(resources), write_tools(tools)),
            None => (None, None),
        };
        push_part(&mut parts, resources);
        push_part(&mut parts, tools);
        let plan = if self.mode == AgentMode::Plan {
            Some(PLAN_MODE.to_owned())
        } else {
            None
        };
        push_part(&mut parts, plan);
        join_text(&parts, "\n")
    }

    /// The system prompt at a time of the machine's clock; none where there is no such time.
    pub fn build_system_prompt(&self, at: LocalTime, facts: &PromptFacts) -> (r: Option<String>)
        ensures
            opt_text(r) == prompt_at(*self, at, *facts),
    {
        match format_time(at, DATE_FORMAT) {
            Some(date) => Some(self.system_prompt_on(date.as_str(), facts)),
            None => None,
        }
    }

    /// The model that summaries are asked from: the small one, else the one in use.
    pub open spec fn compact_model(self) -> Option<Seq<char>> {
        if self.config.small_model is Some {
            opt_text(self.config.small_model)
        } else {
            opt_text(self.current_model)
        }
    }

    /// The model that summaries are asked from: the small one, else the one in use.
    pub fn compact_model_ref(&self) -> (r: Option<String>)
        ensures
            opt_text(r) == self.compact_model(),
    {
        match &self.config.small_model {
            Some(m) => Some(m.clone()),
            None => match &self.current_model {
                Some(m) => Some(m.clone()),
                None => None,
            },
        }
    }

    /// The model of a stored session if it can still be used, else the
    /// configured one; as it is where nothing else is known.
    pub open spec fn valid_model(self, model_ref: Seq<char>) -> Seq<char> {
        match self.provider_registry {
            None => model_ref,
            Some(registry) => if registry.lookup(model_ref) is Ok {
                model_ref
            } else {
                match self.config.model {
                    Some(m) => m@,
                    None => model_ref,
                }
            },
        }
    }

    /// The model of a stored session if it can still be used, else the configured one.
    pub fn validated_model_ref(&self, model_ref: &str) -> (r: String)
        ensures
            r@ == self.valid_model(model_ref@),
    {
        match &self.provider_registry {
            None => model_ref.to_owned(),
            Some(registry) => match registry.resolve_model(model_ref) {
                Ok(_) => model_ref.to_owned(),
                Err(_) => match &self.config.model {
                    Some(m) => m.clone(),
                    None => model_ref.to_owned(),
                },
            },
        }
    }

    /// The messages as a transcript, to be summarised.
    pub fn build_compact_prompt(&self) -> (r: String)
        ensures
            r@ == transcript(self.stored_messages@),
    {
        let mut out = String::new();
        let mut i: usize = 0;
        while i < self.stored_messages.len()
            invariant
                i <= self.stored_messages@.len(),
                out@ == transcript(self.stored_messages@.take(i as int)),
            decreases self.stored_messages@.len() - i,
        {
            let m = &self.stored_messages[i];
            proof {
                let all = self.stored_messages@;
                assert(all.take(i + 1).drop_last() =~= all.take(i as int));
                assert(all.take(i + 1).last() == *m);
            }
            if !m.text.as_str().is_empty() {
                let label = match m.role {
                    Role::User => "User",
                    Role::Assistant => "Assistant",
                    Role::System => "System",
                };
                let line = cat5("[", label, "]: ", m.text.as_str(), "\n\n");
                out.append(line.as_str());
            }
            i = i + 1;
        }
        proof {
            assert(self.stored_messages@.take(self.stored_messages@.len() as int)
                =~= self.stored_messages@);
        }
        out
    }

    /// What a model needs to know of the project to write its AGENTS.md.
    pub fn gather_project_context(&self, entries: &Vec<String>, files: &Vec<ReadFile>) -> (r: String)
        ensures
            r@ == capped_context(
                join(context_parts(*self, views(entries@), files@), "\n\n"@),
            ),
    {
        let mut parts: Vec<String> = Vec::new();
        proof {
            assert(views(parts@) =~= Seq::<Seq<char>>::empty());
        }
        let tree = if entries.len() == 0 {
            None
        } else {
            Some(cat3("## File Tree\n\n```\n", join_text(entries, "\n").as_str(), "\n```"))
        };
        push_part(&mut parts, tree);
        let ghost p1 = opt_part(tree_part(views(entries@)));
        proof {
            assert(views(entries@).len() == entries@.len());
            assert(views(parts@) =~= p1);
        }
        let ghost fp = file_parts(files@);
        let mut i: usize = 0;
        proof {
            assert(p1 + fp.take(0) =~= p1);
        }
        while i < files.len()
            invariant
                i <= files@.len(),
                fp == file_parts(files@),
                views(parts@) == p1 + fp.take(i as int),
            decreases files@.len() - i,
        {
            let head = head_of(files[i].content.as_str());
            let part = cat5(
                "## ",
                files[i].name.as_str(),
                "\n\n```\n",
                head.as_str(),
                "\n```",
            );
            proof {
                assert(p1 + fp.take(i + 1) =~= (p1 + fp.take(i as int)).push(part@));
            }
            push_text(&mut parts, part);
            i = i + 1;
        }
        proof {
            assert(fp.take(fp.len() as int) =~= fp);
        }
        self.write_agents_context(&mut parts);
        push_part(&mut parts, write_recent(&self.stored_messages));
        let all = join_text(&parts, "\n\n");
        match bytes_within(all.as_str(), 10_000) {
            Some(_) => all,
            None => {
                let head = cut_bytes(all.as_str(), 10_000);
                cat2(head.as_str(), "\n\n(truncated)")
            },
        }
    }

    fn write_agents_context(&self, parts: &mut Vec<String>)
        ensures
            views(final(parts)@) == views(old(parts)@) + agents_context(self.agents_files@),
    {
        let ghost before = views(parts@);
        let ghost all = agents_context(self.agents_files@);
        if self.agents_files.len() == 0 {
            push_text(parts, "## Current AGENTS.md\n\n(No AGENTS.md exists yet)".to_owned());
            proof {
                assert(views(parts@) =~= before + all);
            }
            return;
        }
        let mut i: usize = 0;
        proof {
            assert(before + all.take(0) =~= before);
        }
        while i < self.agents_files.len()
            invariant
                i <= self.agents_files@.len(),
                self.agents_files@.len() > 0,
                all == agents_context(self.agents_files@),
                views(parts@) == before + all.take(i as int),
            decreases self.agents_files@.len() - i,
        {
            let f = &self.agents_files[i];
            let part = cat4(
                "## Current AGENTS.md (",
                f.path.as_str(),
                ")\n\n",
                f.content.as_str(),
            );
            proof {
                assert(before + all.take(i + 1) =~= (before + all.take(i as int)).push(part@));
            }
            push_text(parts, part);
            i = i + 1;
        }
        proof {
            assert(all.take(all.len() as int) =~= all);
        }
    }
}

/// The system prompt at a time of the machine's clock; none where there is no such time.
pub open spec fn prompt_at(app: App, at: LocalTime, facts: PromptFacts) -> Option<Seq<char>> {
    match formatted_time(
        at.year as int,
        at.month as int,
        at.day as int,
        at.hour as int,
        at.minute as int,
        DATE_FORMAT@,
    ) {
        Some(date) => Some(join(prompt_parts(app, date, facts), "\n"@)),
        None => None,
    }
}

/// However much there is to say of the project, the context stays within its
/// limit and the note that it was cut.
pub proof fn context_is_capped(s: Seq<char>)
    ensures
        byte_len(capped_context(s)) <= 10_000 + byte_len("\n\n(truncated)"@),
{
    if byte_len(s) > 10_000 {
        lemma_prefix_fits(s, 10_000);
        lemma_byte_len_adds(byte_prefix(s, 10_000), "\n\n(truncated)"@);
    }
}

} // verus!
