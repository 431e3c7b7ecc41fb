//! What happens while the model answers: its words, its tool calls, their
//! results, and the end of the conversation.
use crate::blocks::{
    call_added, call_completed, call_replaced, find_call, has_open_group, pushed, text_added,
    AgentProgress, MessageBlock, ToolCall, ToolGroupStatus,
};
use crate::doubles::{
    double_part, four_fifths_are_exact, part_of, three_fifths_are_exact, FOUR_FIFTHS, THREE_FIFTHS,
};
use crate::effects::Effect;
use crate::helpers::{
    frozen_at, last_of, relative_to, with_activity, without_blank_tail, BlockKind,
};
use crate::json::Json;
use crate::message::{Message, Role};
use crate::sessions::title_sought;
use crate::sidebar::{
    change_recorded, count_diff_lines, diff_counts, sidebar_updated, tokens_synced,
};
use crate::state::{Activity, App, SessionInfo, SidebarState, StatusLineState, TokenUsage};
use crate::tasks::told;
use crate::text::{
    cat3, cat4, clip, clipped, decimal, decimal_text, find_char, lemma_find_char, same_text,
    skip_chars, split_at_char, starts_with, trim, trimmed, views,
};
use crate::tool::{ToolName, ToolOutput};
use crate::tool_display::{
    args_summary, diff_content, extract_args_summary, extract_diff_content, span_fits, DiffContent,
};
use vstd::prelude::*;
use vstd::string::*;

verus! {

/// The tokens that one call of the model used.
#[derive(Clone, Copy, Debug, PartialEq, Eq, Structural)]
pub struct Usage {
    pub prompt_tokens: u32,
    pub completion_tokens: u32,
}

/// Whether a tool changes files.
pub open spec fn changes_files(tool: ToolName) -> bool {
    tool is Edit || tool is Write || tool is Patch
}

impl ToolName {
    /// Whether the tool changes files.
    pub fn is_write_tool(&self) -> (r: bool)
        ensures
            r == changes_files(*self),
    {
        match self {
            ToolName::Edit | ToolName::Write | ToolName::Patch => true,
            _ => false,
        }
    }
}

/// The in-progress message of the assistant is kept where it says something.
pub open spec fn finished_message(m: Option<Message>) -> Option<Message> {
    match m {
        Some(msg) if msg.text@.len() > 0 => Some(msg),
        _ => None,
    }
}

/// What the start of a further response does: what was said so far is stored,
/// and a new block begins.
#[verifier::opaque]
pub open spec fn response_started(
    pre: App,
    post: App,
    old_fx: Seq<Effect>,
    new_fx: Seq<Effect>,
) -> bool {
    &&& post == (App {
        streaming_message: post.streaming_message,
        stored_messages: post.stored_messages,
        messages: post.messages,
        ..pre
    })
    &&& match finished_message(pre.streaming_message) {
        Some(m) => post.stored_messages@ == pre.stored_messages@.push(m) && new_fx == old_fx.push(
            Effect::SaveMessage(m),
        ),
        None => post.stored_messages@ == pre.stored_messages@ && new_fx == old_fx,
    }
    &&& match pre.current_session {
        Some(s) => post.streaming_message matches Some(m) && m.is(s.id@, Role::Assistant, ""@),
        None => post.streaming_message is None,
    }
    &&& pushed(pre.messages@, post.messages@)
    &&& post.messages@.last().is_blank()
}

/// The last block of the assistant with `more` added to its text.
pub open spec fn said_more(
    old_blocks: Seq<MessageBlock>,
    new_blocks: Seq<MessageBlock>,
    more: Seq<char>,
) -> bool {
    match last_of(old_blocks, BlockKind::Assistant) {
        Some(i) => {
            &&& new_blocks == old_blocks.update(i, new_blocks[i])
            &&& new_blocks[i] is Assistant
            &&& new_blocks[i]->thinking == old_blocks[i]->thinking
            &&& text_added(old_blocks[i]->parts@, new_blocks[i]->parts@, more)
        },
        None => new_blocks == old_blocks,
    }
}

/// What a piece of the answer does.
#[verifier::opaque]
pub open spec fn delta_taken(pre: App, more: Seq<char>, post: App) -> bool {
    &&& post == (App {
        messages: post.messages,
        streaming_message: post.streaming_message,
        message_area_state: pre.message_area_state.at_bottom(),
        ..pre
    })
    &&& said_more(pre.messages@, post.messages@, more)
    &&& match pre.streaming_message {
        Some(m) => post.streaming_message matches Some(n) && n == (Message {
            text: n.text,
            ..m
        }) && n.text@ == m.text@ + more,
        None => post.streaming_message is None,
    }
}

/// What a piece of the model's reasoning does.
#[verifier::opaque]
pub open spec fn reasoning_taken(pre: App, more: Seq<char>, post: App) -> bool {
    &&& post == (App {
        messages: post.messages,
        message_area_state: pre.message_area_state.at_bottom(),
        ..pre
    })
    &&& match last_of(pre.messages@, BlockKind::Assistant) {
        Some(i) => {
            &&& post.messages@ == pre.messages@.update(i, post.messages@[i])
            &&& post.messages@[i] is Assistant
            &&& post.messages@[i]->parts == pre.messages@[i]->parts
            &&& post.messages@[i]->thinking matches Some(t)
            &&& t@ == (match pre.messages@[i]->thinking {
                Some(s) => s@ + more,
                None => more,
            })
        },
        None => post.messages@ == pre.messages@,
    }
}

/// What the announcement of a tool call does.
#[verifier::opaque]
pub open spec fn call_announced(pre: App, tool: ToolName, post: App) -> bool {
    &&& post == (App {
        messages: post.messages,
        message_area_state: pre.message_area_state.at_bottom(),
        status_line_state: StatusLineState {
            activity: post.status_line_state.activity,
            ..pre.status_line_state
        },
        ..pre
    })
    &&& post.status_line_state.activity matches Activity::RunningTool { tool_name, args_summary }
    &&& tool_name == tool && args_summary@.len() == 0
    &&& match last_of(pre.messages@, BlockKind::Assistant) {
        Some(i) => {
            &&& post.messages@ == pre.messages@.update(i, post.messages@[i])
            &&& post.messages@[i] is Assistant
            &&& post.messages@[i]->thinking == pre.messages@[i]->thinking
            &&& has_open_group(post.messages@[i]->parts@)
            &&& has_open_group(pre.messages@[i]->parts@) ==> post.messages@[i]->parts@
                == pre.messages@[i]->parts@
            &&& !has_open_group(pre.messages@[i]->parts@) ==> pushed(
                pre.messages@[i]->parts@,
                post.messages@[i]->parts@,
            ) && post.messages@[i]->parts@.last()->ToolGroup_0.calls@.len() == 0
                && post.messages@[i]->parts@.last()->ToolGroup_0.status
                == ToolGroupStatus::Preparing
        },
        None => post.messages@ == pre.messages@,
    }
}

/// Whether `call` is the call `id` of `tool` with `args`, just made.
pub open spec fn is_new_call(call: ToolCall, id: String, tool: ToolName, args: Json) -> bool {
    &&& call == (ToolCall {
        call_id: id,
        tool_name: tool,
        args_summary: call.args_summary,
        full_output: None,
        result_summary: None,
        diff_content: call.diff_content,
        is_error: false,
        expanded: false,
        agent_progress: None,
    })
    &&& call.args_summary@ == args_summary(tool, args)
    &&& shows_diff(call.diff_content, tool, args)
}

/// Whether `d` is the change that a call of `tool` with `args` shows.
pub open spec fn shows_diff(d: Option<DiffContent>, tool: ToolName, args: Json) -> bool {
    match d {
        Some(c) => diff_content(tool, args) == Some(c@),
        None => diff_content(tool, args) is None,
    }
}

/// The last block of the assistant with a tool call added.
pub open spec fn call_shown(
    old_blocks: Seq<MessageBlock>,
    new_blocks: Seq<MessageBlock>,
    id: String,
    tool: ToolName,
    args: Json,
) -> bool {
    match last_of(old_blocks, BlockKind::Assistant) {
        Some(i) => {
            &&& new_blocks == old_blocks.update(i, new_blocks[i])
            &&& new_blocks[i] is Assistant
            &&& new_blocks[i]->thinking == old_blocks[i]->thinking
            &&& exists|call: ToolCall| #[trigger]
                is_new_call(call, id, tool, args) && call_added(
                    old_blocks[i]->parts@,
                    new_blocks[i]->parts@,
                    call,
                )
        },
        None => new_blocks == old_blocks,
    }
}

/// What a tool call does.
#[verifier::opaque]
pub open spec fn call_made(pre: App, id: String, tool: ToolName, args: Json, post: App) -> bool {
    &&& post == (App {
        messages: post.messages,
        message_area_state: pre.message_area_state.at_bottom(),
        status_line_state: StatusLineState {
            activity: post.status_line_state.activity,
            ..pre.status_line_state
        },
        ..pre
    })
    &&& post.status_line_state.activity matches Activity::RunningTool {
        tool_name,
        args_summary: s,
    }
    &&& tool_name == tool && s@ == args_summary(tool, args)
    &&& call_shown(pre.messages@, post.messages@, id, tool, args)
}

/// The last block of the assistant with the result of a call in it.
pub open spec fn result_shown(
    old_blocks: Seq<MessageBlock>,
    new_blocks: Seq<MessageBlock>,
    id: Seq<char>,
    output: ToolOutput,
) -> bool {
    match last_of(old_blocks, BlockKind::Assistant) {
        Some(i) => {
            &&& new_blocks == old_blocks.update(i, new_blocks[i])
            &&& new_blocks[i] is Assistant
            &&& new_blocks[i]->thinking == old_blocks[i]->thinking
            &&& match find_call(old_blocks[i]->parts@, id) {
                Some(at) => exists|call: ToolCall|
                    {
                        &&& #[trigger] has_result(
                            call,
                            old_blocks[i]->parts@[at.0]->ToolGroup_0.calls@[at.1],
                            output,
                        )
                        &&& call_completed(
                            old_blocks[i]->parts@,
                            new_blocks[i]->parts@,
                            at,
                            call,
                        )
                    },
                None => new_blocks[i]->parts@ == old_blocks[i]->parts@,
            }
        },
        None => new_blocks == old_blocks,
    }
}

/// Whether `call` is the call `before` with its result.
pub open spec fn has_result(call: ToolCall, before: ToolCall, output: ToolOutput) -> bool {
    &&& call == (ToolCall {
        result_summary: call.result_summary,
        full_output: Some(output.output),
        is_error: output.is_error,
        ..before
    })
    &&& call.result_summary matches Some(s)
    &&& s@ == clip(output.output@, 80, 77)
}

/// What a change to files does: the list of files is dropped and the change
/// is counted in the sidebar.
pub open spec fn change_noted(pre: App, tool: ToolName, is_error: bool, post: App) -> bool {
    if !changes_files(tool) || is_error {
        post == pre
    } else {
        match pre.last_completed(tool) {
            Some(call) if call.diff_content is Some => {
                let counts = diff_counts(call.diff_content->Some_0);
                &&& post == (App {
                    file_index: None,
                    sidebar_state: SidebarState {
                        changes: post.sidebar_state.changes,
                        ..pre.sidebar_state
                    },
                    ..pre
                })
                &&& exists|path: String|
                    {
                        &&& path@ == relative_to(pre.project.root@, call.args_summary@)
                        &&& #[trigger] change_recorded(
                            pre.sidebar_state.changes@,
                            post.sidebar_state.changes@,
                            path,
                            counts.0 as usize,
                            counts.1 as usize,
                        )
                    }
            },
            _ => post == (App { file_index: None, ..pre }),
        }
    }
}

/// The task that a tool's output says was completed.
pub open spec fn completed_task(output: Seq<char>) -> Option<Seq<char>> {
    if "Completed task "@.is_prefix_of(output) {
        let rest = output.skip("Completed task "@.len() as int);
        Some(trim(rest.take(find_char(rest, ':'))))
    } else {
        None
    }
}

/// What the completion of a task does: it is counted as closed in this session.
pub open spec fn task_noted(pre: App, tool: ToolName, output: ToolOutput, post: App) -> bool {
    let closes = tool == ToolName::Task && !output.is_error && (pre.last_completed(
        tool,
    ) matches Some(call) && call.args_summary@ == "complete"@);
    match completed_task(output.output@) {
        Some(id) if closes => {
            &&& post == (App {
                sidebar_state: SidebarState {
                    session_closed_task_ids: post.sidebar_state.session_closed_task_ids,
                    ..pre.sidebar_state
                },
                ..pre
            })
            &&& if views(pre.sidebar_state.session_closed_task_ids@).contains(id) {
                post.sidebar_state.session_closed_task_ids@
                    == pre.sidebar_state.session_closed_task_ids@
            } else {
                pushed(
                    pre.sidebar_state.session_closed_task_ids@,
                    post.sidebar_state.session_closed_task_ids@,
                ) && post.sidebar_state.session_closed_task_ids@.last()@ == id
            }
        },
        _ => post == pre,
    }
}

/// What the result of a tool call does.
#[verifier::opaque]
pub open spec fn result_taken(
    pre: App,
    id: Seq<char>,
    tool: ToolName,
    output: ToolOutput,
    post: App,
    old_fx: Seq<Effect>,
    new_fx: Seq<Effect>,
) -> bool {
    &&& exists|shown: App, changed: App, closed: App|
        {
            &&& shown == (App { messages: shown.messages, ..pre })
            &&& result_shown(pre.messages@, shown.messages@, id, output)
            &&& #[trigger] change_noted(shown, tool, output.is_error, changed)
            &&& #[trigger] task_noted(changed, tool, output, closed)
            &&& post == (App {
                message_area_state: pre.message_area_state.at_bottom(),
                ..sidebar_updated(closed)
            })
        }
    &&& new_fx == (if (changes_files(tool) || tool == ToolName::Bash) && !output.is_error {
        old_fx.push(Effect::RefreshGit)
    } else {
        old_fx
    }).push(Effect::RefreshSidebar)
}

/// The application at the end of a conversation.
pub open spec fn stream_finished(pre: App, now: u64) -> App {
    App {
        frozen_elapsed: frozen_at(pre, now),
        is_loading: false,
        streaming_active: false,
        stream_cancel: false,
        interjection_tx: false,
        status_line_state: with_activity(pre.status_line_state, Activity::Idle),
        ..pre
    }
}

/// Whether the counts of the session have room for the tokens of one call.
pub open spec fn usage_fits(u: TokenUsage, usage: Usage) -> bool {
    &&& u.prompt_tokens + usage.prompt_tokens <= u64::MAX
    &&& u.completion_tokens + usage.completion_tokens <= u64::MAX
    &&& u.total_tokens + usage.prompt_tokens + usage.completion_tokens <= u64::MAX
}

/// The counts of a session with the tokens of one call added.
pub open spec fn usage_added(u: TokenUsage, usage: Usage) -> TokenUsage {
    TokenUsage {
        prompt_tokens: (u.prompt_tokens + usage.prompt_tokens) as u64,
        completion_tokens: (u.completion_tokens + usage.completion_tokens) as u64,
        total_tokens: (u.total_tokens + usage.prompt_tokens + usage.completion_tokens) as u64,
    }
}

/// The session with the tokens of a conversation counted.
pub open spec fn session_counted(s: Option<SessionInfo>, usage: Option<Usage>) -> Option<
    SessionInfo,
> {
    match (s, usage) {
        (Some(s), Some(u)) => Some(
            SessionInfo { token_usage: usage_added(s.token_usage, u), ..s },
        ),
        _ => s,
    }
}

/// What is stored of a session after a conversation.
pub open spec fn session_effects(
    s: Option<SessionInfo>,
    usage: Option<Usage>,
    old_fx: Seq<Effect>,
) -> Seq<Effect> {
    match (s, usage) {
        (Some(_), Some(_)) => old_fx.push(Effect::SaveSession),
        (Some(_), None) => old_fx.push(Effect::TouchSession),
        _ => old_fx,
    }
}

/// The application with the answer stored and counted.
pub open spec fn answer_stored(pre: App, m: Message, usage: Option<Usage>, post: App) -> bool {
    &&& post == (App {
        streaming_message: None,
        stored_messages: post.stored_messages,
        current_session: session_counted(pre.current_session, usage),
        exchange_count: (pre.exchange_count + 1) as usize,
        ..pre
    })
    &&& post.stored_messages@ == pre.stored_messages@.push(m)
}

/// At how many tokens the user is warned: six tenths of the window, as doubles
/// have it.
pub open spec fn warning_level(window: u64) -> nat {
    double_part(window as nat, THREE_FIFTHS as nat)
}

/// At how many tokens the conversation is compacted: eight tenths of the
/// window, as doubles have it.
pub open spec fn compaction_level(window: u32) -> nat {
    double_part(window as nat, FOUR_FIFTHS as nat)
}

/// For every window that a model can have, the user is warned at three fifths
/// of it and the conversation is compacted at four fifths, to the token.
pub proof fn levels_are_fifths(window: u32)
    ensures
        warning_level(window as u64) == window * 3 / 5,
        compaction_level(window) == window * 4 / 5,
        warning_level(window as u64) <= compaction_level(window),
{
    three_fifths_are_exact(window);
    four_fifths_are_exact(window);
}

/// How full a context window is, in whole percent; more than full is full.
pub open spec fn percent_full(used: u64, window: u64) -> nat {
    if used >= window {
        100
    } else {
        (used as int * 100 / window as int) as nat
    }
}

/// `n` in units of ten times `tenth`, with one digit behind the point: the
/// nearest such number, the greater one of two that are as near.
pub open spec fn in_units(n: nat, tenth: nat, mark: Seq<char>) -> Seq<char> {
    let t = (n + tenth / 2) / tenth;
    decimal(t / 10) + "."@ + decimal(t % 10) + mark
}

/// A number of tokens as it is shown: in millions, in thousands, or as it is.
pub open spec fn tokens_shown(n: nat) -> Seq<char> {
    if n >= 1_000_000 {
        in_units(n, 100_000, "M"@)
    } else if n >= 1_000 {
        in_units(n, 100, "k"@)
    } else {
        decimal(n)
    }
}

/// What the user is told when `used` tokens fill up a context window.
pub open spec fn warning_text(used: u64, window: u64) -> Seq<char> {
    "Context window "@ + decimal(percent_full(used, window)) + "% full ("@ + tokens_shown(
        used as nat,
    ) + "/"@ + tokens_shown(window as nat) + "). Consider /compact to free space."@
}

/// How full a context window is, in whole percent.
pub fn context_usage_pct(used: u64, window: u64) -> (r: u64)
    ensures
        r == percent_full(used, window),
{
    if used >= window {
        return 100;
    }
    let pct: u128 = used as u128 * 100 / window as u128;
    proof {
        assert(used as int * 100 / window as int <= 100) by (nonlinear_arith)
            requires
                used < window,
        ;
    }
    pct as u64
}

fn shown_in_units(n: u64, tenth: u64, mark: &str) -> (r: String)
    requires
        0 < tenth <= 100_000,
    ensures
        r@ == in_units(n as nat, tenth as nat, mark@),
{
    let t: u128 = (n as u128 + tenth as u128 / 2) / tenth as u128;
    proof {
        assert(t <= n) by (nonlinear_arith)
            requires
                t == (n as int + tenth as int / 2) / tenth as int,
                tenth >= 1,
                n >= 0,
        ;
    }
    let t: u64 = t as u64;
    cat4(decimal_text(t / 10).as_str(), ".", decimal_text(t % 10).as_str(), mark)
}

/// A number of tokens as it is shown.
pub fn format_tokens(n: u64) -> (r: String)
    ensures
        r@ == tokens_shown(n as nat),
{
    if n >= 1_000_000 {
        shown_in_units(n, 100_000, "M")
    } else if n >= 1_000 {
        shown_in_units(n, 100, "k")
    } else {
        decimal_text(n)
    }
}

/// What checking how full the context window is does: the user is warned once.
pub open spec fn warning_checked(pre: App, post: App) -> bool {
    let window = pre.status_line_state.context_window;
    let used = pre.status_line_state.last_prompt_tokens;
    if pre.context_warned || window == 0 || used < warning_level(window) {
        post == pre
    } else {
        &&& post == (App {
            context_warned: true,
            messages: post.messages,
            message_area_state: pre.message_area_state.at_bottom(),
            ..pre
        })
        &&& pushed(pre.messages@, post.messages@)
        &&& post.messages@.last().is_system_text(warning_text(used, window))
    }
}

/// Once warned, the user is not warned again.
pub proof fn warned_once(pre: App, mid: App, post: App)
    requires
        warning_checked(pre, mid),
        warning_checked(mid, post),
    ensures
        mid.context_warned ==> post == mid,
        !mid.context_warned ==> mid == pre,
{
}

/// Whether the conversation is to be compacted without being asked to.
pub open spec fn is_compaction_due(app: App) -> bool {
    &&& app.config.auto_compact
    &&& !app.auto_compact_failed
    &&& app.stored_messages@.len() >= 4
    &&& app.current_session is Some
    &&& app.current_model matches Some(m)
    &&& app.provider_registry matches Some(registry)
    &&& registry.lookup(m@) matches Ok(c)
    &&& app.last_prompt_tokens >= compaction_level(c.context_window)
}

/// Whether the title is seen to after an exchange: after the first.
pub open spec fn titled_after(
    pre: App,
    post: App,
    old_fx: Seq<Effect>,
    new_fx: Seq<Effect>,
) -> bool {
    if pre.exchange_count == 1 {
        title_sought(pre, post, old_fx, new_fx)
    } else {
        post == pre && new_fx == old_fx
    }
}

/// What is asked of the outside last when an answer is complete.
pub open spec fn closing_effects(app: App, old_fx: Seq<Effect>, new_fx: Seq<Effect>) -> bool {
    if is_compaction_due(app) {
        &&& pushed(old_fx, new_fx)
        &&& new_fx.last() matches Effect::Submit(t)
        &&& t@ == "/compact"@
    } else {
        new_fx == old_fx
    }
}

/// What the end of an answer does.
#[verifier::opaque]
pub open spec fn answer_finished(
    pre: App,
    usage: Option<Usage>,
    now: u64,
    post: App,
    old_fx: Seq<Effect>,
    new_fx: Seq<Effect>,
) -> bool {
    exists|ended: App|
        {
            &&& ended == (App { messages: ended.messages, ..stream_finished(pre, now) })
            &&& ended.messages@ == #[trigger] without_blank_tail(pre.messages@)
            &&& match pre.streaming_message {
                None => post == ended && new_fx == old_fx,
                Some(m) => answer_wound_up(
                    App { streaming_message: None, ..ended },
                    m,
                    usage,
                    post,
                    old_fx,
                    new_fx,
                ),
            }
        }
}

/// What is asked of the outside first when an answer is complete.
pub open spec fn answer_effects(
    ended: App,
    m: Message,
    usage: Option<Usage>,
    old_fx: Seq<Effect>,
) -> Seq<Effect> {
    session_effects(ended.current_session, usage, old_fx.push(Effect::SaveMessage(m)))
}

/// What is done with a complete answer `m`: it is stored and counted, a title
/// is seen to, and the context window is looked at.
#[verifier::opaque]
pub open spec fn answer_wound_up(
    ended: App,
    m: Message,
    usage: Option<Usage>,
    post: App,
    old_fx: Seq<Effect>,
    new_fx: Seq<Effect>,
) -> bool {
    exists|stored: App, named: App, fx: Seq<Effect>|
        {
            let fx1 = fx.push(Effect::RefreshDiagnostics).push(Effect::RefreshSidebar);
            &&& answer_stored(ended, m, usage, stored)
            &&& #[trigger] titled_after(stored, named, answer_effects(ended, m, usage, old_fx), fx)
            &&& warning_checked(sidebar_updated(tokens_synced(named)), post)
            &&& closing_effects(post, fx1, new_fx)
        }
}

/// Whether the counters of the sidebar have room for the tokens of one call.
pub open spec fn sidebar_fits(s: SidebarState, usage: Usage) -> bool {
    &&& usage.prompt_tokens + usage.completion_tokens <= u32::MAX
    &&& s.prompt_tokens + usage.prompt_tokens <= u64::MAX
    &&& s.completion_tokens + usage.completion_tokens <= u64::MAX
    &&& s.total_tokens + usage.prompt_tokens + usage.completion_tokens <= u64::MAX
}

/// The application with the tokens of one call counted where they are shown;
/// the session is counted at the end of the conversation.
pub open spec fn usage_shown(pre: App, usage: Usage) -> App {
    App {
        last_prompt_tokens: usage.prompt_tokens as u64,
        status_line_state: StatusLineState {
            last_prompt_tokens: usage.prompt_tokens as u64,
            ..pre.status_line_state
        },
        sidebar_state: SidebarState {
            prompt_tokens: (pre.sidebar_state.prompt_tokens + usage.prompt_tokens) as u64,
            completion_tokens: (pre.sidebar_state.completion_tokens
                + usage.completion_tokens) as u64,
            total_tokens: (pre.sidebar_state.total_tokens + usage.prompt_tokens
                + usage.completion_tokens) as u64,
            ..pre.sidebar_state
        },
        ..pre
    }
}

/// What news from a sub-agent does.
#[verifier::opaque]
pub open spec fn progress_taken(
    pre: App,
    id: Seq<char>,
    tool: ToolName,
    args: String,
    result: Option<String>,
    post: App,
) -> bool {
    &&& post == (App { messages: post.messages, ..pre })
    &&& match last_of(pre.messages@, BlockKind::Assistant) {
        Some(i) => {
            let before = pre.messages@[i];
            let after = post.messages@[i];
            &&& post.messages@ == pre.messages@.update(i, after)
            &&& after is Assistant
            &&& after->thinking == before->thinking
            &&& match find_call(before->parts@, id) {
                Some(at) => {
                    let call = before->parts@[at.0]->ToolGroup_0.calls@[at.1];
                    let progress = if result is Some {
                        match call.agent_progress {
                            Some(p) => Some(AgentProgress { result_summary: result, ..p }),
                            None => None,
                        }
                    } else {
                        Some(
                            AgentProgress {
                                tool_name: tool,
                                args_summary: args,
                                result_summary: None,
                            },
                        )
                    };
                    call_replaced(
                        before->parts@,
                        after->parts@,
                        at,
                        ToolCall { agent_progress: progress, ..call },
                    )
                },
                None => after->parts@ == before->parts@,
            }
        },
        None => post.messages@ == pre.messages@,
    }
}

impl App {
    fn keep_streamed(&mut self, fx: &mut Vec<Effect>)
        ensures
            *final(self) == (App {
                streaming_message: None,
                stored_messages: final(self).stored_messages,
                ..*old(self)
            }),
            match finished_message(old(self).streaming_message) {
                Some(m) => final(self).stored_messages@ == old(self).stored_messages@.push(m)
                    && final(fx)@ == old(fx)@.push(Effect::SaveMessage(m)),
                None => final(self).stored_messages@ == old(self).stored_messages@ && final(fx)@
                    == old(fx)@,
            },
    {
        match self.streaming_message.take() {
            Some(msg) => {
                if !msg.text.as_str().is_empty() {
                    fx.push(Effect::SaveMessage(msg.clone()));
                    self.stored_messages.push(msg);
                }
            },
            None => {},
        }
    }

    pub(crate) fn start_response(&mut self, fx: &mut Vec<Effect>)
        ensures
            response_started(*old(self), *final(self), old(fx)@, final(fx)@),
    {
        proof {
            reveal(response_started);
        }
        let ghost blocks = self.messages@;
        self.keep_streamed(fx);
        match &self.current_session {
            Some(s) => {
                self.streaming_message = Some(Message::assistant(s.id.as_str(), ""));
            },
            None => {},
        }
        self.messages.push(MessageBlock::blank());
        proof {
            assert(self.messages@.drop_last() =~= blocks);
        }
    }

    pub(crate) fn take_delta(&mut self, text: &str)
        ensures
            delta_taken(*old(self), text@, *final(self)),
    {
        proof {
            reveal(delta_taken);
        }
        match self.last_assistant_mut() {
            Some(last) => {
                last.append_text(text);
            },
            None => {},
        }
        match self.streaming_message.take() {
            Some(mut msg) => {
                msg.append_text(text);
                self.streaming_message = Some(msg);
            },
            None => {},
        }
        self.message_area_state.scroll_to_bottom();
    }

    pub(crate) fn take_reasoning(&mut self, text: &str)
        ensures
            reasoning_taken(*old(self), text@, *final(self)),
    {
        proof {
            reveal(reasoning_taken);
        }
        match self.last_assistant_mut() {
            Some(last) => {
                last.append_thinking(text);
            },
            None => {},
        }
        self.message_area_state.scroll_to_bottom();
    }

    pub(crate) fn announce_call(&mut self, tool_name: ToolName)
        ensures
            call_announced(*old(self), tool_name, *final(self)),
    {
        proof {
            reveal(call_announced);
        }
        match self.last_assistant_mut() {
            Some(last) => {
                last.ensure_preparing_tool_group();
            },
            None => {},
        }
        self.status_line_state.activity = Activity::RunningTool {
            tool_name,
            args_summary: String::new(),
        };
        self.message_area_state.scroll_to_bottom();
    }

    pub(crate) fn make_call(&mut self, call_id: String, tool_name: ToolName, arguments: &Json)
        requires
            tool_name == ToolName::Edit ==> span_fits(*arguments),
        ensures
            call_made(*old(self), call_id, tool_name, *arguments, *final(self)),
    {
        proof {
            reveal(call_made);
        }
        let summary = extract_args_summary(tool_name, arguments);
        let diff = extract_diff_content(tool_name, arguments);
        let ghost added = ToolCall {
            call_id,
            tool_name,
            args_summary: summary,
            full_output: None,
            result_summary: None,
            diff_content: diff,
            is_error: false,
            expanded: false,
            agent_progress: None,
        };
        proof {
            assert(is_new_call(added, call_id, tool_name, *arguments));
        }
        match self.last_assistant_mut() {
            Some(last) => {
                last.add_tool_call(call_id, tool_name, summary.clone(), diff);
            },
            None => {},
        }
        self.status_line_state.activity = Activity::RunningTool {
            tool_name,
            args_summary: summary,
        };
        self.message_area_state.scroll_to_bottom();
    }

    fn show_result(&mut self, call_id: &str, output: &ToolOutput)
        ensures
            *final(self) == (App { messages: final(self).messages, ..*old(self) }),
            result_shown(old(self).messages@, final(self).messages@, call_id@, *output),
    {
        let summary = clipped(output.output.as_str(), 80, 77);
        let ghost kept = summary;
        match self.last_assistant_mut() {
            Some(last) => {
                let ghost parts = last->parts@;
                last.complete_tool_call(call_id, summary, output.output.clone(), output.is_error);
                proof {
                    if let Some(at) = find_call(parts, call_id@) {
                        let before = parts[at.0]->ToolGroup_0.calls@[at.1];
                        assert(has_result(
                            ToolCall {
                                result_summary: Some(kept),
                                full_output: Some(output.output),
                                is_error: output.is_error,
                                ..before
                            },
                            before,
                            *output,
                        ));
                    }
                }
            },
            None => {},
        }
    }

    fn note_change(&mut self, tool_name: ToolName, is_error: bool)
        ensures
            change_noted(*old(self), tool_name, is_error, *final(self)),
    {
        if !tool_name.is_write_tool() || is_error {
            return;
        }
        let ghost found = self.last_completed(tool_name);
        let change = match self.find_last_completed_call(tool_name) {
            Some(call) => match &call.diff_content {
                Some(diff) => {
                    let (additions, removals) = count_diff_lines(diff);
                    Some((self.strip_project_root(call.args_summary.as_str()), additions, removals))
                },
                None => None,
            },
            None => None,
        };
        self.invalidate_file_index();
        match change {
            Some((path, additions, removals)) => {
                self.sidebar_state.record_file_change(path, additions, removals);
                proof {
                    let counts = diff_counts(found->Some_0.diff_content->Some_0);
                    assert(counts == (additions as nat, removals as nat));
                    assert(counts.0 as usize == additions && counts.1 as usize == removals);
                    assert(change_recorded(
                        old(self).sidebar_state.changes@,
                        self.sidebar_state.changes@,
                        path,
                        additions,
                        removals,
                    ));
                }
            },
            None => {},
        }
    }

    fn note_task(&mut self, tool_name: ToolName, output: &ToolOutput)
        ensures
            task_noted(*old(self), tool_name, *output, *final(self)),
    {
        if tool_name != ToolName::Task || output.is_error {
            return;
        }
        let closes = match self.find_last_completed_call(tool_name) {
            Some(call) => same_text(call.args_summary.as_str(), "complete"),
            None => false,
        };
        if !closes || !starts_with(output.output.as_str(), "Completed task ") {
            return;
        }
        let n: usize = "Completed task ".unicode_len();
        let rest = skip_chars(output.output.as_str(), n);
        proof {
            lemma_find_char(rest@, ':');
            assert(rest@.take(rest@.len() as int) =~= rest@);
        }
        let id = match split_at_char(rest.as_str(), ':') {
            Some((head, _)) => trimmed(head.as_str()),
            None => trimmed(rest.as_str()),
        };
        let ghost before = self.sidebar_state.session_closed_task_ids@;
        self.sidebar_state.record_task_closed(id);
        proof {
            if !views(before).contains(id@) {
                assert(self.sidebar_state.session_closed_task_ids@.drop_last() =~= before);
            }
        }
    }

    pub(crate) fn take_result(
        &mut self,
        call_id: &str,
        tool_name: ToolName,
        output: &ToolOutput,
        fx: &mut Vec<Effect>,
    )
        ensures
            result_taken(
                *old(self),
                call_id@,
                tool_name,
                *output,
                *final(self),
                old(fx)@,
                final(fx)@,
            ),
    {
        proof {
            reveal(result_taken);
        }
        self.show_result(call_id, output);
        let ghost shown = *self;
        self.note_change(tool_name, output.is_error);
        let ghost changed = *self;
        self.note_task(tool_name, output);
        let ghost closed = *self;
        if (tool_name.is_write_tool() || tool_name == ToolName::Bash) && !output.is_error {
            fx.push(Effect::RefreshGit);
        }
        self.update_sidebar(fx);
        self.message_area_state.scroll_to_bottom();
        proof {
            assert(change_noted(shown, tool_name, output.is_error, changed));
            assert(task_noted(changed, tool_name, *output, closed));
        }
    }

    /// Warns the user once when the context window fills up.
    pub fn check_context_warning(&mut self)
        ensures
            warning_checked(*old(self), *final(self)),
    {
        if self.context_warned {
            return;
        }
        let window: u64 = self.status_line_state.context_window;
        if window == 0 {
            return;
        }
        let level: u128 = part_of(window, THREE_FIFTHS);
        let used: u64 = self.status_line_state.last_prompt_tokens;
        if (used as u128) < level {
            return;
        }
        self.context_warned = true;
        let percent = decimal_text(context_usage_pct(used, window));
        let mut text = cat3("Context window ", percent.as_str(), "% full (");
        text.append(format_tokens(used).as_str());
        text.append("/");
        text.append(format_tokens(window).as_str());
        text.append("). Consider /compact to free space.");
        self.say(text);
        self.message_area_state.scroll_to_bottom();
    }

    /// Whether the conversation is to be compacted without being asked to.
    pub fn should_auto_compact(&self) -> (r: bool)
        ensures
            r == is_compaction_due(*self),
    {
        if !self.config.auto_compact || self.auto_compact_failed || self.stored_messages.len() < 4
            || self.current_session.is_none() {
            return false;
        }
        match (&self.current_model, &self.provider_registry) {
            (Some(m), Some(registry)) => match registry.resolve_model(m.as_str()) {
                Ok(found) => {
                    let level: u128 = part_of(found.context_window as u64, FOUR_FIFTHS);
                    self.last_prompt_tokens as u128 >= level
                },
                Err(_) => false,
            },
            _ => false,
        }
    }

    fn store_answer(&mut self, m: Message, usage: Option<Usage>, fx: &mut Vec<Effect>)
        requires
            old(self).exchange_count < usize::MAX,
            old(self).streaming_message is None,
            old(self).current_session matches Some(s) ==> (usage matches Some(u) ==> usage_fits(
                s.token_usage,
                u,
            )),
        ensures
            answer_stored(*old(self), m, usage, *final(self)),
            final(fx)@ == session_effects(
                old(self).current_session,
                usage,
                old(fx)@.push(Effect::SaveMessage(m)),
            ),
    {
        fx.push(Effect::SaveMessage(m.clone()));
        self.stored_messages.push(m);
        match self.current_session.take() {
            Some(mut s) => {
                match usage {
                    Some(u) => {
                        let p: u64 = s.token_usage.prompt_tokens + u.prompt_tokens as u64;
                        let c: u64 = s.token_usage.completion_tokens + u.completion_tokens as u64;
                        let t: u64 = s.token_usage.total_tokens + u.prompt_tokens as u64
                            + u.completion_tokens as u64;
                        s.token_usage = TokenUsage {
                            prompt_tokens: p,
                            completion_tokens: c,
                            total_tokens: t,
                        };
                        fx.push(Effect::SaveSession);
                    },
                    None => {
                        fx.push(Effect::TouchSession);
                    },
                }
                self.current_session = Some(s);
            },
            None => {},
        }
        self.exchange_count = self.exchange_count + 1;
    }

    fn wind_up(
        &mut self,
        m: Message,
        usage: Option<Usage>,
        fx: &mut Vec<Effect>,
    )
        requires
            old(self).exchange_count < usize::MAX,
            old(self).streaming_message is None,
            old(self).current_session matches Some(s) ==> (usage matches Some(u) ==> usage_fits(
                s.token_usage,
                u,
            )),
        ensures
            answer_wound_up(
                *old(self),
                m,
                usage,
                *final(self),
                old(fx)@,
                final(fx)@,
            ),
    {
        proof {
            reveal(answer_wound_up);
        }
        self.store_answer(m, usage, fx);
        let ghost stored = *self;
        let ghost fx1 = fx@;
        if self.exchange_count == 1 {
            self.maybe_generate_title(fx);
        }
        let ghost named = *self;
        let ghost fx2 = fx@;
        self.sync_sidebar_tokens();
        fx.push(Effect::RefreshDiagnostics);
        self.update_sidebar(fx);
        self.check_context_warning();
        let ghost fx3 = fx@;
        if self.should_auto_compact() {
            fx.push(Effect::Submit("/compact".to_owned()));
            proof {
                assert(fx@.drop_last() =~= fx3);
            }
        }
        proof {
            assert(answer_stored(*old(self), m, usage, stored));
            assert(fx1 == answer_effects(*old(self), m, usage, old(fx)@));
            assert(titled_after(
                stored,
                named,
                answer_effects(*old(self), m, usage, old(fx)@),
                fx2,
            ));
            assert(warning_checked(sidebar_updated(tokens_synced(named)), *self));
        }
    }

    pub(crate) fn finish_answer(
        &mut self,
        usage: Option<Usage>,
        now: u64,
        fx: &mut Vec<Effect>,
    )
        requires
            old(self).streaming_message is Some ==> old(self).exchange_count < usize::MAX && (
            old(self).current_session matches Some(s) ==> (usage matches Some(u) ==> usage_fits(
                s.token_usage,
                u,
            ))),
        ensures
            answer_finished(
                *old(self),
                usage,
                now,
                *final(self),
                old(fx)@,
                final(fx)@,
            ),
    {
        proof {
            reveal(answer_finished);
        }
        self.finish_stream(now);
        self.drop_blank_tail();
        let ghost ended = *self;
        match self.streaming_message.take() {
            Some(m) => {
                self.wind_up(m, usage, fx);
            },
            None => {},
        }
        proof {
            assert(ended.messages@ == without_blank_tail(old(self).messages@));
        }
    }

    pub(crate) fn show_usage(&mut self, usage: Usage)
        requires
            sidebar_fits(old(self).sidebar_state, usage),
        ensures
            warning_checked(usage_shown(*old(self), usage), *final(self)),
    {
        self.last_prompt_tokens = usage.prompt_tokens as u64;
        self.status_line_state.last_prompt_tokens = usage.prompt_tokens as u64;
        self.sidebar_state.prompt_tokens = self.sidebar_state.prompt_tokens
            + usage.prompt_tokens as u64;
        self.sidebar_state.completion_tokens = self.sidebar_state.completion_tokens
            + usage.completion_tokens as u64;
        self.sidebar_state.total_tokens = self.sidebar_state.total_tokens + (usage.prompt_tokens
            + usage.completion_tokens) as u64;
        self.check_context_warning();
    }

    pub(crate) fn take_progress(
        &mut self,
        call_id: &str,
        tool_name: ToolName,
        args: String,
        result: Option<String>,
    )
        ensures
            progress_taken(*old(self), call_id@, tool_name, args, result, *final(self)),
    {
        proof {
            reveal(progress_taken);
        }
        match self.last_assistant_mut() {
            Some(last) => {
                if result.is_some() {
                    last.update_agent_progress_result(call_id, result);
                } else {
                    last.update_agent_progress(call_id, tool_name, args);
                }
            },
            None => {},
        }
    }
}

} // verus!
