//! What happens to the application: everything that comes from the terminal,
//! from the model and from the background.
use crate::blocks::{pushed, MessageBlock};
use crate::commands::{nothing_selected, scrolled_to_bottom};
use crate::effects::{ChatJob, ChatPurpose, Effect};
use crate::export::QuestionRequest;
use crate::helpers::{elapsed, with_activity};
use crate::input::session_id;
use crate::json::Json;
use crate::keys::{key_handled, KeyEvent, KeyFacts};
use crate::message::{Message, Role};
use crate::notices::{fold_notice, folded};
use crate::sessions::{is_untitled, title_of_reply, titled};
use crate::sidebar::{sidebar_updated, tokens_synced};
use crate::state::{
    Activity, App, ContentPos, PendingPermission, PendingQuestion, SelectionState, SessionInfo,
    SidebarLsp, SidebarMcp, SidebarState, TokenUsage,
};
use crate::stream_events::{
    answer_finished, call_announced, call_made, delta_taken, progress_taken, reasoning_taken,
    response_started, result_taken, shows_diff, sidebar_fits, stream_finished, usage_fits,
    usage_shown, warning_checked, Usage,
};
use crate::tasks::told;
use crate::text::{cat2, cat4, clone_texts, decimal, decimal_text};
use crate::titles::clean_title;
use crate::tool::{ToolName, ToolOutput};
use crate::tool_display::{extract_diff_content, has_span_that_fits, span_fits};
use vstd::prelude::*;
use vstd::string::*;

verus! {

/// What the mouse did.
#[derive(Clone, Copy, Debug, PartialEq, Eq, Structural)]
pub enum MouseKind {
    ScrollDown,
    ScrollUp,
    LeftDown,
    LeftDrag,
    LeftUp,
    Other,
}

/// What the mouse did, and where.
#[derive(Clone, Copy, Debug, PartialEq, Eq, Structural)]
pub struct MouseEvent {
    pub kind: MouseKind,
    pub row: u16,
    pub column: u16,
}

/// A tool call that needs the permission of the user.
#[derive(Debug, PartialEq, Eq)]
pub struct PermissionRequest {
    pub tool_name: ToolName,
    pub tool_args: Json,
    pub display_name: Option<String>,
    pub arguments_summary: String,
}

/// Something that happened.
#[allow(inconsistent_fields)]
#[derive(Debug, PartialEq, Eq)]
pub enum AppEvent {
    Key(KeyEvent),
    Mouse(MouseEvent),
    Paste(String),
    Resize,
    Tick { lsp_servers: Vec<SidebarLsp> },
    LlmResponseStart,
    LlmDelta { text: String },
    LlmReasoning { text: String },
    LlmToolCallStreaming { tool_name: ToolName },
    LlmToolCall { call_id: String, tool_name: ToolName, arguments: Json },
    ToolResult { call_id: String, tool_name: ToolName, output: ToolOutput },
    LlmFinish { usage: Option<Usage> },
    LlmUsageUpdate { usage: Usage },
    LlmRetry { attempt: u32, max_attempts: u32, error: String },
    LlmError { error: String },
    StreamNotice { text: String },
    AgentProgress {
        call_id: String,
        tool_name: ToolName,
        args_summary: String,
        result_summary: Option<String>,
    },
    McpStatus { servers: Vec<SidebarMcp> },
    PermissionRequest(PermissionRequest),
    QuestionRequest(QuestionRequest),
    CompactFinish { summary: String },
    CompactError { error: String },
    AgentsUpdateFinish { proposed_content: String },
    AgentsUpdateError { error: String },
    TitleGenerated { session_id: String, title: String },
    TitleError { session_id: String, fallback_title: String },
    LspRestartNeeded { lang: String },
    ExportScenarioFinish { path: String, name: String },
    ExportScenarioError { error: String },
    ExportScenarioWarning { warning: String },
}

/// What is done next while the end of a conversation is waited for.
#[derive(Debug, PartialEq, Eq)]
pub enum IdleStep {
    /// The conversation is over.
    Done,
    /// The next event is taken.
    Take,
    /// There will be no further event.
    Fail(String),
}

/// What is known outside when something happens.
#[derive(Debug, PartialEq, Eq)]
pub struct EventFacts {
    pub now: u64,
    pub ui: KeyFacts,
}

/// Whether the counters of the application have room for an event.
pub open spec fn has_room(app: App, event: AppEvent) -> bool {
    match event {
        AppEvent::LlmToolCall { tool_name, arguments, .. } => tool_name == ToolName::Edit
            ==> span_fits(arguments),
        AppEvent::PermissionRequest(req) => req.tool_name == ToolName::Edit ==> span_fits(
            req.tool_args,
        ),
        AppEvent::LlmFinish { usage } => app.streaming_message is Some ==> {
            &&& app.exchange_count < usize::MAX
            &&& app.current_session matches Some(s) ==> (usage matches Some(u) ==> usage_fits(
                s.token_usage,
                u,
            ))
        },
        AppEvent::LlmUsageUpdate { usage } => sidebar_fits(app.sidebar_state, usage),
        AppEvent::CompactFinish { .. } => app.compaction_count < u32::MAX,
        _ => true,
    }
}

/// Whether an overlay or a question keeps the mouse from the message area.
pub open spec fn mouse_blocked(app: App) -> bool {
    app.model_picker.visible || app.session_picker.visible || app.diagnostics_overlay.visible
        || app.mcp_overlay.visible || app.pending_question is Some
}

/// Whether the mouse is over the message area.
pub open spec fn over_area(app: App, mouse: MouseEvent) -> bool {
    let area = app.last_message_area;
    &&& area.y <= mouse.row < area.y + area.height
    &&& area.x <= mouse.column < area.x + area.width
}

/// The two ends of the selection, the earlier first.
pub open spec fn ordered_range(s: SelectionState) -> Option<(ContentPos, ContentPos)> {
    match (s.anchor, s.cursor) {
        (Some(a), Some(b)) => if a.line < b.line || (a.line == b.line && a.column <= b.column) {
            Some((a, b))
        } else {
            Some((b, a))
        },
        _ => None,
    }
}

/// What the mouse does.
#[verifier::opaque]
pub open spec fn mouse_handled(
    pre: App,
    mouse: MouseEvent,
    post: App,
    old_fx: Seq<Effect>,
    new_fx: Seq<Effect>,
) -> bool {
    let area = pre.last_message_area;
    let place = Effect::LocateSelectionEnd { row: mouse.row, column: mouse.column };
    if mouse_blocked(pre) {
        post == pre && new_fx == old_fx
    } else {
        match mouse.kind {
            MouseKind::ScrollDown => {
                &&& post == (App {
                    message_area_state: pre.message_area_state.scrolled_down(3),
                    ..pre
                })
                &&& new_fx == old_fx
            },
            MouseKind::ScrollUp => {
                &&& post == (App {
                    message_area_state: pre.message_area_state.scrolled_up(3),
                    ..pre
                })
                &&& new_fx == old_fx
            },
            MouseKind::LeftDown => if over_area(pre, mouse) {
                &&& post == (App {
                    selection_state: nothing_selected(pre.selection_state),
                    ..pre
                })
                &&& new_fx == old_fx.push(
                    Effect::LocateSelectionStart { row: mouse.row, column: mouse.column },
                )
            } else {
                post == pre && new_fx == old_fx
            },
            MouseKind::LeftDrag => if pre.selection_state.dragging {
                &&& post == (App {
                    message_area_state: if mouse.row < area.y {
                        pre.message_area_state.scrolled_up(1)
                    } else if mouse.row >= area.y + area.height {
                        pre.message_area_state.scrolled_down(1)
                    } else {
                        pre.message_area_state
                    },
                    ..pre
                })
                &&& new_fx == old_fx.push(place)
            } else {
                post == pre && new_fx == old_fx
            },
            MouseKind::LeftUp => if pre.selection_state.dragging {
                &&& post == (App {
                    selection_state: SelectionState { dragging: false, ..pre.selection_state },
                    ..pre
                })
                &&& new_fx == (match ordered_range(pre.selection_state) {
                    Some((start, end)) => old_fx.push(Effect::CopySelection { start, end }),
                    None => old_fx,
                })
            } else {
                post == pre && new_fx == old_fx
            },
            MouseKind::Other => post == pre && new_fx == old_fx,
        }
    }
}

/// The flash that says that something was copied, after a tick at `now`: it
/// lasts a second.
pub open spec fn flash_after(flash: Option<u64>, now: u64) -> Option<u64> {
    match flash {
        Some(t) if elapsed(t, now) < 1000 => Some(t),
        _ => None,
    }
}

/// The application after a tick.
pub open spec fn ticked(pre: App, lsp_servers: Vec<SidebarLsp>, now: u64) -> App {
    App {
        sidebar_state: SidebarState { lsp_servers, ..pre.sidebar_state },
        selection_state: SelectionState {
            copied_flash: flash_after(pre.selection_state.copied_flash, now),
            ..pre.selection_state
        },
        ..pre
    }
}

/// The application after the conversation broke off.
pub open spec fn broken_off(pre: App, now: u64) -> App {
    App { streaming_message: None, ..stream_finished(pre, now) }
}

/// What an error of the conversation does.
#[verifier::opaque]
pub open spec fn stream_failed(pre: App, error: Seq<char>, now: u64, post: App) -> bool {
    exists|said: App|
        {
            &&& #[trigger] told(broken_off(pre, now), said, true, error)
            &&& post == scrolled_to_bottom(said)
        }
}

/// The blocks after a notice: one that says the same as the note before it is
/// counted there, any other is added.
pub open spec fn notice_added(
    old_blocks: Seq<MessageBlock>,
    text: Seq<char>,
    new_blocks: Seq<MessageBlock>,
) -> bool {
    let fold = if old_blocks.len() > 0 {
        match old_blocks.last() {
            MessageBlock::System { text: prev } => folded(prev@, text),
            _ => None,
        }
    } else {
        None
    };
    match fold {
        Some(t) => {
            &&& new_blocks.len() == old_blocks.len()
            &&& new_blocks.drop_last() == old_blocks.drop_last()
            &&& new_blocks.last().is_system_text(t)
        },
        None => {
            &&& pushed(old_blocks, new_blocks)
            &&& new_blocks.last().is_system_text(text)
        },
    }
}

/// What a notice does.
#[verifier::opaque]
pub open spec fn notice_shown(pre: App, text: Seq<char>, post: App) -> bool {
    &&& post == (App {
        messages: post.messages,
        message_area_state: pre.message_area_state.at_bottom(),
        ..pre
    })
    &&& notice_added(pre.messages@, text, post.messages@)
}

/// What a request for permission does.
#[verifier::opaque]
pub open spec fn permission_asked(pre: App, req: PermissionRequest, post: App) -> bool {
    &&& post == (App {
        messages: post.messages,
        status_line_state: with_activity(pre.status_line_state, Activity::WaitingForPermission),
        message_area_state: pre.message_area_state.at_bottom(),
        pending_permission: Some(
            PendingPermission { tool_name: req.tool_name, summary: req.arguments_summary },
        ),
        ..pre
    })
    &&& pushed(pre.messages@, post.messages@)
    &&& post.messages@.last() matches MessageBlock::Permission {
        tool_name,
        args_summary,
        diff_content,
    }
    &&& tool_name@ == (match req.display_name {
        Some(name) => name@,
        None => req.tool_name.name(),
    })
    &&& args_summary == req.arguments_summary
    &&& shows_diff(diff_content, req.tool_name, req.tool_args)
}

/// What is selected when a question is asked: the first option, if there is one.
pub open spec fn first_option(options: Seq<String>) -> Option<usize> {
    if options.len() > 0 {
        Some(0usize)
    } else {
        None
    }
}

/// What a question does.
#[verifier::opaque]
pub open spec fn question_asked(pre: App, req: QuestionRequest, post: App) -> bool {
    &&& post == (App {
        messages: post.messages,
        status_line_state: with_activity(pre.status_line_state, Activity::WaitingForQuestion),
        message_area_state: pre.message_area_state.at_bottom(),
        pending_question: post.pending_question,
        ..pre
    })
    &&& pushed(pre.messages@, post.messages@)
    &&& post.messages@.last() matches MessageBlock::Question {
        question,
        options,
        selected,
        free_text,
        answered,
    }
    &&& question == req.question
    &&& options@ == req.options@
    &&& selected == first_option(req.options@)
    &&& free_text@.len() == 0
    &&& answered is None
    &&& post.pending_question matches Some(q)
    &&& q == (PendingQuestion {
        call_id: req.call_id,
        question: req.question,
        options: req.options,
        selected: first_option(req.options@),
        free_text: q.free_text,
    })
    &&& q.free_text@.len() == 0
}

/// A session with its counts set back.
pub open spec fn counts_reset(s: Option<SessionInfo>) -> Option<SessionInfo> {
    match s {
        Some(s) => Some(
            SessionInfo {
                token_usage: TokenUsage {
                    prompt_tokens: 0,
                    completion_tokens: 0,
                    total_tokens: 0,
                },
                ..s
            },
        ),
        None => None,
    }
}

/// The application with its conversation replaced by a summary.
pub open spec fn compacted(pre: App, summary: Seq<char>, post: App) -> bool {
    &&& post == (App {
        is_loading: false,
        compaction_count: (pre.compaction_count + 1) as u32,
        current_session: counts_reset(pre.current_session),
        stored_messages: post.stored_messages,
        messages: post.messages,
        message_area_state: pre.message_area_state.at_bottom(),
        context_warned: false,
        last_prompt_tokens: 0,
        ..pre
    })
    &&& post.stored_messages@.len() == 1
    &&& post.stored_messages@[0].is(session_id(pre), Role::Assistant, summary)
    &&& post.messages@.len() == 2
    &&& post.messages@[0].is_system_text("Conversation compacted."@)
    &&& post.messages@[1].is_assistant_text(summary)
}

/// What the end of a compaction does.
#[verifier::opaque]
pub open spec fn compaction_finished(
    pre: App,
    summary: Seq<char>,
    post: App,
    old_fx: Seq<Effect>,
    new_fx: Seq<Effect>,
) -> bool {
    exists|mid: App, fx1: Seq<Effect>|
        {
            let fx2 = fx1.push(Effect::SaveMessage(mid.stored_messages@[0]));
            let fx3 = if pre.current_session is Some {
                fx2.push(Effect::SaveSession)
            } else {
                fx2
            };
            &&& #[trigger] compacted(pre, summary, mid)
            &&& #[trigger] pushed(old_fx, fx1)
            &&& fx1.last() matches Effect::DeleteMessages { session_id: id }
            &&& id@ == session_id(pre)
            &&& post == sidebar_updated(tokens_synced(mid))
            &&& new_fx == fx3.push(Effect::RefreshDiagnostics).push(Effect::RefreshSidebar)
        }
}

/// The application after a compaction came to nothing.
pub open spec fn not_compacted(pre: App) -> App {
    App { is_loading: false, auto_compact_failed: true, ..pre }
}

/// What the failure of a compaction does.
#[verifier::opaque]
pub open spec fn compaction_failed(pre: App, error: Seq<char>, post: App) -> bool {
    exists|said: App|
        {
            &&& #[trigger] told(not_compacted(pre), said, true, error)
            &&& post == scrolled_to_bottom(idle(said))
        }
}

/// The application at rest.
pub open spec fn idle(pre: App) -> App {
    App { status_line_state: with_activity(pre.status_line_state, Activity::Idle), ..pre }
}

/// The application at rest, no longer waiting for an answer.
pub open spec fn done_loading(pre: App) -> App {
    idle(App { is_loading: false, ..pre })
}

pub const PROPOSAL: &'static str =
    "Proposed AGENTS.md update \u{2014} press **y** to apply, **n** to discard:";

/// What a proposed AGENTS.md does; nothing where it was cancelled.
#[verifier::opaque]
pub open spec fn update_proposed(pre: App, content: String, post: App) -> bool {
    if !pre.is_loading {
        post == pre
    } else {
        &&& post == (App {
            is_loading: false,
            status_line_state: with_activity(pre.status_line_state, Activity::Idle),
            pending_agents_update: Some(content),
            messages: post.messages,
            message_area_state: pre.message_area_state.at_bottom(),
            ..pre
        })
        &&& post.messages@.len() == pre.messages@.len() + 2
        &&& post.messages@.take(pre.messages@.len() as int) == pre.messages@
        &&& post.messages@[pre.messages@.len() as int].is_system_text(PROPOSAL@)
        &&& post.messages@.last().is_assistant_text(content@)
    }
}

/// What a failed proposal does; nothing where it was cancelled.
#[verifier::opaque]
pub open spec fn update_failed(pre: App, error: Seq<char>, post: App) -> bool {
    if !pre.is_loading {
        post == pre
    } else {
        exists|said: App|
            {
                &&& #[trigger] told(done_loading(pre), said, true, error)
                &&& post == scrolled_to_bottom(said)
            }
    }
}

/// What a title that was asked for does.
pub open spec fn title_taken(
    pre: App,
    id: Seq<char>,
    title: Seq<char>,
    post: App,
    old_fx: Seq<Effect>,
    new_fx: Seq<Effect>,
) -> bool {
    if is_untitled(pre) && (pre.current_session matches Some(s) && s.id@ == id) {
        titled(pre, title, post, old_fx, new_fx)
    } else {
        post == pre && new_fx == old_fx
    }
}

/// Whether the user was told `text` and sees it.
#[verifier::opaque]
pub open spec fn told_below(pre: App, is_error: bool, text: Seq<char>, post: App) -> bool {
    exists|said: App| #[trigger]
        told(pre, said, is_error, text) && post == scrolled_to_bottom(said)
}

/// What a paste does.
#[verifier::opaque]
pub open spec fn pasted(pre: App, text: String, old_fx: Seq<Effect>) -> Seq<Effect> {
    if pre.pending_permission is None && pre.pending_question is None {
        old_fx.push(Effect::CollapsePaste(text)).push(Effect::RefreshAutocomplete)
    } else {
        old_fx
    }
}

/// What the user is told about the connection.
pub open spec fn retry_text(error: Seq<char>, attempt: nat, max: nat) -> Seq<char> {
    "Connection error: "@ + error + "\nRetrying ("@ + decimal(attempt) + "/"@ + decimal(max)
        + ")..."@
}

/// What an event does.
pub open spec fn event_handled(
    pre: App,
    event: AppEvent,
    facts: EventFacts,
    post: App,
    old_fx: Seq<Effect>,
    new_fx: Seq<Effect>,
) -> bool {
    match event {
        AppEvent::Key(key) => key_handled(pre, key, facts.ui, facts.now, post, old_fx, new_fx),
        AppEvent::Mouse(mouse) => mouse_handled(pre, mouse, post, old_fx, new_fx),
        AppEvent::Paste(text) => post == pre && new_fx == pasted(pre, text, old_fx),
        AppEvent::Resize => post == pre && new_fx == old_fx,
        AppEvent::Tick { lsp_servers } => post == ticked(pre, lsp_servers, facts.now) && new_fx
            == old_fx.push(Effect::AdvanceSpinners),
        AppEvent::LlmResponseStart => if pre.streaming_active {
            response_started(pre, post, old_fx, new_fx)
        } else {
            post == pre && new_fx == old_fx
        },
        AppEvent::LlmDelta { text } => new_fx == old_fx && if pre.streaming_active {
            delta_taken(pre, text@, post)
        } else {
            post == pre
        },
        AppEvent::LlmReasoning { text } => new_fx == old_fx && if pre.streaming_active {
            reasoning_taken(pre, text@, post)
        } else {
            post == pre
        },
        AppEvent::LlmToolCallStreaming { tool_name } => call_announced(pre, tool_name, post)
            && new_fx == old_fx,
        AppEvent::LlmToolCall { call_id, tool_name, arguments } => call_made(
            pre,
            call_id,
            tool_name,
            arguments,
            post,
        ) && new_fx == old_fx,
        AppEvent::ToolResult { call_id, tool_name, output } => result_taken(
            pre,
            call_id@,
            tool_name,
            output,
            post,
            old_fx,
            new_fx,
        ),
        AppEvent::LlmFinish { usage } => answer_finished(
            pre,
            usage,
            facts.now,
            post,
            old_fx,
            new_fx,
        ),
        AppEvent::LlmUsageUpdate { usage } => warning_checked(usage_shown(pre, usage), post)
            && new_fx == old_fx,
        AppEvent::LlmRetry { attempt, max_attempts, error } => told_below(
            pre,
            false,
            retry_text(error@, attempt as nat, max_attempts as nat),
            post,
        ) && new_fx == old_fx,
        AppEvent::LlmError { error } => stream_failed(pre, error@, facts.now, post) && new_fx
            == old_fx,
        AppEvent::StreamNotice { text } => notice_shown(pre, text@, post) && new_fx == old_fx,
        AppEvent::AgentProgress { call_id, tool_name, args_summary, result_summary } =>
            progress_taken(pre, call_id@, tool_name, args_summary, result_summary, post) && new_fx
            == old_fx,
        AppEvent::McpStatus { servers } => {
            &&& post == (App {
                sidebar_state: SidebarState { mcp_servers: servers, ..pre.sidebar_state },
                ..pre
            })
            &&& new_fx == old_fx
        },
        AppEvent::PermissionRequest(req) => permission_asked(pre, req, post) && new_fx == old_fx,
        AppEvent::QuestionRequest(req) => question_asked(pre, req, post) && new_fx == old_fx,
        AppEvent::CompactFinish { summary } => compaction_finished(
            pre,
            summary@,
            post,
            old_fx,
            new_fx,
        ),
        AppEvent::CompactError { error } => compaction_failed(pre, error@, post) && new_fx
            == old_fx,
        AppEvent::AgentsUpdateFinish { proposed_content } => update_proposed(
            pre,
            proposed_content,
            post,
        ) && new_fx == old_fx,
        AppEvent::AgentsUpdateError { error } => update_failed(pre, error@, post) && new_fx
            == old_fx,
        AppEvent::TitleGenerated { session_id, title } => title_taken(
            pre,
            session_id@,
            title@,
            post,
            old_fx,
            new_fx,
        ),
        AppEvent::TitleError { session_id, fallback_title } => title_taken(
            pre,
            session_id@,
            fallback_title@,
            post,
            old_fx,
            new_fx,
        ),
        AppEvent::LspRestartNeeded { lang } => post == pre && new_fx == old_fx.push(
            Effect::RestartLsp { lang },
        ),
        AppEvent::ExportScenarioFinish { path, name } => told_below(
            pre,
            false,
            "Scenario '"@ + name@ + "' written to "@ + path@,
            post,
        ) && new_fx == old_fx,
        AppEvent::ExportScenarioError { error } => told_below(pre, true, error@, post) && new_fx
            == old_fx,
        AppEvent::ExportScenarioWarning { warning } => told_below(pre, false, warning@, post)
            && new_fx == old_fx,
    }
}

/// The event that the answer to a single question to a model becomes.
pub open spec fn is_reply_event(job: ChatJob, reply: Result<String, String>, event: AppEvent) -> bool {
    match (job.purpose, reply) {
        (ChatPurpose::Compact, Ok(t)) => event == (AppEvent::CompactFinish { summary: t }),
        (ChatPurpose::Compact, Err(e)) => event matches AppEvent::CompactError { error } && error@
            == "Compaction failed: "@ + e@,
        (ChatPurpose::AgentsUpdate, Ok(t)) => event == (AppEvent::AgentsUpdateFinish {
            proposed_content: t,
        }),
        (ChatPurpose::AgentsUpdate, Err(e)) => event matches AppEvent::AgentsUpdateError { error }
            && error@ == "AGENTS.md update failed: "@ + e@,
        (ChatPurpose::Title, Ok(t)) => if clean_title(t@).len() > 0 {
            event matches AppEvent::TitleGenerated { session_id, title } && session_id
                == job.session_id && title@ == clean_title(t@)
        } else {
            event == (AppEvent::TitleError {
                session_id: job.session_id,
                fallback_title: job.fallback,
            })
        },
        (ChatPurpose::Title, Err(_)) => event == (AppEvent::TitleError {
            session_id: job.session_id,
            fallback_title: job.fallback,
        }),
    }
}

/// The event that the answer to a single question to a model becomes.
pub fn reply_event(job: ChatJob, reply: Result<String, String>) -> (r: AppEvent)
    ensures
        is_reply_event(job, reply, r),
{
    match job.purpose {
        ChatPurpose::Compact => match reply {
            Ok(summary) => AppEvent::CompactFinish { summary },
            Err(e) => AppEvent::CompactError { error: cat2("Compaction failed: ", e.as_str()) },
        },
        ChatPurpose::AgentsUpdate => match reply {
            Ok(proposed_content) => AppEvent::AgentsUpdateFinish { proposed_content },
            Err(e) => AppEvent::AgentsUpdateError {
                error: cat2("AGENTS.md update failed: ", e.as_str()),
            },
        },
        ChatPurpose::Title => {
            let title = match reply {
                Ok(raw) => title_of_reply(raw.as_str()),
                Err(_) => None,
            };
            match title {
                Some(title) => AppEvent::TitleGenerated { session_id: job.session_id, title },
                None => AppEvent::TitleError {
                    session_id: job.session_id,
                    fallback_title: job.fallback,
                },
            }
        },
    }
}

impl SelectionState {
    /// The two ends of the selection, the earlier first.
    pub fn range(&self) -> (r: Option<(ContentPos, ContentPos)>)
        ensures
            r == ordered_range(*self),
    {
        match (self.anchor, self.cursor) {
            (Some(a), Some(b)) => {
                if a.line < b.line || (a.line == b.line && a.column <= b.column) {
                    Some((a, b))
                } else {
                    Some((b, a))
                }
            },
            _ => None,
        }
    }
}

impl App {
    /// Whether the counters of the application have room for an event.
    pub fn accepts(&self, event: &AppEvent) -> (r: bool)
        ensures
            r == has_room(*self, *event),
    {
        match event {
            AppEvent::LlmToolCall { tool_name, arguments, .. } => {
                *tool_name != ToolName::Edit || has_span_that_fits(arguments)
            },
            AppEvent::PermissionRequest(req) => {
                req.tool_name != ToolName::Edit || has_span_that_fits(&req.tool_args)
            },
            AppEvent::LlmFinish { usage } => {
                if self.streaming_message.is_none() {
                    return true;
                }
                if self.exchange_count == usize::MAX {
                    return false;
                }
                match (&self.current_session, usage) {
                    (Some(s), Some(u)) => {
                        let t = s.token_usage;
                        let p: u128 = t.prompt_tokens as u128 + u.prompt_tokens as u128;
                        let c: u128 = t.completion_tokens as u128 + u.completion_tokens as u128;
                        let all: u128 = t.total_tokens as u128 + u.prompt_tokens as u128
                            + u.completion_tokens as u128;
                        let max: u128 = u64::MAX as u128;
                        p <= max && c <= max && all <= max
                    },
                    _ => true,
                }
            },
            AppEvent::LlmUsageUpdate { usage } => {
                let s = &self.sidebar_state;
                let both: u128 = usage.prompt_tokens as u128 + usage.completion_tokens as u128;
                let p: u128 = s.prompt_tokens as u128 + usage.prompt_tokens as u128;
                let c: u128 = s.completion_tokens as u128 + usage.completion_tokens as u128;
                let all: u128 = s.total_tokens as u128 + both;
                let max: u128 = u64::MAX as u128;
                both <= u32::MAX as u128 && p <= max && c <= max && all <= max
            },
            AppEvent::CompactFinish { .. } => self.compaction_count < u32::MAX,
            _ => true,
        }
    }

    /// Takes what the mouse did.
    pub fn handle_mouse(&mut self, mouse: MouseEvent, fx: &mut Vec<Effect>)
        ensures
            mouse_handled(*old(self), mouse, *final(self), old(fx)@, final(fx)@),
    {
        proof {
            reveal(mouse_handled);
        }
        if self.model_picker.visible || self.session_picker.visible
            || self.diagnostics_overlay.visible || self.mcp_overlay.visible
            || self.pending_question.is_some() {
            return;
        }
        let area = self.last_message_area;
        let row: u32 = mouse.row as u32;
        let column: u32 = mouse.column as u32;
        let below: u32 = area.y as u32 + area.height as u32;
        let beyond: u32 = area.x as u32 + area.width as u32;
        match mouse.kind {
            MouseKind::ScrollDown => {
                self.message_area_state.scroll_down(3);
            },
            MouseKind::ScrollUp => {
                self.message_area_state.scroll_up(3);
            },
            MouseKind::LeftDown => {
                if mouse.row >= area.y && row < below && mouse.column >= area.x && column < beyond {
                    self.selection_state.anchor = None;
                    self.selection_state.cursor = None;
                    self.selection_state.dragging = false;
                    fx.push(
                        Effect::LocateSelectionStart { row: mouse.row, column: mouse.column },
                    );
                }
            },
            MouseKind::LeftDrag => {
                if self.selection_state.dragging {
                    if mouse.row < area.y {
                        self.message_area_state.scroll_up(1);
                    } else if row >= below {
                        self.message_area_state.scroll_down(1);
                    }
                    fx.push(Effect::LocateSelectionEnd { row: mouse.row, column: mouse.column });
                }
            },
            MouseKind::LeftUp => {
                if self.selection_state.dragging {
                    let range = self.selection_state.range();
                    self.selection_state.dragging = false;
                    match range {
                        Some((start, end)) => {
                            fx.push(Effect::CopySelection { start, end });
                        },
                        None => {},
                    }
                }
            },
            MouseKind::Other => {},
        }
    }

    /// Begins a selection at a place, where there is text there.
    pub fn selection_started(&mut self, place: Option<ContentPos>)
        ensures
            *final(self) == (match place {
                Some(p) => App {
                    selection_state: SelectionState {
                        anchor: Some(p),
                        cursor: Some(p),
                        dragging: true,
                        ..old(self).selection_state
                    },
                    ..*old(self)
                },
                None => *old(self),
            }),
    {
        match place {
            Some(p) => {
                self.selection_state.anchor = Some(p);
                self.selection_state.cursor = Some(p);
                self.selection_state.dragging = true;
            },
            None => {},
        }
    }

    /// Moves the end of the selection to a place, where there is text there.
    pub fn selection_moved(&mut self, place: Option<ContentPos>)
        ensures
            *final(self) == (match place {
                Some(p) => App {
                    selection_state: SelectionState {
                        cursor: Some(p),
                        ..old(self).selection_state
                    },
                    ..*old(self)
                },
                None => *old(self),
            }),
    {
        match place {
            Some(p) => {
                self.selection_state.cursor = Some(p);
            },
            None => {},
        }
    }

    /// Shows that something was copied.
    pub(crate) fn copied(&mut self, now: u64)
        ensures
            *final(self) == (App {
                selection_state: SelectionState {
                    copied_flash: Some(now),
                    ..old(self).selection_state
                },
                ..*old(self)
            }),
    {
        self.selection_state.copied_flash = Some(now);
    }

    fn tick(&mut self, lsp_servers: Vec<SidebarLsp>, now: u64)
        ensures
            *final(self) == ticked(*old(self), lsp_servers, now),
    {
        self.sidebar_state.lsp_servers = lsp_servers;
        match self.selection_state.copied_flash {
            Some(t) => {
                if now.saturating_sub(t) >= 1000 {
                    self.selection_state.copied_flash = None;
                }
            },
            None => {},
        }
    }

    fn tell_below(&mut self, is_error: bool, text: String)
        ensures
            told_below(*old(self), is_error, text@, *final(self)),
    {
        proof {
            reveal(told_below);
        }
        self.tell(is_error, text);
        let ghost said = *self;
        self.message_area_state.scroll_to_bottom();
        proof {
            assert(told(*old(self), said, is_error, text@));
        }
    }

    fn fail_stream(&mut self, error: String, now: u64)
        ensures
            stream_failed(*old(self), error@, now, *final(self)),
    {
        proof {
            reveal(stream_failed);
        }
        self.finish_stream(now);
        self.streaming_message = None;
        let ghost mid = *self;
        self.tell(true, error);
        let ghost said = *self;
        self.message_area_state.scroll_to_bottom();
        proof {
            assert(mid == broken_off(*old(self), now));
            assert(told(mid, said, true, error@));
        }
    }

    fn show_notice(&mut self, text: String)
        ensures
            notice_shown(*old(self), text@, *final(self)),
    {
        proof {
            reveal(notice_shown);
        }
        add_notice(&mut self.messages, text);
        self.message_area_state.scroll_to_bottom();
    }

    fn ask_permission(&mut self, req: PermissionRequest)
        requires
            req.tool_name == ToolName::Edit ==> span_fits(req.tool_args),
        ensures
            permission_asked(*old(self), req, *final(self)),
    {
        proof {
            reveal(permission_asked);
        }
        let ghost before = self.messages@;
        let diff_content = extract_diff_content(req.tool_name, &req.tool_args);
        let tool_name = match &req.display_name {
            Some(name) => name.clone(),
            None => req.tool_name.as_str().to_owned(),
        };
        self.messages.push(
            MessageBlock::Permission {
                tool_name,
                args_summary: req.arguments_summary.clone(),
                diff_content,
            },
        );
        proof {
            assert(self.messages@.drop_last() =~= before);
        }
        self.status_line_state.activity = Activity::WaitingForPermission;
        self.message_area_state.scroll_to_bottom();
        self.pending_permission = Some(
            PendingPermission { tool_name: req.tool_name, summary: req.arguments_summary },
        );
    }

    fn ask_question(&mut self, req: QuestionRequest)
        ensures
            question_asked(*old(self), req, *final(self)),
    {
        proof {
            reveal(question_asked);
        }
        let ghost before = self.messages@;
        let selected: Option<usize> = if req.options.len() > 0 {
            Some(0)
        } else {
            None
        };
        self.messages.push(
            MessageBlock::Question {
                question: req.question.clone(),
                options: clone_texts(&req.options),
                selected,
                free_text: String::new(),
                answered: None,
            },
        );
        proof {
            assert(self.messages@.drop_last() =~= before);
        }
        self.status_line_state.activity = Activity::WaitingForQuestion;
        self.message_area_state.scroll_to_bottom();
        self.pending_question = Some(
            PendingQuestion {
                call_id: req.call_id,
                question: req.question,
                options: req.options,
                selected,
                free_text: String::new(),
            },
        );
    }

    fn compact(&mut self, summary: String)
        requires
            old(self).compaction_count < u32::MAX,
        ensures
            compacted(*old(self), summary@, *final(self)),
    {
        let id = self.current_session_id();
        self.is_loading = false;
        self.compaction_count = self.compaction_count + 1;
        let summary_msg = Message::assistant(id.as_str(), summary.as_str());
        match self.current_session.take() {
            Some(mut s) => {
                s.token_usage = TokenUsage {
                    prompt_tokens: 0,
                    completion_tokens: 0,
                    total_tokens: 0,
                };
                self.current_session = Some(s);
            },
            None => {},
        }
        self.stored_messages = vec![summary_msg];
        let first = MessageBlock::System { text: "Conversation compacted.".to_owned() };
        self.messages = vec![first, MessageBlock::assistant_text(summary)];
        self.message_area_state.scroll_to_bottom();
        self.context_warned = false;
        self.last_prompt_tokens = 0;
    }

    fn finish_compaction(&mut self, summary: String, fx: &mut Vec<Effect>)
        requires
            old(self).compaction_count < u32::MAX,
        ensures
            compaction_finished(*old(self), summary@, *final(self), old(fx)@, final(fx)@),
    {
        proof {
            reveal(compaction_finished);
        }
        let ghost fx0 = fx@;
        fx.push(Effect::DeleteMessages { session_id: self.current_session_id() });
        let ghost fx1 = fx@;
        self.compact(summary);
        let ghost mid = *self;
        fx.push(Effect::SaveMessage(self.stored_messages[0].clone()));
        if self.current_session.is_some() {
            fx.push(Effect::SaveSession);
        }
        self.sync_sidebar_tokens();
        fx.push(Effect::RefreshDiagnostics);
        self.update_sidebar(fx);
        proof {
            assert(fx1.drop_last() =~= fx0);
            assert(compacted(*old(self), summary@, mid));
            assert(pushed(old(fx)@, fx1));
        }
    }

    fn fail_compaction(&mut self, error: String)
        ensures
            compaction_failed(*old(self), error@, *final(self)),
    {
        proof {
            reveal(compaction_failed);
        }
        self.is_loading = false;
        self.auto_compact_failed = true;
        let ghost mid = *self;
        self.tell(true, error);
        let ghost said = *self;
        self.status_line_state.activity = Activity::Idle;
        self.message_area_state.scroll_to_bottom();
        proof {
            assert(mid == not_compacted(*old(self)));
            assert(told(mid, said, true, error@));
        }
    }

    fn propose_update(&mut self, content: String)
        ensures
            update_proposed(*old(self), content, *final(self)),
    {
        proof {
            reveal(update_proposed);
        }
        if !self.is_loading {
            return;
        }
        let ghost before = self.messages@;
        self.is_loading = false;
        self.status_line_state.activity = Activity::Idle;
        self.messages.push(MessageBlock::System { text: PROPOSAL.to_owned() });
        self.messages.push(MessageBlock::assistant_text(content.clone()));
        self.pending_agents_update = Some(content);
        self.message_area_state.scroll_to_bottom();
        proof {
            assert(self.messages@.take(before.len() as int) =~= before);
        }
    }

    fn fail_update(&mut self, error: String)
        ensures
            update_failed(*old(self), error@, *final(self)),
    {
        proof {
            reveal(update_failed);
        }
        if !self.is_loading {
            return;
        }
        self.is_loading = false;
        self.status_line_state.activity = Activity::Idle;
        let ghost mid = *self;
        self.tell(true, error);
        let ghost said = *self;
        self.message_area_state.scroll_to_bottom();
        proof {
            assert(mid == done_loading(*old(self)));
            assert(told(mid, said, true, error@));
        }
    }

    fn paste(&self, text: String, fx: &mut Vec<Effect>)
        ensures
            final(fx)@ == pasted(*self, text, old(fx)@),
    {
        proof {
            reveal(pasted);
        }
        if self.pending_permission.is_none() && self.pending_question.is_none() {
            fx.push(Effect::CollapsePaste(text));
            fx.push(Effect::RefreshAutocomplete);
        }
    }

    fn take_title(&mut self, session_id: &str, title: &str, fx: &mut Vec<Effect>)
        ensures
            title_taken(
                *old(self),
                session_id@,
                title@,
                *final(self),
                old(fx)@,
                final(fx)@,
            ),
    {
        self.apply_title_if_current(session_id, title, fx);
    }

    fn write_retry(error: &str, attempt: u32, max_attempts: u32) -> (r: String)
        ensures
            r@ == retry_text(error@, attempt as nat, max_attempts as nat),
    {
        let mut out = cat4(
            "Connection error: ",
            error,
            "\nRetrying (",
            decimal_text(attempt as u64).as_str(),
        );
        out.append("/");
        out.append(decimal_text(max_attempts as u64).as_str());
        out.append(")...");
        out
    }
}

fn add_notice(blocks: &mut Vec<MessageBlock>, text: String)
    ensures
        notice_added(old(blocks)@, text@, final(blocks)@),
{
    let n: usize = blocks.len();
    let fold = if n > 0 {
        match &blocks[n - 1] {
            MessageBlock::System { text: prev } => fold_notice(prev.as_str(), text.as_str()),
            _ => None,
        }
    } else {
        None
    };
    match fold {
        Some(t) => {
            blocks.pop();
            blocks.push(MessageBlock::System { text: t });
            proof {
                assert(blocks@.drop_last() =~= old(blocks)@.drop_last());
            }
        },
        None => {
            blocks.push(MessageBlock::System { text });
            proof {
                assert(blocks@.drop_last() =~= old(blocks)@);
            }
        },
    }
}

/// Whether an event comes from the terminal.
pub open spec fn from_terminal(event: AppEvent) -> bool {
    event is Key || event is Mouse || event is Paste || event is Resize || event is Tick
}

/// Whether an event comes from the conversation with the model.
pub open spec fn from_stream(event: AppEvent) -> bool {
    event is LlmResponseStart || event is LlmDelta || event is LlmReasoning
        || event is LlmToolCallStreaming || event is LlmToolCall || event is ToolResult
        || event is LlmFinish || event is LlmUsageUpdate || event is LlmRetry || event is LlmError
}

impl App {
    fn handle_terminal_event(&mut self, event: AppEvent, facts: &EventFacts, fx: &mut Vec<Effect>)
        requires
            has_room(*old(self), event),
            from_terminal(event),
        ensures
            event_handled(*old(self), event, *facts, *final(self), old(fx)@, final(fx)@),
    {
        match event {
            AppEvent::Key(key) => {
                self.handle_key(key, &facts.ui, facts.now, fx);
            },
            AppEvent::Mouse(mouse) => {
                self.handle_mouse(mouse, fx);
            },
            AppEvent::Paste(text) => {
                self.paste(text, fx);
            },
            AppEvent::Tick { lsp_servers } => {
                self.tick(lsp_servers, facts.now);
                fx.push(Effect::AdvanceSpinners);
            },
            _ => {},
        }
    }

    fn handle_stream_event(&mut self, event: AppEvent, facts: &EventFacts, fx: &mut Vec<Effect>)
        requires
            has_room(*old(self), event),
            from_stream(event),
        ensures
            event_handled(*old(self), event, *facts, *final(self), old(fx)@, final(fx)@),
    {
        match event {
            AppEvent::LlmResponseStart => {
                if self.streaming_active {
                    self.start_response(fx);
                }
            },
            AppEvent::LlmDelta { text } => {
                if self.streaming_active {
                    self.take_delta(text.as_str());
                }
            },
            AppEvent::LlmReasoning { text } => {
                if self.streaming_active {
                    self.take_reasoning(text.as_str());
                }
            },
            AppEvent::LlmToolCallStreaming { tool_name } => {
                self.announce_call(tool_name);
            },
            AppEvent::LlmToolCall { call_id, tool_name, arguments } => {
                self.make_call(call_id, tool_name, &arguments);
            },
            AppEvent::ToolResult { call_id, tool_name, output } => {
                self.take_result(call_id.as_str(), tool_name, &output, fx);
            },
            AppEvent::LlmFinish { usage } => {
                self.finish_answer(usage, facts.now, fx);
            },
            AppEvent::LlmUsageUpdate { usage } => {
                self.show_usage(usage);
            },
            AppEvent::LlmRetry { attempt, max_attempts, error } => {
                let text = Self::write_retry(error.as_str(), attempt, max_attempts);
                self.tell_below(false, text);
            },
            AppEvent::LlmError { error } => {
                self.fail_stream(error, facts.now);
            },
            _ => {},
        }
    }

    fn handle_background_event(
        &mut self,
        event: AppEvent,
        facts: &EventFacts,
        fx: &mut Vec<Effect>,
    )
        requires
            has_room(*old(self), event),
            !from_terminal(event),
            !from_stream(event),
        ensures
            event_handled(*old(self), event, *facts, *final(self), old(fx)@, final(fx)@),
    {
        match event {
            AppEvent::StreamNotice { text } => {
                self.show_notice(text);
            },
            AppEvent::AgentProgress { call_id, tool_name, args_summary, result_summary } => {
                self.take_progress(call_id.as_str(), tool_name, args_summary, result_summary);
            },
            AppEvent::McpStatus { servers } => {
                self.sidebar_state.mcp_servers = servers;
            },
            AppEvent::PermissionRequest(req) => {
                self.ask_permission(req);
            },
            AppEvent::QuestionRequest(req) => {
                self.ask_question(req);
            },
            AppEvent::CompactFinish { summary } => {
                self.finish_compaction(summary, fx);
            },
            AppEvent::CompactError { error } => {
                self.fail_compaction(error);
            },
            AppEvent::AgentsUpdateFinish { proposed_content } => {
                self.propose_update(proposed_content);
            },
            AppEvent::AgentsUpdateError { error } => {
                self.fail_update(error);
            },
            AppEvent::TitleGenerated { session_id, title } => {
                self.take_title(session_id.as_str(), title.as_str(), fx);
            },
            AppEvent::TitleError { session_id, fallback_title } => {
                self.take_title(session_id.as_str(), fallback_title.as_str(), fx);
            },
            AppEvent::LspRestartNeeded { lang } => {
                fx.push(Effect::RestartLsp { lang });
            },
            AppEvent::ExportScenarioFinish { path, name } => {
                let text = cat4("Scenario '", name.as_str(), "' written to ", path.as_str());
                self.tell_below(false, text);
            },
            AppEvent::ExportScenarioError { error } => {
                self.tell_below(true, error);
            },
            AppEvent::ExportScenarioWarning { warning } => {
                self.tell_below(false, warning);
            },
            _ => {},
        }
    }

    /// What is done next while the end of the conversation is waited for, given
    /// whether no further event can come. Where there is none, nothing is
    /// waited for.
    pub fn idle_step(&self, closed: bool) -> (r: IdleStep)
        ensures
            r is Done <==> !self.streaming_active,
            r is Take <==> self.streaming_active && !closed,
            match r {
                IdleStep::Fail(error) => {
                    &&& self.streaming_active
                    &&& closed
                    &&& error@ == "event channel closed mid-stream during run_until_idle"@
                },
                _ => true,
            },
    {
        if !self.streaming_active {
            IdleStep::Done
        } else if closed {
            IdleStep::Fail("event channel closed mid-stream during run_until_idle".to_owned())
        } else {
            IdleStep::Take
        }
    }

    /// Takes an event.
    pub fn handle_event(&mut self, event: AppEvent, facts: &EventFacts, fx: &mut Vec<Effect>)
        requires
            has_room(*old(self), event),
        ensures
            event_handled(*old(self), event, *facts, *final(self), old(fx)@, final(fx)@),
    {
        match event {
            AppEvent::Key(_)
            | AppEvent::Mouse(_)
            | AppEvent::Paste(_)
            | AppEvent::Resize
            | AppEvent::Tick { .. } => {
                self.handle_terminal_event(event, facts, fx);
            },
            AppEvent::LlmResponseStart
            | AppEvent::LlmDelta { .. }
            | AppEvent::LlmReasoning { .. }
            | AppEvent::LlmToolCallStreaming { .. }
            | AppEvent::LlmToolCall { .. }
            | AppEvent::ToolResult { .. }
            | AppEvent::LlmFinish { .. }
            | AppEvent::LlmUsageUpdate { .. }
            | AppEvent::LlmRetry { .. }
            | AppEvent::LlmError { .. } => {
                self.handle_stream_event(event, facts, fx);
            },
            _ => {
                self.handle_background_event(event, facts, fx);
            },
        }
    }
}

} // verus!
