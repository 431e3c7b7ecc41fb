//! The state of the application.
use crate::blocks::MessageBlock;
use crate::message::Message;
use crate::providers::{ProviderInitWarning, ProviderRegistry};
use crate::tool::ToolName;
use vstd::prelude::*;
use vstd::string::*;

verus! {

/// Where the application runs.
#[derive(Debug, PartialEq, Eq)]
pub struct ProjectInfo {
    pub root: String,
    pub id: String,
    pub cwd: String,
}

/// The settings that the application reads.
#[derive(Debug, PartialEq, Eq)]
pub struct Config {
    pub model: Option<String>,
    pub small_model: Option<String>,
    pub permission_profile: Option<String>,
    pub allow_tools: Vec<String>,
    pub auto_compact: bool,
    pub has_providers: bool,
}

/// A file with instructions for the model.
#[derive(Debug, PartialEq, Eq)]
pub struct AgentsFile {
    pub path: String,
    pub content: String,
}

/// How many tokens a session has used.
#[derive(Clone, Copy, Debug, PartialEq, Eq, Structural)]
pub struct TokenUsage {
    pub prompt_tokens: u64,
    pub completion_tokens: u64,
    pub total_tokens: u64,
}

/// A session.
#[derive(Debug, PartialEq, Eq)]
pub struct SessionInfo {
    pub id: String,
    pub project_id: String,
    pub title: String,
    pub model_ref: String,
    pub created_at: i64,
    pub token_usage: TokenUsage,
}

impl Clone for SessionInfo {
    fn clone(&self) -> (r: SessionInfo)
        ensures
            r == *self,
    {
        SessionInfo {
            id: self.id.clone(),
            project_id: self.project_id.clone(),
            title: self.title.clone(),
            model_ref: self.model_ref.clone(),
            created_at: self.created_at,
            token_usage: self.token_usage,
        }
    }
}

/// Whether the assistant may change files.
#[derive(Clone, Copy, Debug, PartialEq, Eq, Structural)]
pub enum AgentMode {
    Build,
    Plan,
}

impl AgentMode {
    pub open spec fn other(self) -> AgentMode {
        match self {
            AgentMode::Build => AgentMode::Plan,
            AgentMode::Plan => AgentMode::Build,
        }
    }

    /// The other mode.
    pub fn toggle(self) -> (r: AgentMode)
        ensures
            r == self.other(),
    {
        match self {
            AgentMode::Build => AgentMode::Plan,
            AgentMode::Plan => AgentMode::Build,
        }
    }
}

/// What the status line says is going on.
#[derive(Debug, PartialEq, Eq)]
pub enum Activity {
    Idle,
    Thinking,
    RunningTool { tool_name: ToolName, args_summary: String },
    WaitingForPermission,
    WaitingForQuestion,
    Compacting,
    UpdatingAgents,
}

/// The status line.
#[derive(Debug, PartialEq, Eq)]
pub struct StatusLineState {
    pub activity: Activity,
    pub context_window: u64,
    pub last_prompt_tokens: u64,
    pub total_tokens: u64,
    pub model_name: String,
}

/// The scrolling of the message area.
#[derive(Clone, Copy, Debug, PartialEq, Eq, Structural)]
pub struct MessageAreaState {
    pub scroll_offset: usize,
    pub auto_scroll: bool,
    pub content_height: usize,
    pub visible_height: usize,
}

impl Default for MessageAreaState {
    fn default() -> (r: MessageAreaState)
        ensures
            r == (MessageAreaState {
                scroll_offset: 0,
                auto_scroll: true,
                content_height: 0,
                visible_height: 0,
            }),
    {
        MessageAreaState { scroll_offset: 0, auto_scroll: true, content_height: 0, visible_height: 0 }
    }
}

impl MessageAreaState {
    /// The offset at which the last line is shown at the bottom.
    pub open spec fn bottom(self) -> usize {
        if self.content_height > self.visible_height {
            (self.content_height - self.visible_height) as usize
        } else {
            0
        }
    }

    /// The area scrolled to the bottom.
    pub open spec fn at_bottom(self) -> MessageAreaState {
        MessageAreaState { scroll_offset: self.bottom(), auto_scroll: true, ..self }
    }

    /// The area scrolled up by `lines`.
    pub open spec fn scrolled_up(self, lines: nat) -> MessageAreaState {
        MessageAreaState {
            scroll_offset: if self.scroll_offset > lines {
                (self.scroll_offset - lines) as usize
            } else {
                0
            },
            auto_scroll: false,
            ..self
        }
    }

    /// The area scrolled down by `lines`, no further than to the bottom; there
    /// it follows what is added.
    pub open spec fn scrolled_down(self, lines: nat) -> MessageAreaState {
        if self.scroll_offset + lines >= self.bottom() {
            self.at_bottom()
        } else {
            MessageAreaState { scroll_offset: (self.scroll_offset + lines) as usize, ..self }
        }
    }

    fn last_offset(&self) -> (r: usize)
        ensures
            r == self.bottom(),
    {
        self.content_height.saturating_sub(self.visible_height)
    }

    /// Takes over how much there is to show and how much room there is.
    pub fn update_dimensions(&mut self, content_height: usize, visible_height: usize)
        ensures
            ({
                let sized = MessageAreaState { content_height, visible_height, ..*old(self) };
                *final(self) == (MessageAreaState {
                    scroll_offset: if old(self).auto_scroll || old(self).scroll_offset
                        > sized.bottom() {
                        sized.bottom()
                    } else {
                        old(self).scroll_offset
                    },
                    ..sized
                })
            }),
    {
        self.content_height = content_height;
        self.visible_height = visible_height;
        let last: usize = self.last_offset();
        if self.auto_scroll || self.scroll_offset > last {
            self.scroll_offset = last;
        }
    }

    /// How many lines there is room for.
    pub fn visible_height(&self) -> (r: usize)
        ensures
            r == self.visible_height,
    {
        self.visible_height
    }

    /// Scrolls to the bottom and follows what is added.
    pub fn scroll_to_bottom(&mut self)
        ensures
            *final(self) == old(self).at_bottom(),
    {
        self.scroll_offset = self.last_offset();
        self.auto_scroll = true;
    }

    /// Scrolls up and stops following what is added.
    pub fn scroll_up(&mut self, lines: usize)
        ensures
            *final(self) == old(self).scrolled_up(lines as nat),
    {
        self.scroll_offset = self.scroll_offset.saturating_sub(lines);
        self.auto_scroll = false;
    }

    /// Scrolls down, no further than to the bottom.
    pub fn scroll_down(&mut self, lines: usize)
        ensures
            *final(self) == old(self).scrolled_down(lines as nat),
    {
        let last: usize = self.last_offset();
        match self.scroll_offset.checked_add(lines) {
            Some(n) => {
                if n >= last {
                    self.scroll_to_bottom();
                } else {
                    self.scroll_offset = n;
                }
            },
            None => {
                self.scroll_to_bottom();
            },
        }
    }
}

/// Scrolling up and down again by as much leads back to where it began,
/// unless the top was in the way.
pub proof fn scrolling_is_undone(area: MessageAreaState, lines: nat)
    requires
        area == area.at_bottom(),
        lines <= area.scroll_offset,
    ensures
        area.scrolled_up(lines).scrolled_down(lines) == area,
{
}

/// Wherever it is scrolled, the area never shows lines past the last.
pub proof fn scrolling_stays_inside(area: MessageAreaState, lines: nat)
    requires
        area.scroll_offset <= area.bottom(),
    ensures
        area.at_bottom().scroll_offset <= area.bottom(),
        area.scrolled_up(lines).scroll_offset <= area.bottom(),
        area.scrolled_down(lines).scroll_offset <= area.bottom(),
{
}

/// A place in the text of the message area.
#[derive(Clone, Copy, Debug, PartialEq, Eq, Structural)]
pub struct ContentPos {
    pub line: usize,
    pub column: usize,
}

/// A selection of text in the message area.
#[derive(Clone, Copy, Debug, PartialEq, Eq, Structural)]
pub struct SelectionState {
    pub anchor: Option<ContentPos>,
    pub cursor: Option<ContentPos>,
    pub dragging: bool,
    pub copied_flash: Option<u64>,
}

/// A rectangle of the terminal.
#[derive(Clone, Copy, Debug, PartialEq, Eq, Structural)]
pub struct Rect {
    pub x: u16,
    pub y: u16,
    pub width: u16,
    pub height: u16,
}

/// An overlay that covers the message area while it is visible.
#[derive(Clone, Copy, Debug, PartialEq, Eq, Structural)]
pub struct Overlay {
    pub visible: bool,
}

/// How urgent a task is.
#[derive(Clone, Copy, Debug, PartialEq, Eq, Structural)]
pub enum Priority {
    High,
    Medium,
    Low,
}

/// How far a task has come.
#[derive(Clone, Copy, Debug, PartialEq, Eq, Structural)]
pub enum TaskStatus {
    Open,
    InProgress,
    Done,
}

/// What a task is about.
#[derive(Clone, Copy, Debug, PartialEq, Eq, Structural)]
pub enum TaskKind {
    Task,
    Bug,
}

/// A task as the sidebar shows it.
#[derive(Debug, PartialEq, Eq)]
pub struct SidebarTask {
    pub id: String,
    pub title: String,
    pub priority: Priority,
    pub status: TaskStatus,
    pub kind: TaskKind,
}

/// A file that was changed in this session.
#[derive(Debug, PartialEq, Eq)]
pub struct FileChange {
    pub path: String,
    pub additions: usize,
    pub removals: usize,
}

/// How a language server is doing.
#[derive(Clone, Copy, Debug, PartialEq, Eq, Structural)]
pub enum LspState {
    Starting,
    Indexing,
    Ready,
    Restarting,
    Error,
}

/// A language server as the sidebar shows it.
#[derive(Debug, PartialEq, Eq)]
pub struct SidebarLsp {
    pub binary: String,
    pub state: LspState,
    pub progress_message: Option<String>,
    pub next_restart_at: Option<u64>,
}

/// An MCP server as the sidebar shows it.
#[derive(Debug, PartialEq, Eq)]
pub struct SidebarMcp {
    pub server_id: String,
    pub connected: bool,
    pub tool_count: usize,
    pub resource_count: usize,
    pub prompt_count: usize,
}

/// The sidebar.
#[derive(Debug, PartialEq, Eq)]
pub struct SidebarState {
    pub session_title: String,
    pub model_name: String,
    pub prompt_tokens: u64,
    pub completion_tokens: u64,
    pub total_tokens: u64,
    pub tasks: Vec<SidebarTask>,
    pub session_closed_task_ids: Vec<String>,
    pub changes: Vec<FileChange>,
    pub git_branch: Option<String>,
    pub git_dirty: bool,
    pub git_repo_name: Option<String>,
    pub lsp_servers: Vec<SidebarLsp>,
    pub mcp_servers: Vec<SidebarMcp>,
}

/// A permission prompt that waits for the user.
#[derive(Debug, PartialEq, Eq)]
pub struct PendingPermission {
    pub tool_name: ToolName,
    pub summary: String,
}

/// A question that waits for the user. Where `selected` is set, the answer is
/// the option of that index, else the free text.
#[derive(Debug, PartialEq, Eq)]
pub struct PendingQuestion {
    pub call_id: String,
    pub question: String,
    pub options: Vec<String>,
    pub selected: Option<usize>,
    pub free_text: String,
}

/// The application.
#[derive(Debug, PartialEq, Eq)]
pub struct App {
    pub project: ProjectInfo,
    pub config: Config,
    pub agents_files: Vec<AgentsFile>,
    pub provider_registry: Option<ProviderRegistry>,
    pub missing_api_keys: Vec<ProviderInitWarning>,
    /// The model in use, as "provider/model".
    pub current_model: Option<String>,
    pub current_session: Option<SessionInfo>,
    pub mode: AgentMode,
    pub messages: Vec<MessageBlock>,
    pub message_area_state: MessageAreaState,
    pub sidebar_state: SidebarState,
    pub status_line_state: StatusLineState,
    pub is_loading: bool,
    /// The messages of the session, from which the model's history is made.
    pub stored_messages: Vec<Message>,
    pub streaming_active: bool,
    /// When the conversation with the model began, in milliseconds.
    pub stream_start_time: Option<u64>,
    /// How long the last conversation took, in milliseconds.
    pub frozen_elapsed: Option<u64>,
    /// The reply of the assistant as far as it has come.
    pub streaming_message: Option<Message>,
    /// How many exchanges of user and assistant the session has.
    pub exchange_count: usize,
    pub pending_permission: Option<PendingPermission>,
    pub pending_question: Option<PendingQuestion>,
    /// A proposed AGENTS.md that waits for approval.
    pub pending_agents_update: Option<String>,
    pub session_picker: Overlay,
    /// Whether there is a conversation that can be cancelled.
    pub stream_cancel: bool,
    /// Whether there is a conversation that takes interjections.
    pub interjection_tx: bool,
    pub auto_compact_failed: bool,
    pub context_warned: bool,
    pub last_prompt_tokens: u64,
    /// Whether the sidebar is forced to show or to hide.
    pub sidebar_override: Option<bool>,
    pub file_index: Option<Vec<String>>,
    pub model_picker: Overlay,
    pub diagnostics_overlay: Overlay,
    pub mcp_overlay: Overlay,
    pub lsp_diagnostics_overlay: Overlay,
    pub compaction_count: u32,
    pub selection_state: SelectionState,
    pub last_message_area: Rect,
    pub should_quit: bool,
}

impl App {
    /// Of the overlays that exclude each other at most one is visible.
    pub open spec fn one_overlay(self) -> bool {
        &&& !(self.model_picker.visible && (self.session_picker.visible
            || self.diagnostics_overlay.visible || self.mcp_overlay.visible))
        &&& !(self.session_picker.visible && (self.diagnostics_overlay.visible
            || self.mcp_overlay.visible))
        &&& !(self.diagnostics_overlay.visible && self.mcp_overlay.visible)
    }

    /// Of a pending question, the option that is selected exists.
    pub open spec fn selection_exists(self) -> bool {
        self.pending_question matches Some(q) ==> (q.selected matches Some(i) ==> i
            < q.options@.len())
    }

    /// There is a conversation exactly where there is one to cancel, and only
    /// then is there a reply under way.
    pub open spec fn conversation_consistent(self) -> bool {
        &&& self.stream_cancel == self.streaming_active
        &&& self.streaming_message is Some ==> self.streaming_active
    }

    /// What every handler keeps.
    pub open spec fn wf(self) -> bool {
        self.one_overlay() && self.selection_exists() && self.conversation_consistent()
    }

    /// Whether something is under way that the user can cancel.
    pub open spec fn is_busy(self) -> bool {
        self.is_loading || self.streaming_active
    }

    /// Whether something is under way that the user can cancel.
    pub fn busy(&self) -> (r: bool)
        ensures
            r == self.is_busy(),
    {
        self.is_loading || self.streaming_active
    }
}

} // verus!
