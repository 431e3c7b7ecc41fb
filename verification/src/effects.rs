//! What the application asks of the world outside.
use crate::blocks::pushed;
use crate::message::Message;
use crate::providers::ResolvedModel;
use crate::state::ContentPos;
use vstd::prelude::*;

verus! {

/// The user's reply to a permission prompt.
#[derive(Clone, Copy, Debug, PartialEq, Eq, Structural)]
pub enum PermissionReply {
    AllowOnce,
    Deny,
    AllowAlways,
}

/// A session as the usage records keep it.
#[derive(Debug, PartialEq, Eq)]
pub struct SessionRecord {
    pub session_id: String,
    pub project_id: String,
    pub title: String,
    pub model_ref: String,
    pub created_at: i64,
}

/// A message as the model's interface takes it.
#[derive(Debug, PartialEq, Eq)]
pub enum ChatMessage {
    User(String),
    Assistant(String),
}

/// What a single question to a model is for.
#[derive(Clone, Copy, Debug, PartialEq, Eq, Structural)]
pub enum ChatPurpose {
    Compact,
    AgentsUpdate,
    Title,
}

/// A single question to a model. Only a question for a title names a session
/// and has a `fallback`, the title to use where none comes.
#[derive(Debug, PartialEq, Eq)]
pub struct ChatJob {
    pub purpose: ChatPurpose,
    pub resolved: ResolvedModel,
    pub system_prompt: &'static str,
    pub user_text: String,
    pub session_id: String,
    pub fallback: String,
}

/// A conversation with the model that is to be started.
#[derive(Debug, PartialEq, Eq)]
pub struct StreamStart {
    pub resolved: ResolvedModel,
    pub system_prompt: Option<String>,
    pub history: Vec<ChatMessage>,
    pub user_message: String,
    pub context_window: Option<u64>,
    pub session_id: String,
    pub is_plan_mode: bool,
    pub small_model: Option<String>,
}

/// A tab of the overlay that shows the MCP servers.
#[derive(Clone, Copy, Debug, PartialEq, Eq, Structural)]
pub enum McpTab {
    Servers,
    Tools,
    Resources,
    Prompts,
}

/// Something that is to be done outside. Those that name a method are answered
/// by a call of it.
#[derive(Debug, PartialEq, Eq)]
pub enum Effect {
    /// Stop the conversation with the model that is under way.
    CancelStream,
    /// Start a conversation with a model.
    StartStream(StreamStart),
    /// Hand a text to the conversation that is under way.
    SendInterjection(String),
    /// Ask a model one question.
    Chat(ChatJob),
    ReplyPermission(PermissionReply),
    ReplyQuestion(String),
    SaveMessage(Message),
    DeleteMessages { session_id: String },
    /// Store the current session as it now is.
    SaveSession,
    /// Store that the current session was used.
    TouchSession,
    DeleteSession { session_id: String },
    RenameSession { session_id: String, title: String },
    /// Store which session and which model were used last.
    RememberSession { session_id: String, model_ref: String },
    RecordSession(SessionRecord),
    RecordTitle { session_id: String, title: String },
    ResetToolCache,
    BumpToolCache,
    SyncPermissionMode,
    PersistToolGrant { tool: String },
    /// Answered by `App::set_git_info`.
    RefreshGit,
    RefreshDiagnostics,
    /// List the tasks for the sidebar, which is answered by
    /// `App::set_sidebar_tasks`, and price the session anew.
    RefreshSidebar,
    AdvanceSpinners,
    /// Submit a text as if the user had typed it.
    Submit(String),
    /// Answered by `App::handle_interjection`.
    Interject(String),
    /// Answered by `App::selection_started`.
    LocateSelectionStart { row: u16, column: u16 },
    /// Answered by `App::selection_moved`.
    LocateSelectionEnd { row: u16, column: u16 },
    /// Answered by `App::copy_tried`, once for each way to copy that was tried,
    /// where there was something to copy.
    CopySelection { start: ContentPos, end: ContentPos },
    CollapsePaste(String),
    UpdateAutocomplete(String),
    /// Offer what fits the text that now stands in the text field.
    RefreshAutocomplete,
    UpdateAutocompleteFiles,
    HideAutocomplete,
    AutocompletePrev,
    AutocompleteNext,
    SetInput(String),
    ClearInput,
    CompleteFile(String),
    TogglePastePreview,
    ExpandPaste,
    InsertNewline,
    /// Hand the key to the text field.
    EditInput,
    /// Answered by `App::set_file_index`.
    BuildFileIndex,
    OpenModelPicker { models: Vec<(String, String)>, current: Option<String> },
    OpenDiagnostics,
    OpenLspDiagnostics,
    OpenMcp { tab: McpTab, filter: Option<String> },
    PickerPrev,
    PickerNext,
    PickerBackspace,
    PickerType(char),
    OverlayScrollUp,
    OverlayScrollDown,
    OverlayNextTab,
    OverlayPrevTab,
    /// Answered by `App::switch_to_session`.
    SwitchSession,
    /// Answered by `App::agents_file_written`.
    WriteAgentsFile { path: String, content: String },
    /// Answered by `App::agents_file_created`.
    CreateAgentsFile { path: String },
    /// Answered by `App::sessions_listed`.
    ListSessions,
    /// Answered by `App::debug_exported`.
    ExportDebug { system_prompt: Option<String> },
    /// Answered by `App::export_scenario`.
    ExportScenario,
    /// Answered by `App::tasks_listed`.
    ListTasks,
    /// Answered by `App::task_created`.
    CreateTask { title: String },
    /// Answered by `App::task_completed`.
    CompleteTask { id: String },
    /// Answered by `App::task_shown`.
    ShowTask { id: String },
    /// Answered by `App::task_loaded`, and where that gives something to store,
    /// by `App::task_updated`.
    LoadTask { id: String, fields: Option<String> },
    /// Answered by `App::epics_listed`.
    ListEpics,
    /// Answered by `App::epic_created`.
    CreateEpic { title: String },
    RestartLsp { lang: String },
}

/// Whether `new_fx` is `old_fx` with the question reply `text` at its end.
pub open spec fn replied(old_fx: Seq<Effect>, new_fx: Seq<Effect>, text: Seq<char>) -> bool {
    &&& pushed(old_fx, new_fx)
    &&& new_fx.last() matches Effect::ReplyQuestion(t)
    &&& t@ == text
}

} // verus!
