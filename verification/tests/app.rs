//! The application as a whole.
use steve::blocks::{AssistantPart, MessageBlock, ToolCall, ToolGroup, ToolGroupStatus};
use steve::clipboard::CopyMethod;
use steve::commands::AgentsCreation;
use steve::diagnostics::DiagnosticFacts;
use steve::doubles::{part_of, FOUR_FIFTHS, THREE_FIFTHS};
use steve::effects::{ChatJob, ChatMessage, ChatPurpose, Effect, PermissionReply};
use steve::events::{
    reply_event, AppEvent, EventFacts, IdleStep, MouseEvent, MouseKind, PermissionRequest,
};
use steve::export::QuestionRequest;
use steve::helpers::FileRefs;
use steve::input::World;
use steve::json::Json;
use steve::keys::{AutocompleteMode, KeyCode, KeyEvent, KeyFacts, KeyModifiers};
use steve::message::Message;
use steve::notices::format_with_count;
use steve::prompt::{LocalTime, PromptFacts, ReadFile};
use steve::providers::{ModelConfig, ProviderEntry, ProviderInitWarning, ProviderRegistry, ResolvedModel};
use steve::sessions::StoredSession;
use steve::sidebar::Task;
use steve::startup::task_prefix;
use steve::state::{
    Activity, AgentMode, App, Config, ContentPos, LspState, PendingPermission, PendingQuestion,
    Priority, ProjectInfo, Rect, SessionInfo, SidebarLsp, SidebarMcp, TaskKind, TaskStatus,
    TokenUsage,
};
use steve::stream_events::{context_usage_pct, format_tokens, Usage};
use steve::tasks::Named;
use steve::tool::{is_prefixed_tool_name, prefixed_tool_name, ToolName, ToolOutput};

const NOW: u64 = 1_000_000;

fn make_test_app() -> App {
    let project = ProjectInfo {
        root: "/tmp/test".to_string(),
        id: "test".to_string(),
        cwd: "/tmp/test".to_string(),
    };
    let config = Config {
        model: None,
        small_model: None,
        permission_profile: None,
        allow_tools: Vec::new(),
        auto_compact: true,
        has_providers: false,
    };
    App::new(project, config, Vec::new(), None, Vec::new(), Vec::new(), Vec::new())
}

fn model(id: &str, name: &str, context_window: u32) -> ModelConfig {
    ModelConfig { key: id.to_string(), id: id.to_string(), name: name.to_string(), context_window }
}

fn registry_of(models: Vec<ModelConfig>) -> ProviderRegistry {
    ProviderRegistry {
        providers: vec![ProviderEntry { id: "test".to_string(), models, connected: true }],
    }
}

fn make_test_registry(context_window: u32) -> ProviderRegistry {
    registry_of(vec![model("test-model", "Test Model", context_window)])
}

fn session(id: &str, title: &str) -> SessionInfo {
    SessionInfo {
        id: id.to_string(),
        project_id: "test".to_string(),
        title: title.to_string(),
        model_ref: "test/model".to_string(),
        created_at: 0,
        token_usage: TokenUsage { prompt_tokens: 0, completion_tokens: 0, total_tokens: 0 },
    }
}

fn no_refs() -> FileRefs {
    FileRefs {
        paths: Vec::new(),
        resolved: Vec::new(),
        display_text: String::new(),
        api_text: String::new(),
    }
}

fn prompt_facts() -> PromptFacts {
    PromptFacts { memory: None, task_summary: String::new(), mcp: None }
}

fn noon() -> LocalTime {
    LocalTime { year: 2024, month: 3, day: 9, hour: 12, minute: 30 }
}

fn world() -> World {
    World {
        now: NOW,
        at: noon(),
        prompt: prompt_facts(),
        created: Some(session("new", "New session")),
        refs: no_refs(),
        tree: Vec::new(),
        files: Vec::new(),
    }
}

fn ui() -> KeyFacts {
    KeyFacts {
        autocomplete_visible: false,
        autocomplete_mode: AutocompleteMode::Command,
        suggestion: None,
        input_text: String::new(),
        full_text: String::new(),
        picked_model: None,
        session_picked: false,
        paste_collapsed: false,
    }
}

fn send(app: &mut App, event: AppEvent) -> Vec<Effect> {
    let facts = EventFacts { now: NOW, ui: ui() };
    let mut fx = Vec::new();
    assert!(app.accepts(&event));
    app.handle_event(event, &facts, &mut fx);
    fx
}

fn key(app: &mut App, key: KeyEvent) -> Vec<Effect> {
    let mut fx = Vec::new();
    app.handle_key(key, &ui(), NOW, &mut fx);
    fx
}

fn press(code: KeyCode) -> KeyEvent {
    KeyEvent { code, modifiers: KeyModifiers::Plain, pressed: true }
}

fn press_ctrl(c: char) -> KeyEvent {
    KeyEvent { code: KeyCode::Char(c), modifiers: KeyModifiers::Control, pressed: true }
}

fn command(app: &mut App, text: &str) -> Vec<Effect> {
    let mut fx = Vec::new();
    app.handle_command(text, world(), &mut fx);
    fx
}

fn input(app: &mut App, text: &str) -> Vec<Effect> {
    let mut fx = Vec::new();
    app.handle_input(text, world(), &mut fx);
    fx
}

fn has_error_message(app: &App, needle: &str) -> bool {
    app.messages
        .iter()
        .any(|m| matches!(m, MessageBlock::Error { text } if text.contains(needle)))
}

fn has_system_message(app: &App, needle: &str) -> bool {
    app.messages
        .iter()
        .any(|m| matches!(m, MessageBlock::System { text } if text.contains(needle)))
}

fn last_message_text(app: &App) -> String {
    match app.messages.last() {
        Some(MessageBlock::System { text }) => text.clone(),
        Some(MessageBlock::Error { text }) => text.clone(),
        other => panic!("expected System or Error message, got {other:?}"),
    }
}

fn text_of(block: &MessageBlock) -> String {
    match block {
        MessageBlock::Assistant { parts, .. } => parts
            .iter()
            .filter_map(|p| if let AssistantPart::Text(t) = p { Some(t.as_str()) } else { None })
            .collect(),
        other => panic!("expected Assistant, got {other:?}"),
    }
}

fn start_streaming(app: &mut App) {
    app.streaming_active = true;
    app.is_loading = true;
    app.stream_start_time = Some(NOW);
    app.messages.push(MessageBlock::Assistant { thinking: None, parts: vec![] });
}

fn call(tool_name: ToolName, args: &str, output: Option<&str>, summary: Option<&str>) -> ToolCall {
    ToolCall {
        call_id: "c".to_string(),
        tool_name,
        args_summary: args.to_string(),
        full_output: output.map(|s| s.to_string()),
        result_summary: summary.map(|s| s.to_string()),
        diff_content: None,
        is_error: false,
        expanded: false,
        agent_progress: None,
    }
}

fn called(call: ToolCall, status: ToolGroupStatus) -> MessageBlock {
    MessageBlock::Assistant {
        thinking: None,
        parts: vec![AssistantPart::ToolGroup(ToolGroup { calls: vec![call], status })],
    }
}

fn make_pending_permission(app: &mut App) {
    app.pending_permission = Some(PendingPermission {
        tool_name: ToolName::Bash,
        summary: "test command".to_string(),
    });
}

fn make_pending_question(app: &mut App, options: Vec<String>) {
    let has_options = !options.is_empty();
    app.pending_question = Some(PendingQuestion {
        call_id: "call-1".to_string(),
        question: "Pick one".to_string(),
        options,
        selected: if has_options { Some(0) } else { None },
        free_text: String::new(),
    });
    app.messages.push(MessageBlock::Question {
        question: "Pick one".to_string(),
        options: vec![],
        selected: if has_options { Some(0) } else { None },
        free_text: String::new(),
        answered: None,
    });
}

fn answers(fx: &[Effect]) -> Vec<&str> {
    fx.iter()
        .filter_map(|e| if let Effect::ReplyQuestion(t) = e { Some(t.as_str()) } else { None })
        .collect()
}

fn replies(fx: &[Effect]) -> Vec<PermissionReply> {
    fx.iter()
        .filter_map(|e| if let Effect::ReplyPermission(r) = e { Some(*r) } else { None })
        .collect()
}

fn selected(app: &App) -> Option<usize> {
    app.pending_question.as_ref().unwrap().selected
}

#[test]
fn app_system_prompt_includes_tool_guidance() {
    let app = make_test_app();
    let prompt = app.build_system_prompt(noon(), &prompt_facts()).unwrap();
    assert!(prompt.contains("Search before reading"), "should contain search guidance");
    assert!(prompt.contains("offset"), "should mention offset param");
    assert!(prompt.contains("context-efficient"), "should mention context efficiency");
    assert!(prompt.contains("You are Steve"), "should contain Steve identity");
    assert!(prompt.contains("Build mode"), "should explain permission model");
    assert!(prompt.contains("Date"), "should contain current date");
}

#[test]
fn app_should_show_sidebar_auto_mode() {
    let app = make_test_app();
    assert!(app.should_show_sidebar(120));
    assert!(app.should_show_sidebar(200));
    assert!(!app.should_show_sidebar(119));
    assert!(!app.should_show_sidebar(80));
}

#[test]
fn app_should_show_sidebar_forced_show() {
    let mut app = make_test_app();
    app.sidebar_override = Some(true);
    assert!(app.should_show_sidebar(80));
    assert!(app.should_show_sidebar(120));
}

#[test]
fn app_should_show_sidebar_forced_hide() {
    let mut app = make_test_app();
    app.sidebar_override = Some(false);
    assert!(!app.should_show_sidebar(120));
    assert!(!app.should_show_sidebar(200));
}

#[test]
fn app_check_context_warning_fires_at_60_pct() {
    let mut app = make_test_app();
    app.context_warned = false;
    app.status_line_state.context_window = 128_000;
    app.last_prompt_tokens = 80_000;
    app.status_line_state.last_prompt_tokens = 80_000;
    app.check_context_warning();
    assert!(app.context_warned);
    assert!(has_system_message(&app, "Context window"));
}

#[test]
fn app_check_context_warning_only_fires_once() {
    let mut app = make_test_app();
    app.context_warned = false;
    app.status_line_state.context_window = 128_000;
    app.last_prompt_tokens = 80_000;
    app.status_line_state.last_prompt_tokens = 80_000;
    app.check_context_warning();
    let msg_count = app.messages.len();
    app.check_context_warning();
    assert_eq!(app.messages.len(), msg_count);
}

#[test]
fn app_check_context_warning_does_not_fire_below_threshold() {
    let mut app = make_test_app();
    app.status_line_state.context_window = 128_000;
    app.last_prompt_tokens = 50_000;
    app.status_line_state.last_prompt_tokens = 50_000;
    app.check_context_warning();
    assert!(!app.context_warned);
}

#[test]
fn app_llm_usage_update_sets_prompt_tokens_without_session_storage() {
    let mut app = make_test_app();
    app.status_line_state.context_window = 128_000;
    app.last_prompt_tokens = 0;
    app.status_line_state.last_prompt_tokens = 0;
    let usage = Usage { prompt_tokens: 60_000, completion_tokens: 500 };
    send(&mut app, AppEvent::LlmUsageUpdate { usage });
    assert_eq!(app.last_prompt_tokens, 60_000);
    assert_eq!(app.status_line_state.last_prompt_tokens, 60_000);
    assert!(app.current_session.is_none());
}

#[test]
fn app_strip_project_root_absolute_path() {
    let app = make_test_app();
    assert_eq!(app.strip_project_root("/tmp/test/src/main.rs"), "src/main.rs");
}

#[test]
fn app_strip_project_root_relative_path() {
    let app = make_test_app();
    assert_eq!(app.strip_project_root("src/main.rs"), "src/main.rs");
}

#[test]
fn app_strip_project_root_no_match() {
    let app = make_test_app();
    assert_eq!(app.strip_project_root("/other/path/file.rs"), "/other/path/file.rs");
}

#[test]
fn app_strip_project_root_exact_root() {
    let app = make_test_app();
    assert_eq!(app.strip_project_root("/tmp/test/"), "");
}

#[test]
fn app_strip_project_root_sibling_directory() {
    let app = make_test_app();
    assert_eq!(app.strip_project_root("/tmp/test-backup/file.rs"), "/tmp/test-backup/file.rs");
}

#[test]
fn app_handle_interjection_adds_user_message() {
    let mut app = make_test_app();
    app.interjection_tx = true;
    let initial_count = app.messages.len();
    let mut fx = Vec::new();
    app.handle_interjection("focus on tests", &no_refs(), true, &mut fx);
    assert_eq!(app.messages.len(), initial_count + 1);
    match &app.messages[initial_count] {
        MessageBlock::User { text } => assert_eq!(text, "focus on tests"),
        other => panic!("expected User message, got {:?}", other),
    }
}

#[test]
fn app_handle_interjection_rejects_commands() {
    let mut app = make_test_app();
    app.interjection_tx = true;
    let initial_count = app.messages.len();
    let mut fx = Vec::new();
    app.handle_interjection("/compact", &no_refs(), true, &mut fx);
    assert_eq!(app.messages.len(), initial_count);
}

#[test]
fn app_handle_interjection_noop_when_no_sender() {
    let mut app = make_test_app();
    assert!(!app.interjection_tx);
    let initial_count = app.messages.len();
    let mut fx = Vec::new();
    app.handle_interjection("hello", &no_refs(), true, &mut fx);
    assert_eq!(app.messages.len(), initial_count);
}

#[test]
fn app_apply_session_title_rejects_empty_string() {
    let mut app = make_test_app();
    app.current_session = Some(session("s", "New session"));
    let mut fx = Vec::new();
    app.apply_session_title("", &mut fx);
    assert_eq!(app.current_session.as_ref().unwrap().title, "New session");
}

#[test]
fn app_maybe_generate_title_skips_non_default_title() {
    let mut app = make_test_app();
    app.current_session = Some(session("s", "My Custom Title"));
    app.messages.push(MessageBlock::User { text: "Hello world".to_string() });
    let mut fx = Vec::new();
    app.maybe_generate_title(&mut fx);
    assert_eq!(app.current_session.as_ref().unwrap().title, "My Custom Title");
}

#[test]
fn app_maybe_generate_title_sync_fallback_without_small_model() {
    let mut app = make_test_app();
    app.current_session = Some(session("s", "New session"));
    assert!(app.config.small_model.is_none());
    app.messages.push(MessageBlock::User {
        text: "Fix the authentication bug in login.rs".to_string(),
    });
    let mut fx = Vec::new();
    app.maybe_generate_title(&mut fx);
    assert_eq!(
        app.current_session.as_ref().unwrap().title,
        "Fix the authentication bug in login.rs"
    );
}

#[test]
fn app_maybe_generate_title_sync_fallback_truncates_long_message() {
    let mut app = make_test_app();
    app.current_session = Some(session("s", "New session"));
    app.messages.push(MessageBlock::User { text: "a".repeat(80) });
    let mut fx = Vec::new();
    app.maybe_generate_title(&mut fx);
    let title = &app.current_session.as_ref().unwrap().title;
    assert_eq!(title.chars().count(), 60);
    assert!(title.ends_with("..."));
}

#[test]
fn app_apply_session_title_updates_sidebar_and_persists() {
    let mut app = make_test_app();
    app.current_session = Some(session("s", "New session"));
    let mut fx = Vec::new();
    app.apply_session_title("My New Title", &mut fx);
    assert_eq!(app.current_session.as_ref().unwrap().title, "My New Title");
    assert_eq!(app.sidebar_state.session_title, "My New Title");
    assert_eq!(
        fx[0],
        Effect::RenameSession { session_id: "s".to_string(), title: "My New Title".to_string() }
    );
}

#[test]
fn app_title_event_guards_stale_session_id() {
    let mut app = make_test_app();
    app.current_session = Some(session("s", "New session"));
    let mut fx = Vec::new();
    app.apply_title_if_current("stale-id-does-not-match", "LLM Generated Title", &mut fx);
    assert_eq!(app.current_session.as_ref().unwrap().title, "New session");
}

#[test]
fn app_title_event_guards_renamed_session() {
    let mut app = make_test_app();
    app.current_session = Some(session("s", "New session"));
    let mut fx = Vec::new();
    app.apply_session_title("User Chose This", &mut fx);
    app.apply_title_if_current("s", "LLM Generated Title", &mut fx);
    assert_eq!(app.current_session.as_ref().unwrap().title, "User Chose This");
}

#[test]
fn app_model_picker_close_on_new() {
    let mut app = make_test_app();
    app.model_picker.visible = true;
    command(&mut app, "/new");
    assert!(!app.model_picker.visible);
}

#[test]
fn app_diagnostics_overlay_close_on_new() {
    let mut app = make_test_app();
    app.diagnostics_overlay.visible = true;
    command(&mut app, "/new");
    assert!(!app.diagnostics_overlay.visible);
}

#[test]
fn app_diagnostics_overlay_closes_model_picker() {
    let mut app = make_test_app();
    app.model_picker.visible = true;
    command(&mut app, "/diagnostics");
    assert!(app.diagnostics_overlay.visible);
    assert!(!app.model_picker.visible);
}

#[test]
fn app_compaction_count_resets_on_new() {
    let mut app = make_test_app();
    app.compaction_count = 5;
    command(&mut app, "/new");
    assert_eq!(app.compaction_count, 0);
}

#[test]
fn app_compaction_count_increments() {
    let mut app = make_test_app();
    assert_eq!(app.compaction_count, 0);
    send(&mut app, AppEvent::CompactFinish { summary: "so far".to_string() });
    assert_eq!(app.compaction_count, 1);
}

#[test]
fn app_sync_context_window_sets_from_registry() {
    let mut app = make_test_app();
    assert_eq!(app.status_line_state.context_window, 0);
    app.provider_registry = Some(make_test_registry(128_000));
    app.current_model = Some("test/test-model".to_string());
    app.sync_context_window();
    assert_eq!(app.status_line_state.context_window, 128_000);
}

#[test]
fn app_sync_context_window_noop_without_registry() {
    let mut app = make_test_app();
    app.current_model = Some("test/test-model".to_string());
    app.sync_context_window();
    assert_eq!(app.status_line_state.context_window, 0);
}

#[test]
fn app_sync_context_window_noop_without_model() {
    let mut app = make_test_app();
    app.provider_registry = Some(make_test_registry(128_000));
    app.current_model = None;
    app.sync_context_window();
    assert_eq!(app.status_line_state.context_window, 0);
}

#[test]
fn app_sync_context_window_invalid_model_preserves_previous() {
    let mut app = make_test_app();
    app.provider_registry = Some(make_test_registry(128_000));
    app.current_model = Some("test/test-model".to_string());
    app.sync_context_window();
    assert_eq!(app.status_line_state.context_window, 128_000);
    app.current_model = Some("nonexistent/model".to_string());
    app.sync_context_window();
    assert_eq!(app.status_line_state.context_window, 128_000);
}

#[test]
fn app_sync_context_window_updates_on_model_change() {
    let mut app = make_test_app();
    app.provider_registry =
        Some(registry_of(vec![model("small", "Small", 32_000), model("large", "Large", 200_000)]));
    app.current_model = Some("test/small".to_string());
    app.sync_context_window();
    assert_eq!(app.status_line_state.context_window, 32_000);
    app.current_model = Some("test/large".to_string());
    app.sync_context_window();
    assert_eq!(app.status_line_state.context_window, 200_000);
}

#[test]
fn commands_command_unknown_pushes_error() {
    let mut app = make_test_app();
    command(&mut app, "/foobar");
    assert!(has_error_message(&app, "Unknown command"));
}

#[test]
fn commands_command_exit_sets_should_quit() {
    let mut app = make_test_app();
    assert!(!app.should_quit);
    command(&mut app, "/exit");
    assert!(app.should_quit);
}

#[test]
fn commands_command_new_resets_state() {
    let mut app = make_test_app();
    app.compaction_count = 5;
    app.context_warned = true;
    app.last_prompt_tokens = 9999;
    app.exchange_count = 10;
    app.messages.push(MessageBlock::User { text: "hello".into() });
    command(&mut app, "/new");
    assert_eq!(app.compaction_count, 0);
    assert!(!app.context_warned);
    assert_eq!(app.last_prompt_tokens, 0);
    assert_eq!(app.exchange_count, 0);
    assert!(app.stored_messages.is_empty());
    assert!(has_system_message(&app, "New session started"));
    assert!(app.current_session.is_some());
}

#[test]
fn commands_command_help_shows_commands() {
    let mut app = make_test_app();
    command(&mut app, "/help");
    let text = last_message_text(&app);
    assert!(text.contains("/new"));
    assert!(text.contains("/exit"));
    assert!(text.contains("/compact"));
}

#[test]
fn commands_command_model_no_provider_errors() {
    let mut app = make_test_app();
    assert!(app.provider_registry.is_none());
    command(&mut app, "/model test/gpt");
    assert!(has_error_message(&app, "No providers configured"));
}

#[test]
fn commands_command_models_no_provider_errors() {
    let mut app = make_test_app();
    command(&mut app, "/models");
    assert!(has_error_message(&app, "No providers configured"));
}

#[test]
fn commands_command_models_opens_picker() {
    let mut app = make_test_app();
    app.provider_registry = Some(make_test_registry(128_000));
    assert!(!app.model_picker.visible);
    command(&mut app, "/models");
    assert!(app.model_picker.visible);
}

#[test]
fn commands_command_models_closes_other_overlays() {
    let mut app = make_test_app();
    app.provider_registry = Some(make_test_registry(128_000));
    app.diagnostics_overlay.visible = true;
    command(&mut app, "/models");
    assert!(app.model_picker.visible);
    assert!(!app.diagnostics_overlay.visible);
}

#[test]
fn commands_command_diagnostics_opens_overlay() {
    let mut app = make_test_app();
    assert!(!app.diagnostics_overlay.visible);
    command(&mut app, "/diagnostics");
    assert!(app.diagnostics_overlay.visible);
}

#[test]
fn commands_command_diagnostics_closes_other_overlays() {
    let mut app = make_test_app();
    app.model_picker.visible = true;
    command(&mut app, "/diagnostics");
    assert!(app.diagnostics_overlay.visible);
    assert!(!app.model_picker.visible);
}

#[test]
fn commands_command_compact_nothing_to_compact() {
    let mut app = make_test_app();
    command(&mut app, "/compact");
    assert!(has_system_message(&app, "Nothing to compact"));
}

#[test]
fn commands_command_compact_rejects_while_loading() {
    let mut app = make_test_app();
    app.current_session = Some(session("test", "Test"));
    app.stored_messages.push(Message::user("test", "hello"));
    app.is_loading = true;
    command(&mut app, "/compact");
    assert!(has_error_message(&app, "Cannot compact while streaming"));
}

#[test]
fn commands_command_compact_rejects_while_streaming_active() {
    let mut app = make_test_app();
    app.current_session = Some(session("test", "Test"));
    app.stored_messages.push(Message::user("test", "hello"));
    app.streaming_active = true;
    command(&mut app, "/compact");
    assert!(has_error_message(&app, "Cannot compact while streaming"));
}

#[test]
fn commands_command_tasks_empty() {
    let mut app = make_test_app();
    let mut fx = command(&mut app, "/tasks");
    assert_eq!(fx, vec![Effect::ListTasks]);
    app.tasks_listed(&Vec::new(), &Vec::new(), &mut fx);
    assert!(has_system_message(&app, "No tasks"));
}

#[test]
fn commands_command_task_new_creates_task() {
    let mut app = make_test_app();
    let mut fx = command(&mut app, "/task-new Fix the login bug");
    assert_eq!(fx, vec![Effect::CreateTask { title: "Fix the login bug".to_string() }]);
    let made = Named { id: "t-1".to_string(), title: "Fix the login bug".to_string() };
    app.task_created(Ok(made), &mut fx);
    assert!(has_system_message(&app, "Created task"));
    assert!(has_system_message(&app, "Fix the login bug"));
}

#[test]
fn commands_command_task_done_nonexistent_errors() {
    let mut app = make_test_app();
    let mut fx = command(&mut app, "/task-done nonexistent-id");
    assert_eq!(fx, vec![Effect::CompleteTask { id: "nonexistent-id".to_string() }]);
    app.task_completed(Err("not found".to_string()), &mut fx);
    assert!(has_error_message(&app, "Failed to complete task"));
}

#[test]
fn commands_command_epics_empty() {
    let mut app = make_test_app();
    let fx = command(&mut app, "/epics");
    assert_eq!(fx, vec![Effect::ListEpics]);
    app.epics_listed(&Vec::new());
    assert!(has_system_message(&app, "No epics"));
}

#[test]
fn commands_command_epic_new_creates_epic() {
    let mut app = make_test_app();
    let fx = command(&mut app, "/epic-new Auth Overhaul");
    assert_eq!(fx, vec![Effect::CreateEpic { title: "Auth Overhaul".to_string() }]);
    app.epic_created(Ok(Named { id: "e-1".to_string(), title: "Auth Overhaul".to_string() }));
    assert!(has_system_message(&app, "Created epic"));
    assert!(has_system_message(&app, "Auth Overhaul"));
}

#[test]
fn commands_command_agents_update_rejects_during_streaming() {
    let mut app = make_test_app();
    app.is_loading = true;
    command(&mut app, "/agents-update");
    assert!(has_error_message(&app, "Cannot update AGENTS.md while streaming"));
}

#[test]
fn commands_command_agents_update_rejects_without_model() {
    let mut app = make_test_app();
    assert!(app.current_model.is_none());
    command(&mut app, "/agents-update");
    assert!(has_error_message(&app, "No model available"));
}

#[test]
fn commands_command_sessions_rejects_during_streaming() {
    let mut app = make_test_app();
    app.is_loading = true;
    command(&mut app, "/sessions");
    assert!(has_error_message(&app, "Cannot browse sessions while streaming"));
}

#[test]
fn commands_command_export_debug_no_session_errors() {
    let mut app = make_test_app();
    command(&mut app, "/export-debug");
    assert!(has_error_message(&app, "No active session to export"));
}

#[test]
fn command_export_scenario_no_session_errors() {
    let mut app = make_test_app();
    assert_eq!(command(&mut app, "/export-scenario"), vec![Effect::ExportScenario]);
    assert!(app.export_scenario(true).is_none());
    assert!(has_error_message(&app, "No active session to export"));
}

#[test]
fn command_export_scenario_compacted_session_errors_up_front() {
    let mut app = make_test_app();
    app.stored_messages.push(Message::assistant("s", "compacted summary text"));
    assert_eq!(command(&mut app, "/export-scenario"), vec![Effect::ExportScenario]);
    assert!(app.export_scenario(true).is_none());
    assert!(has_error_message(&app, "no user turns to export"));
}

#[test]
fn command_export_scenario_interjection_session_errors_up_front() {
    let mut app = make_test_app();
    app.stored_messages.push(Message::user("s", "initial"));
    app.stored_messages.push(Message::assistant("s", "responding..."));
    app.stored_messages.push(Message::user("s", "wait"));
    app.stored_messages.push(Message::user("s", "instead do this"));
    assert_eq!(command(&mut app, "/export-scenario"), vec![Effect::ExportScenario]);
    assert!(app.export_scenario(true).is_none());
    assert!(has_error_message(&app, "mid-stream interjection"));
}

#[test]
fn context_check_context_warning_fires_at_60_pct() {
    let mut app = make_test_app();
    app.context_warned = false;
    app.status_line_state.context_window = 128_000;
    app.last_prompt_tokens = 80_000;
    app.status_line_state.last_prompt_tokens = 80_000;
    app.check_context_warning();
    assert!(app.context_warned);
    assert!(has_system_message(&app, "Context window"));
}

#[test]
fn context_check_context_warning_only_fires_once() {
    let mut app = make_test_app();
    app.context_warned = false;
    app.status_line_state.context_window = 128_000;
    app.last_prompt_tokens = 80_000;
    app.status_line_state.last_prompt_tokens = 80_000;
    app.check_context_warning();
    let msg_count = app.messages.len();
    app.check_context_warning();
    assert_eq!(app.messages.len(), msg_count);
}

#[test]
fn context_check_context_warning_does_not_fire_below_threshold() {
    let mut app = make_test_app();
    app.status_line_state.context_window = 128_000;
    app.last_prompt_tokens = 50_000;
    app.status_line_state.last_prompt_tokens = 50_000;
    app.check_context_warning();
    assert!(!app.context_warned);
}

#[test]
fn context_sync_context_window_sets_from_registry() {
    let mut app = make_test_app();
    assert_eq!(app.status_line_state.context_window, 0);
    app.provider_registry = Some(make_test_registry(128_000));
    app.current_model = Some("test/test-model".to_string());
    app.sync_context_window();
    assert_eq!(app.status_line_state.context_window, 128_000);
}

#[test]
fn context_sync_context_window_noop_without_registry() {
    let mut app = make_test_app();
    app.current_model = Some("test/test-model".to_string());
    app.sync_context_window();
    assert_eq!(app.status_line_state.context_window, 0);
}

#[test]
fn context_sync_context_window_noop_without_model() {
    let mut app = make_test_app();
    app.provider_registry = Some(make_test_registry(128_000));
    app.current_model = None;
    app.sync_context_window();
    assert_eq!(app.status_line_state.context_window, 0);
}

#[test]
fn context_sync_context_window_invalid_model_preserves_previous() {
    let mut app = make_test_app();
    app.provider_registry = Some(make_test_registry(128_000));
    app.current_model = Some("test/test-model".to_string());
    app.sync_context_window();
    assert_eq!(app.status_line_state.context_window, 128_000);
    app.current_model = Some("nonexistent/model".to_string());
    app.sync_context_window();
    assert_eq!(app.status_line_state.context_window, 128_000);
}

#[test]
fn context_sync_context_window_updates_on_model_change() {
    let mut app = make_test_app();
    app.provider_registry =
        Some(registry_of(vec![model("small", "Small", 32_000), model("large", "Large", 200_000)]));
    app.current_model = Some("test/small".to_string());
    app.sync_context_window();
    assert_eq!(app.status_line_state.context_window, 32_000);
    app.current_model = Some("test/large".to_string());
    app.sync_context_window();
    assert_eq!(app.status_line_state.context_window, 200_000);
}

#[test]
fn event_loop_event_llm_delta_appends_text() {
    let mut app = make_test_app();
    start_streaming(&mut app);
    send(&mut app, AppEvent::LlmDelta { text: "Hello".into() });
    send(&mut app, AppEvent::LlmDelta { text: " world".into() });
    assert_eq!(text_of(app.messages.last().unwrap()), "Hello world");
}

#[test]
fn event_loop_event_llm_delta_ignored_when_not_streaming() {
    let mut app = make_test_app();
    let msg_count = app.messages.len();
    send(&mut app, AppEvent::LlmDelta { text: "ignored".into() });
    assert_eq!(app.messages.len(), msg_count);
}

#[test]
fn event_llm_response_start_creates_new_assistant_block() {
    let mut app = make_test_app();
    start_streaming(&mut app);
    send(&mut app, AppEvent::LlmDelta { text: "First response".into() });
    let msg_count = app.messages.len();
    send(&mut app, AppEvent::LlmResponseStart);
    assert_eq!(app.messages.len(), msg_count + 1);
    assert!(app.messages.last().unwrap().is_empty_assistant());
    send(&mut app, AppEvent::LlmDelta { text: "Second response".into() });
    assert_eq!(text_of(&app.messages[msg_count - 1]), "First response");
    assert_eq!(text_of(app.messages.last().unwrap()), "Second response");
}

#[test]
fn event_loop_event_llm_usage_update_sets_tokens() {
    let mut app = make_test_app();
    app.status_line_state.context_window = 128_000;
    let usage = Usage { prompt_tokens: 50_000, completion_tokens: 1_000 };
    send(&mut app, AppEvent::LlmUsageUpdate { usage });
    assert_eq!(app.last_prompt_tokens, 50_000);
    assert_eq!(app.status_line_state.last_prompt_tokens, 50_000);
    assert_eq!(app.sidebar_state.prompt_tokens, 50_000);
    assert_eq!(app.sidebar_state.completion_tokens, 1_000);
}

#[test]
fn event_loop_event_llm_error_clears_streaming_state() {
    let mut app = make_test_app();
    start_streaming(&mut app);
    send(&mut app, AppEvent::LlmError { error: "connection failed".into() });
    assert!(!app.is_loading);
    assert!(!app.streaming_active);
    assert!(!app.stream_cancel);
    assert!(app.streaming_message.is_none());
    assert!(has_error_message(&app, "connection failed"));
}

#[test]
fn event_loop_event_llm_finish_clears_streaming_state() {
    let mut app = make_test_app();
    start_streaming(&mut app);
    send(&mut app, AppEvent::LlmFinish { usage: None });
    assert!(!app.is_loading);
    assert!(!app.streaming_active);
    assert!(app.frozen_elapsed.is_some());
}

#[test]
fn event_loop_event_stream_notice_pushes_system_message() {
    let mut app = make_test_app();
    send(&mut app, AppEvent::StreamNotice { text: "LSP started".into() });
    assert!(has_system_message(&app, "LSP started"));
}

#[test]
fn event_stream_notice_coalesces_consecutive_identical_text() {
    let mut app = make_test_app();
    let baseline = app.messages.len();
    for _ in 0..5 {
        send(
            &mut app,
            AppEvent::StreamNotice { text: "LSP yaml server restarted successfully".into() },
        );
    }
    assert_eq!(app.messages.len(), baseline + 1);
    assert_eq!(last_message_text(&app), "LSP yaml server restarted successfully (×5)");
}

#[test]
fn event_stream_notice_does_not_coalesce_distinct_text() {
    let mut app = make_test_app();
    let baseline = app.messages.len();
    send(&mut app, AppEvent::StreamNotice { text: "alpha".into() });
    send(&mut app, AppEvent::StreamNotice { text: "beta".into() });
    assert_eq!(app.messages.len(), baseline + 2);
    assert!(has_system_message(&app, "alpha"));
    assert!(has_system_message(&app, "beta"));
}

#[test]
fn event_stream_notice_does_not_coalesce_through_other_block() {
    let mut app = make_test_app();
    let baseline = app.messages.len();
    send(&mut app, AppEvent::StreamNotice { text: "X".into() });
    app.messages.push(MessageBlock::User { text: "user typed something".into() });
    send(&mut app, AppEvent::StreamNotice { text: "X".into() });
    assert_eq!(app.messages.len(), baseline + 3);
}

#[test]
fn event_stream_notice_coalesces_empty_text() {
    let mut app = make_test_app();
    let baseline = app.messages.len();
    send(&mut app, AppEvent::StreamNotice { text: String::new() });
    send(&mut app, AppEvent::StreamNotice { text: String::new() });
    assert_eq!(app.messages.len(), baseline + 1);
    assert_eq!(last_message_text(&app), format_with_count("", 2));
}

#[test]
fn event_stream_notice_coalesces_text_that_looks_like_count_suffix() {
    let mut app = make_test_app();
    let baseline = app.messages.len();
    let trailing_count_text = "Multiplied by (×100)".to_string();
    send(&mut app, AppEvent::StreamNotice { text: trailing_count_text.clone() });
    send(&mut app, AppEvent::StreamNotice { text: trailing_count_text.clone() });
    assert_eq!(app.messages.len(), baseline + 1);
    assert_eq!(last_message_text(&app), format_with_count(&trailing_count_text, 2));
}

#[test]
fn event_stream_notice_count_saturates_at_usize_max() {
    let mut app = make_test_app();
    let already_max = format_with_count("X", usize::MAX);
    app.messages.push(MessageBlock::System { text: already_max.clone() });
    let baseline = app.messages.len();
    send(&mut app, AppEvent::StreamNotice { text: "X".into() });
    assert_eq!(app.messages.len(), baseline);
    assert_eq!(last_message_text(&app), already_max);
}

#[test]
fn event_loop_event_compact_error_sets_auto_compact_failed() {
    let mut app = make_test_app();
    app.is_loading = true;
    assert!(!app.auto_compact_failed);
    send(&mut app, AppEvent::CompactError { error: "boom".into() });
    assert!(app.auto_compact_failed);
    assert!(!app.is_loading);
    assert!(has_error_message(&app, "boom"));
}

#[test]
fn event_loop_event_llm_retry_shows_retry_message() {
    let mut app = make_test_app();
    send(
        &mut app,
        AppEvent::LlmRetry { attempt: 2, max_attempts: 3, error: "timeout".into() },
    );
    assert!(has_system_message(&app, "timeout"));
    assert!(has_system_message(&app, "2/3"));
    assert_eq!(last_message_text(&app), "Connection error: timeout\nRetrying (2/3)...");
}

#[test]
fn event_loop_event_tick_clears_expired_flash() {
    let mut app = make_test_app();
    app.selection_state.copied_flash = Some(NOW - 2_000);
    send(&mut app, AppEvent::Tick { lsp_servers: Vec::new() });
    assert!(app.selection_state.copied_flash.is_none());
}

#[test]
fn event_loop_event_tick_preserves_fresh_flash() {
    let mut app = make_test_app();
    app.selection_state.copied_flash = Some(NOW);
    send(&mut app, AppEvent::Tick { lsp_servers: Vec::new() });
    assert!(app.selection_state.copied_flash.is_some());
}

#[test]
fn event_lsp_restart_needed_does_not_panic() {
    let mut app = make_test_app();
    let fx = send(&mut app, AppEvent::LspRestartNeeded { lang: "rust".into() });
    assert_eq!(fx, vec![Effect::RestartLsp { lang: "rust".to_string() }]);
}

#[test]
fn event_tick_shows_restarting_lsp_in_sidebar() {
    let mut app = make_test_app();
    let server = SidebarLsp {
        binary: "rust-analyzer".into(),
        state: LspState::Restarting,
        progress_message: None,
        next_restart_at: Some(NOW + 3_000),
    };
    send(&mut app, AppEvent::Tick { lsp_servers: vec![server] });
    assert_eq!(app.sidebar_state.lsp_servers.len(), 1);
    assert_eq!(app.sidebar_state.lsp_servers[0].state, LspState::Restarting);
    assert!(app.sidebar_state.lsp_servers[0].next_restart_at.is_some());
}

#[test]
fn event_loop_llm_usage_update_sets_prompt_tokens_without_session_storage() {
    let mut app = make_test_app();
    app.status_line_state.context_window = 128_000;
    app.last_prompt_tokens = 0;
    app.status_line_state.last_prompt_tokens = 0;
    let usage = Usage { prompt_tokens: 60_000, completion_tokens: 500 };
    send(&mut app, AppEvent::LlmUsageUpdate { usage });
    assert_eq!(app.last_prompt_tokens, 60_000);
    assert_eq!(app.status_line_state.last_prompt_tokens, 60_000);
    assert!(app.current_session.is_none());
}

#[test]
fn helpers_should_show_sidebar_auto_mode() {
    let app = make_test_app();
    assert!(app.should_show_sidebar(120));
    assert!(app.should_show_sidebar(200));
    assert!(!app.should_show_sidebar(119));
    assert!(!app.should_show_sidebar(80));
}

#[test]
fn helpers_should_show_sidebar_forced_show() {
    let mut app = make_test_app();
    app.sidebar_override = Some(true);
    assert!(app.should_show_sidebar(80));
    assert!(app.should_show_sidebar(120));
}

#[test]
fn helpers_should_show_sidebar_forced_hide() {
    let mut app = make_test_app();
    app.sidebar_override = Some(false);
    assert!(!app.should_show_sidebar(120));
    assert!(!app.should_show_sidebar(200));
}

#[test]
fn helpers_strip_project_root_absolute_path() {
    let app = make_test_app();
    assert_eq!(app.strip_project_root("/tmp/test/src/main.rs"), "src/main.rs");
}

#[test]
fn helpers_strip_project_root_relative_path() {
    let app = make_test_app();
    assert_eq!(app.strip_project_root("src/main.rs"), "src/main.rs");
}

#[test]
fn helpers_strip_project_root_no_match() {
    let app = make_test_app();
    assert_eq!(app.strip_project_root("/other/path/file.rs"), "/other/path/file.rs");
}

#[test]
fn helpers_strip_project_root_exact_root() {
    let app = make_test_app();
    assert_eq!(app.strip_project_root("/tmp/test/"), "");
}

#[test]
fn helpers_strip_project_root_sibling_directory() {
    let app = make_test_app();
    assert_eq!(app.strip_project_root("/tmp/test-backup/file.rs"), "/tmp/test-backup/file.rs");
}

#[test]
fn helpers_handle_interjection_adds_user_message() {
    let mut app = make_test_app();
    app.interjection_tx = true;
    let initial_count = app.messages.len();
    let mut fx = Vec::new();
    app.handle_interjection("focus on tests", &no_refs(), true, &mut fx);
    assert_eq!(app.messages.len(), initial_count + 1);
    match &app.messages[initial_count] {
        MessageBlock::User { text } => assert_eq!(text, "focus on tests"),
        other => panic!("expected User message, got {:?}", other),
    }
}

#[test]
fn helpers_handle_interjection_rejects_commands() {
    let mut app = make_test_app();
    app.interjection_tx = true;
    let initial_count = app.messages.len();
    let mut fx = Vec::new();
    app.handle_interjection("/compact", &no_refs(), true, &mut fx);
    assert_eq!(app.messages.len(), initial_count);
}

#[test]
fn helpers_handle_interjection_noop_when_no_sender() {
    let mut app = make_test_app();
    assert!(!app.interjection_tx);
    let initial_count = app.messages.len();
    let mut fx = Vec::new();
    app.handle_interjection("hello", &no_refs(), true, &mut fx);
    assert_eq!(app.messages.len(), initial_count);
}

#[test]
fn helpers_close_all_overlays_closes_everything() {
    let mut app = make_test_app();
    app.model_picker.visible = true;
    app.diagnostics_overlay.visible = true;
    app.mcp_overlay.visible = true;
    app.session_picker.visible = true;
    app.close_all_overlays();
    assert!(!app.model_picker.visible);
    assert!(!app.diagnostics_overlay.visible);
    assert!(!app.mcp_overlay.visible);
    assert!(!app.session_picker.visible);
}

#[test]
fn helpers_resolve_client_no_provider_pushes_error() {
    let mut app = make_test_app();
    assert!(app.provider_registry.is_none());
    let result = app.resolve_client("test/model");
    assert!(result.is_none());
    assert!(has_error_message(&app, "No provider configured"));
}

#[test]
fn helpers_resolve_client_invalid_model_pushes_error() {
    let mut app = make_test_app();
    app.provider_registry = Some(make_test_registry(128_000));
    let result = app.resolve_client("nonexistent/model");
    assert!(result.is_none());
    assert!(has_error_message(&app, "Failed to resolve model"));
}

#[test]
fn helpers_resolve_client_valid_model_returns_client() {
    let mut app = make_test_app();
    app.provider_registry = Some(make_test_registry(128_000));
    let result = app.resolve_client("test/test-model");
    assert!(result.is_some());
    assert_eq!(result.unwrap().model_id, "test-model");
}

#[test]
fn helpers_finish_stream_clears_state() {
    let mut app = make_test_app();
    app.is_loading = true;
    app.streaming_active = true;
    app.stream_start_time = Some(NOW);
    app.finish_stream(NOW);
    assert!(!app.is_loading);
    assert!(!app.streaming_active);
    assert!(!app.stream_cancel);
    assert!(!app.interjection_tx);
    assert!(app.frozen_elapsed.is_some());
}

#[test]
fn helpers_finish_stream_no_elapsed_without_start_time() {
    let mut app = make_test_app();
    app.is_loading = true;
    assert!(app.stream_start_time.is_none());
    app.finish_stream(NOW);
    assert!(app.frozen_elapsed.is_none());
}

#[test]
fn last_assistant_mut_finds_assistant_after_system() {
    let mut app = make_test_app();
    app.messages.push(MessageBlock::Assistant {
        thinking: None,
        parts: vec![AssistantPart::Text("hello".into())],
    });
    app.messages.push(MessageBlock::System { text: "granted".into() });
    let found = app.last_assistant_mut();
    assert!(found.is_some());
    assert!(found.unwrap().is_assistant());
}

#[test]
fn last_assistant_mut_returns_none_when_no_assistant() {
    let mut app = make_test_app();
    app.messages.clear();
    app.messages.push(MessageBlock::User { text: "hi".into() });
    assert!(app.last_assistant_mut().is_none());
}

#[test]
fn remove_last_permission_block_removes_it() {
    let mut app = make_test_app();
    app.messages.clear();
    app.messages.push(MessageBlock::User { text: "run it".into() });
    app.messages.push(MessageBlock::Permission {
        tool_name: "bash".into(),
        args_summary: "ls".into(),
        diff_content: None,
    });
    app.messages.push(MessageBlock::System { text: "ok".into() });
    assert_eq!(app.messages.len(), 3);
    app.remove_last_permission_block();
    assert_eq!(app.messages.len(), 2);
    assert!(!app.messages.iter().any(|m| matches!(m, MessageBlock::Permission { .. })));
}

#[test]
fn remove_last_permission_block_noop_when_none() {
    let mut app = make_test_app();
    app.messages.push(MessageBlock::User { text: "hi".into() });
    let count = app.messages.len();
    app.remove_last_permission_block();
    assert_eq!(app.messages.len(), count);
}

#[test]
fn mark_question_answered_sets_answer() {
    let mut app = make_test_app();
    app.messages.push(MessageBlock::Question {
        question: "Pick one".into(),
        options: vec!["a".into(), "b".into()],
        selected: Some(0),
        free_text: String::new(),
        answered: None,
    });
    app.mark_question_answered("a");
    match app.messages.last().unwrap() {
        MessageBlock::Question { answered, .. } => assert_eq!(answered.as_deref(), Some("a")),
        other => panic!("expected Question, got {other:?}"),
    }
}

#[test]
fn mark_question_answered_skips_already_answered() {
    let mut app = make_test_app();
    app.messages.push(MessageBlock::Question {
        question: "Old".into(),
        options: vec![],
        selected: None,
        free_text: String::new(),
        answered: Some("done".into()),
    });
    app.messages.push(MessageBlock::Question {
        question: "New".into(),
        options: vec![],
        selected: None,
        free_text: String::new(),
        answered: None,
    });
    app.mark_question_answered("new answer");
    match &app.messages[app.messages.len() - 1] {
        MessageBlock::Question { answered, question, .. } => {
            assert_eq!(question, "New");
            assert_eq!(answered.as_deref(), Some("new answer"));
        }
        other => panic!("expected Question, got {other:?}"),
    }
    match &app.messages[app.messages.len() - 2] {
        MessageBlock::Question { answered, .. } => assert_eq!(answered.as_deref(), Some("done")),
        other => panic!("expected Question, got {other:?}"),
    }
}

#[test]
fn invalidate_and_ensure_file_index() {
    let mut app = make_test_app();
    assert!(app.file_index.is_none());
    app.set_file_index(vec!["src/main.rs".to_string()]);
    assert!(app.file_index.is_some());
    app.invalidate_file_index();
    assert!(app.file_index.is_none());
}

#[test]
fn discard_pending_agents_update_clears_and_notifies() {
    let mut app = make_test_app();
    app.pending_agents_update = Some("proposed content".into());
    let msg_count = app.messages.len();
    app.discard_pending_agents_update();
    assert!(app.pending_agents_update.is_none());
    assert_eq!(app.messages.len(), msg_count + 1);
    assert!(has_system_message(&app, "AGENTS.md update discarded"));
}

#[test]
fn cancel_stream_clears_state_and_pushes_cancelled() {
    let mut app = make_test_app();
    app.streaming_active = true;
    app.is_loading = true;
    app.stream_start_time = Some(NOW);
    app.messages.push(MessageBlock::Assistant { thinking: None, parts: vec![] });
    let mut fx = Vec::new();
    app.cancel_stream(NOW, &mut fx);
    assert!(!app.streaming_active);
    assert!(!app.is_loading);
    assert!(app.streaming_message.is_none());
    assert!(has_system_message(&app, "cancelled"));
    assert!(!app.messages.iter().any(|m| m.is_empty_assistant()));
}

#[test]
fn cancel_stream_dismisses_pending_permission() {
    let mut app = make_test_app();
    app.streaming_active = true;
    app.pending_permission =
        Some(PendingPermission { tool_name: ToolName::Bash, summary: "test".into() });
    let mut fx = Vec::new();
    app.cancel_stream(NOW, &mut fx);
    assert!(app.pending_permission.is_none());
    assert_eq!(replies(&fx), vec![PermissionReply::Deny]);
}

#[test]
fn find_last_completed_call_finds_matching_tool() {
    let mut app = make_test_app();
    let read = call(ToolName::Read, "src/main.rs", Some("contents"), Some("42 lines"));
    app.messages.push(called(read, ToolGroupStatus::Complete));
    let found = app.find_last_completed_call(ToolName::Read);
    assert!(found.is_some());
    assert_eq!(found.unwrap().args_summary, "src/main.rs");
}

#[test]
fn find_last_completed_call_returns_none_for_wrong_tool() {
    let mut app = make_test_app();
    let read = call(ToolName::Read, "src/main.rs", Some("contents"), Some("42 lines"));
    app.messages.push(called(read, ToolGroupStatus::Complete));
    assert!(app.find_last_completed_call(ToolName::Write).is_none());
}

#[test]
fn find_last_completed_call_skips_incomplete() {
    let mut app = make_test_app();
    let read = call(ToolName::Read, "src/main.rs", None, None);
    app.messages.push(called(read, ToolGroupStatus::Running { current_tool: ToolName::Read }));
    assert!(app.find_last_completed_call(ToolName::Read).is_none());
}

#[test]
fn find_last_completed_call_returns_none_when_no_assistant() {
    let app = make_test_app();
    assert!(app.find_last_completed_call(ToolName::Read).is_none());
}

#[test]
fn handle_input_slash_delegates_to_command() {
    let mut app = make_test_app();
    input(&mut app, "/help");
    assert!(has_system_message(&app, "Commands:"));
}

#[test]
fn handle_input_no_model_pushes_error() {
    let mut app = make_test_app();
    assert!(app.current_model.is_none());
    input(&mut app, "hello");
    assert!(has_error_message(&app, "No model selected"));
}

#[test]
fn handle_input_no_provider_pushes_error() {
    let mut app = make_test_app();
    app.current_model = Some("test/model".into());
    assert!(app.provider_registry.is_none());
    input(&mut app, "hello");
    assert!(has_error_message(&app, "No provider configured"));
}

#[test]
fn handle_input_saves_user_message() {
    let mut app = make_test_app();
    app.current_model = Some("test/test-model".into());
    app.provider_registry = Some(make_test_registry(128_000));
    let stored_before = app.stored_messages.len();
    input(&mut app, "test message");
    assert_eq!(app.stored_messages.len(), stored_before + 1);
    assert!(app.stored_messages.last().unwrap().text_content().contains("test message"));
}

#[test]
fn handle_input_pushes_user_display_block() {
    let mut app = make_test_app();
    app.current_model = Some("test/test-model".into());
    app.provider_registry = Some(make_test_registry(128_000));
    input(&mut app, "hello world");
    let has_user = app
        .messages
        .iter()
        .any(|m| matches!(m, MessageBlock::User { text } if text.contains("hello world")));
    assert!(has_user, "should have User message block");
}

#[test]
fn handle_input_starts_streaming() {
    let mut app = make_test_app();
    app.current_model = Some("test/test-model".into());
    app.provider_registry = Some(make_test_registry(128_000));
    assert!(!app.is_loading);
    assert!(!app.streaming_active);
    input(&mut app, "go");
    assert!(app.is_loading);
    assert!(app.streaming_active);
    assert!(app.stream_start_time.is_some());
    assert!(app.stream_cancel);
    assert!(app.interjection_tx);
}

#[test]
fn handle_input_ensures_session() {
    let mut app = make_test_app();
    app.current_model = Some("test/test-model".into());
    app.provider_registry = Some(make_test_registry(128_000));
    app.current_session = None;
    input(&mut app, "hello");
    assert!(app.current_session.is_some());
}

#[test]
fn ensure_session_creates_when_none() {
    let mut app = make_test_app();
    app.current_session = None;
    let mut fx = Vec::new();
    app.ensure_session(Some(session("made", "New session")), &mut fx);
    assert!(app.current_session.is_some());
}

#[test]
fn ensure_session_noop_when_exists() {
    let mut app = make_test_app();
    let mut fx = Vec::new();
    app.ensure_session(Some(session("first", "New session")), &mut fx);
    let session_id = app.current_session.as_ref().unwrap().id.clone();
    app.ensure_session(Some(session("second", "New session")), &mut fx);
    assert_eq!(app.current_session.as_ref().unwrap().id, session_id);
}

#[test]
fn prune_empty_session_deletes_empty() {
    let mut app = make_test_app();
    let mut fx = Vec::new();
    app.ensure_session(Some(session("made", "New session")), &mut fx);
    assert_eq!(app.exchange_count, 0);
    assert!(app.stored_messages.is_empty());
    let mut pruned = Vec::new();
    app.prune_empty_session(&mut pruned);
    assert_eq!(pruned, vec![Effect::DeleteSession { session_id: "made".to_string() }]);
}

#[test]
fn a_session_without_user_messages_is_pruned() {
    let mut app = make_test_app();
    let mut fx = Vec::new();
    app.ensure_session(Some(session("made", "New session")), &mut fx);
    app.stored_messages.push(Message::assistant("made", "a summary"));
    let mut pruned = Vec::new();
    app.prune_empty_session(&mut pruned);
    assert_eq!(pruned, vec![Effect::DeleteSession { session_id: "made".to_string() }]);

    app.stored_messages.push(Message::user("made", "hello"));
    let mut kept = Vec::new();
    app.prune_empty_session(&mut kept);
    assert!(kept.is_empty());
}

#[test]
fn prune_empty_session_keeps_nonempty() {
    let mut app = make_test_app();
    let mut fx = Vec::new();
    app.ensure_session(Some(session("made", "New session")), &mut fx);
    app.exchange_count = 1;
    let mut pruned = Vec::new();
    app.prune_empty_session(&mut pruned);
    assert!(pruned.is_empty());
}

#[test]
fn permission_y_sends_allow_once() {
    let mut app = make_test_app();
    make_pending_permission(&mut app);
    let fx = key(&mut app, press(KeyCode::Char('y')));
    assert!(app.pending_permission.is_none());
    assert_eq!(replies(&fx), vec![PermissionReply::AllowOnce]);
}

#[test]
fn permission_n_sends_deny() {
    let mut app = make_test_app();
    make_pending_permission(&mut app);
    let fx = key(&mut app, press(KeyCode::Char('n')));
    assert!(app.pending_permission.is_none());
    assert_eq!(replies(&fx), vec![PermissionReply::Deny]);
    assert!(has_system_message(&app, "denied"));
}

#[test]
fn permission_a_sends_allow_always() {
    let mut app = make_test_app();
    make_pending_permission(&mut app);
    let fx = key(&mut app, press(KeyCode::Char('a')));
    assert!(app.pending_permission.is_none());
    assert_eq!(replies(&fx), vec![PermissionReply::AllowAlways]);
}

#[test]
fn permission_esc_sends_deny() {
    let mut app = make_test_app();
    make_pending_permission(&mut app);
    let fx = key(&mut app, press(KeyCode::Esc));
    assert_eq!(replies(&fx), vec![PermissionReply::Deny]);
}

#[test]
fn permission_ctrl_c_cancels_stream() {
    let mut app = make_test_app();
    make_pending_permission(&mut app);
    app.streaming_active = true;
    key(&mut app, press_ctrl('c'));
    assert!(app.pending_permission.is_none());
    assert!(has_system_message(&app, "cancelled"));
}

#[test]
fn permission_ignores_other_keys() {
    let mut app = make_test_app();
    make_pending_permission(&mut app);
    key(&mut app, press(KeyCode::Char('x')));
    assert!(app.pending_permission.is_some());
}

#[test]
fn question_enter_submits_selected_option() {
    let mut app = make_test_app();
    make_pending_question(&mut app, vec!["red".into(), "blue".into()]);
    let fx = key(&mut app, press(KeyCode::Enter));
    assert!(app.pending_question.is_none());
    assert_eq!(answers(&fx), vec!["red"]);
}

#[test]
fn question_number_selects_option() {
    let mut app = make_test_app();
    make_pending_question(&mut app, vec!["red".into(), "blue".into(), "green".into()]);
    key(&mut app, press(KeyCode::Char('2')));
    assert_eq!(selected(&app), Some(1));
    let fx = key(&mut app, press(KeyCode::Enter));
    assert_eq!(answers(&fx), vec!["blue"]);
}

#[test]
fn question_esc_skips() {
    let mut app = make_test_app();
    make_pending_question(&mut app, vec!["red".into()]);
    let fx = key(&mut app, press(KeyCode::Esc));
    assert!(app.pending_question.is_none());
    assert_eq!(answers(&fx), vec!["User declined to answer."]);
}

#[test]
fn question_up_down_navigates() {
    let mut app = make_test_app();
    make_pending_question(&mut app, vec!["a".into(), "b".into(), "c".into()]);
    assert_eq!(selected(&app), Some(0));
    key(&mut app, press(KeyCode::Down));
    assert_eq!(selected(&app), Some(1));
    key(&mut app, press(KeyCode::Down));
    assert_eq!(selected(&app), Some(2));
    key(&mut app, press(KeyCode::Down));
    assert_eq!(selected(&app), Some(2));
    key(&mut app, press(KeyCode::Up));
    assert_eq!(selected(&app), Some(1));
}

#[test]
fn question_tab_toggles_free_text() {
    let mut app = make_test_app();
    make_pending_question(&mut app, vec!["a".into()]);
    assert!(selected(&app).is_some());
    key(&mut app, press(KeyCode::Tab));
    assert!(selected(&app).is_none());
    key(&mut app, press(KeyCode::Tab));
    assert_eq!(selected(&app), Some(0));
}

#[test]
fn question_free_text_input() {
    let mut app = make_test_app();
    make_pending_question(&mut app, vec!["a".into()]);
    key(&mut app, press(KeyCode::Tab));
    key(&mut app, press(KeyCode::Char('h')));
    key(&mut app, press(KeyCode::Char('i')));
    assert_eq!(app.pending_question.as_ref().unwrap().free_text, "hi");
    key(&mut app, press(KeyCode::Backspace));
    assert_eq!(app.pending_question.as_ref().unwrap().free_text, "h");
    key(&mut app, press(KeyCode::Char('i')));
    let fx = key(&mut app, press(KeyCode::Enter));
    assert_eq!(answers(&fx), vec!["hi"]);
}

#[test]
fn agents_update_n_discards() {
    let mut app = make_test_app();
    app.pending_agents_update = Some("proposed content".into());
    key(&mut app, press(KeyCode::Char('n')));
    assert!(app.pending_agents_update.is_none());
    assert!(has_system_message(&app, "AGENTS.md update discarded"));
}

#[test]
fn agents_update_esc_discards() {
    let mut app = make_test_app();
    app.pending_agents_update = Some("proposed content".into());
    key(&mut app, press(KeyCode::Esc));
    assert!(app.pending_agents_update.is_none());
}

#[test]
fn ctrl_c_when_streaming_cancels() {
    let mut app = make_test_app();
    app.streaming_active = true;
    app.is_loading = true;
    key(&mut app, press_ctrl('c'));
    assert!(!app.streaming_active);
    assert!(!app.should_quit);
}

#[test]
fn ctrl_c_when_idle_quits() {
    let mut app = make_test_app();
    assert!(!app.should_quit);
    key(&mut app, press_ctrl('c'));
    assert!(app.should_quit);
}

#[test]
fn ctrl_b_toggles_sidebar() {
    let mut app = make_test_app();
    assert!(app.sidebar_override.is_none());
    key(&mut app, press_ctrl('b'));
    assert_eq!(app.sidebar_override, Some(false));
    key(&mut app, press_ctrl('b'));
    assert_eq!(app.sidebar_override, Some(true));
    key(&mut app, press_ctrl('b'));
    assert!(app.sidebar_override.is_none());
}

#[test]
fn key_release_ignored() {
    let mut app = make_test_app();
    let release =
        KeyEvent { code: KeyCode::Char('y'), modifiers: KeyModifiers::Plain, pressed: false };
    make_pending_permission(&mut app);
    key(&mut app, release);
    assert!(app.pending_permission.is_some());
}

#[test]
fn mod_model_picker_close_on_new() {
    let mut app = make_test_app();
    app.model_picker.visible = true;
    command(&mut app, "/new");
    assert!(!app.model_picker.visible);
}

#[test]
fn mod_diagnostics_overlay_close_on_new() {
    let mut app = make_test_app();
    app.diagnostics_overlay.visible = true;
    command(&mut app, "/new");
    assert!(!app.diagnostics_overlay.visible);
}

#[test]
fn mod_diagnostics_overlay_closes_model_picker() {
    let mut app = make_test_app();
    app.model_picker.visible = true;
    command(&mut app, "/diagnostics");
    assert!(app.diagnostics_overlay.visible);
    assert!(!app.model_picker.visible);
}

#[test]
fn mod_mcp_overlay_close_on_new() {
    let mut app = make_test_app();
    app.mcp_overlay.visible = true;
    command(&mut app, "/new");
    assert!(!app.mcp_overlay.visible);
}

#[test]
fn mod_mcp_overlay_closes_other_overlays() {
    let mut app = make_test_app();
    app.model_picker.visible = true;
    command(&mut app, "/mcp tools");
    assert!(app.mcp_overlay.visible);
    assert!(!app.model_picker.visible);
}

#[test]
fn mod_mcp_overlay_closed_by_diagnostics() {
    let mut app = make_test_app();
    app.mcp_overlay.visible = true;
    command(&mut app, "/diagnostics");
    assert!(app.diagnostics_overlay.visible);
    assert!(!app.mcp_overlay.visible);
}

#[test]
fn mod_compaction_count_resets_on_new() {
    let mut app = make_test_app();
    app.compaction_count = 5;
    command(&mut app, "/new");
    assert_eq!(app.compaction_count, 0);
}

#[test]
fn mod_compaction_count_increments() {
    let mut app = make_test_app();
    assert_eq!(app.compaction_count, 0);
    send(&mut app, AppEvent::CompactFinish { summary: "so far".to_string() });
    assert_eq!(app.compaction_count, 1);
}

#[test]
fn prompt_system_prompt_includes_tool_guidance() {
    let app = make_test_app();
    let prompt = app.build_system_prompt(noon(), &prompt_facts()).unwrap();
    assert!(prompt.contains("Search before reading"), "should contain search guidance");
    assert!(prompt.contains("offset"), "should mention offset param");
    assert!(prompt.contains("context-efficient"), "should mention context efficiency");
    assert!(prompt.contains("You are Steve"), "should contain Steve identity");
    assert!(prompt.contains("Build mode"), "should explain permission model");
    assert!(prompt.contains("Date"), "should contain current date");
}

#[test]
fn tests_system_prompt_includes_tool_guidance() {
    let app = make_test_app();
    let prompt = app.build_system_prompt(noon(), &prompt_facts()).unwrap();
    assert!(prompt.contains("Search before reading"), "should contain search guidance");
    assert!(prompt.contains("offset"), "should mention offset param");
    assert!(prompt.contains("context-efficient"), "should mention context efficiency");
    assert!(prompt.contains("You are Steve"), "should contain Steve identity");
    assert!(prompt.contains("Build mode"), "should explain permission model");
    assert!(prompt.contains("Date"), "should contain current date");
}

#[test]
fn tests_should_show_sidebar_auto_mode() {
    let app = make_test_app();
    assert!(app.should_show_sidebar(120));
    assert!(app.should_show_sidebar(200));
    assert!(!app.should_show_sidebar(119));
    assert!(!app.should_show_sidebar(80));
}

#[test]
fn tests_should_show_sidebar_forced_show() {
    let mut app = make_test_app();
    app.sidebar_override = Some(true);
    assert!(app.should_show_sidebar(80));
    assert!(app.should_show_sidebar(120));
}

#[test]
fn tests_should_show_sidebar_forced_hide() {
    let mut app = make_test_app();
    app.sidebar_override = Some(false);
    assert!(!app.should_show_sidebar(120));
    assert!(!app.should_show_sidebar(200));
}

#[test]
fn tests_check_context_warning_fires_at_60_pct() {
    let mut app = make_test_app();
    app.context_warned = false;
    app.status_line_state.context_window = 128_000;
    app.last_prompt_tokens = 80_000;
    app.status_line_state.last_prompt_tokens = 80_000;
    app.check_context_warning();
    assert!(app.context_warned);
    assert!(has_system_message(&app, "Context window"));
}

#[test]
fn tests_check_context_warning_only_fires_once() {
    let mut app = make_test_app();
    app.context_warned = false;
    app.status_line_state.context_window = 128_000;
    app.last_prompt_tokens = 80_000;
    app.status_line_state.last_prompt_tokens = 80_000;
    app.check_context_warning();
    let msg_count = app.messages.len();
    app.check_context_warning();
    assert_eq!(app.messages.len(), msg_count);
}

#[test]
fn tests_check_context_warning_does_not_fire_below_threshold() {
    let mut app = make_test_app();
    app.status_line_state.context_window = 128_000;
    app.last_prompt_tokens = 50_000;
    app.status_line_state.last_prompt_tokens = 50_000;
    app.check_context_warning();
    assert!(!app.context_warned);
}

#[test]
fn tests_llm_usage_update_sets_prompt_tokens_without_session_storage() {
    let mut app = make_test_app();
    app.status_line_state.context_window = 128_000;
    app.last_prompt_tokens = 0;
    app.status_line_state.last_prompt_tokens = 0;
    let usage = Usage { prompt_tokens: 60_000, completion_tokens: 500 };
    send(&mut app, AppEvent::LlmUsageUpdate { usage });
    assert_eq!(app.last_prompt_tokens, 60_000);
    assert_eq!(app.status_line_state.last_prompt_tokens, 60_000);
    assert!(app.current_session.is_none());
}

#[test]
fn tests_strip_project_root_absolute_path() {
    let app = make_test_app();
    assert_eq!(app.strip_project_root("/tmp/test/src/main.rs"), "src/main.rs");
}

#[test]
fn tests_strip_project_root_relative_path() {
    let app = make_test_app();
    assert_eq!(app.strip_project_root("src/main.rs"), "src/main.rs");
}

#[test]
fn tests_strip_project_root_no_match() {
    let app = make_test_app();
    assert_eq!(app.strip_project_root("/other/path/file.rs"), "/other/path/file.rs");
}

#[test]
fn tests_strip_project_root_exact_root() {
    let app = make_test_app();
    assert_eq!(app.strip_project_root("/tmp/test/"), "");
}

#[test]
fn tests_strip_project_root_sibling_directory() {
    let app = make_test_app();
    assert_eq!(app.strip_project_root("/tmp/test-backup/file.rs"), "/tmp/test-backup/file.rs");
}

#[test]
fn tests_handle_interjection_adds_user_message() {
    let mut app = make_test_app();
    app.interjection_tx = true;
    let initial_count = app.messages.len();
    let mut fx = Vec::new();
    app.handle_interjection("focus on tests", &no_refs(), true, &mut fx);
    assert_eq!(app.messages.len(), initial_count + 1);
    match &app.messages[initial_count] {
        MessageBlock::User { text } => assert_eq!(text, "focus on tests"),
        other => panic!("expected User message, got {:?}", other),
    }
}

#[test]
fn tests_handle_interjection_rejects_commands() {
    let mut app = make_test_app();
    app.interjection_tx = true;
    let initial_count = app.messages.len();
    let mut fx = Vec::new();
    app.handle_interjection("/compact", &no_refs(), true, &mut fx);
    assert_eq!(app.messages.len(), initial_count);
}

#[test]
fn tests_handle_interjection_noop_when_no_sender() {
    let mut app = make_test_app();
    assert!(!app.interjection_tx);
    let initial_count = app.messages.len();
    let mut fx = Vec::new();
    app.handle_interjection("hello", &no_refs(), true, &mut fx);
    assert_eq!(app.messages.len(), initial_count);
}

#[test]
fn tests_apply_session_title_rejects_empty_string() {
    let mut app = make_test_app();
    app.current_session = Some(session("s", "New session"));
    let mut fx = Vec::new();
    app.apply_session_title("", &mut fx);
    assert_eq!(app.current_session.as_ref().unwrap().title, "New session");
}

#[test]
fn tests_maybe_generate_title_skips_non_default_title() {
    let mut app = make_test_app();
    app.current_session = Some(session("s", "My Custom Title"));
    app.messages.push(MessageBlock::User { text: "Hello world".to_string() });
    let mut fx = Vec::new();
    app.maybe_generate_title(&mut fx);
    assert_eq!(app.current_session.as_ref().unwrap().title, "My Custom Title");
}

#[test]
fn tests_maybe_generate_title_sync_fallback_without_small_model() {
    let mut app = make_test_app();
    app.current_session = Some(session("s", "New session"));
    assert!(app.config.small_model.is_none());
    app.messages.push(MessageBlock::User {
        text: "Fix the authentication bug in login.rs".to_string(),
    });
    let mut fx = Vec::new();
    app.maybe_generate_title(&mut fx);
    assert_eq!(
        app.current_session.as_ref().unwrap().title,
        "Fix the authentication bug in login.rs"
    );
}

#[test]
fn tests_maybe_generate_title_sync_fallback_truncates_long_message() {
    let mut app = make_test_app();
    app.current_session = Some(session("s", "New session"));
    app.messages.push(MessageBlock::User { text: "a".repeat(80) });
    let mut fx = Vec::new();
    app.maybe_generate_title(&mut fx);
    let title = &app.current_session.as_ref().unwrap().title;
    assert_eq!(title.chars().count(), 60);
    assert!(title.ends_with("..."));
}

#[test]
fn tests_apply_session_title_updates_sidebar_and_persists() {
    let mut app = make_test_app();
    app.current_session = Some(session("s", "New session"));
    let mut fx = Vec::new();
    app.apply_session_title("My New Title", &mut fx);
    assert_eq!(app.current_session.as_ref().unwrap().title, "My New Title");
    assert_eq!(app.sidebar_state.session_title, "My New Title");
    assert_eq!(
        fx[0],
        Effect::RenameSession { session_id: "s".to_string(), title: "My New Title".to_string() }
    );
}

#[test]
fn tests_title_event_guards_stale_session_id() {
    let mut app = make_test_app();
    app.current_session = Some(session("s", "New session"));
    let mut fx = Vec::new();
    app.apply_title_if_current("stale-id-does-not-match", "LLM Generated Title", &mut fx);
    assert_eq!(app.current_session.as_ref().unwrap().title, "New session");
}

#[test]
fn tests_title_event_guards_renamed_session() {
    let mut app = make_test_app();
    app.current_session = Some(session("s", "New session"));
    let mut fx = Vec::new();
    app.apply_session_title("User Chose This", &mut fx);
    app.apply_title_if_current("s", "LLM Generated Title", &mut fx);
    assert_eq!(app.current_session.as_ref().unwrap().title, "User Chose This");
}

#[test]
fn tests_model_picker_close_on_new() {
    let mut app = make_test_app();
    app.model_picker.visible = true;
    command(&mut app, "/new");
    assert!(!app.model_picker.visible);
}

#[test]
fn tests_diagnostics_overlay_close_on_new() {
    let mut app = make_test_app();
    app.diagnostics_overlay.visible = true;
    command(&mut app, "/new");
    assert!(!app.diagnostics_overlay.visible);
}

#[test]
fn tests_diagnostics_overlay_closes_model_picker() {
    let mut app = make_test_app();
    app.model_picker.visible = true;
    command(&mut app, "/diagnostics");
    assert!(app.diagnostics_overlay.visible);
    assert!(!app.model_picker.visible);
}

#[test]
fn tests_mcp_overlay_close_on_new() {
    let mut app = make_test_app();
    app.mcp_overlay.visible = true;
    command(&mut app, "/new");
    assert!(!app.mcp_overlay.visible);
}

#[test]
fn tests_mcp_overlay_closes_other_overlays() {
    let mut app = make_test_app();
    app.model_picker.visible = true;
    command(&mut app, "/mcp tools");
    assert!(app.mcp_overlay.visible);
    assert!(!app.model_picker.visible);
}

#[test]
fn tests_mcp_overlay_closed_by_diagnostics() {
    let mut app = make_test_app();
    app.mcp_overlay.visible = true;
    command(&mut app, "/diagnostics");
    assert!(app.diagnostics_overlay.visible);
    assert!(!app.mcp_overlay.visible);
}

#[test]
fn tests_compaction_count_resets_on_new() {
    let mut app = make_test_app();
    app.compaction_count = 5;
    command(&mut app, "/new");
    assert_eq!(app.compaction_count, 0);
}

#[test]
fn tests_compaction_count_increments() {
    let mut app = make_test_app();
    assert_eq!(app.compaction_count, 0);
    send(&mut app, AppEvent::CompactFinish { summary: "so far".to_string() });
    assert_eq!(app.compaction_count, 1);
}

#[test]
fn tests_sync_context_window_sets_from_registry() {
    let mut app = make_test_app();
    assert_eq!(app.status_line_state.context_window, 0);
    app.provider_registry = Some(make_test_registry(128_000));
    app.current_model = Some("test/test-model".to_string());
    app.sync_context_window();
    assert_eq!(app.status_line_state.context_window, 128_000);
}

#[test]
fn tests_sync_context_window_noop_without_registry() {
    let mut app = make_test_app();
    app.current_model = Some("test/test-model".to_string());
    app.sync_context_window();
    assert_eq!(app.status_line_state.context_window, 0);
}

#[test]
fn tests_sync_context_window_noop_without_model() {
    let mut app = make_test_app();
    app.provider_registry = Some(make_test_registry(128_000));
    app.current_model = None;
    app.sync_context_window();
    assert_eq!(app.status_line_state.context_window, 0);
}

#[test]
fn tests_sync_context_window_invalid_model_preserves_previous() {
    let mut app = make_test_app();
    app.provider_registry = Some(make_test_registry(128_000));
    app.current_model = Some("test/test-model".to_string());
    app.sync_context_window();
    assert_eq!(app.status_line_state.context_window, 128_000);
    app.current_model = Some("nonexistent/model".to_string());
    app.sync_context_window();
    assert_eq!(app.status_line_state.context_window, 128_000);
}

#[test]
fn tests_sync_context_window_updates_on_model_change() {
    let mut app = make_test_app();
    app.provider_registry =
        Some(registry_of(vec![model("small", "Small", 32_000), model("large", "Large", 200_000)]));
    app.current_model = Some("test/small".to_string());
    app.sync_context_window();
    assert_eq!(app.status_line_state.context_window, 32_000);
    app.current_model = Some("test/large".to_string());
    app.sync_context_window();
    assert_eq!(app.status_line_state.context_window, 200_000);
}

#[test]
fn tests_close_all_overlays_closes_everything() {
    let mut app = make_test_app();
    app.model_picker.visible = true;
    app.diagnostics_overlay.visible = true;
    app.mcp_overlay.visible = true;
    app.session_picker.visible = true;
    app.close_all_overlays();
    assert!(!app.model_picker.visible);
    assert!(!app.diagnostics_overlay.visible);
    assert!(!app.mcp_overlay.visible);
    assert!(!app.session_picker.visible);
}

#[test]
fn tests_resolve_client_no_provider_pushes_error() {
    let mut app = make_test_app();
    assert!(app.provider_registry.is_none());
    let result = app.resolve_client("test/model");
    assert!(result.is_none());
    assert!(has_error_message(&app, "No provider configured"));
}

#[test]
fn tests_resolve_client_invalid_model_pushes_error() {
    let mut app = make_test_app();
    app.provider_registry = Some(make_test_registry(128_000));
    let result = app.resolve_client("nonexistent/model");
    assert!(result.is_none());
    assert!(has_error_message(&app, "Failed to resolve model"));
}

#[test]
fn tests_resolve_client_valid_model_returns_client() {
    let mut app = make_test_app();
    app.provider_registry = Some(make_test_registry(128_000));
    let result = app.resolve_client("test/test-model");
    assert!(result.is_some());
    assert_eq!(result.unwrap().model_id, "test-model");
}

#[test]
fn tests_finish_stream_clears_state() {
    let mut app = make_test_app();
    app.is_loading = true;
    app.streaming_active = true;
    app.stream_start_time = Some(NOW);
    app.finish_stream(NOW);
    assert!(!app.is_loading);
    assert!(!app.streaming_active);
    assert!(!app.stream_cancel);
    assert!(!app.interjection_tx);
    assert!(app.frozen_elapsed.is_some());
}

#[test]
fn tests_finish_stream_no_elapsed_without_start_time() {
    let mut app = make_test_app();
    app.is_loading = true;
    assert!(app.stream_start_time.is_none());
    app.finish_stream(NOW);
    assert!(app.frozen_elapsed.is_none());
}

fn task(id: &str, title: &str, priority: Priority, status: TaskStatus) -> Task {
    Task {
        id: id.to_string(),
        title: title.to_string(),
        description: None,
        priority,
        status,
        kind: TaskKind::Task,
        epic_id: None,
        created_at: "2024-03-09".to_string(),
    }
}

fn ready_app() -> App {
    let mut app = make_test_app();
    app.current_model = Some("test/test-model".to_string());
    app.provider_registry = Some(make_test_registry(128_000));
    app
}

#[test]
fn command_task_lifecycle() {
    let mut app = make_test_app();
    let mut fx = command(&mut app, "/task-new Test task");
    let made = Named { id: "t-1".to_string(), title: "Test task".to_string() };
    app.task_created(Ok(made), &mut fx);
    assert_eq!(command(&mut app, "/task-show t-1"), vec![Effect::ShowTask { id: "t-1".to_string() }]);
    app.task_shown(Ok((task("t-1", "Test task", Priority::Medium, TaskStatus::Open), None)));
    assert!(has_system_message(&app, "Test task"));
    let mut done = command(&mut app, "/task-done t-1");
    let completed = Named { id: "t-1".to_string(), title: "Test task".to_string() };
    app.task_completed(Ok(completed), &mut done);
    assert!(has_system_message(&app, "Completed"));
}

#[test]
fn a_new_application_is_idle_and_asks_for_providers() {
    let app = make_test_app();
    assert_eq!(app.messages.len(), 1);
    assert!(app.messages[0].is_assistant());
    assert_eq!(app.status_line_state.activity, Activity::Idle);
    assert!(!app.busy());
}

#[test]
fn a_new_application_names_missing_keys() {
    let project = ProjectInfo { root: "/p".into(), id: "p".into(), cwd: "/p".into() };
    let config = Config {
        model: Some("fireworks/foo".into()),
        small_model: None,
        permission_profile: None,
        allow_tools: vec![
            "bash".into(),
            "mcp__files__read".into(),
            "nonsense".into(),
            "mcp__files".into(),
            "edit".into(),
        ],
        auto_compact: true,
        has_providers: true,
    };
    let missing =
        ProviderInitWarning { provider_id: "fireworks".into(), env_var: "FIREWORKS_API_KEY".into() };
    let mut app = App::new(
        project,
        config,
        Vec::new(),
        None,
        vec![missing],
        vec!["bad setting".to_string()],
        Vec::new(),
    );
    assert!(has_error_message(&app, "bad setting"));
    assert!(has_error_message(&app, "$FIREWORKS_API_KEY"));
    assert_eq!(app.current_model.as_deref(), Some("fireworks/foo"));
    let setup = app.permission_setup();
    assert_eq!(setup.allowed, vec![ToolName::Bash, ToolName::Edit]);
    assert_eq!(setup.profile, "standard");
    assert!(!setup.plan);
    assert_eq!(app.mcp_overrides(), vec!["mcp__files__read"]);
    app.config.permission_profile = Some("trust".to_string());
    assert_eq!(app.permission_setup().profile, "trust");
}

#[test]
fn tools_of_servers_are_known_by_their_names() {
    assert_eq!(prefixed_tool_name("files", "read"), "mcp__files__read");
    for name in ["mcp__a__b", "mcp__my_files__read_all", "mcp__a__b__c", "mcp___a__b"] {
        assert!(is_prefixed_tool_name(name), "{name}");
    }
    for name in ["", "mcp__", "mcp__a", "mcp__a__", "mcp____b", "mcp_a__b", "read"] {
        assert!(!is_prefixed_tool_name(name), "{name}");
    }
    assert_eq!(task_prefix(None), "proj");
    assert_eq!(task_prefix(Some("steve".to_string())), "steve");
}

#[test]
fn models_are_offered_where_none_is_in_use() {
    let mut app = make_test_app();
    app.provider_registry = Some(make_test_registry(128_000));
    let mut fx = Vec::new();
    app.prompt_model_if_needed(&mut fx);
    assert!(app.model_picker.visible);
    assert_eq!(
        fx,
        vec![Effect::OpenModelPicker {
            models: vec![("test/test-model".to_string(), "Test Model".to_string())],
            current: None,
        }]
    );
    let mut chosen = ready_app();
    let mut none = Vec::new();
    chosen.prompt_model_if_needed(&mut none);
    assert!(!chosen.model_picker.visible);
    assert!(none.is_empty());
}

#[test]
fn a_sent_message_is_stored_shown_and_handed_over() {
    let mut app = ready_app();
    let fx = input(&mut app, "go on");
    assert_eq!(app.stored_messages.last().unwrap().text, "go on");
    let n = app.messages.len();
    assert_eq!(app.messages[n - 2], MessageBlock::User { text: "go on".to_string() });
    assert!(app.messages[n - 1].is_empty_assistant());
    let started = fx.iter().find_map(|e| if let Effect::StartStream(s) = e { Some(s) } else { None });
    let start = started.expect("a conversation is started");
    assert_eq!(start.user_message, "go on");
    assert_eq!(start.resolved.api_model_id, "test-model");
    assert!(start.history.is_empty());
    assert!(!start.is_plan_mode);
}

#[test]
fn references_to_files_are_resolved_or_noted() {
    let mut app = ready_app();
    let mut w = world();
    w.refs = FileRefs {
        paths: vec!["a.rs".to_string(), "gone.rs".to_string()],
        resolved: vec!["a.rs".to_string()],
        display_text: "see a.rs".to_string(),
        api_text: "see a.rs\n<content>".to_string(),
    };
    let mut fx = Vec::new();
    app.handle_input("see @a.rs @gone.rs", w, &mut fx);
    assert!(has_system_message(&app, "gone.rs"));
    assert_eq!(app.stored_messages.last().unwrap().text, "see a.rs\n<content>");
}

#[test]
fn late_answers_leave_no_trace() {
    let mut app = ready_app();
    input(&mut app, "go");
    key(&mut app, press_ctrl('c'));
    let count = app.messages.len();
    for event in [
        AppEvent::LlmResponseStart,
        AppEvent::LlmDelta { text: "late".into() },
        AppEvent::LlmReasoning { text: "late".into() },
    ] {
        assert!(send(&mut app, event).is_empty());
    }
    assert_eq!(app.messages.len(), count);
    assert!(app.streaming_message.is_none());
}

#[test]
fn an_answer_adds_up_and_is_stored_once() {
    let mut app = ready_app();
    input(&mut app, "go");
    send(&mut app, AppEvent::LlmDelta { text: "Hel".into() });
    send(&mut app, AppEvent::LlmDelta { text: "lo".into() });
    assert_eq!(app.streaming_message.as_ref().unwrap().text, "Hello");
    let usage = Some(Usage { prompt_tokens: 10, completion_tokens: 5 });
    let fx = send(&mut app, AppEvent::LlmFinish { usage });
    assert_eq!(app.stored_messages.len(), 2);
    assert_eq!(app.stored_messages[1], Message::assistant("new", "Hello"));
    assert_eq!(fx[0], Effect::SaveMessage(Message::assistant("new", "Hello")));
    assert_eq!(app.exchange_count, 1);
    let counted = app.current_session.as_ref().unwrap().token_usage;
    assert_eq!(counted, TokenUsage { prompt_tokens: 10, completion_tokens: 5, total_tokens: 15 });
    assert!(!app.busy());
    assert_eq!(app.current_session.as_ref().unwrap().title, "go");
}

#[test]
fn single_calls_are_not_counted_in_the_session() {
    let mut app = ready_app();
    app.current_session = Some(session("s", "Mine"));
    let usage = Usage { prompt_tokens: 7, completion_tokens: 3 };
    assert!(send(&mut app, AppEvent::LlmUsageUpdate { usage }).is_empty());
    assert_eq!(app.current_session, Some(session("s", "Mine")));
    assert_eq!(app.sidebar_state.total_tokens, 10);
}

#[test]
fn counters_without_room_are_noticed() {
    let mut app = make_test_app();
    app.compaction_count = u32::MAX;
    assert!(!app.accepts(&AppEvent::CompactFinish { summary: "s".into() }));
    let usage = Usage { prompt_tokens: u32::MAX, completion_tokens: 1 };
    assert!(!app.accepts(&AppEvent::LlmUsageUpdate { usage }));
}

#[test]
fn a_compaction_leaves_only_its_summary() {
    let mut app = ready_app();
    let mut s = session("s", "Mine");
    s.token_usage = TokenUsage { prompt_tokens: 9, completion_tokens: 9, total_tokens: 18 };
    app.current_session = Some(s);
    app.stored_messages.push(Message::user("s", "one"));
    app.stored_messages.push(Message::assistant("s", "two"));
    let fx = command(&mut app, "/compact");
    assert!(app.is_loading);
    assert_eq!(app.status_line_state.activity, Activity::Compacting);
    assert!(has_system_message(&app, "Compacting 2 messages..."));
    match fx.last() {
        Some(Effect::Chat(job)) => {
            assert_eq!(job.purpose, ChatPurpose::Compact);
            assert_eq!(job.resolved.provider_id, "test");
            assert_eq!(job.resolved.api_model_id, "test-model");
            assert_eq!(job.session_id, "");
            assert_eq!(job.fallback, "");
        }
        other => panic!("expected a question to the model, got {other:?}"),
    }
    let done = send(&mut app, AppEvent::CompactFinish { summary: "short".into() });
    assert!(app.build_api_history().is_empty());
    app.stored_messages.push(Message::user("s", "and now?"));
    assert_eq!(app.build_api_history(), vec![ChatMessage::Assistant("short".to_string())]);
    assert_eq!(app.current_session.as_ref().unwrap().token_usage.total_tokens, 0);
    assert_eq!(app.messages.len(), 2);
    assert_eq!(done[0], Effect::DeleteMessages { session_id: "s".to_string() });
    assert_eq!(done[1], Effect::SaveMessage(Message::assistant("s", "short")));
    assert_eq!(done[2], Effect::SaveSession);
}

#[test]
fn a_full_window_is_compacted_unasked() {
    let mut app = ready_app();
    app.current_session = Some(session("s", "Mine"));
    for _ in 0..4 {
        app.stored_messages.push(Message::user("s", "x"));
    }
    app.last_prompt_tokens = 102_399;
    assert!(!app.should_auto_compact());
    app.last_prompt_tokens = 102_400;
    assert!(app.should_auto_compact());
    app.auto_compact_failed = true;
    assert!(!app.should_auto_compact());
}

#[test]
fn levels_are_those_of_the_fractions() {
    for window in [0u32, 1, 2, 3, 4, 5, 7, 99, 32_000, 128_000, 200_001, 1_048_573, u32::MAX] {
        let warn = (window as f64 * 0.60) as u64;
        let compact = (window as f64 * 0.80) as u64;
        assert_eq!(warn, window as u64 * 3 / 5);
        assert_eq!(compact, window as u64 * 4 / 5);
    }
    let mut seed: u64 = 1;
    for shift in 0..64 {
        seed = seed.wrapping_mul(6_364_136_223_846_793_005).wrapping_add(1_442_695_040_888_963_407);
        for window in [1u64 << shift, (1u64 << shift) - 1, u64::MAX >> shift, seed >> shift] {
            assert_eq!(part_of(window, THREE_FIFTHS), (window as f64 * 0.60) as u128);
            assert_eq!(part_of(window, FOUR_FIFTHS), (window as f64 * 0.80) as u128);
        }
    }
    let mut app = make_test_app();
    app.status_line_state.context_window = 128_000;
    app.status_line_state.last_prompt_tokens = 76_799;
    app.check_context_warning();
    assert!(!app.context_warned);
    app.status_line_state.last_prompt_tokens = 76_800;
    app.check_context_warning();
    assert!(app.context_warned);
    assert_eq!(
        last_message_text(&app),
        "Context window 60% full (76.8k/128.0k). Consider /compact to free space."
    );
}

#[test]
fn tokens_are_shown_in_short() {
    assert_eq!(format_tokens(0), "0");
    assert_eq!(format_tokens(999), "999");
    assert_eq!(format_tokens(1_000), "1.0k");
    assert_eq!(format_tokens(12_345), "12.3k");
    assert_eq!(format_tokens(12_355), "12.4k");
    assert_eq!(format_tokens(128_000), "128.0k");
    assert_eq!(format_tokens(1_000_000), "1.0M");
    assert_eq!(format_tokens(2_345_678), "2.3M");
    assert_eq!(context_usage_pct(80_000, 128_000), 62);
    assert_eq!(context_usage_pct(0, 128_000), 0);
    assert_eq!(context_usage_pct(128_000, 128_000), 100);
    assert_eq!(context_usage_pct(200_000, 128_000), 100);
}

#[test]
fn a_usage_update_is_what_the_warning_shows() {
    let mut app = make_test_app();
    app.status_line_state.context_window = 128_000;
    app.status_line_state.last_prompt_tokens = 10;
    let usage = Usage { prompt_tokens: 80_000, completion_tokens: 1 };
    send(&mut app, AppEvent::LlmUsageUpdate { usage });
    assert_eq!(
        last_message_text(&app),
        "Context window 62% full (80.0k/128.0k). Consider /compact to free space."
    );
}

#[test]
fn a_proposal_waits_for_approval() {
    let mut app = ready_app();
    command(&mut app, "/agents-update");
    assert!(app.is_loading);
    send(&mut app, AppEvent::AgentsUpdateFinish { proposed_content: "# New".into() });
    assert_eq!(app.pending_agents_update.as_deref(), Some("# New"));
    assert!(!app.is_loading);
    let n = app.messages.len();
    assert_eq!(
        app.messages[n - 2],
        MessageBlock::System {
            text: "Proposed AGENTS.md update \u{2014} press **y** to apply, **n** to discard:"
                .to_string()
        }
    );
    let fx = key(&mut app, press(KeyCode::Char('y')));
    assert_eq!(
        fx,
        vec![Effect::WriteAgentsFile {
            path: "/tmp/test/AGENTS.md".to_string(),
            content: "# New".to_string(),
        }]
    );
    assert!(app.pending_agents_update.is_none());
}

#[test]
fn a_cancelled_proposal_is_dropped() {
    let mut app = ready_app();
    let before = app.messages.len();
    send(&mut app, AppEvent::AgentsUpdateFinish { proposed_content: "# New".into() });
    send(&mut app, AppEvent::AgentsUpdateError { error: "late".into() });
    assert_eq!(app.messages.len(), before);
    assert!(app.pending_agents_update.is_none());
}

#[test]
fn replies_of_models_become_events() {
    let job = |purpose| ChatJob {
        purpose,
        resolved: ResolvedModel {
            provider_id: "p".to_string(),
            model_id: "m".to_string(),
            api_model_id: "m-1".to_string(),
            context_window: 9,
        },
        system_prompt: "",
        user_text: String::new(),
        session_id: "s".to_string(),
        fallback: "Fallback".to_string(),
    };
    assert_eq!(
        reply_event(job(ChatPurpose::Compact), Err("no".to_string())),
        AppEvent::CompactError { error: "Compaction failed: no".to_string() }
    );
    assert_eq!(
        reply_event(job(ChatPurpose::AgentsUpdate), Err("no".to_string())),
        AppEvent::AgentsUpdateError { error: "AGENTS.md update failed: no".to_string() }
    );
    assert_eq!(
        reply_event(job(ChatPurpose::Title), Ok("\"Title: Fix it\"".to_string())),
        AppEvent::TitleGenerated { session_id: "s".to_string(), title: "Fix it".to_string() }
    );
    assert_eq!(
        reply_event(job(ChatPurpose::Title), Ok("  \n".to_string())),
        AppEvent::TitleError { session_id: "s".to_string(), fallback_title: "Fallback".to_string() }
    );
}

#[test]
fn titles_arrive_only_where_they_are_wanted() {
    let mut app = make_test_app();
    app.current_session = Some(session("s", "New session"));
    send(
        &mut app,
        AppEvent::TitleGenerated { session_id: "s".into(), title: "Fix it".into() },
    );
    assert_eq!(app.current_session.as_ref().unwrap().title, "Fix it");
    send(
        &mut app,
        AppEvent::TitleError { session_id: "s".into(), fallback_title: "Other".into() },
    );
    assert_eq!(app.current_session.as_ref().unwrap().title, "Fix it");
}

#[test]
fn a_small_model_is_asked_for_the_title() {
    let mut app = ready_app();
    app.config.small_model = Some("test/test-model".to_string());
    app.current_session = Some(session("s", "New session"));
    app.messages.push(MessageBlock::User { text: "Fix it\nplease".to_string() });
    let mut fx = Vec::new();
    app.maybe_generate_title(&mut fx);
    match &fx[0] {
        Effect::Chat(job) => {
            assert_eq!(job.purpose, ChatPurpose::Title);
            assert_eq!(job.fallback, "Fix it");
            assert_eq!(job.session_id, "s");
        }
        other => panic!("expected a question to the model, got {other:?}"),
    }
    assert_eq!(app.current_session.as_ref().unwrap().title, "New session");
}

#[test]
fn tools_are_shown_from_call_to_result() {
    let mut app = ready_app();
    input(&mut app, "go");
    send(&mut app, AppEvent::LlmToolCallStreaming { tool_name: ToolName::Write });
    let arguments = Json::Object(vec![
        ("file_path".to_string(), Json::Str("/tmp/test/src/new.rs".to_string())),
        ("content".to_string(), Json::Str("one\ntwo".to_string())),
    ]);
    send(
        &mut app,
        AppEvent::LlmToolCall { call_id: "c1".into(), tool_name: ToolName::Write, arguments },
    );
    assert_eq!(
        app.status_line_state.activity,
        Activity::RunningTool {
            tool_name: ToolName::Write,
            args_summary: "/tmp/test/src/new.rs".to_string(),
        }
    );
    app.file_index = Some(vec!["old.rs".to_string()]);
    let output = ToolOutput { title: String::new(), output: "x".repeat(100), is_error: false };
    let fx = send(
        &mut app,
        AppEvent::ToolResult { call_id: "c1".into(), tool_name: ToolName::Write, output },
    );
    assert_eq!(fx, vec![Effect::RefreshGit, Effect::RefreshSidebar]);
    assert!(app.file_index.is_none());
    let call = app.find_last_completed_call(ToolName::Write).unwrap();
    assert_eq!(call.result_summary.as_ref().unwrap().chars().count(), 80);
    assert_eq!(app.sidebar_state.changes.len(), 1);
    assert_eq!(app.sidebar_state.changes[0].path, "src/new.rs");
    assert_eq!(app.sidebar_state.changes[0].additions, 2);
}

#[test]
fn a_completed_task_is_remembered_for_the_session() {
    let mut app = ready_app();
    input(&mut app, "go");
    let arguments =
        Json::Object(vec![("action".to_string(), Json::Str("complete".to_string()))]);
    send(
        &mut app,
        AppEvent::LlmToolCall { call_id: "c1".into(), tool_name: ToolName::Task, arguments },
    );
    let output = ToolOutput {
        title: String::new(),
        output: "Completed task t-7: done".to_string(),
        is_error: false,
    };
    send(
        &mut app,
        AppEvent::ToolResult { call_id: "c1".into(), tool_name: ToolName::Task, output },
    );
    assert_eq!(app.sidebar_state.session_closed_task_ids, vec!["t-7".to_string()]);
}

#[test]
fn news_of_a_sub_agent_is_shown_at_its_call() {
    let mut app = make_test_app();
    let agent = call(ToolName::Agent, "explore: x", None, None);
    app.messages.push(called(agent, ToolGroupStatus::Running { current_tool: ToolName::Agent }));
    let news = |result: Option<&str>| AppEvent::AgentProgress {
        call_id: "c".to_string(),
        tool_name: ToolName::Grep,
        args_summary: "fn main".to_string(),
        result_summary: result.map(|s| s.to_string()),
    };
    send(&mut app, news(None));
    send(&mut app, news(Some("3 hits")));
    let parts = match app.messages.last() {
        Some(MessageBlock::Assistant { parts, .. }) => parts,
        other => panic!("expected Assistant, got {other:?}"),
    };
    match &parts[0] {
        AssistantPart::ToolGroup(g) => {
            let progress = g.calls[0].agent_progress.as_ref().unwrap();
            assert_eq!(progress.tool_name, ToolName::Grep);
            assert_eq!(progress.result_summary.as_deref(), Some("3 hits"));
        }
        other => panic!("expected ToolGroup, got {other:?}"),
    }
}

#[test]
fn a_permission_is_asked_for_and_granted_for_good() {
    let mut app = make_test_app();
    let arguments = Json::Object(vec![("command".to_string(), Json::Str("ls".to_string()))]);
    send(
        &mut app,
        AppEvent::PermissionRequest(PermissionRequest {
            tool_name: ToolName::Bash,
            tool_args: arguments,
            display_name: None,
            arguments_summary: "ls".to_string(),
        }),
    );
    assert_eq!(app.status_line_state.activity, Activity::WaitingForPermission);
    assert_eq!(
        app.messages.last(),
        Some(&MessageBlock::Permission {
            tool_name: "bash".to_string(),
            args_summary: "ls".to_string(),
            diff_content: None,
        })
    );
    let fx = key(&mut app, press(KeyCode::Char('a')));
    assert_eq!(
        fx,
        vec![
            Effect::ReplyPermission(PermissionReply::AllowAlways),
            Effect::SyncPermissionMode,
            Effect::PersistToolGrant { tool: "bash".to_string() },
        ]
    );
    assert_eq!(app.config.allow_tools, vec!["bash".to_string()]);
    assert!(!app.messages.iter().any(|m| matches!(m, MessageBlock::Permission { .. })));
}

#[test]
fn a_grant_for_an_outside_tool_is_not_kept() {
    let mut app = make_test_app();
    app.pending_permission = Some(PendingPermission {
        tool_name: ToolName::Bash,
        summary: "MCP: server/tool".to_string(),
    });
    let fx = key(&mut app, press(KeyCode::Char('a')));
    assert_eq!(fx, vec![Effect::ReplyPermission(PermissionReply::AllowAlways)]);
    assert!(app.config.allow_tools.is_empty());
}

#[test]
fn a_cancelled_prompt_is_answered_once() {
    let mut app = make_test_app();
    make_pending_permission(&mut app);
    make_pending_question(&mut app, vec!["a".to_string()]);
    app.stream_cancel = true;
    let fx = key(&mut app, press_ctrl('c'));
    assert_eq!(fx[0], Effect::CancelStream);
    assert_eq!(replies(&fx), vec![PermissionReply::Deny]);
    assert_eq!(answers(&fx), vec!["User cancelled."]);
    assert!(app.pending_permission.is_none());
    assert!(app.pending_question.is_none());
}

#[test]
fn a_question_starts_at_its_first_option() {
    let mut app = make_test_app();
    send(
        &mut app,
        AppEvent::QuestionRequest(QuestionRequest {
            call_id: "q".to_string(),
            question: "Which?".to_string(),
            options: vec!["a".to_string(), "b".to_string()],
        }),
    );
    assert_eq!(selected(&app), Some(0));
    assert_eq!(app.status_line_state.activity, Activity::WaitingForQuestion);
    assert!(app.messages.last().unwrap().is_unanswered_question());
    key(&mut app, press(KeyCode::Down));
    match app.messages.last() {
        Some(MessageBlock::Question { selected, .. }) => assert_eq!(*selected, Some(1)),
        other => panic!("expected Question, got {other:?}"),
    }
    let unanswered = key(&mut app, press(KeyCode::Char('9')));
    assert!(unanswered.is_empty());
    assert_eq!(selected(&app), Some(1));
}

#[test]
fn a_question_without_an_answer_is_declined() {
    let mut app = make_test_app();
    make_pending_question(&mut app, Vec::new());
    let fx = key(&mut app, press(KeyCode::Enter));
    assert_eq!(answers(&fx), vec!["User declined to answer."]);
}

#[test]
fn switching_shows_the_other_session_and_nothing_else() {
    let mut app = ready_app();
    app.current_session = Some(session("old", "Old"));
    app.mcp_overlay.visible = true;
    app.compaction_count = 3;
    make_pending_permission(&mut app);
    let stored = StoredSession {
        session: session("other", "Other"),
        messages: Some(vec![
            Message::user("other", "hi"),
            Message::assistant("other", "hello"),
        ]),
    };
    let mut fx = Vec::new();
    app.switch_to_session(stored, &mut fx);
    assert_eq!(app.current_session.as_ref().unwrap().id, "other");
    assert!(!app.mcp_overlay.visible);
    assert!(app.pending_permission.is_none());
    assert_eq!(app.compaction_count, 0);
    assert_eq!(app.exchange_count, 1);
    assert_eq!(app.stored_messages.len(), 2);
    assert_eq!(last_message_text(&app), "Switched to: Other");
    assert_eq!(fx[0], Effect::DeleteSession { session_id: "old".to_string() });
}

#[test]
fn the_last_session_is_resumed() {
    let mut app = ready_app();
    let mut fx = Vec::new();
    let last = StoredSession {
        session: session("s", "Mine"),
        messages: Some(vec![Message::user("s", "hi")]),
    };
    app.resume_or_new_session(Some(last), &mut fx);
    assert_eq!(app.current_session.as_ref().unwrap().id, "s");
    assert_eq!(app.exchange_count, 1);
    assert_eq!(app.sidebar_state.session_title, "Mine");
    assert_eq!(
        fx[1..],
        [Effect::RefreshGit, Effect::RefreshDiagnostics, Effect::RefreshSidebar]
    );
}

#[test]
fn a_user_renames_the_session() {
    let mut app = make_test_app();
    app.current_session = Some(session("s", "New session"));
    let fx = command(&mut app, "/rename  Better name ");
    assert_eq!(app.current_session.as_ref().unwrap().title, "Better name");
    assert!(has_system_message(&app, "Session renamed to: Better name"));
    assert_eq!(
        fx[0],
        Effect::RenameSession { session_id: "s".to_string(), title: "Better name".to_string() }
    );
    command(&mut app, "/rename");
    assert!(has_error_message(&app, "Usage: /rename <title>"));
}

#[test]
fn a_model_is_chosen_or_refused() {
    let mut app = make_test_app();
    app.provider_registry = Some(make_test_registry(64_000));
    command(&mut app, "/model test/test-model");
    assert_eq!(app.current_model.as_deref(), Some("test/test-model"));
    assert_eq!(app.status_line_state.context_window, 64_000);
    assert!(has_system_message(&app, "Switched to model: test/test-model"));
    command(&mut app, "/model other/x");
    assert_eq!(app.current_model.as_deref(), Some("test/test-model"));
    assert!(matches!(app.messages.last(), Some(MessageBlock::Error { .. })));
}

#[test]
fn agents_files_are_created_once() {
    let mut app = make_test_app();
    let fx = command(&mut app, "/init");
    assert_eq!(fx, vec![Effect::CreateAgentsFile { path: "/tmp/test/AGENTS.md".to_string() }]);
    app.agents_file_created("/tmp/test/AGENTS.md".to_string(), AgentsCreation::Existed);
    assert!(app.agents_files.is_empty());
    app.agents_file_created("/tmp/test/AGENTS.md".to_string(), AgentsCreation::Created);
    assert_eq!(app.agents_files.len(), 1);
    app.agents_file_created("/tmp/test/AGENTS.md".to_string(), AgentsCreation::Failed("no".into()));
    assert!(matches!(app.messages.last(), Some(MessageBlock::Error { .. })));
}

#[test]
fn a_session_becomes_a_scenario() {
    let mut app = make_test_app();
    app.stored_messages.push(Message::user("s", " hi "));
    let export = app.export_scenario(true).expect("nothing stands in the way");
    assert_eq!(export.user_turns, vec!["hi".to_string()]);
    assert!(export.session_trace.starts_with("# Session trace"));
    assert!(app.export_scenario(false).is_none());
    assert!(has_error_message(&app, "Could not resolve Steve's data directory."));
}

#[test]
fn fields_of_a_task_are_edited_or_refused() {
    let mut app = make_test_app();
    let fx = command(&mut app, "/task-edit t-1 status=done priority=high");
    assert_eq!(
        fx,
        vec![Effect::LoadTask {
            id: "t-1".to_string(),
            fields: Some("status=done priority=high".to_string()),
        }]
    );
    let before = task("t-1", "Old", Priority::Low, TaskStatus::Open);
    let mut more = Vec::new();
    let fields = Some("status=done priority=high size=9 priority=top status=no x".to_string());
    let edit = app.task_loaded(Ok(before), fields, &mut more).expect("something changed");
    assert!(more.is_empty());
    assert_eq!(edit.task.status, TaskStatus::Done);
    assert_eq!(edit.task.priority, Priority::High);
    assert_eq!(edit.changed, vec!["status".to_string(), "priority".to_string()]);
    assert!(has_error_message(&app, "Unknown field 'size'. Use title, priority, or status."));
    assert!(has_error_message(&app, "Invalid priority 'top'. Use high, medium, or low."));
    assert!(has_error_message(&app, "Invalid status 'no'. Use open, in_progress, or done."));
    app.task_updated("t-1", &edit.changed, Ok(()), &mut more);
    assert_eq!(last_message_text(&app), "Updated task t-1: changed status, priority.");
    assert_eq!(more, vec![Effect::RefreshSidebar]);
    assert!(app.task_loaded(Err("t-2".to_string()), None, &mut more).is_none());
    assert_eq!(last_message_text(&app), "Task not found: t-2");
    let same = task("t-1", "Old", Priority::Low, TaskStatus::Open);
    assert!(app.task_loaded(Ok(same), None, &mut more).is_none());
    assert!(last_message_text(&app).starts_with("No valid fields to update."));
}

#[test]
fn the_sidebar_puts_urgent_and_open_tasks_first() {
    let mut app = make_test_app();
    app.sidebar_state.session_closed_task_ids = vec!["d".to_string()];
    let tasks = vec![
        task("d", "closed here", Priority::High, TaskStatus::Done),
        task("e", "closed before", Priority::High, TaskStatus::Done),
        task("l", "low", Priority::Low, TaskStatus::Open),
        task("h", "high", Priority::High, TaskStatus::InProgress),
    ];
    app.set_sidebar_tasks(&tasks, 10);
    let titles: Vec<&str> = app.sidebar_state.tasks.iter().map(|t| t.title.as_str()).collect();
    assert_eq!(titles, vec!["high", "low", "closed here"]);
    app.set_sidebar_tasks(&tasks, 1);
    assert_eq!(app.sidebar_state.tasks.len(), 1);
}

#[test]
fn updating_the_sidebar_twice_changes_nothing_more() {
    let mut app = ready_app();
    app.current_session = Some(session("s", "Mine"));
    let mut fx = Vec::new();
    app.update_sidebar(&mut fx);
    let title = app.sidebar_state.session_title.clone();
    let model = app.sidebar_state.model_name.clone();
    app.update_sidebar(&mut fx);
    assert_eq!(title, "Mine");
    assert_eq!(app.sidebar_state.session_title, title);
    assert_eq!(app.sidebar_state.model_name, model);
}

#[test]
fn the_mouse_scrolls_and_selects() {
    let mut app = make_test_app();
    app.last_message_area = Rect { x: 2, y: 1, width: 10, height: 5 };
    app.message_area_state.update_dimensions(100, 5);
    app.message_area_state.scroll_to_bottom();
    let mouse = |kind, row, column| AppEvent::Mouse(MouseEvent { kind, row, column });
    send(&mut app, mouse(MouseKind::ScrollUp, 0, 0));
    assert_eq!(app.message_area_state.scroll_offset, 92);
    assert!(send(&mut app, mouse(MouseKind::LeftDown, 0, 3)).is_empty());
    let down = send(&mut app, mouse(MouseKind::LeftDown, 1, 2));
    assert_eq!(down, vec![Effect::LocateSelectionStart { row: 1, column: 2 }]);
    app.selection_started(Some(ContentPos { line: 7, column: 4 }));
    let drag = send(&mut app, mouse(MouseKind::LeftDrag, 0, 2));
    assert_eq!(drag, vec![Effect::LocateSelectionEnd { row: 0, column: 2 }]);
    assert_eq!(app.message_area_state.scroll_offset, 91);
    app.selection_moved(Some(ContentPos { line: 6, column: 9 }));
    let up = send(&mut app, mouse(MouseKind::LeftUp, 0, 2));
    assert_eq!(
        up,
        vec![Effect::CopySelection {
            start: ContentPos { line: 6, column: 9 },
            end: ContentPos { line: 7, column: 4 },
        }]
    );
    assert!(!app.selection_state.dragging);
    app.model_picker.visible = true;
    assert!(send(&mut app, mouse(MouseKind::LeftDown, 1, 2)).is_empty());
}

#[test]
fn copying_tries_one_way_after_the_other() {
    let mut app = make_test_app();
    let first = CopyMethod::first();
    assert_eq!(first.program().unwrap().0, "pbcopy");
    let second = app.copy_tried(first, false, NOW).unwrap();
    assert_eq!(second.program(), Some(("xclip", vec!["-selection", "clipboard"])));
    let third = app.copy_tried(second, false, NOW).unwrap();
    assert!(third.program().is_none());
    assert_eq!(app.copy_tried(third, false, NOW), None);
    assert!(app.selection_state.copied_flash.is_none());
    assert_eq!(app.copy_tried(third, true, NOW), None);
    assert_eq!(app.selection_state.copied_flash, Some(NOW));
}

#[test]
fn a_paste_waits_for_prompts() {
    let mut app = make_test_app();
    let fx = send(&mut app, AppEvent::Paste("long".into()));
    assert_eq!(fx, vec![Effect::CollapsePaste("long".to_string()), Effect::RefreshAutocomplete]);
    make_pending_permission(&mut app);
    assert!(send(&mut app, AppEvent::Paste("long".into())).is_empty());
}

#[test]
fn keys_reach_the_text_field() {
    let mut app = make_test_app();
    let fx = key(&mut app, press(KeyCode::Char('h')));
    assert_eq!(
        fx,
        vec![
            Effect::ExpandPaste,
            Effect::EditInput,
            Effect::BuildFileIndex,
            Effect::UpdateAutocompleteFiles,
        ]
    );
    let mut typed = ui();
    typed.full_text = "  hello ".to_string();
    let mut sent = Vec::new();
    app.handle_key(press(KeyCode::Enter), &typed, NOW, &mut sent);
    assert_eq!(sent, vec![Effect::ClearInput, Effect::Submit("hello".to_string())]);
    app.is_loading = true;
    let mut interjected = Vec::new();
    app.handle_key(press(KeyCode::Enter), &typed, NOW, &mut interjected);
    assert_eq!(interjected, vec![Effect::ClearInput, Effect::Interject("hello".to_string())]);
}

#[test]
fn tab_switches_the_mode() {
    let mut app = make_test_app();
    assert_eq!(key(&mut app, press(KeyCode::Tab)), vec![Effect::SyncPermissionMode]);
    assert_eq!(app.mode, AgentMode::Plan);
    assert!(app.permission_setup().plan);
}

#[test]
fn an_interjection_keeps_the_conversation() {
    let mut app = ready_app();
    input(&mut app, "go");
    let mut fx = Vec::new();
    app.handle_interjection("also this", &no_refs(), true, &mut fx);
    assert!(app.streaming_active);
    assert_eq!(fx[0], Effect::SendInterjection("also this".to_string()));
    assert_eq!(app.stored_messages.last().unwrap().text, "also this");
}

#[test]
fn the_health_checks_see_what_is_there() {
    let mut app = ready_app();
    app.sidebar_state.lsp_servers = vec![
        SidebarLsp {
            binary: "rust-analyzer".into(),
            state: LspState::Ready,
            progress_message: None,
            next_restart_at: None,
        },
        SidebarLsp {
            binary: "gopls".into(),
            state: LspState::Error,
            progress_message: None,
            next_restart_at: None,
        },
    ];
    let mcp = |id: &str, connected| SidebarMcp {
        server_id: id.to_string(),
        connected,
        tool_count: 2,
        resource_count: 1,
        prompt_count: 0,
    };
    app.sidebar_state.mcp_servers = vec![mcp("up", true), mcp("down", false)];
    let facts = DiagnosticFacts {
        at: noon(),
        prompt: prompt_facts(),
        cache_hits: 4,
        cache_misses: 6,
        mcp_configured: vec!["up".to_string(), "down".to_string()],
    };
    let seen = app.collect_diagnostics(&facts);
    let prompt = app.build_system_prompt(noon(), &prompt_facts()).unwrap();
    assert_eq!(seen.system_prompt_len, prompt.len() as u128);
    assert_eq!(seen.lsp_servers.len(), 2);
    assert!(seen.lsp_servers[0].running);
    assert!(!seen.lsp_servers[1].running);
    assert_eq!(seen.mcp_connected.len(), 1);
    assert_eq!(seen.mcp_connected[0].server_id, "up");
    assert_eq!(seen.agents_md, None);
    assert_eq!((seen.cache_hits, seen.cache_misses), (4, 6));
}

#[test]
fn the_prompt_names_the_date_and_the_mode() {
    let mut app = ready_app();
    let prompt = app.build_system_prompt(noon(), &prompt_facts()).unwrap();
    assert!(prompt.contains("- **Date**: Saturday, March 9, 2024 at 12:30 PM"));
    assert!(prompt.contains("- **Model**: test/test-model"));
    assert!(prompt.contains("- **Mode**: Build"));
    app.mode = AgentMode::Plan;
    let planning = app.build_system_prompt(noon(), &prompt_facts()).unwrap();
    assert!(planning.contains("You are currently in PLAN mode."));
    let never = LocalTime { year: 2024, month: 13, day: 1, hour: 0, minute: 0 };
    assert!(app.build_system_prompt(never, &prompt_facts()).is_none());
}

#[test]
fn the_prompt_cuts_a_long_memory() {
    let app = make_test_app();
    let mut facts = prompt_facts();
    facts.memory = Some("é".repeat(1_500));
    let prompt = app.build_system_prompt(noon(), &facts).unwrap();
    assert!(prompt.contains(&format!(
        "{}...\n(use memory tool to read full content)",
        "é".repeat(1_000)
    )));
    assert!(!prompt.contains(&"é".repeat(1_001)));
}

#[test]
fn scenarios_that_were_exported_are_announced() {
    let mut app = make_test_app();
    send(
        &mut app,
        AppEvent::ExportScenarioFinish { path: "/d/scenario.toml".into(), name: "mine".into() },
    );
    assert_eq!(last_message_text(&app), "Scenario 'mine' written to /d/scenario.toml");
    send(&mut app, AppEvent::ExportScenarioError { error: "no".into() });
    assert!(has_error_message(&app, "no"));
    send(&mut app, AppEvent::ExportScenarioWarning { warning: "no trace".into() });
    assert!(has_system_message(&app, "no trace"));
    assert!(!has_error_message(&app, "no trace"));
}

#[test]
fn a_compaction_does_not_repeat_by_itself() {
    let mut app = ready_app();
    app.current_session = Some(session("s", "Mine"));
    for _ in 0..4 {
        app.stored_messages.push(Message::user("s", "x"));
    }
    app.last_prompt_tokens = 120_000;
    assert!(app.should_auto_compact());
    send(&mut app, AppEvent::CompactError { error: "no".into() });
    assert!(!app.should_auto_compact());
    app.auto_compact_failed = false;
    send(&mut app, AppEvent::CompactFinish { summary: "short".into() });
    assert!(!app.should_auto_compact());
}

#[test]
fn the_context_of_a_project_is_capped() {
    let app = make_test_app();
    let small = app.gather_project_context(&vec!["src".to_string()], &Vec::new());
    assert_eq!(
        small,
        "## File Tree\n\n```\nsrc\n```\n\n## Current AGENTS.md\n\n(No AGENTS.md exists yet)"
    );
    let long = ReadFile { name: "Makefile".to_string(), content: "é".repeat(9_000) };
    let capped = app.gather_project_context(&Vec::new(), &vec![long]);
    assert!(capped.ends_with("\n\n(truncated)"));
    assert!(capped.len() <= 10_000 + "\n\n(truncated)".len());
}

#[test]
fn a_transcript_names_who_said_what() {
    let mut app = make_test_app();
    app.stored_messages.push(Message::user("s", "hi"));
    app.stored_messages.push(Message::assistant("s", ""));
    app.stored_messages.push(Message::assistant("s", "hello"));
    let transcript = app.build_compact_prompt();
    assert!(transcript.contains("[User]: hi\n\n"));
    assert!(transcript.contains("[Assistant]: hello\n\n"));
}

#[test]
fn sessions_are_listed_or_not() {
    let mut app = make_test_app();
    assert_eq!(command(&mut app, "/sessions"), vec![Effect::ListSessions]);
    app.sessions_listed(Ok(0));
    assert!(has_system_message(&app, "No sessions found."));
    app.sessions_listed(Ok(2));
    assert!(app.session_picker.visible);
    app.sessions_listed(Err("locked".to_string()));
    assert!(has_error_message(&app, "Failed to list sessions: locked"));
}

#[test]
fn a_debug_export_is_announced() {
    let mut app = make_test_app();
    app.current_session = Some(session("s", "Mine"));
    app.stored_messages.push(Message::user("s", "hi"));
    let fx = command(&mut app, "/export-debug");
    assert!(matches!(fx[0], Effect::ExportDebug { system_prompt: Some(_) }));
    app.debug_exported(Ok("/tmp/test/debug.md".to_string()));
    assert!(has_system_message(&app, "Debug export written to: debug.md"));
    app.debug_exported(Err("full".to_string()));
    assert!(has_error_message(&app, "Export failed: full"));
}

#[test]
fn the_wheel_of_overlays_turns_one_at_a_time() {
    let mut app = ready_app();
    for text in ["/models", "/diagnostics", "/mcp", "/mcp resources x", "/lsp-diagnostics"] {
        command(&mut app, text);
        let open = [
            app.model_picker.visible,
            app.session_picker.visible,
            app.diagnostics_overlay.visible,
            app.mcp_overlay.visible,
        ];
        assert!(open.iter().filter(|v| **v).count() <= 1);
    }
    command(&mut app, "/mcp nonsense");
    assert!(has_error_message(&app, "Usage: /mcp [tools|resources|prompts] [server]"));
}

#[test]
fn a_question_keeps_its_options() {
    let mut app = make_test_app();
    make_pending_question(&mut app, vec!["a".into(), "b".into()]);
    let mut fx = Vec::new();
    for code in [
        KeyCode::Up,
        KeyCode::Backspace,
        KeyCode::Char('x'),
        KeyCode::Char('2'),
        KeyCode::Down,
        KeyCode::Char('9'),
        KeyCode::Tab,
        KeyCode::Char('h'),
        KeyCode::Tab,
        KeyCode::Char('i'),
    ] {
        let before = app.pending_question.as_ref().unwrap().free_text.clone();
        let free = selected(&app).is_none();
        app.handle_question_key(press(code), NOW, &mut fx);
        let q = app.pending_question.as_ref().unwrap();
        assert_eq!(q.options, vec!["a".to_string(), "b".to_string()]);
        assert!(q.selected.map_or(true, |i| i < 2));
        assert!(free || q.free_text == before);
    }
    assert!(fx.is_empty());
    assert_eq!(app.pending_question.as_ref().unwrap().free_text, "h");
}

#[test]
fn the_end_of_a_conversation_is_waited_for() {
    let mut app = make_test_app();
    assert_eq!(app.idle_step(false), IdleStep::Done);
    assert_eq!(app.idle_step(true), IdleStep::Done);
    start_streaming(&mut app);
    assert_eq!(app.idle_step(false), IdleStep::Take);
    assert_eq!(
        app.idle_step(true),
        IdleStep::Fail("event channel closed mid-stream during run_until_idle".to_string())
    );
    send(&mut app, AppEvent::LlmDelta { text: "a".into() });
    assert_eq!(app.idle_step(false), IdleStep::Take);
    send(&mut app, AppEvent::LlmFinish { usage: None });
    assert_eq!(app.idle_step(false), IdleStep::Done);
}

#[test]
fn usage_adds_up_over_updates() {
    let mut app = make_test_app();
    let first = Usage { prompt_tokens: 10, completion_tokens: 2 };
    let second = Usage { prompt_tokens: 7, completion_tokens: 1 };
    send(&mut app, AppEvent::LlmUsageUpdate { usage: first });
    send(&mut app, AppEvent::LlmUsageUpdate { usage: second });
    assert_eq!(app.sidebar_state.prompt_tokens, 17);
    assert_eq!(app.sidebar_state.completion_tokens, 3);
    assert_eq!(app.sidebar_state.total_tokens, 20);
    assert_eq!(app.last_prompt_tokens, 7);
}

#[test]
fn files_are_told_apart_by_where_they_lie() {
    let mut app = make_test_app();
    app.project.root = "/".to_string();
    app.project.cwd = "/.".to_string();
    app.agents_file_created("/sub/AGENTS.md".to_string(), AgentsCreation::Created);
    app.agents_file_created("/AGENTS.md".to_string(), AgentsCreation::Created);
    assert_eq!(app.agents_files[0].path, "/AGENTS.md");
    let prompt = app.build_system_prompt(noon(), &prompt_facts()).unwrap();
    assert!(prompt.contains("\n### AGENTS.md\n"));
    assert!(prompt.contains("\n### sub/AGENTS.md\n"));

    app.agents_file_written("//AGENTS.md".to_string(), "# New".to_string(), Ok(()));
    assert_eq!(app.agents_files.len(), 2);
    assert_eq!(app.agents_files[0].content, "# New");
}
