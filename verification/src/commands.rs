//! The commands that the user types with a slash.
use crate::blocks::pushed;
use crate::effects::{ChatJob, ChatPurpose, Effect, McpTab};
use crate::helpers::{cancel_effects, cancelled, client_error, resolves_to, with_activity};
use crate::input::{message_sent, World};
use crate::paths::{parts, same_path};
use crate::prompt::{capped_context, context_parts, prompt_at, transcript};
use crate::prompts::{AGENTS_UPDATE_SYSTEM_PROMPT, COMPACT_SYSTEM_PROMPT};
use crate::providers::{pair_views, ResolvedModel};
use crate::scenario::{
    block_calls, body_trace, build_session_trace, collect_fixture_paths, collect_user_turns,
    fixtures, has_interjection, user_turns, TRACE_HEADER,
};
use crate::sessions::{
    ensure_effects, prune_effects, renaming_announced, session_ensured,
};
use crate::sidebar::{sidebar_updated, tokens_synced, window_synced};
use crate::state::{
    Activity, AgentsFile, App, Overlay, SelectionState, SessionInfo, SidebarState,
};
use crate::tasks::told;
use crate::text::{
    cat2, cat3, decimal, decimal_text, find_char, find_space, is_space_char, join, lemma_find_char,
    lemma_find_space, opt_text, same_text, split_at_char, string_of, chars_of, trim, trimmed, views,
    };
use vstd::prelude::*;
use vstd::string::*;

verus! {

/// A command.
#[derive(Debug, PartialEq, Eq)]
pub enum Command {
    Exit,
    New,
    Rename(String),
    Model(String),
    Models,
    Diagnostics,
    LspDiagnostics,
    Init,
    AgentsUpdate,
    Sessions,
    Compact,
    ExportScenario,
    ExportDebug,
    Help,
    Tasks,
    TaskNew(String),
    TaskDone(String),
    TaskShow(String),
    TaskEdit(String),
    Epics,
    EpicNew(String),
    Mcp,
    McpTools(Option<String>),
    McpResources(Option<String>),
    McpPrompts(Option<String>),
}

/// The first word of a text.
pub open spec fn first_word(text: Seq<char>) -> Seq<char> {
    let t = trim(text);
    t.take(find_space(t))
}

/// What follows the first word of a text.
pub open spec fn after_word(text: Seq<char>) -> Seq<char> {
    let t = trim(text);
    trim(t.skip(find_space(t)))
}

/// How a command that needs an argument is used.
pub open spec fn usage_of(word: Seq<char>) -> Option<Seq<char>> {
    if word == "/rename"@ {
        Some("Usage: /rename <title>"@)
    } else if word == "/model"@ {
        Some("Usage: /model <provider/model>"@)
    } else if word == "/task-new"@ {
        Some("Usage: /task-new <title>"@)
    } else if word == "/task-done"@ {
        Some("Usage: /task-done <id>"@)
    } else if word == "/task-show"@ {
        Some("Usage: /task-show <id>"@)
    } else if word == "/task-edit"@ {
        Some("Usage: /task-edit <id> title=... priority=... status=..."@)
    } else if word == "/epic-new"@ {
        Some("Usage: /epic-new <title>"@)
    } else {
        None
    }
}

/// The command that a word without an argument stands for.
pub open spec fn plain_command(word: Seq<char>) -> Option<Command> {
    if word == "/exit"@ {
        Some(Command::Exit)
    } else if word == "/new"@ {
        Some(Command::New)
    } else if word == "/models"@ {
        Some(Command::Models)
    } else if word == "/diagnostics"@ {
        Some(Command::Diagnostics)
    } else if word == "/lsp-diagnostics"@ {
        Some(Command::LspDiagnostics)
    } else if word == "/init"@ {
        Some(Command::Init)
    } else if word == "/agents-update"@ {
        Some(Command::AgentsUpdate)
    } else if word == "/sessions"@ {
        Some(Command::Sessions)
    } else if word == "/compact"@ {
        Some(Command::Compact)
    } else if word == "/export-scenario"@ {
        Some(Command::ExportScenario)
    } else if word == "/export-debug"@ {
        Some(Command::ExportDebug)
    } else if word == "/help"@ {
        Some(Command::Help)
    } else if word == "/tasks"@ {
        Some(Command::Tasks)
    } else if word == "/epics"@ {
        Some(Command::Epics)
    } else {
        None
    }
}

/// What is wrong with a text that is to be a command.
pub open spec fn command_error(text: Seq<char>) -> Option<Seq<char>> {
    let word = first_word(text);
    let rest = after_word(text);
    if plain_command(word) is Some {
        None
    } else if usage_of(word) is Some {
        if rest.len() == 0 {
            usage_of(word)
        } else {
            None
        }
    } else if word == "/mcp"@ {
        if rest.len() == 0 || first_word(rest) == "tools"@ || first_word(rest) == "resources"@
            || first_word(rest) == "prompts"@ {
            None
        } else {
            Some("Usage: /mcp [tools|resources|prompts] [server]"@)
        }
    } else {
        Some("Unknown command: "@ + word)
    }
}

/// A text where it is not empty.
pub open spec fn filled(s: Seq<char>) -> Option<Seq<char>> {
    if s.len() == 0 {
        None
    } else {
        Some(s)
    }
}

/// Whether a text is the command `c`.
pub open spec fn is_command(text: Seq<char>, c: Command) -> bool {
    let word = first_word(text);
    let rest = after_word(text);
    match c {
        Command::Rename(a) => word == "/rename"@ && a@ == rest,
        Command::Model(a) => word == "/model"@ && a@ == rest,
        Command::TaskNew(a) => word == "/task-new"@ && a@ == rest,
        Command::TaskDone(a) => word == "/task-done"@ && a@ == rest,
        Command::TaskShow(a) => word == "/task-show"@ && a@ == rest,
        Command::TaskEdit(a) => word == "/task-edit"@ && a@ == rest,
        Command::EpicNew(a) => word == "/epic-new"@ && a@ == rest,
        Command::Mcp => word == "/mcp"@ && rest.len() == 0,
        Command::McpTools(f) => word == "/mcp"@ && rest.len() > 0 && first_word(rest) == "tools"@
            && opt_text(f) == filled(after_word(rest)),
        Command::McpResources(f) => word == "/mcp"@ && rest.len() > 0 && first_word(rest)
            == "resources"@ && opt_text(f) == filled(after_word(rest)),
        Command::McpPrompts(f) => word == "/mcp"@ && rest.len() > 0 && first_word(rest)
            == "prompts"@ && opt_text(f) == filled(after_word(rest)),
        _ => plain_command(word) == Some(c),
    }
}

fn split_first_word(text: &str) -> (r: (String, String))
    ensures
        r.0@ == first_word(text@),
        r.1@ == after_word(text@),
{
    let t = trimmed(text);
    let cs = chars_of(t.as_str());
    let n: usize = cs.len();
    proof {
        lemma_find_space(t@);
    }
    let mut k: usize = 0;
    while k < n && !is_space_char(cs[k])
        invariant
            k <= n,
            n == cs@.len(),
            cs@ == t@,
            forall|j: int| 0 <= j < k ==> !crate::text::is_space(#[trigger] cs@[j]),
        decreases n - k,
    {
        k = k + 1;
    }
    proof {
        let f = find_space(t@);
        if f < k {
            assert(!crate::text::is_space(cs@[f]));
        }
        if f > k {
            assert(!crate::text::is_space(t@[k as int]));
        }
    }
    let word = string_of(&cs, 0, k);
    let rest = string_of(&cs, k, n);
    proof {
        assert(word@ =~= t@.take(k as int));
        assert(rest@ =~= t@.skip(k as int));
    }
    (word, trimmed(rest.as_str()))
}

fn find_plain(word: &str) -> (r: Option<Command>)
    ensures
        r == plain_command(word@),
{
    if same_text(word, "/exit") {
        Some(Command::Exit)
    } else if same_text(word, "/new") {
        Some(Command::New)
    } else if same_text(word, "/models") {
        Some(Command::Models)
    } else if same_text(word, "/diagnostics") {
        Some(Command::Diagnostics)
    } else if same_text(word, "/lsp-diagnostics") {
        Some(Command::LspDiagnostics)
    } else if same_text(word, "/init") {
        Some(Command::Init)
    } else if same_text(word, "/agents-update") {
        Some(Command::AgentsUpdate)
    } else if same_text(word, "/sessions") {
        Some(Command::Sessions)
    } else if same_text(word, "/compact") {
        Some(Command::Compact)
    } else if same_text(word, "/export-scenario") {
        Some(Command::ExportScenario)
    } else if same_text(word, "/export-debug") {
        Some(Command::ExportDebug)
    } else if same_text(word, "/help") {
        Some(Command::Help)
    } else if same_text(word, "/tasks") {
        Some(Command::Tasks)
    } else if same_text(word, "/epics") {
        Some(Command::Epics)
    } else {
        None
    }
}

fn find_usage(word: &str) -> (r: Option<&'static str>)
    ensures
        match r {
            Some(u) => usage_of(word@) == Some(u@),
            None => usage_of(word@) is None,
        },
{
    if same_text(word, "/rename") {
        Some("Usage: /rename <title>")
    } else if same_text(word, "/model") {
        Some("Usage: /model <provider/model>")
    } else if same_text(word, "/task-new") {
        Some("Usage: /task-new <title>")
    } else if same_text(word, "/task-done") {
        Some("Usage: /task-done <id>")
    } else if same_text(word, "/task-show") {
        Some("Usage: /task-show <id>")
    } else if same_text(word, "/task-edit") {
        Some("Usage: /task-edit <id> title=... priority=... status=...")
    } else if same_text(word, "/epic-new") {
        Some("Usage: /epic-new <title>")
    } else {
        None
    }
}

impl Command {
    /// The command that a text stands for, or what is wrong with it.
    pub fn parse(text: &str) -> (r: Result<Command, String>)
        ensures
            match r {
                Ok(c) => command_error(text@) is None && is_command(text@, c),
                Err(e) => command_error(text@) == Some(e@),
            },
    {
        let (word, rest) = split_first_word(text);
        match find_plain(word.as_str()) {
            Some(c) => {
                return Ok(c);
            },
            None => {},
        }
        match find_usage(word.as_str()) {
            Some(u) => {
                if rest.as_str().is_empty() {
                    return Err(u.to_owned());
                }
                if same_text(word.as_str(), "/rename") {
                    return Ok(Command::Rename(rest));
                }
                if same_text(word.as_str(), "/model") {
                    return Ok(Command::Model(rest));
                }
                if same_text(word.as_str(), "/task-new") {
                    return Ok(Command::TaskNew(rest));
                }
                if same_text(word.as_str(), "/task-done") {
                    return Ok(Command::TaskDone(rest));
                }
                if same_text(word.as_str(), "/task-show") {
                    return Ok(Command::TaskShow(rest));
                }
                if same_text(word.as_str(), "/task-edit") {
                    return Ok(Command::TaskEdit(rest));
                }
                return Ok(Command::EpicNew(rest));
            },
            None => {},
        }
        if !same_text(word.as_str(), "/mcp") {
            return Err(cat2("Unknown command: ", word.as_str()));
        }
        if rest.as_str().is_empty() {
            return Ok(Command::Mcp);
        }
        let (tab, server) = split_first_word(rest.as_str());
        let filter = if server.as_str().is_empty() {
            None
        } else {
            Some(server)
        };
        if same_text(tab.as_str(), "tools") {
            Ok(Command::McpTools(filter))
        } else if same_text(tab.as_str(), "resources") {
            Ok(Command::McpResources(filter))
        } else if same_text(tab.as_str(), "prompts") {
            Ok(Command::McpPrompts(filter))
        } else {
            Err("Usage: /mcp [tools|resources|prompts] [server]".to_owned())
        }
    }
}

/// The path of `name` in the directory `dir`.
pub open spec fn path_in(dir: Seq<char>, name: Seq<char>) -> Seq<char> {
    if dir.len() == 0 || dir.last() == '/' {
        dir + name
    } else {
        dir + "/"@ + name
    }
}

/// The path of `name` in the directory `dir`.
pub fn join_path(dir: &str, name: &str) -> (r: String)
    ensures
        r@ == path_in(dir@, name@),
{
    let n: usize = dir.unicode_len();
    if n == 0 || dir.get_char(n - 1) == '/' {
        cat2(dir, name)
    } else {
        cat3(dir, "/", name)
    }
}

pub const HELP: &'static str =
    "Commands:\n  /new             \u{2014} Start a new session\n  /rename <t>      \u{2014} Rename current session\n  /models          \u{2014} List available models\n  /model <r>       \u{2014} Switch to a model\n  /compact         \u{2014} Compact conversation into a summary\n  /sessions        \u{2014} Browse sessions\n  /tasks           \u{2014} List all tasks\n  /task-new <t>    \u{2014} Create a task\n  /task-done <id>  \u{2014} Complete a task\n  /task-show <id>  \u{2014} Show task details\n  /task-edit <id>  \u{2014} Edit a task (field=value)\n  /epics           \u{2014} List epics\n  /epic-new <t>    \u{2014} Create an epic\n  /export-debug    \u{2014} Export session with logs\n  /export-scenario \u{2014} Export session as eval scenario scaffold\n  /init            \u{2014} Create AGENTS.md in project root\n  /agents-update   \u{2014} Update AGENTS.md with LLM analysis\n  /help            \u{2014} Show this help\n  /exit            \u{2014} Quit\n\nKeys:\n  Enter       \u{2014} Send message\n  Shift+Enter \u{2014} Insert newline\n  Tab         \u{2014} Accept autocomplete / toggle Build\u{2013}Plan mode\n  Up/Down     \u{2014} Navigate autocomplete list\n  Ctrl+C      \u{2014} Cancel stream / quit\n  Ctrl+B      \u{2014} Toggle sidebar\n  Mouse wheel \u{2014} Scroll messages\n  Click+drag  \u{2014} Select text (auto-copies to clipboard)";

/// What a new AGENTS.md says.
pub const DEFAULT_AGENTS: &'static str =
    "# AGENTS.md\n\nProject-specific instructions for AI coding assistants.\n\n## Guidelines\n\n- Follow existing code style and conventions.\n- Write clear, concise commit messages.\n- Add tests for new functionality.\n";

pub const INTERJECTED_SESSION: &'static str =
    "Session contains a mid-stream interjection (consecutive user messages with no assistant reply between them). The eval runner sends each user turn only after the previous assistant response goes idle, so a scenario generated from this session wouldn't replay with the original timing or LLM context. Export a session without interjections.";

/// The application with the overlays that exclude each other closed.
pub open spec fn overlays_closed(pre: App) -> App {
    App {
        model_picker: Overlay { visible: false },
        session_picker: Overlay { visible: false },
        diagnostics_overlay: Overlay { visible: false },
        mcp_overlay: Overlay { visible: false },
        ..pre
    }
}

/// The selection with nothing selected.
pub open spec fn nothing_selected(s: SelectionState) -> SelectionState {
    SelectionState { anchor: None, cursor: None, dragging: false, ..s }
}

/// The application as it is for a new session, before there is one.
pub open spec fn renewed(pre: App, post: App) -> bool {
    &&& post == (App {
        messages: post.messages,
        stored_messages: post.stored_messages,
        streaming_message: None,
        streaming_active: false,
        stream_start_time: None,
        frozen_elapsed: None,
        is_loading: false,
        exchange_count: 0,
        auto_compact_failed: false,
        context_warned: false,
        last_prompt_tokens: 0,
        current_session: None,
        sidebar_state: SidebarState {
            changes: post.sidebar_state.changes,
            session_closed_task_ids: post.sidebar_state.session_closed_task_ids,
            ..pre.sidebar_state
        },
        selection_state: nothing_selected(pre.selection_state),
        pending_question: None,
        pending_agents_update: None,
        compaction_count: 0,
        ..overlays_closed(pre)
    })
    &&& post.messages@.len() == 0
    &&& post.stored_messages@.len() == 0
    &&& post.sidebar_state.changes@.len() == 0
    &&& post.sidebar_state.session_closed_task_ids@.len() == 0
}

/// The application scrolled to the bottom.
pub open spec fn scrolled_to_bottom(pre: App) -> App {
    App { message_area_state: pre.message_area_state.at_bottom(), ..pre }
}

/// What `/new` does: what is under way is cancelled, a session with no message
/// of the user in it is deleted, and everything starts afresh.
#[verifier::opaque]
pub open spec fn started_anew(
    pre: App,
    now: u64,
    created: Option<SessionInfo>,
    post: App,
    old_fx: Seq<Effect>,
    new_fx: Seq<Effect>,
) -> bool {
    exists|stopped: App, fx1: Seq<Effect>, fresh: App, begun: App, said: App|
        {
            let fx2 = prune_effects(stopped, fx1).push(Effect::ResetToolCache).push(
                Effect::HideAutocomplete,
            );
            &&& begun == scrolled_to_bottom(tokens_synced(session_ensured(fresh, created)))
            &&& #[trigger] cancelled(pre, now, stopped)
            &&& #[trigger] cancel_effects(pre, old_fx, fx1)
            &&& #[trigger] renewed(stopped, fresh)
            &&& #[trigger] told(begun, said, false, "New session started."@)
            &&& post == sidebar_updated(said)
            &&& new_fx == ensure_effects(fresh, created, fx2).push(Effect::RefreshGit).push(
                Effect::RefreshDiagnostics,
            ).push(Effect::RefreshSidebar)
        }
}

/// What `/rename` does; nothing where there is no session.
#[verifier::opaque]
pub open spec fn renamed_by_user(
    pre: App,
    title: Seq<char>,
    post: App,
    old_fx: Seq<Effect>,
    new_fx: Seq<Effect>,
) -> bool {
    match pre.current_session {
        None => post == pre && new_fx == old_fx,
        Some(session) => {
            &&& exists|s: SessionInfo, said: App|
                {
                    &&& s == (SessionInfo { title: s.title, ..session })
                    &&& s.title@ == title
                    &&& #[trigger] told(
                        App { current_session: Some(s), ..pre },
                        said,
                        false,
                        "Session renamed to: "@ + title,
                    )
                    &&& post == sidebar_updated(said)
                }
            &&& renaming_announced(old_fx, new_fx, session.id@, title)
        },
    }
}

/// What `/model` does.
#[verifier::opaque]
pub open spec fn model_chosen(
    pre: App,
    model_ref: Seq<char>,
    post: App,
    old_fx: Seq<Effect>,
    new_fx: Seq<Effect>,
) -> bool {
    match pre.provider_registry {
        None => told(pre, post, true, "No providers configured."@) && new_fx == old_fx,
        Some(registry) => match registry.lookup(model_ref) {
            Err(e) => told(pre, post, true, e.message()) && new_fx == old_fx,
            Ok(_) => {
                &&& exists|m: String, said: App|
                    {
                        &&& m@ == model_ref
                        &&& #[trigger] told(
                            window_synced(App { current_model: Some(m), ..pre }),
                            said,
                            false,
                            "Switched to model: "@ + model_ref,
                        )
                        &&& post == sidebar_updated(said)
                    }
                &&& new_fx == old_fx.push(Effect::RefreshSidebar)
            },
        },
    }
}

/// What `/models` does.
#[verifier::opaque]
pub open spec fn models_offered(
    pre: App,
    post: App,
    old_fx: Seq<Effect>,
    new_fx: Seq<Effect>,
) -> bool {
    let closed = overlays_closed(pre);
    match pre.provider_registry {
        None => told(closed, post, true, "No providers configured."@) && new_fx == old_fx,
        Some(registry) => if registry.listed().len() == 0 {
            told(closed, post, false, "No models configured."@) && new_fx == old_fx
        } else {
            &&& post == (App { model_picker: Overlay { visible: true }, ..closed })
            &&& pushed(old_fx, new_fx)
            &&& new_fx.last() matches Effect::OpenModelPicker { models, current }
            &&& pair_views(models@) == registry.listed()
            &&& current == pre.current_model
        },
    }
}

/// Whether a question to a model was started: the user is told `note` and the
/// application is busy with `activity`.
pub open spec fn job_started(
    pre: App,
    note: Seq<char>,
    activity: Activity,
    purpose: ChatPurpose,
    model_ref: Seq<char>,
    system_prompt: Seq<char>,
    user_text: Seq<char>,
    post: App,
    old_fx: Seq<Effect>,
    new_fx: Seq<Effect>,
) -> bool {
    &&& post == (App {
        messages: post.messages,
        message_area_state: pre.message_area_state.at_bottom(),
        is_loading: true,
        status_line_state: with_activity(pre.status_line_state, activity),
        ..pre
    })
    &&& pushed(pre.messages@, post.messages@)
    &&& post.messages@.last().is_system_text(note)
    &&& pushed(old_fx, new_fx)
    &&& new_fx.last() matches Effect::Chat(job)
    &&& job.purpose == purpose
    &&& job.system_prompt@ == system_prompt
    &&& job.user_text@ == user_text
    &&& job.session_id@.len() == 0
    &&& job.fallback@.len() == 0
    &&& resolves_to(pre, model_ref, job.resolved)
}

/// What `/compact` does.
#[verifier::opaque]
pub open spec fn compaction_begun(
    pre: App,
    post: App,
    old_fx: Seq<Effect>,
    new_fx: Seq<Effect>,
) -> bool {
    if pre.current_session is None || pre.stored_messages@.len() == 0 {
        told(pre, post, false, "Nothing to compact."@) && new_fx == old_fx
    } else if pre.is_busy() {
        told(pre, post, true, "Cannot compact while streaming."@) && new_fx == old_fx
    } else {
        match pre.compact_model() {
            None => told(pre, post, true, "No model available for compaction."@) && new_fx
                == old_fx,
            Some(m) => match client_error(pre, m) {
                Some(e) => told(pre, post, true, e) && new_fx == old_fx,
                None => job_started(
                    pre,
                    "Compacting "@ + decimal(pre.stored_messages@.len()) + " messages..."@,
                    Activity::Compacting,
                    ChatPurpose::Compact,
                    m,
                    COMPACT_SYSTEM_PROMPT@,
                    transcript(pre.stored_messages@),
                    post,
                    old_fx,
                    new_fx,
                ),
            },
        }
    }
}

/// What `/agents-update` does.
#[verifier::opaque]
pub open spec fn agents_update_begun(
    pre: App,
    world: World,
    post: App,
    old_fx: Seq<Effect>,
    new_fx: Seq<Effect>,
) -> bool {
    if pre.is_busy() {
        told(pre, post, true, "Cannot update AGENTS.md while streaming."@) && new_fx == old_fx
    } else if pre.pending_agents_update is Some {
        told(pre, post, true, "An AGENTS.md update is already pending approval."@) && new_fx
            == old_fx
    } else {
        match pre.current_model {
            None => told(pre, post, true, "No model available."@) && new_fx == old_fx,
            Some(m) => match client_error(pre, m@) {
                Some(e) => told(pre, post, true, e) && new_fx == old_fx,
                None => job_started(
                    pre,
                    "Analyzing project..."@,
                    Activity::UpdatingAgents,
                    ChatPurpose::AgentsUpdate,
                    m@,
                    AGENTS_UPDATE_SYSTEM_PROMPT@,
                    capped_context(
                        join(
                            context_parts(pre, views(world.tree@), world.files@),
                            "\n\n"@,
                        ),
                    ),
                    post,
                    old_fx,
                    new_fx,
                ),
            },
        }
    }
}

/// What `/export-debug` does; nothing where there is no session.
#[verifier::opaque]
pub open spec fn debug_export_begun(
    pre: App,
    world: World,
    post: App,
    old_fx: Seq<Effect>,
    new_fx: Seq<Effect>,
) -> bool {
    if pre.stored_messages@.len() == 0 {
        told(pre, post, true, "No active session to export."@) && new_fx == old_fx
    } else if pre.current_session is None {
        post == pre && new_fx == old_fx
    } else {
        &&& post == pre
        &&& pushed(old_fx, new_fx)
        &&& new_fx.last() matches Effect::ExportDebug { system_prompt }
        &&& opt_text(system_prompt) == prompt_at(pre, world.at, world.prompt)
    }
}

/// What `/sessions` does.
#[verifier::opaque]
pub open spec fn sessions_browsed(
    pre: App,
    post: App,
    old_fx: Seq<Effect>,
    new_fx: Seq<Effect>,
) -> bool {
    if pre.is_busy() {
        told(pre, post, true, "Cannot browse sessions while streaming."@) && new_fx == old_fx
    } else {
        post == overlays_closed(pre) && new_fx == old_fx.push(Effect::ListSessions)
    }
}

/// Whether a command only asks for something to be stored or read.
pub open spec fn is_store_command(c: Command) -> bool {
    c is Init || c is ExportScenario || c is Tasks || c is TaskNew || c is TaskDone || c is TaskShow
        || c is TaskEdit || c is Epics || c is EpicNew
}

/// Whether a command opens an overlay.
pub open spec fn is_overlay_command(c: Command) -> bool {
    c is Models || c is Diagnostics || c is LspDiagnostics || c is Mcp || c is McpTools
        || c is McpResources || c is McpPrompts
}

/// The overlay of the MCP servers, opened.
#[verifier::opaque]
pub open spec fn mcp_opened(
    pre: App,
    tab: McpTab,
    filter: Option<String>,
    post: App,
    old_fx: Seq<Effect>,
    new_fx: Seq<Effect>,
) -> bool {
    &&& post == (App { mcp_overlay: Overlay { visible: true }, ..overlays_closed(pre) })
    &&& new_fx == old_fx.push(Effect::OpenMcp { tab, filter })
}

/// The id in the argument of `/task-edit`: what stands before the first space.
pub open spec fn edit_id(args: Seq<char>) -> Seq<char> {
    args.take(find_char(args, ' '))
}

/// The fields in the argument of `/task-edit`: what stands behind the first space.
pub open spec fn edit_fields_of(args: Seq<char>) -> Option<Seq<char>> {
    if find_char(args, ' ') < args.len() {
        Some(args.skip(find_char(args, ' ') + 1))
    } else {
        None
    }
}

/// What running a command does.
pub open spec fn command_run(
    pre: App,
    c: Command,
    world: World,
    post: App,
    old_fx: Seq<Effect>,
    new_fx: Seq<Effect>,
) -> bool {
    match c {
        Command::Exit => post == (App { should_quit: true, ..pre }) && new_fx == old_fx,
        Command::New => started_anew(pre, world.now, world.created, post, old_fx, new_fx),
        Command::Rename(title) => renamed_by_user(pre, title@, post, old_fx, new_fx),
        Command::Model(model_ref) => model_chosen(pre, model_ref@, post, old_fx, new_fx),
        Command::Models => models_offered(pre, post, old_fx, new_fx),
        Command::Diagnostics => {
            &&& post == (App {
                diagnostics_overlay: Overlay { visible: true },
                ..overlays_closed(pre)
            })
            &&& new_fx == old_fx.push(Effect::OpenDiagnostics)
        },
        Command::LspDiagnostics => {
            &&& post == (App {
                lsp_diagnostics_overlay: Overlay { visible: true },
                ..overlays_closed(pre)
            })
            &&& new_fx == old_fx.push(Effect::OpenLspDiagnostics)
        },
        Command::Init => {
            &&& post == pre
            &&& pushed(old_fx, new_fx)
            &&& new_fx.last() matches Effect::CreateAgentsFile { path }
            &&& path@ == path_in(pre.project.cwd@, "AGENTS.md"@)
        },
        Command::AgentsUpdate => agents_update_begun(pre, world, post, old_fx, new_fx),
        Command::Sessions => sessions_browsed(pre, post, old_fx, new_fx),
        Command::Compact => compaction_begun(pre, post, old_fx, new_fx),
        Command::ExportScenario => post == pre && new_fx == old_fx.push(Effect::ExportScenario),
        Command::ExportDebug => debug_export_begun(pre, world, post, old_fx, new_fx),
        Command::Help => told(pre, post, false, HELP@) && new_fx == old_fx,
        Command::Tasks => post == pre && new_fx == old_fx.push(Effect::ListTasks),
        Command::TaskNew(title) => post == pre && new_fx == old_fx.push(
            Effect::CreateTask { title },
        ),
        Command::TaskDone(id) => post == pre && new_fx == old_fx.push(Effect::CompleteTask { id }),
        Command::TaskShow(id) => post == pre && new_fx == old_fx.push(Effect::ShowTask { id }),
        Command::TaskEdit(args) => {
            &&& post == pre
            &&& pushed(old_fx, new_fx)
            &&& new_fx.last() matches Effect::LoadTask { id, fields }
            &&& id@ == edit_id(args@)
            &&& opt_text(fields) == edit_fields_of(args@)
        },
        Command::Epics => post == pre && new_fx == old_fx.push(Effect::ListEpics),
        Command::EpicNew(title) => post == pre && new_fx == old_fx.push(
            Effect::CreateEpic { title },
        ),
        Command::Mcp => mcp_opened(pre, McpTab::Servers, None, post, old_fx, new_fx),
        Command::McpTools(f) => mcp_opened(pre, McpTab::Tools, f, post, old_fx, new_fx),
        Command::McpResources(f) => mcp_opened(pre, McpTab::Resources, f, post, old_fx, new_fx),
        Command::McpPrompts(f) => mcp_opened(pre, McpTab::Prompts, f, post, old_fx, new_fx),
    }
}

/// What a text that is to be a command does.
pub open spec fn command_handled(
    pre: App,
    text: Seq<char>,
    world: World,
    post: App,
    old_fx: Seq<Effect>,
    new_fx: Seq<Effect>,
) -> bool {
    match command_error(text) {
        Some(e) => told(pre, post, true, e) && new_fx == old_fx,
        None => exists|c: Command| #[trigger]
            is_command(text, c) && command_run(pre, c, world, post, old_fx, new_fx),
    }
}

/// What submitting a text does.
pub open spec fn input_handled(
    pre: App,
    text: Seq<char>,
    world: World,
    post: App,
    old_fx: Seq<Effect>,
    new_fx: Seq<Effect>,
) -> bool {
    if text.len() > 0 && text[0] == '/' {
        command_handled(pre, text, world, post, old_fx, new_fx)
    } else {
        message_sent(pre, text, world, post, old_fx, new_fx)
    }
}

/// What became of the attempt to create AGENTS.md.
#[derive(Debug, PartialEq, Eq)]
pub enum AgentsCreation {
    Existed,
    Created,
    Failed(String),
}

/// What is written to make a scenario of the session.
#[derive(Debug, PartialEq, Eq)]
pub struct ScenarioExport {
    pub user_turns: Vec<String>,
    pub fixture_paths: Vec<String>,
    pub session_trace: String,
}

/// Why the session cannot be made a scenario.
pub open spec fn export_obstacle(app: App, data_dir_found: bool) -> Option<Seq<char>> {
    if has_interjection(app.stored_messages@) {
        Some(INTERJECTED_SESSION@)
    } else if user_turns(app.stored_messages@).len() == 0 {
        if app.stored_messages@.len() == 0 {
            Some("No active session to export."@)
        } else {
            Some("Session has no user turns to export (was it just compacted?)."@)
        }
    } else if !data_dir_found {
        Some("Could not resolve Steve's data directory."@)
    } else {
        None
    }
}

impl App {
    fn renew(&mut self)
        ensures
            renewed(*old(self), *final(self)),
    {
        self.messages.clear();
        self.stored_messages.clear();
        self.streaming_message = None;
        self.streaming_active = false;
        self.stream_start_time = None;
        self.frozen_elapsed = None;
        self.is_loading = false;
        self.exchange_count = 0;
        self.auto_compact_failed = false;
        self.context_warned = false;
        self.last_prompt_tokens = 0;
        self.current_session = None;
        self.close_all_overlays();
        self.sidebar_state.changes.clear();
        self.sidebar_state.session_closed_task_ids.clear();
        self.selection_state.anchor = None;
        self.selection_state.cursor = None;
        self.selection_state.dragging = false;
        self.pending_question = None;
        self.pending_agents_update = None;
        self.compaction_count = 0;
    }

    fn start_anew(&mut self, now: u64, created: Option<SessionInfo>, fx: &mut Vec<Effect>)
        ensures
            started_anew(*old(self), now, created, *final(self), old(fx)@, final(fx)@),
    {
        proof {
            reveal(started_anew);
        }
        self.cancel_stream(now, fx);
        let ghost stopped = *self;
        let ghost fx1 = fx@;
        self.prune_empty_session(fx);
        self.renew();
        let ghost fresh = *self;
        fx.push(Effect::ResetToolCache);
        fx.push(Effect::HideAutocomplete);
        self.ensure_session(created, fx);
        fx.push(Effect::RefreshGit);
        self.sync_sidebar_tokens();
        fx.push(Effect::RefreshDiagnostics);
        self.message_area_state.scroll_to_bottom();
        let ghost begun = *self;
        self.tell(false, "New session started.".to_owned());
        let ghost said = *self;
        self.update_sidebar(fx);
        proof {
            assert(cancelled(*old(self), now, stopped));
            assert(cancel_effects(*old(self), old(fx)@, fx1));
            assert(renewed(stopped, fresh));
            assert(begun == scrolled_to_bottom(tokens_synced(session_ensured(fresh, created))));
            assert(told(begun, said, false, "New session started."@));
        }
    }

    fn rename_by_user(&mut self, title: &str, fx: &mut Vec<Effect>)
        ensures
            renamed_by_user(*old(self), title@, *final(self), old(fx)@, final(fx)@),
    {
        proof {
            reveal(renamed_by_user);
        }
        let ghost fx0 = fx@;
        match &self.current_session {
            None => {},
            Some(session) => {
                let mut s = session.clone();
                s.title = title.to_owned();
                fx.push(
                    Effect::RenameSession { session_id: s.id.clone(), title: title.to_owned() },
                );
                fx.push(Effect::RecordTitle { session_id: s.id.clone(), title: title.to_owned() });
                let ghost named = s;
                self.current_session = Some(s);
                let ghost mid = *self;
                self.tell(false, cat2("Session renamed to: ", title));
                let ghost said = *self;
                self.update_sidebar(fx);
                proof {
                    assert(mid == (App { current_session: Some(named), ..*old(self) }));
                    assert(told(mid, said, false, "Session renamed to: "@ + title@));
                    assert(fx@.take(fx0.len() as int) =~= fx0);
                }
            },
        }
    }

    fn choose_model(&mut self, model_ref: String, fx: &mut Vec<Effect>)
        ensures
            model_chosen(*old(self), model_ref@, *final(self), old(fx)@, final(fx)@),
    {
        proof {
            reveal(model_chosen);
        }
        let problem = match &self.provider_registry {
            None => Some("No providers configured."),
            Some(registry) => match registry.resolve_model(model_ref.as_str()) {
                Ok(_) => None,
                Err(e) => Some(e.text()),
            },
        };
        match problem {
            Some(e) => {
                self.tell(true, e.to_owned());
            },
            None => {
                let text = cat2("Switched to model: ", model_ref.as_str());
                let ghost m = model_ref;
                self.current_model = Some(model_ref);
                self.sync_context_window();
                let ghost mid = *self;
                self.tell(false, text);
                let ghost said = *self;
                self.update_sidebar(fx);
                proof {
                    assert(mid == window_synced(App { current_model: Some(m), ..*old(self) }));
                    assert(told(mid, said, false, "Switched to model: "@ + m@));
                }
            },
        }
    }

    pub(crate) fn offer_models(&mut self, fx: &mut Vec<Effect>)
        ensures
            models_offered(*old(self), *final(self), old(fx)@, final(fx)@),
    {
        proof {
            reveal(models_offered);
        }
        let ghost fx0 = fx@;
        self.close_all_overlays();
        let listed = match &self.provider_registry {
            None => None,
            Some(registry) => Some(registry.list_models()),
        };
        match listed {
            None => {
                self.tell(true, "No providers configured.".to_owned());
            },
            Some(models) => {
                proof {
                    assert(pair_views(models@).len() == models@.len());
                }
                if models.len() == 0 {
                    self.tell(false, "No models configured.".to_owned());
                } else {
                    let current = match &self.current_model {
                        Some(m) => Some(m.clone()),
                        None => None,
                    };
                    fx.push(Effect::OpenModelPicker { models, current });
                    self.model_picker.visible = true;
                    proof {
                        assert(fx@.drop_last() =~= fx0);
                    }
                }
            },
        }
    }

    fn start_job(
        &mut self,
        note: String,
        activity: Activity,
        purpose: ChatPurpose,
        resolved: ResolvedModel,
        system_prompt: &'static str,
        user_text: String,
        fx: &mut Vec<Effect>,
        Ghost(model_ref): Ghost<Seq<char>>,
    )
        requires
            resolves_to(*old(self), model_ref, resolved),
        ensures
            job_started(
                *old(self),
                note@,
                activity,
                purpose,
                model_ref,
                system_prompt@,
                user_text@,
                *final(self),
                old(fx)@,
                final(fx)@,
            ),
    {
        let ghost fx0 = fx@;
        self.say(note);
        self.message_area_state.scroll_to_bottom();
        self.is_loading = true;
        self.status_line_state.activity = activity;
        fx.push(
            Effect::Chat(
                ChatJob {
                    purpose,
                    resolved,
                    system_prompt,
                    user_text,
                    session_id: String::new(),
                    fallback: String::new(),
                },
            ),
        );
        proof {
            assert(fx@.drop_last() =~= fx0);
        }
    }

    fn begin_compaction(&mut self, fx: &mut Vec<Effect>)
        ensures
            compaction_begun(*old(self), *final(self), old(fx)@, final(fx)@),
    {
        proof {
            reveal(compaction_begun);
        }
        if self.current_session.is_none() || self.stored_messages.len() == 0 {
            self.tell(false, "Nothing to compact.".to_owned());
            return;
        }
        if self.busy() {
            self.tell(true, "Cannot compact while streaming.".to_owned());
            return;
        }
        match self.compact_model_ref() {
            None => {
                self.tell(true, "No model available for compaction.".to_owned());
            },
            Some(m) => {
                match self.resolve_client(m.as_str()) {
                    None => {},
                    Some(resolved) => {
                        let count = decimal_text(self.stored_messages.len() as u64);
                        let note = cat3("Compacting ", count.as_str(), " messages...");
                        let text = self.build_compact_prompt();
                        self.start_job(
                            note,
                            Activity::Compacting,
                            ChatPurpose::Compact,
                            resolved,
                            COMPACT_SYSTEM_PROMPT,
                            text,
                            fx,
                            Ghost(m@),
                        );
                    },
                }
            },
        }
    }

    fn begin_agents_update(&mut self, world: &World, fx: &mut Vec<Effect>)
        ensures
            agents_update_begun(*old(self), *world, *final(self), old(fx)@, final(fx)@),
    {
        proof {
            reveal(agents_update_begun);
        }
        if self.busy() {
            self.tell(true, "Cannot update AGENTS.md while streaming.".to_owned());
            return;
        }
        if self.pending_agents_update.is_some() {
            self.tell(true, "An AGENTS.md update is already pending approval.".to_owned());
            return;
        }
        let model_ref = match &self.current_model {
            Some(m) => m.clone(),
            None => {
                self.tell(true, "No model available.".to_owned());
                return;
            },
        };
        match self.resolve_client(model_ref.as_str()) {
            None => {},
            Some(resolved) => {
                let text = self.gather_project_context(&world.tree, &world.files);
                self.start_job(
                    "Analyzing project...".to_owned(),
                    Activity::UpdatingAgents,
                    ChatPurpose::AgentsUpdate,
                    resolved,
                    AGENTS_UPDATE_SYSTEM_PROMPT,
                    text,
                    fx,
                    Ghost(model_ref@),
                );
            },
        }
    }

    fn begin_debug_export(&mut self, world: &World, fx: &mut Vec<Effect>)
        ensures
            debug_export_begun(*old(self), *world, *final(self), old(fx)@, final(fx)@),
    {
        proof {
            reveal(debug_export_begun);
        }
        let ghost fx0 = fx@;
        if self.stored_messages.len() == 0 {
            self.tell(true, "No active session to export.".to_owned());
        } else if self.current_session.is_some() {
            let system_prompt = self.build_system_prompt(world.at, &world.prompt);
            fx.push(Effect::ExportDebug { system_prompt });
            proof {
                assert(fx@.drop_last() =~= fx0);
            }
        }
    }

    fn open_mcp_overlay(&mut self, tab: McpTab, filter: Option<String>, fx: &mut Vec<Effect>)
        ensures
            mcp_opened(*old(self), tab, filter, *final(self), old(fx)@, final(fx)@),
    {
        proof {
            reveal(mcp_opened);
        }
        self.close_all_overlays();
        self.mcp_overlay.visible = true;
        fx.push(Effect::OpenMcp { tab, filter });
    }

    fn run_store_command(&self, command: Command, fx: &mut Vec<Effect>, Ghost(world): Ghost<World>)
        requires
            is_store_command(command),
        ensures
            command_run(*self, command, world, *self, old(fx)@, final(fx)@),
    {
        let ghost fx0 = fx@;
        match command {
            Command::Init => {
                let path = join_path(self.project.cwd.as_str(), "AGENTS.md");
                fx.push(Effect::CreateAgentsFile { path });
                proof {
                    assert(fx@.drop_last() =~= fx0);
                }
            },
            Command::ExportScenario => {
                fx.push(Effect::ExportScenario);
            },
            Command::Tasks => {
                fx.push(Effect::ListTasks);
            },
            Command::TaskNew(title) => {
                fx.push(Effect::CreateTask { title });
            },
            Command::TaskDone(id) => {
                fx.push(Effect::CompleteTask { id });
            },
            Command::TaskShow(id) => {
                fx.push(Effect::ShowTask { id });
            },
            Command::TaskEdit(args) => {
                let (id, fields) = match split_at_char(args.as_str(), ' ') {
                    Some((id, fields)) => (id, Some(fields)),
                    None => (args.clone(), None),
                };
                proof {
                    lemma_find_char(args@, ' ');
                    assert(args@.take(args@.len() as int) =~= args@);
                }
                fx.push(Effect::LoadTask { id, fields });
                proof {
                    assert(fx@.drop_last() =~= fx0);
                }
            },
            Command::Epics => {
                fx.push(Effect::ListEpics);
            },
            Command::EpicNew(title) => {
                fx.push(Effect::CreateEpic { title });
            },
            _ => {},
        }
    }

    fn run_overlay_command(
        &mut self,
        command: Command,
        fx: &mut Vec<Effect>,
        Ghost(world): Ghost<World>,
    )
        requires
            is_overlay_command(command),
        ensures
            command_run(*old(self), command, world, *final(self), old(fx)@, final(fx)@),
    {
        match command {
            Command::Models => {
                self.offer_models(fx);
            },
            Command::Diagnostics => {
                self.close_all_overlays();
                self.diagnostics_overlay.visible = true;
                fx.push(Effect::OpenDiagnostics);
            },
            Command::LspDiagnostics => {
                self.close_all_overlays();
                self.lsp_diagnostics_overlay.visible = true;
                fx.push(Effect::OpenLspDiagnostics);
            },
            Command::Mcp => {
                self.open_mcp_overlay(McpTab::Servers, None, fx);
            },
            Command::McpTools(filter) => {
                self.open_mcp_overlay(McpTab::Tools, filter, fx);
            },
            Command::McpResources(filter) => {
                self.open_mcp_overlay(McpTab::Resources, filter, fx);
            },
            Command::McpPrompts(filter) => {
                self.open_mcp_overlay(McpTab::Prompts, filter, fx);
            },
            _ => {},
        }
    }

    fn browse_sessions(&mut self, fx: &mut Vec<Effect>)
        ensures
            sessions_browsed(*old(self), *final(self), old(fx)@, final(fx)@),
    {
        proof {
            reveal(sessions_browsed);
        }
        if self.busy() {
            self.tell(true, "Cannot browse sessions while streaming.".to_owned());
        } else {
            self.close_all_overlays();
            fx.push(Effect::ListSessions);
        }
    }

    /// Runs a command.
    pub fn run_command(&mut self, command: Command, world: World, fx: &mut Vec<Effect>)
        ensures
            command_run(*old(self), command, world, *final(self), old(fx)@, final(fx)@),
    {
        match command {
            Command::Exit => {
                self.should_quit = true;
            },
            Command::New => {
                self.start_anew(world.now, world.created, fx);
            },
            Command::Rename(title) => {
                self.rename_by_user(title.as_str(), fx);
            },
            Command::Model(model_ref) => {
                self.choose_model(model_ref, fx);
            },
            Command::AgentsUpdate => {
                self.begin_agents_update(&world, fx);
            },
            Command::Sessions => {
                self.browse_sessions(fx);
            },
            Command::Compact => {
                self.begin_compaction(fx);
            },
            Command::ExportDebug => {
                self.begin_debug_export(&world, fx);
            },
            Command::Help => {
                self.tell(false, HELP.to_owned());
            },
            Command::Models
            | Command::Diagnostics
            | Command::LspDiagnostics
            | Command::Mcp
            | Command::McpTools(_)
            | Command::McpResources(_)
            | Command::McpPrompts(_) => {
                self.run_overlay_command(command, fx, Ghost(world));
            },
            _ => {
                self.run_store_command(command, fx, Ghost(world));
            },
        }
    }

    /// Runs the command that a text stands for, or tells the user what is
    /// wrong with it.
    pub fn handle_command(&mut self, text: &str, world: World, fx: &mut Vec<Effect>)
        ensures
            command_handled(*old(self), text@, world, *final(self), old(fx)@, final(fx)@),
    {
        match Command::parse(text) {
            Ok(c) => {
                proof {
                    assert(is_command(text@, c));
                }
                self.run_command(c, world, fx);
            },
            Err(e) => {
                self.tell(true, e);
            },
        }
    }

    /// Takes a text that the user submitted: a command, or a message.
    pub fn handle_input(&mut self, text: &str, world: World, fx: &mut Vec<Effect>)
        ensures
            input_handled(*old(self), text@, world, *final(self), old(fx)@, final(fx)@),
    {
        if !text.is_empty() && text.get_char(0) == '/' {
            self.handle_command(text, world, fx);
        } else {
            self.send_message(text, world, fx);
        }
    }

    /// Whether a text that the user submits needs a new session.
    pub fn needs_session(&self, text: &str) -> (r: bool)
        ensures
            r == (if text@.len() > 0 && text@[0] == '/' {
                command_error(text@) is None && first_word(text@) == "/new"@
            } else {
                self.current_session is None
            }),
    {
        if !text.is_empty() && text.get_char(0) == '/' {
            proof {
                reveal_strlit("/exit");
                reveal_strlit("/new");
                reveal_strlit("/rename");
                reveal_strlit("/model");
                reveal_strlit("/task-new");
                reveal_strlit("/task-done");
                reveal_strlit("/task-show");
                reveal_strlit("/task-edit");
                reveal_strlit("/epic-new");
                reveal_strlit("/mcp");
                assert("/mcp"@[1] != "/new"@[1]);
            }
            match Command::parse(text) {
                Ok(Command::New) => true,
                _ => false,
            }
        } else {
            self.current_session.is_none()
        }
    }

    /// Takes over an AGENTS.md that was created, or tells the user why there is none.
    pub fn agents_file_created(&mut self, path: String, outcome: AgentsCreation)
        ensures
            match outcome {
                AgentsCreation::Existed => told(
                    *old(self),
                    *final(self),
                    false,
                    "AGENTS.md already exists at "@ + path@,
                ),
                AgentsCreation::Failed(e) => told(
                    *old(self),
                    *final(self),
                    true,
                    "Failed to create AGENTS.md: "@ + e@,
                ),
                AgentsCreation::Created => exists|with: App|
                    {
                        &&& #[trigger] agents_added(*old(self), path@, with)
                        &&& told(with, *final(self), false, "Created AGENTS.md at "@ + path@)
                    },
            },
    {
        match outcome {
            AgentsCreation::Existed => {
                self.tell(false, cat2("AGENTS.md already exists at ", path.as_str()));
            },
            AgentsCreation::Failed(e) => {
                self.tell(true, cat2("Failed to create AGENTS.md: ", e.as_str()));
            },
            AgentsCreation::Created => {
                let text = cat2("Created AGENTS.md at ", path.as_str());
                let entry = AgentsFile { path, content: DEFAULT_AGENTS.to_owned() };
                let ghost before = self.agents_files@;
                if same_path(self.project.cwd.as_str(), self.project.root.as_str()) {
                    self.agents_files.insert(0, entry);
                    proof {
                        assert(self.agents_files@.skip(1) =~= before);
                    }
                } else {
                    self.agents_files.push(entry);
                    proof {
                        assert(self.agents_files@.drop_last() =~= before);
                    }
                }
                let ghost with = *self;
                self.tell(false, text);
                proof {
                    assert(agents_added(*old(self), path@, with));
                }
            },
        }
    }

    /// Shows the sessions to choose from, given how many there are.
    pub fn sessions_listed(&mut self, result: Result<usize, String>)
        ensures
            match result {
                Ok(0) => told(*old(self), *final(self), false, "No sessions found."@),
                Ok(_) => *final(self) == (App {
                    session_picker: Overlay { visible: true },
                    ..overlays_closed(*old(self))
                }),
                Err(e) => told(*old(self), *final(self), true, "Failed to list sessions: "@ + e@),
            },
            old(self).wf() ==> final(self).wf(),
    {
        match result {
            Ok(count) => {
                if count == 0 {
                    self.tell(false, "No sessions found.".to_owned());
                } else {
                    self.close_all_overlays();
                    self.session_picker.visible = true;
                }
            },
            Err(e) => {
                self.tell(true, cat2("Failed to list sessions: ", e.as_str()));
            },
        }
    }

    /// Tells the user where the session was exported to, or why it was not.
    pub fn debug_exported(&mut self, result: Result<String, String>)
        ensures
            match result {
                Ok(path) => told(
                    *old(self),
                    *final(self),
                    false,
                    "Debug export written to: "@ + crate::helpers::relative_to(
                        old(self).project.root@,
                        path@,
                    ),
                ),
                Err(e) => told(*old(self), *final(self), true, "Export failed: "@ + e@),
            },
    {
        match result {
            Ok(path) => {
                let shown = self.strip_project_root(path.as_str());
                self.tell(false, cat2("Debug export written to: ", shown.as_str()));
            },
            Err(e) => {
                self.tell(true, cat2("Export failed: ", e.as_str()));
            },
        }
    }

    /// What is written to make a scenario of the session; the user is told why
    /// where it cannot be one.
    pub fn export_scenario(&mut self, data_dir_found: bool) -> (r: Option<ScenarioExport>)
        ensures
            match r {
                Some(x) => {
                    &&& export_obstacle(*old(self), data_dir_found) is None
                    &&& *final(self) == *old(self)
                    &&& views(x.user_turns@) == user_turns(old(self).stored_messages@)
                    &&& views(x.fixture_paths@) == fixtures(block_calls(old(self).messages@))
                    &&& x.session_trace@ == TRACE_HEADER@ + body_trace(old(self).messages@)
                },
                None => {
                    &&& export_obstacle(*old(self), data_dir_found) matches Some(e)
                    &&& told(*old(self), *final(self), true, e)
                },
            },
    {
        match collect_user_turns(&self.stored_messages) {
            Err(_) => {
                self.tell(true, INTERJECTED_SESSION.to_owned());
                None
            },
            Ok(turns) => {
                proof {
                    assert(views(turns@).len() == turns@.len());
                }
                if turns.len() == 0 {
                    let text = if self.stored_messages.len() == 0 {
                        "No active session to export."
                    } else {
                        "Session has no user turns to export (was it just compacted?)."
                    };
                    self.tell(true, text.to_owned());
                    return None;
                }
                if !data_dir_found {
                    self.tell(true, "Could not resolve Steve's data directory.".to_owned());
                    return None;
                }
                Some(
                    ScenarioExport {
                        user_turns: turns,
                        fixture_paths: collect_fixture_paths(&self.messages),
                        session_trace: build_session_trace(&self.messages),
                    },
                )
            },
        }
    }
}

/// The application with a new AGENTS.md: before all others where it lies in
/// the project's root, else behind them.
pub open spec fn agents_added(pre: App, path: Seq<char>, post: App) -> bool {
    &&& post == (App { agents_files: post.agents_files, ..pre })
    &&& post.agents_files@.len() == pre.agents_files@.len() + 1
    &&& if parts(pre.project.cwd@) == parts(pre.project.root@) {
        &&& post.agents_files@.skip(1) == pre.agents_files@
        &&& post.agents_files@[0].path@ == path
        &&& post.agents_files@[0].content@ == DEFAULT_AGENTS@
    } else {
        &&& pushed(pre.agents_files@, post.agents_files@)
        &&& post.agents_files@.last().path@ == path
        &&& post.agents_files@.last().content@ == DEFAULT_AGENTS@
    }
}

} // verus!
