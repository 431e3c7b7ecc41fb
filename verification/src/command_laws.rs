//! What holds of commands.
use crate::commands::{
    after_word, agents_added, agents_update_begun, command_error, command_handled, command_run,
    compaction_begun, debug_export_begun, edit_fields_of, edit_id, export_obstacle, filled, first_word,
    input_handled, is_command, mcp_opened, model_chosen, models_offered, path_in, renamed_by_user,
    sessions_browsed, started_anew, Command, DEFAULT_AGENTS, HELP,
};
use crate::effects::{ChatPurpose, Effect, McpTab};
use crate::event_laws::{error_added, note_added, one_more};
use crate::input::{message_sent, World};
use crate::message::{Message, Role};
use crate::prompt::{capped_context, context_parts, prompt_at, transcript};
use crate::prompts::{AGENTS_UPDATE_SYSTEM_PROMPT, COMPACT_SYSTEM_PROMPT};
use crate::providers::{after_slash, pair_views};
use crate::scenario::{has_interjection, user_turns};
use crate::scenario_laws::{is_turn, turns_are_what_the_user_said};
use crate::state::{Activity, App};
use crate::text::{
    decimal, find_char, find_space, is_space, join, lemma_find_char, lemma_find_space, opt_text,
    trim, trim_end, trim_start, views,
};
use vstd::prelude::*;

verus! {

proof fn lemma_trimmed(s: Seq<char>)
    requires
        s.len() > 0 ==> !is_space(s[0]) && !is_space(s.last()),
    ensures
        trim(s) == s,
{
    assert(trim_start(s) == s);
    assert(trim_end(s) == s);
}

/// A command is its first word and what follows it, both without the space
/// round them.
pub proof fn commands_are_read(word: Seq<char>, c: char, rest: Seq<char>)
    requires
        word.len() > 0,
        forall|i: int| 0 <= i < word.len() ==> !is_space(#[trigger] word[i]),
        is_space(c),
        rest.len() > 0,
        !is_space(rest[0]),
        !is_space(rest.last()),
    ensures
        first_word(word) == word,
        after_word(word).len() == 0,
        first_word(word + seq![c] + rest) == word,
        after_word(word + seq![c] + rest) == rest,
{
    lemma_trimmed(word);
    lemma_find_space(word);
    assert(word.take(find_space(word)) =~= word);
    assert(word.skip(find_space(word)) =~= Seq::<char>::empty());
    assert(trim(Seq::<char>::empty()).len() == 0);
    let all = word + seq![c] + rest;
    assert(all[0] == word[0]);
    assert(all.last() == rest.last());
    lemma_trimmed(all);
    lemma_find_space(all);
    let k = find_space(all);
    assert(all[word.len() as int] == c);
    if k < word.len() {
        assert(all[k] == word[k]);
    }
    assert(all.take(k) =~= word);
    let tail = all.skip(k);
    assert(tail =~= seq![c] + rest);
    assert(tail.skip(1) =~= rest);
    assert(trim_start(tail) == trim_start(rest));
    assert(trim_start(rest) == rest);
    assert(trim(tail) == trim_end(rest));
    assert(trim_end(rest) == rest);
}

proof fn lemma_words()
    ensures
        "/exit"@.len() == 5 && "/exit"@[1] == 'e' && "/exit"@[3] == 'i',
        "/new"@.len() == 4 && "/new"@[1] == 'n' && "/new"@[2] == 'e',
        "/models"@.len() == 7 && "/models"@[1] == 'm' && "/models"@[5] == 'l',
        "/diagnostics"@.len() == 12 && "/diagnostics"@[1] == 'd' && "/diagnostics"@[10] == 'c',
        "/lsp-diagnostics"@.len() == 16 && "/lsp-diagnostics"@[1] == 'l' && "/lsp-diagnostics"@[14] == 'c',
        "/init"@.len() == 5 && "/init"@[1] == 'i' && "/init"@[3] == 'i',
        "/agents-update"@.len() == 14 && "/agents-update"@[1] == 'a' && "/agents-update"@[12] == 't',
        "/sessions"@.len() == 9 && "/sessions"@[1] == 's' && "/sessions"@[7] == 'n',
        "/compact"@.len() == 8 && "/compact"@[1] == 'c' && "/compact"@[6] == 'c',
        "/export-scenario"@.len() == 16 && "/export-scenario"@[1] == 'e' && "/export-scenario"@[14] == 'i',
        "/export-debug"@.len() == 13 && "/export-debug"@[1] == 'e' && "/export-debug"@[11] == 'u',
        "/help"@.len() == 5 && "/help"@[1] == 'h' && "/help"@[3] == 'l',
        "/tasks"@.len() == 6 && "/tasks"@[1] == 't' && "/tasks"@[4] == 'k',
        "/epics"@.len() == 6 && "/epics"@[1] == 'e' && "/epics"@[4] == 'c',
        "/rename"@.len() == 7 && "/rename"@[1] == 'r' && "/rename"@[5] == 'm',
        "/model"@.len() == 6 && "/model"@[1] == 'm' && "/model"@[4] == 'e',
        "/task-new"@.len() == 9 && "/task-new"@[1] == 't' && "/task-new"@[7] == 'e',
        "/task-done"@.len() == 10 && "/task-done"@[1] == 't' && "/task-done"@[8] == 'n',
        "/task-show"@.len() == 10 && "/task-show"@[1] == 't' && "/task-show"@[8] == 'o',
        "/task-edit"@.len() == 10 && "/task-edit"@[1] == 't' && "/task-edit"@[8] == 'i',
        "/epic-new"@.len() == 9 && "/epic-new"@[1] == 'e' && "/epic-new"@[7] == 'e',
        "/mcp"@.len() == 4 && "/mcp"@[1] == 'm' && "/mcp"@[2] == 'c',
{
    reveal_strlit("/exit");
    reveal_strlit("/new");
    reveal_strlit("/models");
    reveal_strlit("/diagnostics");
    reveal_strlit("/lsp-diagnostics");
    reveal_strlit("/init");
    reveal_strlit("/agents-update");
    reveal_strlit("/sessions");
    reveal_strlit("/compact");
    reveal_strlit("/export-scenario");
    reveal_strlit("/export-debug");
    reveal_strlit("/help");
    reveal_strlit("/tasks");
    reveal_strlit("/epics");
    reveal_strlit("/rename");
    reveal_strlit("/model");
    reveal_strlit("/task-new");
    reveal_strlit("/task-done");
    reveal_strlit("/task-show");
    reveal_strlit("/task-edit");
    reveal_strlit("/epic-new");
    reveal_strlit("/mcp");
}

/// A word that takes no argument stands for its command, whatever follows it.
pub proof fn plain_words_are_commands(text: Seq<char>, c: Command)
    ensures
        first_word(text) == "/exit"@ ==> command_error(text) is None && (is_command(text, c)
            ==> c is Exit),
        first_word(text) == "/new"@ ==> command_error(text) is None && (is_command(text, c)
            ==> c is New),
        first_word(text) == "/models"@ ==> command_error(text) is None && (is_command(text, c)
            ==> c is Models),
        first_word(text) == "/diagnostics"@ ==> command_error(text) is None && (is_command(text, c)
            ==> c is Diagnostics),
        first_word(text) == "/lsp-diagnostics"@ ==> command_error(text) is None && (is_command(text, c)
            ==> c is LspDiagnostics),
        first_word(text) == "/init"@ ==> command_error(text) is None && (is_command(text, c)
            ==> c is Init),
        first_word(text) == "/agents-update"@ ==> command_error(text) is None && (is_command(text, c)
            ==> c is AgentsUpdate),
        first_word(text) == "/sessions"@ ==> command_error(text) is None && (is_command(text, c)
            ==> c is Sessions),
        first_word(text) == "/compact"@ ==> command_error(text) is None && (is_command(text, c)
            ==> c is Compact),
        first_word(text) == "/export-scenario"@ ==> command_error(text) is None && (is_command(text, c)
            ==> c is ExportScenario),
        first_word(text) == "/export-debug"@ ==> command_error(text) is None && (is_command(text, c)
            ==> c is ExportDebug),
        first_word(text) == "/help"@ ==> command_error(text) is None && (is_command(text, c)
            ==> c is Help),
        first_word(text) == "/tasks"@ ==> command_error(text) is None && (is_command(text, c)
            ==> c is Tasks),
        first_word(text) == "/epics"@ ==> command_error(text) is None && (is_command(text, c)
            ==> c is Epics),
{
    lemma_words();
}

/// A word that takes an argument stands for its command with that argument, and
/// is explained where there is none.
pub proof fn argument_goes_to_its_command(text: Seq<char>, c: Command)
    ensures
        first_word(text) == "/rename"@ ==> {
            &&& after_word(text).len() == 0 ==> command_error(text) == Some("Usage: /rename <title>"@)
            &&& after_word(text).len() > 0 ==> command_error(text) is None
            &&& is_command(text, c) ==> c is Rename && c->Rename_0@ == after_word(text)
        },
        first_word(text) == "/model"@ ==> {
            &&& after_word(text).len() == 0 ==> command_error(text) == Some("Usage: /model <provider/model>"@)
            &&& after_word(text).len() > 0 ==> command_error(text) is None
            &&& is_command(text, c) ==> c is Model && c->Model_0@ == after_word(text)
        },
        first_word(text) == "/task-new"@ ==> {
            &&& after_word(text).len() == 0 ==> command_error(text) == Some("Usage: /task-new <title>"@)
            &&& after_word(text).len() > 0 ==> command_error(text) is None
            &&& is_command(text, c) ==> c is TaskNew && c->TaskNew_0@ == after_word(text)
        },
        first_word(text) == "/task-done"@ ==> {
            &&& after_word(text).len() == 0 ==> command_error(text) == Some("Usage: /task-done <id>"@)
            &&& after_word(text).len() > 0 ==> command_error(text) is None
            &&& is_command(text, c) ==> c is TaskDone && c->TaskDone_0@ == after_word(text)
        },
        first_word(text) == "/task-show"@ ==> {
            &&& after_word(text).len() == 0 ==> command_error(text) == Some("Usage: /task-show <id>"@)
            &&& after_word(text).len() > 0 ==> command_error(text) is None
            &&& is_command(text, c) ==> c is TaskShow && c->TaskShow_0@ == after_word(text)
        },
        first_word(text) == "/task-edit"@ ==> {
            &&& after_word(text).len() == 0 ==> command_error(text) == Some("Usage: /task-edit <id> title=... priority=... status=..."@)
            &&& after_word(text).len() > 0 ==> command_error(text) is None
            &&& is_command(text, c) ==> c is TaskEdit && c->TaskEdit_0@ == after_word(text)
        },
        first_word(text) == "/epic-new"@ ==> {
            &&& after_word(text).len() == 0 ==> command_error(text) == Some("Usage: /epic-new <title>"@)
            &&& after_word(text).len() > 0 ==> command_error(text) is None
            &&& is_command(text, c) ==> c is EpicNew && c->EpicNew_0@ == after_word(text)
        },
{
    lemma_words();
}

/// What follows "/mcp" says which tab is opened, and which server it shows;
/// nothing opens the servers, and anything else is explained.
pub proof fn mcp_words_open_their_tab(text: Seq<char>, c: Command)
    requires
        first_word(text) == "/mcp"@,
    ensures
        ({
            let rest = after_word(text);
            let tab = first_word(rest);
            &&& rest.len() == 0 ==> command_error(text) is None && (is_command(text, c)
                ==> c is Mcp)
            &&& rest.len() > 0 && tab == "tools"@ ==> command_error(text) is None && (is_command(
                text,
                c,
            ) ==> c is McpTools && opt_text(c->McpTools_0) == filled(after_word(rest)))
            &&& rest.len() > 0 && tab == "resources"@ ==> command_error(text) is None && (
            is_command(text, c) ==> c is McpResources && opt_text(c->McpResources_0) == filled(
                after_word(rest),
            ))
            &&& rest.len() > 0 && tab == "prompts"@ ==> command_error(text) is None && (is_command(
                text,
                c,
            ) ==> c is McpPrompts && opt_text(c->McpPrompts_0) == filled(after_word(rest)))
            &&& rest.len() > 0 && tab != "tools"@ && tab != "resources"@ && tab != "prompts"@
                ==> command_error(text) == Some("Usage: /mcp [tools|resources|prompts] [server]"@)
        }),
{
    lemma_words();
    reveal_strlit("tools");
    reveal_strlit("resources");
    reveal_strlit("prompts");
    assert("tools"@.len() == 5 && "resources"@.len() == 9 && "prompts"@.len() == 7);
}

/// A word that stands for no command is told back.
pub proof fn unknown_words_are_told(text: Seq<char>)
    requires
        ({
            let word = first_word(text);
            word != "/exit"@ && word != "/new"@ && word != "/models"@ && word != "/diagnostics"@ && word != "/lsp-diagnostics"@ && word != "/init"@ && word != "/agents-update"@ && word != "/sessions"@ && word != "/compact"@ && word != "/export-scenario"@ && word != "/export-debug"@ && word != "/help"@ && word != "/tasks"@ && word != "/epics"@ && word != "/rename"@ && word != "/model"@ && word != "/task-new"@ && word != "/task-done"@ && word != "/task-show"@ && word != "/task-edit"@ && word != "/epic-new"@ && word != "/mcp"@
        }),
    ensures
        command_error(text) == Some("Unknown command: "@ + first_word(text)),
{
}

/// A text that begins with a slash is a command, any other a message.
pub proof fn slash_makes_a_command(
    pre: App,
    text: Seq<char>,
    world: World,
    post: App,
    old_fx: Seq<Effect>,
    new_fx: Seq<Effect>,
)
    requires
        input_handled(pre, text, world, post, old_fx, new_fx),
    ensures
        text.len() > 0 && text[0] == '/' ==> command_handled(
            pre,
            text,
            world,
            post,
            old_fx,
            new_fx,
        ),
        text.len() == 0 || text[0] != '/' ==> message_sent(pre, text, world, post, old_fx, new_fx),
{
}

/// A command that is wrong is told as an error, and does nothing else.
pub proof fn wrong_command_is_told(
    pre: App,
    text: Seq<char>,
    world: World,
    post: App,
    old_fx: Seq<Effect>,
    new_fx: Seq<Effect>,
)
    requires
        command_error(text) is Some,
        command_handled(pre, text, world, post, old_fx, new_fx),
    ensures
        error_added(pre, post, command_error(text)->Some_0),
        post.stored_messages == pre.stored_messages,
        post.current_session == pre.current_session,
        new_fx == old_fx,
{
}

/// What stores and lists ask of the outside: each its own, with what was typed.
pub proof fn store_commands_ask(
    pre: App,
    c: Command,
    world: World,
    post: App,
    old_fx: Seq<Effect>,
    new_fx: Seq<Effect>,
)
    requires
        command_run(pre, c, world, post, old_fx, new_fx),
    ensures
        c is Exit ==> post == (App { should_quit: true, ..pre }) && new_fx == old_fx,
        c is Tasks ==> post == pre && new_fx == old_fx.push(Effect::ListTasks),
        c is Epics ==> post == pre && new_fx == old_fx.push(Effect::ListEpics),
        c is TaskNew ==> post == pre && new_fx == old_fx.push(
            Effect::CreateTask { title: c->TaskNew_0 },
        ),
        c is TaskDone ==> post == pre && new_fx == old_fx.push(
            Effect::CompleteTask { id: c->TaskDone_0 },
        ),
        c is TaskShow ==> post == pre && new_fx == old_fx.push(
            Effect::ShowTask { id: c->TaskShow_0 },
        ),
        c is EpicNew ==> post == pre && new_fx == old_fx.push(
            Effect::CreateEpic { title: c->EpicNew_0 },
        ),
        c is ExportScenario ==> post == pre && new_fx == old_fx.push(Effect::ExportScenario),
        c is TaskEdit ==> {
            &&& post == pre
            &&& new_fx.len() == old_fx.len() + 1
            &&& new_fx.drop_last() == old_fx
            &&& new_fx.last() is LoadTask
            &&& new_fx.last()->LoadTask_id@ == edit_id(c->TaskEdit_0@)
        },
        c is Init ==> {
            &&& post == pre
            &&& new_fx.len() == old_fx.len() + 1
            &&& new_fx.drop_last() == old_fx
            &&& new_fx.last() is CreateAgentsFile
            &&& new_fx.last()->CreateAgentsFile_path@ == path_in(pre.project.cwd@, "AGENTS.md"@)
        },
        c is Help ==> note_added(pre, post, HELP@) && new_fx == old_fx,
{
}

/// The commands that open an overlay open theirs and close the others; the
/// messages stay.
pub proof fn overlay_commands_open(
    pre: App,
    c: Command,
    world: World,
    post: App,
    old_fx: Seq<Effect>,
    new_fx: Seq<Effect>,
)
    requires
        command_run(pre, c, world, post, old_fx, new_fx),
    ensures
        c is Diagnostics ==> post.diagnostics_overlay.visible && !post.model_picker.visible
            && !post.session_picker.visible && !post.mcp_overlay.visible && post.messages
            == pre.messages && new_fx == old_fx.push(Effect::OpenDiagnostics),
        c is LspDiagnostics ==> post.lsp_diagnostics_overlay.visible && post.messages
            == pre.messages && new_fx == old_fx.push(Effect::OpenLspDiagnostics),
        c is Mcp || c is McpTools || c is McpResources || c is McpPrompts
            ==> post.mcp_overlay.visible && !post.model_picker.visible
            && !post.session_picker.visible && !post.diagnostics_overlay.visible && post.messages
            == pre.messages,
        c is Mcp ==> new_fx == old_fx.push(Effect::OpenMcp { tab: McpTab::Servers, filter: None }),
        c is McpTools ==> new_fx == old_fx.push(
            Effect::OpenMcp { tab: McpTab::Tools, filter: c->McpTools_0 },
        ),
        c is McpResources ==> new_fx == old_fx.push(
            Effect::OpenMcp { tab: McpTab::Resources, filter: c->McpResources_0 },
        ),
        c is McpPrompts ==> new_fx == old_fx.push(
            Effect::OpenMcp { tab: McpTab::Prompts, filter: c->McpPrompts_0 },
        ),
        c is Sessions && !pre.is_loading && !pre.streaming_active ==> new_fx == old_fx.push(
            Effect::ListSessions,
        ) && post.messages == pre.messages,
        c is Sessions && (pre.is_loading || pre.streaming_active) ==> error_added(
            pre,
            post,
            "Cannot browse sessions while streaming."@,
        ) && new_fx == old_fx,
{
    reveal(mcp_opened);
    reveal(sessions_browsed);
}

/// The models that are offered are all that the registry holds; the one in use
/// is marked.
pub proof fn all_models_are_offered(
    pre: App,
    world: World,
    post: App,
    old_fx: Seq<Effect>,
    new_fx: Seq<Effect>,
)
    requires
        pre.provider_registry is Some,
        pre.provider_registry->Some_0.listed().len() > 0,
        command_run(pre, Command::Models, world, post, old_fx, new_fx),
    ensures
        post.model_picker.visible,
        post.messages == pre.messages,
        new_fx.len() == old_fx.len() + 1,
        new_fx.last() is OpenModelPicker,
        new_fx.last()->current == pre.current_model,
        ({
            let offered = new_fx.last()->models@;
            let known = pre.provider_registry->Some_0.listed();
            &&& offered.len() == known.len()
            &&& forall|i: int|
                0 <= i < known.len() ==> (#[trigger] offered[i]).0@ == known[i].0 && offered[i].1@
                    == known[i].1
        }),
{
    reveal(models_offered);
    let offered = new_fx.last()->models@;
    let known = pre.provider_registry->Some_0.listed();
    assert(pair_views(offered) == known);
    assert forall|i: int| 0 <= i < known.len() implies (#[trigger] offered[i]).0@ == known[i].0
        && offered[i].1@ == known[i].1 by {
        assert(pair_views(offered)[i] == known[i]);
    }
}

/// A model that is known is taken into use and told; one that is not is refused,
/// and the model stays.
pub proof fn model_is_taken_into_use(
    pre: App,
    model_ref: String,
    world: World,
    post: App,
    old_fx: Seq<Effect>,
    new_fx: Seq<Effect>,
)
    requires
        command_run(pre, Command::Model(model_ref), world, post, old_fx, new_fx),
    ensures
        ({
            let known = pre.provider_registry is Some && pre.provider_registry->Some_0.lookup(
                model_ref@,
            ) is Ok;
            &&& known ==> {
                &&& post.current_model is Some
                &&& post.current_model->Some_0@ == model_ref@
                &&& post.sidebar_state.model_name@ == model_ref@
                &&& post.status_line_state.context_window
                    == pre.provider_registry->Some_0.lookup(model_ref@)->Ok_0.context_window
                &&& note_added(pre, post, "Switched to model: "@ + model_ref@)
            }
            &&& !known ==> {
                &&& post.current_model == pre.current_model
                &&& one_more(pre, post)
                &&& post.messages@.last() is Error
                &&& new_fx == old_fx
            }
            &&& pre.provider_registry is None ==> error_added(
                pre,
                post,
                "No providers configured."@,
            )
        }),
        post.stored_messages == pre.stored_messages,
{
    reveal(model_chosen);
}

/// A session that is renamed has the new title, shown and stored; its id, its
/// counts and what was said stay.
pub proof fn session_is_renamed(
    pre: App,
    title: String,
    world: World,
    post: App,
    old_fx: Seq<Effect>,
    new_fx: Seq<Effect>,
)
    requires
        pre.current_session is Some,
        command_run(pre, Command::Rename(title), world, post, old_fx, new_fx),
    ensures
        post.current_session is Some,
        post.current_session->Some_0.title@ == title@,
        post.current_session->Some_0.id == pre.current_session->Some_0.id,
        post.current_session->Some_0.token_usage == pre.current_session->Some_0.token_usage,
        post.sidebar_state.session_title@ == title@,
        note_added(pre, post, "Session renamed to: "@ + title@),
        post.stored_messages == pre.stored_messages,
        new_fx.len() > old_fx.len(),
        new_fx[old_fx.len() as int] is RenameSession,
        new_fx[old_fx.len() as int]->RenameSession_title@ == title@,
        new_fx[old_fx.len() as int]->RenameSession_session_id@ == pre.current_session->Some_0.id@,
{
    reveal(renamed_by_user);
}

/// A compaction sends the whole conversation to be summed up, and changes
/// nothing of it yet; where it cannot begin, the user is told why.
pub proof fn whole_conversation_is_compacted(
    pre: App,
    world: World,
    post: App,
    old_fx: Seq<Effect>,
    new_fx: Seq<Effect>,
)
    requires
        command_run(pre, Command::Compact, world, post, old_fx, new_fx),
    ensures
        post.stored_messages == pre.stored_messages,
        one_more(pre, post),
        pre.current_session is None || pre.stored_messages@.len() == 0 ==> note_added(
            pre,
            post,
            "Nothing to compact."@,
        ) && new_fx == old_fx,
        pre.current_session is Some && pre.stored_messages@.len() > 0 && (pre.is_loading
            || pre.streaming_active) ==> error_added(
            pre,
            post,
            "Cannot compact while streaming."@,
        ) && new_fx == old_fx,
        post.messages@.last() is Error ==> new_fx == old_fx && post.is_loading == pre.is_loading,
        new_fx != old_fx ==> {
            &&& new_fx.len() == old_fx.len() + 1
            &&& new_fx.drop_last() == old_fx
            &&& new_fx.last() is Chat
            &&& new_fx.last()->Chat_0.purpose == ChatPurpose::Compact
            &&& new_fx.last()->Chat_0.user_text@ == transcript(pre.stored_messages@)
            &&& new_fx.last()->Chat_0.system_prompt@ == COMPACT_SYSTEM_PROMPT@
            &&& pre.config.small_model is Some ==> new_fx.last()->Chat_0.resolved.model_id@
                == after_slash(pre.config.small_model->Some_0@)
            &&& pre.config.small_model is None ==> pre.current_model is Some
                && new_fx.last()->Chat_0.resolved.model_id@ == after_slash(
                pre.current_model->Some_0@,
            )
            &&& post.is_loading
            &&& post.status_line_state.activity == Activity::Compacting
            &&& note_added(
                pre,
                post,
                "Compacting "@ + decimal(pre.stored_messages@.len()) + " messages..."@,
            )
        },
{
    reveal(compaction_begun);
}

/// An update of AGENTS.md begins only where nothing is under way and none waits;
/// else the user is told why.
pub proof fn agents_update_begins_alone(
    pre: App,
    world: World,
    post: App,
    old_fx: Seq<Effect>,
    new_fx: Seq<Effect>,
)
    requires
        command_run(pre, Command::AgentsUpdate, world, post, old_fx, new_fx),
    ensures
        one_more(pre, post),
        post.stored_messages == pre.stored_messages,
        pre.is_loading || pre.streaming_active ==> error_added(
            pre,
            post,
            "Cannot update AGENTS.md while streaming."@,
        ) && new_fx == old_fx,
        !pre.is_loading && !pre.streaming_active && pre.pending_agents_update is Some
            ==> error_added(pre, post, "An AGENTS.md update is already pending approval."@)
            && new_fx == old_fx,
        new_fx != old_fx ==> {
            &&& new_fx.len() == old_fx.len() + 1
            &&& new_fx.last() is Chat
            &&& new_fx.last()->Chat_0.purpose == ChatPurpose::AgentsUpdate
            &&& new_fx.last()->Chat_0.system_prompt@ == AGENTS_UPDATE_SYSTEM_PROMPT@
            &&& new_fx.last()->Chat_0.user_text@ == capped_context(
                join(context_parts(pre, views(world.tree@), world.files@), "\n\n"@),
            )
            &&& pre.current_model is Some
            &&& new_fx.last()->Chat_0.resolved.model_id@ == after_slash(pre.current_model->Some_0@)
            &&& post.is_loading
            &&& post.status_line_state.activity == Activity::UpdatingAgents
            &&& note_added(pre, post, "Analyzing project..."@)
        },
{
    reveal(agents_update_begun);
}

/// A new session deletes the last one only where the user said nothing in it, and
/// begins with one note.
pub proof fn new_session_is_told(
    pre: App,
    world: World,
    post: App,
    old_fx: Seq<Effect>,
    new_fx: Seq<Effect>,
)
    requires
        command_run(pre, Command::New, world, post, old_fx, new_fx),
    ensures
        post.messages@.len() == 1,
        post.messages@[0] is System,
        post.messages@[0]->System_text@ == "New session started."@,
        post.stored_messages@.len() == 0,
        post.current_session == world.created,
        post.sidebar_state.changes@.len() == 0,
        post.current_model == pre.current_model,
        post.config == pre.config,
{
    reveal(started_anew);
}

/// A debug export needs something to export, and changes nothing.
pub proof fn debug_export_needs_a_session(
    pre: App,
    world: World,
    post: App,
    old_fx: Seq<Effect>,
    new_fx: Seq<Effect>,
)
    requires
        command_run(pre, Command::ExportDebug, world, post, old_fx, new_fx),
    ensures
        pre.stored_messages@.len() == 0 ==> error_added(pre, post, "No active session to export."@)
            && new_fx == old_fx,
        pre.stored_messages@.len() > 0 && pre.current_session is Some ==> post == pre
            && new_fx.len() == old_fx.len() + 1 && new_fx.drop_last() == old_fx
            && new_fx.last() is ExportDebug && opt_text(new_fx.last()->ExportDebug_system_prompt)
            == prompt_at(pre, world.at, world.prompt),
{
    reveal(debug_export_begun);
}

/// A name in a directory stands behind it and one slash.
pub proof fn names_stand_in_their_directory(dir: Seq<char>, name: Seq<char>)
    ensures
        dir.len() > 0 && dir.last() != '/' ==> path_in(dir, name) == dir + seq!['/'] + name,
        dir.len() > 0 && dir.last() == '/' ==> path_in(dir, name) == dir + name,
        path_in(Seq::empty(), name) == name,
{
    reveal_strlit("/");
    assert("/"@ =~= seq!['/']);
    assert(Seq::<char>::empty() + name =~= name);
}

/// What is to be edited stands before the first space, the fields behind it.
pub proof fn edit_names_its_task(id: Seq<char>, fields: Seq<char>)
    requires
        forall|i: int| 0 <= i < id.len() ==> #[trigger] id[i] != ' ',
    ensures
        edit_id(id + seq![' '] + fields) == id,
        edit_fields_of(id + seq![' '] + fields) == Some(fields),
        edit_id(id) == id,
        edit_fields_of(id) is None,
{
    let all = id + seq![' '] + fields;
    lemma_find_char(all, ' ');
    lemma_find_char(id, ' ');
    let k = find_char(all, ' ');
    assert(all[id.len() as int] == ' ');
    if k < id.len() {
        assert(all[k] == id[k]);
    }
    assert(all.take(k) =~= id);
    assert(all.skip(k + 1) =~= fields);
    assert(id.take(find_char(id, ' ')) =~= id);
}

/// A session can be made a scenario exactly where no message of the user was an
/// interjection, the user said something, and there is a place for it.
pub proof fn exportable_sessions(app: App, data_dir_found: bool)
    ensures
        export_obstacle(app, data_dir_found) is None <==> !has_interjection(app.stored_messages@)
            && (exists|i: int|
            0 <= i < app.stored_messages@.len() && (#[trigger] app.stored_messages@[i]).role
                == Role::User && trim(app.stored_messages@[i].text@).len() > 0) && data_dir_found,
        app.stored_messages@.len() == 0 && !has_interjection(app.stored_messages@)
            ==> export_obstacle(app, data_dir_found) == Some("No active session to export."@),
{
    let ms = app.stored_messages@;
    turns_are_what_the_user_said(ms);
    let counts = |m: Message| is_turn(m);
    let turns = ms.filter(counts);
    assert(user_turns(ms).len() == turns.len());
    if turns.len() > 0 {
        ms.lemma_filter_pred(counts, 0);
        ms.lemma_filter_contains_rev(counts, turns[0]);
        let i = choose|i: int| 0 <= i < ms.len() && ms[i] == turns[0];
        assert(ms[i].role == Role::User);
    }
    if exists|i: int|
        0 <= i < ms.len() && (#[trigger] ms[i]).role == Role::User && trim(ms[i].text@).len() > 0 {
        let i = choose|i: int|
            0 <= i < ms.len() && (#[trigger] ms[i]).role == Role::User && trim(ms[i].text@).len()
                > 0;
        ms.lemma_filter_contains(counts, i);
    }
}

/// An AGENTS.md that was just made is known from then on, with what was written;
/// the others stay.
pub proof fn new_file_is_known(pre: App, path: Seq<char>, post: App, i: int)
    requires
        agents_added(pre, path, post),
        0 <= i < pre.agents_files@.len(),
    ensures
        post.agents_files@.len() == pre.agents_files@.len() + 1,
        post.agents_files@.contains(pre.agents_files@[i]),
        exists|k: int|
            0 <= k < post.agents_files@.len() && (#[trigger] post.agents_files@[k]).path@ == path
                && post.agents_files@[k].content@ == DEFAULT_AGENTS@,
        post.messages == pre.messages,
{
    let files = post.agents_files@;
    if files.skip(1) == pre.agents_files@ {
        assert(files[i + 1] == files.skip(1)[i]);
    } else {
        assert(files[i] == files.drop_last()[i]);
    }
    assert(files[0].path@ == path || files[files.len() - 1].path@ == path);
}

} // verus!
