//! What holds of how the application starts and what it knows of its servers
//! and tools.
use crate::block_laws::only_its_kind_reads_so;
use crate::blocks::MessageBlock;
use crate::clipboard::copy_sequence;
use crate::diagnostics::{
    is_diagnostic_input, is_running, lsp_checks, mcp_checks, DiagnosticFacts, DiagnosticInput,
    McpCheck,
};
use crate::prompt::{all_instructions, prompt_at};
use crate::providers::{missing_messages, ProviderInitWarning, ProviderRegistry};
use crate::scenario::text_of;
use crate::startup::{
    is_new_app, is_registry_empty, named_tools, running_languages, started_notice, startup_blocks, LanguageStatus,
    NO_PROVIDERS,
};
use crate::state::{
    Activity, AgentMode, AgentsFile, App, Config, LspState, ProjectInfo, SidebarLsp, SidebarMcp,
};
use crate::text::{byte_len, join, opt_text, views};
use crate::text_laws::{joined_parts_occur, middle_occurs, occurs, part_of_a_part_occurs};
use crate::tool::{is_mcp_name, mcp_name, mcp_name_at, mcp_names, tool_is_found_by_name, ToolName};
use crate::tool_display::{DiffContent, DiffContentView, DiffLine, DiffLineView};
use vstd::prelude::*;

verus! {

/// What is wrong with the configuration is told at start, each as an error, in
/// order and before all else; without providers the user is told how to begin.
pub proof fn start_tells_what_is_wrong(
    blocks: Seq<MessageBlock>,
    config: Config,
    registry: Option<ProviderRegistry>,
    missing: Seq<ProviderInitWarning>,
    warnings: Seq<Seq<char>>,
    i: int,
)
    requires
        startup_blocks(blocks, config, registry, missing, warnings),
    ensures
        blocks.len() >= warnings.len(),
        0 <= i < warnings.len() ==> blocks[i] is Error && blocks[i]->Error_text@ == warnings[i],
        !config.has_providers ==> blocks.len() == warnings.len() + 1 && blocks.last() is Assistant
            && text_of(blocks.last()->parts@)
            == "No providers configured. Create a .steve.jsonc config file or a global ~/.config/steve/config.jsonc to get started."@,
        config.has_providers && missing.len() == 0 ==> blocks.len() == warnings.len(),
        config.has_providers ==> {
            let empty = registry is Some && registry->Some_0.providers@.len() == 0;
            let default_model = match config.model {
                Some(m) => Some(m@),
                None => None,
            };
            let told = missing_messages(empty, default_model, missing);
            &&& blocks.len() == warnings.len() + told.len()
            &&& warnings.len() <= i < blocks.len() ==> blocks[i] is Error && blocks[i]->Error_text@
                == told[i - warnings.len()]
        },
{
    let n = warnings.len() as int;
    if 0 <= i < n {
        let front = blocks.take(n);
        assert(front[0 + i].is_error_text(warnings[i])) by {
            assert((front[Seq::<MessageBlock>::empty().len() + i]).is_error_text(warnings[i]));
        }
    }
    if !config.has_providers {
        only_its_kind_reads_so(blocks[n], NO_PROVIDERS@);
    } else if n <= i < blocks.len() {
        let front = blocks.take(n);
        let k = i - n;
        let told = missing_messages(
            is_registry_empty(registry),
            opt_text(config.model),
            missing,
        );
        assert(blocks[front.len() + k].is_error_text(told[k]));
    }
}

/// The application starts at rest, in build mode, with the configured model, and
/// with nothing said, stored or asked.
pub proof fn start_is_clean(
    app: App,
    project: ProjectInfo,
    config: Config,
    agents_files: Vec<AgentsFile>,
    registry: Option<ProviderRegistry>,
    missing: Vec<ProviderInitWarning>,
    warnings: Seq<Seq<char>>,
    lsp_servers: Vec<SidebarLsp>,
)
    requires
        is_new_app(
            app,
            project,
            config,
            agents_files,
            registry,
            missing,
            warnings,
            lsp_servers,
        ),
    ensures
        app.wf(),
        app.mode == AgentMode::Build,
        app.current_model == config.model,
        app.current_session is None,
        app.stored_messages@.len() == 0,
        app.streaming_message is None,
        !app.is_loading && !app.streaming_active && !app.should_quit,
        app.pending_permission is None,
        app.pending_question is None,
        app.pending_agents_update is None,
        app.exchange_count == 0,
        app.compaction_count == 0,
        app.status_line_state.activity == Activity::Idle,
        app.status_line_state.total_tokens == 0,
        app.sidebar_state.total_tokens == 0,
        app.sidebar_state.changes@.len() == 0,
        app.sidebar_state.lsp_servers == lsp_servers,
        app.project == project,
        app.agents_files == agents_files,
        app.provider_registry == registry,
{
}

/// The languages that are told of are those whose servers run, in order.
pub proof fn running_servers_are_told(status: Seq<LanguageStatus>)
    ensures
        running_languages(status) == status.filter(|s: LanguageStatus| s.running).map_values(
            |s: LanguageStatus| s.language@,
        ),
    decreases status.len(),
{
    reveal(Seq::filter);
    if status.len() > 0 {
        running_servers_are_told(status.drop_last());
    }
    assert(running_languages(status) =~= status.filter(
        |s: LanguageStatus| s.running,
    ).map_values(|s: LanguageStatus| s.language@));
}

/// Each server that was started is named; without any nothing is said.
pub proof fn started_servers_are_named(kind: Seq<char>, names: Seq<Seq<char>>, i: int)
    ensures
        names.len() == 0 ==> started_notice(kind, names) is None,
        0 <= i < names.len() ==> started_notice(kind, names) is Some && occurs(
            names[i],
            started_notice(kind, names)->Some_0,
        ) && (kind + " servers started: "@).is_prefix_of(started_notice(kind, names)->Some_0),
{
    if 0 <= i < names.len() {
        joined_parts_occur(names, ", "@, i);
        let body = join(names, ", "@);
        let head = kind + " servers started: "@;
        let none = Seq::<char>::empty();
        middle_occurs(head, body, none);
        assert(head + body + none =~= head + body);
        part_of_a_part_occurs(names[i], body, head + body);
        assert((head + body).subrange(0, head.len() as int) =~= head);
    }
}

/// The tools among some names are found one by one, in order.
pub proof fn named_tools_join(a: Seq<Seq<char>>, b: Seq<Seq<char>>)
    ensures
        named_tools(a + b) == named_tools(a) + named_tools(b),
    decreases b.len(),
{
    if b.len() == 0 {
        assert(a + b =~= a);
        assert(named_tools(a) + named_tools(b) =~= named_tools(a));
    } else {
        named_tools_join(a, b.drop_last());
        assert((a + b).drop_last() =~= a + b.drop_last());
        assert((a + b).last() == b.last());
        assert(named_tools(a + b) =~= named_tools(a) + named_tools(b));
    }
}

/// The name of a tool names it, and any other text names none.
pub proof fn named_tool_of_one(tool: ToolName, name: Seq<char>)
    ensures
        named_tools(seq![tool.name()]) == seq![tool],
        (forall|t: ToolName| #[trigger] t.name() != name) ==> named_tools(seq![name]).len() == 0,
        named_tools(Seq::empty()).len() == 0,
{
    tool_is_found_by_name(tool);
    let one = seq![tool.name()];
    assert(one.drop_last() =~= Seq::<Seq<char>>::empty());
    assert(named_tools(one.drop_last()) =~= Seq::<ToolName>::empty());
    assert(named_tools(one) =~= seq![tool]);
    if forall|t: ToolName| #[trigger] t.name() != name {
        let other = seq![name];
        assert(other.drop_last() =~= Seq::<Seq<char>>::empty());
        match ToolName::named(name) {
            Some(t) => {
                assert(t.name() == name);
            },
            None => {},
        }
    }
}

/// Each tool goes by its own name.
pub proof fn tools_go_by_their_names()
    ensures
        ToolName::Read.name() == "read"@ && ToolName::Grep.name() == "grep"@
            && ToolName::Glob.name() == "glob"@ && ToolName::List.name() == "list"@
            && ToolName::Edit.name() == "edit"@ && ToolName::Write.name() == "write"@
            && ToolName::Patch.name() == "patch"@ && ToolName::Bash.name() == "bash"@
            && ToolName::Question.name() == "question"@ && ToolName::Task.name() == "task"@
            && ToolName::Webfetch.name() == "webfetch"@ && ToolName::Memory.name() == "memory"@
            && ToolName::Move.name() == "move"@ && ToolName::Copy.name() == "copy"@
            && ToolName::Delete.name() == "delete"@ && ToolName::Mkdir.name() == "mkdir"@
            && ToolName::Symbols.name() == "symbols"@ && ToolName::Lsp.name() == "lsp"@
            && ToolName::Agent.name() == "agent"@,
{
}

/// A tool of a server is named by both, and its name is known as such.
pub proof fn server_tools_are_named_by_both(server: Seq<char>, tool: Seq<char>)
    requires
        server.len() > 0,
        tool.len() > 0,
    ensures
        mcp_name(server, tool) == "mcp__"@ + server + "__"@ + tool,
        is_mcp_name(mcp_name(server, tool)),
{
    reveal_strlit("mcp__");
    reveal_strlit("__");
    let name = mcp_name(server, tool);
    assert(name.subrange(0, "mcp__"@.len() as int) =~= "mcp__"@);
    let k = ("mcp__"@.len() + server.len()) as int;
    assert(name[k] == '_' && name[k + 1] == '_');
    assert(mcp_name_at(name, k));
}

/// The names of the tools of servers are picked from some names, in order.
pub proof fn server_tools_are_picked(names: Seq<Seq<char>>)
    ensures
        mcp_names(names) == names.filter(|n: Seq<char>| is_mcp_name(n)),
    decreases names.len(),
{
    reveal(Seq::filter);
    if names.len() > 0 {
        server_tools_are_picked(names.drop_last());
    }
    assert(mcp_names(names) =~= names.filter(|n: Seq<char>| is_mcp_name(n)));
}

/// A language server counts as running while it is ready or indexing.
pub proof fn ready_servers_run(servers: Seq<SidebarLsp>, i: int)
    requires
        0 <= i < servers.len(),
    ensures
        lsp_checks(servers).len() == servers.len(),
        lsp_checks(servers)[i].binary == servers[i].binary,
        lsp_checks(servers)[i].running <==> servers[i].state == LspState::Ready
            || servers[i].state == LspState::Indexing,
{
}

/// The servers that are checked are those that are connected, in order and with
/// their counts.
pub proof fn connected_servers_are_checked(servers: Seq<SidebarMcp>)
    ensures
        mcp_checks(servers) == servers.filter(|s: SidebarMcp| s.connected).map_values(
            |s: SidebarMcp|
                McpCheck {
                    server_id: s.server_id,
                    tool_count: s.tool_count,
                    resource_count: s.resource_count,
                    prompt_count: s.prompt_count,
                },
        ),
    decreases servers.len(),
{
    reveal(Seq::filter);
    if servers.len() > 0 {
        connected_servers_are_checked(servers.drop_last());
    }
    assert(mcp_checks(servers) =~= servers.filter(|s: SidebarMcp| s.connected).map_values(
        |s: SidebarMcp|
            McpCheck {
                server_id: s.server_id,
                tool_count: s.tool_count,
                resource_count: s.resource_count,
                prompt_count: s.prompt_count,
            },
    ));
}

/// The checks look at what the application holds: its counts, its servers, and
/// what the models are told.
pub proof fn checks_see_what_there_is(app: App, facts: DiagnosticFacts, input: DiagnosticInput)
    requires
        is_diagnostic_input(app, facts, input),
    ensures
        input.exchange_count == app.exchange_count,
        input.compaction_count == app.compaction_count,
        input.cache_hits == facts.cache_hits,
        input.cache_misses == facts.cache_misses,
        app.current_session is None ==> input.total_tokens == 0,
        app.current_session is Some ==> input.total_tokens
            == app.current_session->Some_0.token_usage.total_tokens,
        input.lsp_servers@ == lsp_checks(app.sidebar_state.lsp_servers@),
        input.mcp_connected@ == mcp_checks(app.sidebar_state.mcp_servers@),
        input.mcp_configured@ == facts.mcp_configured@,
        opt_text(input.agents_md) == all_instructions(app),
        prompt_at(app, facts.at, facts.prompt) is None ==> input.system_prompt_len == 0,
        prompt_at(app, facts.at, facts.prompt) matches Some(p) ==> input.system_prompt_len
            == byte_len(p),
{
}

/// What is copied through the terminal stands between the marks that say so.
pub proof fn copied_text_stands_between_marks(encoded: Seq<char>)
    ensures
        copy_sequence(encoded) == "\u{1b}]52;c;"@ + encoded + "\u{7}"@,
        occurs(encoded, copy_sequence(encoded)),
{
    middle_occurs("\u{1b}]52;c;"@, encoded, "\u{7}"@);
}

/// A line of a change reads as what it is, and a change as its lines.
pub proof fn changes_read_as_they_are(text: String, n: usize, lines: Vec<DiffLine>, i: int)
    ensures
        DiffLine::Addition(text)@ == DiffLineView::Addition(text@),
        DiffLine::Removal(text)@ == DiffLineView::Removal(text@),
        DiffLine::Context(text)@ == DiffLineView::Context(text@),
        DiffLine::HunkHeader(text)@ == DiffLineView::HunkHeader(text@),
        (DiffContent::WriteSummary { line_count: n })@ == (DiffContentView::WriteSummary {
            line_count: n as nat,
        }),
        (DiffContent::EditDiff { lines })@ is EditDiff,
        (DiffContent::PatchDiff { lines })@ is PatchDiff,
        (DiffContent::EditDiff { lines })@->EditDiff_lines.len() == lines@.len(),
        (DiffContent::PatchDiff { lines })@->PatchDiff_lines.len() == lines@.len(),
        0 <= i < lines@.len() ==> (DiffContent::EditDiff { lines })@->EditDiff_lines[i]
            == lines@[i]@ && (DiffContent::PatchDiff { lines })@->PatchDiff_lines[i] == lines@[i]@,
{
}

/// Texts are read one by one.
pub proof fn texts_are_read_in_turn(v: Seq<String>, i: int)
    ensures
        views(v).len() == v.len(),
        0 <= i < v.len() ==> views(v)[i] == v[i]@,
{
}

/// Whether a server answers is told by its state alone.
pub proof fn only_ready_states_answer(state: LspState)
    ensures
        is_running(state) <==> state == LspState::Ready || state == LspState::Indexing,
{
}

} // verus!
