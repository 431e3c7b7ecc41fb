//! The application as it starts.
use crate::blocks::MessageBlock;
use crate::commands::models_offered;
use crate::effects::Effect;
use crate::providers::{
    build_missing_provider_messages, missing_messages, ProviderInitWarning, ProviderRegistry,
};
use crate::sidebar::window_synced;
use crate::state::{
    Activity, AgentMode, AgentsFile, App, Config, MessageAreaState, Overlay, ProjectInfo, Rect,
    SelectionState, SidebarLsp, SidebarState, StatusLineState,
};
use crate::tasks::errors_added;
use crate::text::{cat3, join, join_text, lemma_views_push, opt_text, views};
use crate::tool::{is_prefixed_tool_name, mcp_names, ToolName};
use vstd::prelude::*;
use vstd::string::*;

verus! {

pub const NO_PROVIDERS: &'static str =
    "No providers configured. Create a .steve.jsonc config file or a global ~/.config/steve/config.jsonc to get started.";

/// The profile of the permissions where the configuration names none.
pub const DEFAULT_PROFILE: &'static str = "standard";

/// What the tasks of a project are named after where it has no repository.
pub const DEFAULT_REPO: &'static str = "proj";

/// What the permissions go by besides the rules in the configuration.
#[derive(Debug, PartialEq, Eq)]
pub struct PermissionSetup {
    pub profile: String,
    pub allowed: Vec<ToolName>,
    pub plan: bool,
}

/// Whether no provider of a registry can be used.
pub open spec fn is_registry_empty(registry: Option<ProviderRegistry>) -> bool {
    registry matches Some(r) && r.providers@.len() == 0
}

/// What the application says at start: what is wrong with the configuration,
/// then that there are no providers or which of them are missing.
pub open spec fn startup_blocks(
    blocks: Seq<MessageBlock>,
    config: Config,
    registry: Option<ProviderRegistry>,
    missing: Seq<ProviderInitWarning>,
    warnings: Seq<Seq<char>>,
) -> bool {
    let n = warnings.len() as int;
    &&& blocks.len() >= n
    &&& errors_added(Seq::empty(), blocks.take(n), warnings)
    &&& if config.has_providers {
        errors_added(
            blocks.take(n),
            blocks,
            missing_messages(is_registry_empty(registry), opt_text(config.model), missing),
        )
    } else {
        blocks.len() == n + 1 && blocks[n].is_assistant_text(NO_PROVIDERS@)
    }
}

/// The sidebar as it starts.
pub open spec fn is_new_sidebar(s: SidebarState, lsp_servers: Vec<SidebarLsp>) -> bool {
    &&& s == (SidebarState {
        session_title: s.session_title,
        model_name: s.model_name,
        prompt_tokens: 0,
        completion_tokens: 0,
        total_tokens: 0,
        tasks: s.tasks,
        session_closed_task_ids: s.session_closed_task_ids,
        changes: s.changes,
        git_branch: None,
        git_dirty: false,
        git_repo_name: None,
        lsp_servers,
        mcp_servers: s.mcp_servers,
    })
    &&& s.session_title@.len() == 0
    &&& s.model_name@.len() == 0
    &&& s.tasks@.len() == 0
    &&& s.session_closed_task_ids@.len() == 0
    &&& s.changes@.len() == 0
    &&& s.mcp_servers@.len() == 0
}

/// The status line as it starts.
pub open spec fn is_new_status(s: StatusLineState) -> bool {
    &&& s == (StatusLineState {
        activity: Activity::Idle,
        context_window: 0,
        last_prompt_tokens: 0,
        total_tokens: 0,
        model_name: s.model_name,
    })
    &&& s.model_name@.len() == 0
}

/// The application as it starts, but for the context window of its model.
pub open spec fn is_new_app(
    app: App,
    project: ProjectInfo,
    config: Config,
    agents_files: Vec<AgentsFile>,
    registry: Option<ProviderRegistry>,
    missing: Vec<ProviderInitWarning>,
    warnings: Seq<Seq<char>>,
    lsp_servers: Vec<SidebarLsp>,
) -> bool {
    &&& app == (App {
        project,
        config,
        agents_files,
        provider_registry: registry,
        missing_api_keys: missing,
        current_model: config.model,
        current_session: None,
        mode: AgentMode::Build,
        messages: app.messages,
        message_area_state: MessageAreaState {
            scroll_offset: 0,
            auto_scroll: true,
            content_height: 0,
            visible_height: 0,
        },
        sidebar_state: app.sidebar_state,
        status_line_state: app.status_line_state,
        is_loading: false,
        stored_messages: app.stored_messages,
        streaming_active: false,
        stream_start_time: None,
        frozen_elapsed: None,
        streaming_message: None,
        exchange_count: 0,
        pending_permission: None,
        pending_question: None,
        pending_agents_update: None,
        session_picker: Overlay { visible: false },
        stream_cancel: false,
        interjection_tx: false,
        auto_compact_failed: false,
        context_warned: false,
        last_prompt_tokens: 0,
        sidebar_override: None,
        file_index: None,
        model_picker: Overlay { visible: false },
        diagnostics_overlay: Overlay { visible: false },
        mcp_overlay: Overlay { visible: false },
        lsp_diagnostics_overlay: Overlay { visible: false },
        compaction_count: 0,
        selection_state: SelectionState {
            anchor: None,
            cursor: None,
            dragging: false,
            copied_flash: None,
        },
        last_message_area: Rect { x: 0, y: 0, width: 0, height: 0 },
        should_quit: false,
    })
    &&& app.stored_messages@.len() == 0
    &&& is_new_sidebar(app.sidebar_state, lsp_servers)
    &&& is_new_status(app.status_line_state)
    &&& startup_blocks(app.messages@, config, registry, missing@, warnings)
}

fn push_errors(blocks: &mut Vec<MessageBlock>, texts: Vec<String>)
    ensures
        errors_added(old(blocks)@, final(blocks)@, views(texts@)),
{
    let ghost start = blocks@;
    let ghost all = views(texts@);
    let mut i: usize = 0;
    proof {
        assert(blocks@.take(blocks@.len() as int) =~= start);
    }
    while i < texts.len()
        invariant
            i <= texts@.len(),
            all == views(texts@),
            errors_added(start, blocks@, all.take(i as int)),
        decreases texts@.len() - i,
    {
        let ghost before = blocks@;
        blocks.push(MessageBlock::Error { text: texts[i].clone() });
        proof {
            let n = start.len();
            let more = all.take(i + 1);
            assert(blocks@.take(n as int) =~= before.take(n as int));
            assert forall|k: int| 0 <= k < more.len() implies (#[trigger] blocks@[n
                + k]).is_error_text(more[k]) by {
                if k < i {
                    assert(blocks@[n + k] == before[n + k]);
                    assert(all.take(i as int)[k] == more[k]);
                }
            }
        }
        i = i + 1;
    }
    proof {
        assert(all.take(all.len() as int) =~= all);
    }
}

fn first_blocks(
    config: &Config,
    registry: &Option<ProviderRegistry>,
    missing: &Vec<ProviderInitWarning>,
    warnings: Vec<String>,
) -> (r: Vec<MessageBlock>)
    ensures
        startup_blocks(r@, *config, *registry, missing@, views(warnings@)),
{
    let ghost n = warnings@.len() as int;
    let ghost said = views(warnings@);
    let mut blocks: Vec<MessageBlock> = Vec::new();
    let ghost none = blocks@;
    push_errors(&mut blocks, warnings);
    let ghost first = blocks@;
    proof {
        assert(none =~= Seq::<MessageBlock>::empty());
        assert(first.take(n) =~= first);
    }
    if config.has_providers {
        let registry_empty = match registry {
            Some(r) => r.is_empty(),
            None => false,
        };
        let default_model = match &config.model {
            Some(m) => Some(m.as_str()),
            None => None,
        };
        push_errors(
            &mut blocks,
            build_missing_provider_messages(registry_empty, default_model, missing),
        );
        proof {
            assert(blocks@.take(n) =~= first);
        }
    } else {
        blocks.push(MessageBlock::assistant_text(NO_PROVIDERS.to_owned()));
        proof {
            assert(blocks@.take(n) =~= first);
        }
    }
    blocks
}

/// A language whose server was to be started, and whether it runs.
#[derive(Debug, PartialEq, Eq)]
pub struct LanguageStatus {
    pub language: String,
    pub running: bool,
}

/// The languages whose servers run.
pub open spec fn running_languages(status: Seq<LanguageStatus>) -> Seq<Seq<char>>
    decreases status.len(),
{
    if status.len() == 0 {
        Seq::empty()
    } else {
        let before = running_languages(status.drop_last());
        if status.last().running {
            before.push(status.last().language@)
        } else {
            before
        }
    }
}

/// What the user is told of the servers that were started: nothing where
/// there are none.
pub open spec fn started_notice(kind: Seq<char>, names: Seq<Seq<char>>) -> Option<Seq<char>> {
    if names.len() == 0 {
        None
    } else {
        Some(kind + " servers started: "@ + join(names, ", "@))
    }
}

/// What the user is told of the language servers that were started.
pub fn lsp_notice(status: &Vec<LanguageStatus>) -> (r: Option<String>)
    ensures
        opt_text(r) == started_notice("LSP"@, running_languages(status@)),
{
    let mut running: Vec<String> = Vec::new();
    let mut i: usize = 0;
    while i < status.len()
        invariant
            i <= status@.len(),
            views(running@) == running_languages(status@.take(i as int)),
        decreases status@.len() - i,
    {
        proof {
            assert(status@.take(i + 1).drop_last() =~= status@.take(i as int));
            assert(status@.take(i + 1).last() == status@[i as int]);
        }
        if status[i].running {
            let language = status[i].language.clone();
            proof {
                lemma_views_push(running@, language);
            }
            running.push(language);
        }
        i = i + 1;
    }
    proof {
        assert(status@.take(status@.len() as int) =~= status@);
        assert(views(running@).len() == running@.len());
    }
    if running.len() == 0 {
        None
    } else {
        Some(cat3("LSP", " servers started: ", join_text(&running, ", ").as_str()))
    }
}

/// What the user is told of the MCP servers that were started.
pub fn mcp_notice(summary: &Vec<String>) -> (r: Option<String>)
    ensures
        opt_text(r) == started_notice("MCP"@, views(summary@)),
{
    proof {
        assert(views(summary@).len() == summary@.len());
    }
    if summary.len() == 0 {
        None
    } else {
        Some(cat3("MCP", " servers started: ", join_text(summary, ", ").as_str()))
    }
}

/// What the user is told of a language server that was restarted.
pub fn restart_notice(language: &str) -> (r: String)
    ensures
        r@ == "LSP "@ + language@ + " server restarted successfully"@,
{
    cat3("LSP ", language, " server restarted successfully")
}

/// What the tasks of a project are named after: its repository, if it has one.
pub fn task_prefix(repo_name: Option<String>) -> (r: String)
    ensures
        r@ == (match repo_name {
            Some(name) => name@,
            None => DEFAULT_REPO@,
        }),
{
    match repo_name {
        Some(name) => name,
        None => DEFAULT_REPO.to_owned(),
    }
}

impl App {
    /// The application as it starts.
    pub fn new(
        project: ProjectInfo,
        config: Config,
        agents_files: Vec<AgentsFile>,
        provider_registry: Option<ProviderRegistry>,
        missing_api_keys: Vec<ProviderInitWarning>,
        config_warnings: Vec<String>,
        lsp_servers: Vec<SidebarLsp>,
    ) -> (r: App)
        ensures
            exists|base: App|
                {
                    &&& #[trigger] is_new_app(
                        base,
                        project,
                        config,
                        agents_files,
                        provider_registry,
                        missing_api_keys,
                        views(config_warnings@),
                        lsp_servers,
                    )
                    &&& r == window_synced(base)
                },
            r.wf(),
    {
        let messages = first_blocks(
            &config,
            &provider_registry,
            &missing_api_keys,
            config_warnings,
        );
        let current_model = match &config.model {
            Some(m) => Some(m.clone()),
            None => None,
        };
        let mut app = App {
            project,
            config,
            agents_files,
            provider_registry,
            missing_api_keys,
            current_model,
            current_session: None,
            mode: AgentMode::Build,
            messages,
            message_area_state: MessageAreaState::default(),
            sidebar_state: SidebarState {
                session_title: String::new(),
                model_name: String::new(),
                prompt_tokens: 0,
                completion_tokens: 0,
                total_tokens: 0,
                tasks: Vec::new(),
                session_closed_task_ids: Vec::new(),
                changes: Vec::new(),
                git_branch: None,
                git_dirty: false,
                git_repo_name: None,
                lsp_servers,
                mcp_servers: Vec::new(),
            },
            status_line_state: StatusLineState {
                activity: Activity::Idle,
                context_window: 0,
                last_prompt_tokens: 0,
                total_tokens: 0,
                model_name: String::new(),
            },
            is_loading: false,
            stored_messages: Vec::new(),
            streaming_active: false,
            stream_start_time: None,
            frozen_elapsed: None,
            streaming_message: None,
            exchange_count: 0,
            pending_permission: None,
            pending_question: None,
            pending_agents_update: None,
            session_picker: Overlay { visible: false },
            stream_cancel: false,
            interjection_tx: false,
            auto_compact_failed: false,
            context_warned: false,
            last_prompt_tokens: 0,
            sidebar_override: None,
            file_index: None,
            model_picker: Overlay { visible: false },
            diagnostics_overlay: Overlay { visible: false },
            mcp_overlay: Overlay { visible: false },
            lsp_diagnostics_overlay: Overlay { visible: false },
            compaction_count: 0,
            selection_state: SelectionState {
                anchor: None,
                cursor: None,
                dragging: false,
                copied_flash: None,
            },
            last_message_area: Rect { x: 0, y: 0, width: 0, height: 0 },
            should_quit: false,
        };
        let ghost base = app;
        app.sync_context_window();
        proof {
            assert(is_new_app(
                base,
                project,
                config,
                agents_files,
                provider_registry,
                missing_api_keys,
                views(config_warnings@),
                lsp_servers,
            ));
        }
        app
    }

    /// Offers the models to choose from, where there are some and none is in use.
    pub fn prompt_model_if_needed(&mut self, fx: &mut Vec<Effect>)
        ensures
            if old(self).current_model is None && (old(self).provider_registry matches Some(r)
                && r.listed().len() > 0) {
                models_offered(*old(self), *final(self), old(fx)@, final(fx)@)
            } else {
                *final(self) == *old(self) && final(fx)@ == old(fx)@
            },
            old(self).wf() ==> final(self).wf(),
    {
        let offered = match &self.provider_registry {
            Some(r) => {
                let models = r.list_models();
                proof {
                    assert(crate::providers::pair_views(models@).len() == models@.len());
                }
                models.len() > 0
            },
            None => false,
        };
        if self.current_model.is_none() && offered {
            self.offer_models(fx);
            proof {
                reveal(models_offered);
            }
        }
    }

    /// What the permissions are to go by.
    pub fn permission_setup(&self) -> (r: PermissionSetup)
        ensures
            r.profile@ == (match self.config.permission_profile {
                Some(profile) => profile@,
                None => DEFAULT_PROFILE@,
            }),
            r.allowed@ == named_tools(views(self.config.allow_tools@)),
            r.plan == (self.mode == AgentMode::Plan),
    {
        let profile = match &self.config.permission_profile {
            Some(profile) => profile.clone(),
            None => DEFAULT_PROFILE.to_owned(),
        };
        PermissionSetup {
            profile,
            allowed: self.allowed_tools(),
            plan: self.mode == AgentMode::Plan,
        }
    }

    /// The tools of MCP servers that the configuration allows without asking.
    pub fn mcp_overrides(&self) -> (r: Vec<String>)
        ensures
            views(r@) == mcp_names(views(self.config.allow_tools@)),
    {
        let mut out: Vec<String> = Vec::new();
        let ghost all = views(self.config.allow_tools@);
        let mut i: usize = 0;
        proof {
            assert(views(out@) =~= mcp_names(all.take(0)));
        }
        while i < self.config.allow_tools.len()
            invariant
                i <= self.config.allow_tools@.len(),
                all == views(self.config.allow_tools@),
                views(out@) == mcp_names(all.take(i as int)),
            decreases self.config.allow_tools@.len() - i,
        {
            let name = &self.config.allow_tools[i];
            proof {
                assert(all.take(i + 1).drop_last() =~= all.take(i as int));
                assert(all.take(i + 1).last() == name@);
            }
            if is_prefixed_tool_name(name.as_str()) {
                let copy = name.clone();
                proof {
                    lemma_views_push(out@, copy);
                }
                out.push(copy);
            }
            i = i + 1;
        }
        proof {
            assert(all.take(all.len() as int) =~= all);
        }
        out
    }

    /// The tools that the configuration allows without asking.
    pub fn allowed_tools(&self) -> (r: Vec<ToolName>)
        ensures
            r@ == named_tools(views(self.config.allow_tools@)),
    {
        let mut out: Vec<ToolName> = Vec::new();
        let ghost all = views(self.config.allow_tools@);
        let mut i: usize = 0;
        while i < self.config.allow_tools.len()
            invariant
                i <= self.config.allow_tools@.len(),
                all == views(self.config.allow_tools@),
                out@ == named_tools(all.take(i as int)),
            decreases self.config.allow_tools@.len() - i,
        {
            proof {
                assert(all.take(i + 1).drop_last() =~= all.take(i as int));
                assert(all.take(i + 1).last() == self.config.allow_tools@[i as int]@);
            }
            match ToolName::from_name(self.config.allow_tools[i].as_str()) {
                Some(t) => {
                    out.push(t);
                },
                None => {},
            }
            i = i + 1;
        }
        proof {
            assert(all.take(all.len() as int) =~= all);
        }
        out
    }
}

/// The tools among `names`, in order; names of no tool are left out.
pub open spec fn named_tools(names: Seq<Seq<char>>) -> Seq<ToolName>
    decreases names.len(),
{
    if names.len() == 0 {
        Seq::empty()
    } else {
        let before = named_tools(names.drop_last());
        match ToolName::named(names.last()) {
            Some(t) => before.push(t),
            None => before,
        }
    }
}

} // verus!
