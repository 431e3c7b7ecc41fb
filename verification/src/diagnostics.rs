//! What the health checks look at.
use crate::prompt::{all_instructions, prompt_at, LocalTime, PromptFacts};
use crate::state::{App, LspState, SidebarLsp, SidebarMcp};
use crate::text::{byte_count, byte_len, clone_texts, opt_text};
use vstd::prelude::*;
use vstd::string::*;

verus! {

/// A language server, and whether it runs.
#[derive(Debug, PartialEq, Eq)]
pub struct LspCheck {
    pub binary: String,
    pub running: bool,
}

/// A connected MCP server, and how much it offers.
#[derive(Debug, PartialEq, Eq)]
pub struct McpCheck {
    pub server_id: String,
    pub tool_count: usize,
    pub resource_count: usize,
    pub prompt_count: usize,
}

/// What the health checks need from outside.
#[derive(Debug, PartialEq, Eq)]
pub struct DiagnosticFacts {
    pub at: LocalTime,
    pub prompt: PromptFacts,
    pub cache_hits: u64,
    pub cache_misses: u64,
    pub mcp_configured: Vec<String>,
}

/// What the health checks look at.
#[derive(Debug, PartialEq, Eq)]
pub struct DiagnosticInput {
    pub agents_md: Option<String>,
    /// How many bytes the system prompt takes; none where there is no prompt.
    pub system_prompt_len: u128,
    pub lsp_servers: Vec<LspCheck>,
    pub total_tokens: u64,
    pub exchange_count: usize,
    pub cache_hits: u64,
    pub cache_misses: u64,
    pub compaction_count: u32,
    pub mcp_configured: Vec<String>,
    pub mcp_connected: Vec<McpCheck>,
}

/// Whether a language server answers questions.
pub open spec fn is_running(state: LspState) -> bool {
    state == LspState::Ready || state == LspState::Indexing
}

/// The language servers as the checks see them.
pub open spec fn lsp_checks(servers: Seq<SidebarLsp>) -> Seq<LspCheck> {
    Seq::new(
        servers.len(),
        |i: int| LspCheck { binary: servers[i].binary, running: is_running(servers[i].state) },
    )
}

/// The connected MCP servers as the checks see them.
pub open spec fn mcp_checks(servers: Seq<SidebarMcp>) -> Seq<McpCheck>
    decreases servers.len(),
{
    if servers.len() == 0 {
        Seq::empty()
    } else {
        let before = mcp_checks(servers.drop_last());
        let s = servers.last();
        if s.connected {
            before.push(
                McpCheck {
                    server_id: s.server_id,
                    tool_count: s.tool_count,
                    resource_count: s.resource_count,
                    prompt_count: s.prompt_count,
                },
            )
        } else {
            before
        }
    }
}

/// Whether `input` is what the health checks are to look at.
pub open spec fn is_diagnostic_input(app: App, facts: DiagnosticFacts, input: DiagnosticInput) -> bool {
    &&& opt_text(input.agents_md) == all_instructions(app)
    &&& input.system_prompt_len == (match prompt_at(app, facts.at, facts.prompt) {
        Some(p) => byte_len(p),
        None => 0,
    })
    &&& input.lsp_servers@ == lsp_checks(app.sidebar_state.lsp_servers@)
    &&& input.total_tokens == (match app.current_session {
        Some(s) => s.token_usage.total_tokens,
        None => 0,
    })
    &&& input.exchange_count == app.exchange_count
    &&& input.cache_hits == facts.cache_hits
    &&& input.cache_misses == facts.cache_misses
    &&& input.compaction_count == app.compaction_count
    &&& input.mcp_configured@ == facts.mcp_configured@
    &&& input.mcp_connected@ == mcp_checks(app.sidebar_state.mcp_servers@)
}

fn check_lsp(servers: &Vec<SidebarLsp>) -> (r: Vec<LspCheck>)
    ensures
        r@ == lsp_checks(servers@),
{
    let mut out: Vec<LspCheck> = Vec::new();
    let mut i: usize = 0;
    while i < servers.len()
        invariant
            i <= servers@.len(),
            out@.len() == i,
            forall|j: int| 0 <= j < i ==> #[trigger] out@[j] == lsp_checks(servers@)[j],
        decreases servers@.len() - i,
    {
        let state = servers[i].state;
        let running = state == LspState::Ready || state == LspState::Indexing;
        out.push(LspCheck { binary: servers[i].binary.clone(), running });
        i = i + 1;
    }
    proof {
        assert(out@ =~= lsp_checks(servers@));
    }
    out
}

fn check_mcp(servers: &Vec<SidebarMcp>) -> (r: Vec<McpCheck>)
    ensures
        r@ == mcp_checks(servers@),
{
    let mut out: Vec<McpCheck> = Vec::new();
    let mut i: usize = 0;
    while i < servers.len()
        invariant
            i <= servers@.len(),
            out@ == mcp_checks(servers@.take(i as int)),
        decreases servers@.len() - i,
    {
        proof {
            assert(servers@.take(i + 1).drop_last() =~= servers@.take(i as int));
            assert(servers@.take(i + 1).last() == servers@[i as int]);
        }
        if servers[i].connected {
            out.push(
                McpCheck {
                    server_id: servers[i].server_id.clone(),
                    tool_count: servers[i].tool_count,
                    resource_count: servers[i].resource_count,
                    prompt_count: servers[i].prompt_count,
                },
            );
        }
        i = i + 1;
    }
    proof {
        assert(servers@.take(servers@.len() as int) =~= servers@);
    }
    out
}

impl App {
    /// What the health checks are to look at.
    pub fn collect_diagnostics(&self, facts: &DiagnosticFacts) -> (r: DiagnosticInput)
        ensures
            is_diagnostic_input(*self, *facts, r),
    {
        let system_prompt_len: u128 = match self.build_system_prompt(facts.at, &facts.prompt) {
            Some(p) => byte_count(p.as_str()),
            None => 0,
        };
        let total_tokens: u64 = match &self.current_session {
            Some(s) => s.token_usage.total_tokens,
            None => 0,
        };
        DiagnosticInput {
            agents_md: self.combined_agents_content(),
            system_prompt_len,
            lsp_servers: check_lsp(&self.sidebar_state.lsp_servers),
            total_tokens,
            exchange_count: self.exchange_count,
            cache_hits: facts.cache_hits,
            cache_misses: facts.cache_misses,
            compaction_count: self.compaction_count,
            mcp_configured: clone_texts(&facts.mcp_configured),
            mcp_connected: check_mcp(&self.sidebar_state.mcp_servers),
        }
    }
}

} // verus!
