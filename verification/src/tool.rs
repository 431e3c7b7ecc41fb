//! The tools that the model can call.
use crate::text::{cat4, chars_of, same_text, starts_with};
use vstd::prelude::*;
use vstd::string::*;

verus! {

/// The name of a tool.
#[derive(Clone, Copy, Debug, PartialEq, Eq, Structural)]
pub enum ToolName {
    Read,
    Grep,
    Glob,
    List,
    Edit,
    Write,
    Patch,
    Bash,
    Question,
    Task,
    Webfetch,
    Memory,
    Move,
    Copy,
    Delete,
    Mkdir,
    Symbols,
    Lsp,
    Agent,
}

/// What a tool call gave back.
#[derive(Debug, PartialEq, Eq)]
pub struct ToolOutput {
    pub title: String,
    pub output: String,
    pub is_error: bool,
}

impl ToolName {
    /// The name as the model writes it.
    pub open spec fn name(self) -> Seq<char> {
        match self {
            ToolName::Read => "read"@,
            ToolName::Grep => "grep"@,
            ToolName::Glob => "glob"@,
            ToolName::List => "list"@,
            ToolName::Edit => "edit"@,
            ToolName::Write => "write"@,
            ToolName::Patch => "patch"@,
            ToolName::Bash => "bash"@,
            ToolName::Question => "question"@,
            ToolName::Task => "task"@,
            ToolName::Webfetch => "webfetch"@,
            ToolName::Memory => "memory"@,
            ToolName::Move => "move"@,
            ToolName::Copy => "copy"@,
            ToolName::Delete => "delete"@,
            ToolName::Mkdir => "mkdir"@,
            ToolName::Symbols => "symbols"@,
            ToolName::Lsp => "lsp"@,
            ToolName::Agent => "agent"@,
        }
    }

    /// The name as the model writes it.
    pub fn as_str(&self) -> (r: &'static str)
        ensures
            r@ == self.name(),
    {
        match self {
            ToolName::Read => "read",
            ToolName::Grep => "grep",
            ToolName::Glob => "glob",
            ToolName::List => "list",
            ToolName::Edit => "edit",
            ToolName::Write => "write",
            ToolName::Patch => "patch",
            ToolName::Bash => "bash",
            ToolName::Question => "question",
            ToolName::Task => "task",
            ToolName::Webfetch => "webfetch",
            ToolName::Memory => "memory",
            ToolName::Move => "move",
            ToolName::Copy => "copy",
            ToolName::Delete => "delete",
            ToolName::Mkdir => "mkdir",
            ToolName::Symbols => "symbols",
            ToolName::Lsp => "lsp",
            ToolName::Agent => "agent",
        }
    }

    /// The tool with this name.
    pub open spec fn named(name: Seq<char>) -> Option<ToolName> {
        if name == "read"@ {
            Some(ToolName::Read)
        } else if name == "grep"@ {
            Some(ToolName::Grep)
        } else if name == "glob"@ {
            Some(ToolName::Glob)
        } else if name == "list"@ {
            Some(ToolName::List)
        } else if name == "edit"@ {
            Some(ToolName::Edit)
        } else if name == "write"@ {
            Some(ToolName::Write)
        } else if name == "patch"@ {
            Some(ToolName::Patch)
        } else if name == "bash"@ {
            Some(ToolName::Bash)
        } else if name == "question"@ {
            Some(ToolName::Question)
        } else if name == "task"@ {
            Some(ToolName::Task)
        } else if name == "webfetch"@ {
            Some(ToolName::Webfetch)
        } else if name == "memory"@ {
            Some(ToolName::Memory)
        } else if name == "move"@ {
            Some(ToolName::Move)
        } else if name == "copy"@ {
            Some(ToolName::Copy)
        } else if name == "delete"@ {
            Some(ToolName::Delete)
        } else if name == "mkdir"@ {
            Some(ToolName::Mkdir)
        } else if name == "symbols"@ {
            Some(ToolName::Symbols)
        } else if name == "lsp"@ {
            Some(ToolName::Lsp)
        } else if name == "agent"@ {
            Some(ToolName::Agent)
        } else {
            None
        }
    }

    /// The tool with this name.
    pub fn from_name(name: &str) -> (r: Option<ToolName>)
        ensures
            r == ToolName::named(name@),
    {
        if same_text(name, "read") {
            Some(ToolName::Read)
        } else if same_text(name, "grep") {
            Some(ToolName::Grep)
        } else if same_text(name, "glob") {
            Some(ToolName::Glob)
        } else if same_text(name, "list") {
            Some(ToolName::List)
        } else if same_text(name, "edit") {
            Some(ToolName::Edit)
        } else if same_text(name, "write") {
            Some(ToolName::Write)
        } else if same_text(name, "patch") {
            Some(ToolName::Patch)
        } else if same_text(name, "bash") {
            Some(ToolName::Bash)
        } else if same_text(name, "question") {
            Some(ToolName::Question)
        } else if same_text(name, "task") {
            Some(ToolName::Task)
        } else if same_text(name, "webfetch") {
            Some(ToolName::Webfetch)
        } else if same_text(name, "memory") {
            Some(ToolName::Memory)
        } else if same_text(name, "move") {
            Some(ToolName::Move)
        } else if same_text(name, "copy") {
            Some(ToolName::Copy)
        } else if same_text(name, "delete") {
            Some(ToolName::Delete)
        } else if same_text(name, "mkdir") {
            Some(ToolName::Mkdir)
        } else if same_text(name, "symbols") {
            Some(ToolName::Symbols)
        } else if same_text(name, "lsp") {
            Some(ToolName::Lsp)
        } else if same_text(name, "agent") {
            Some(ToolName::Agent)
        } else {
            None
        }
    }

    /// Every tool once.
    pub fn all() -> (r: Vec<ToolName>)
        ensures
            forall|t: ToolName| #[trigger] r@.contains(t),
            r@.no_duplicates(),
    {
        let v = vec![
            ToolName::Read,
            ToolName::Grep,
            ToolName::Glob,
            ToolName::List,
            ToolName::Edit,
            ToolName::Write,
            ToolName::Patch,
            ToolName::Bash,
            ToolName::Question,
            ToolName::Task,
            ToolName::Webfetch,
            ToolName::Memory,
            ToolName::Move,
            ToolName::Copy,
            ToolName::Delete,
            ToolName::Mkdir,
            ToolName::Symbols,
            ToolName::Lsp,
            ToolName::Agent,
        ];
        proof {
            assert forall|t: ToolName| #[trigger] v@.contains(t) by {
                let i: int = match t {
                    ToolName::Read => 0,
                    ToolName::Grep => 1,
                    ToolName::Glob => 2,
                    ToolName::List => 3,
                    ToolName::Edit => 4,
                    ToolName::Write => 5,
                    ToolName::Patch => 6,
                    ToolName::Bash => 7,
                    ToolName::Question => 8,
                    ToolName::Task => 9,
                    ToolName::Webfetch => 10,
                    ToolName::Memory => 11,
                    ToolName::Move => 12,
                    ToolName::Copy => 13,
                    ToolName::Delete => 14,
                    ToolName::Mkdir => 15,
                    ToolName::Symbols => 16,
                    ToolName::Lsp => 17,
                    ToolName::Agent => 18,
                };
                assert(v@[i] == t);
            }
        }
        v
    }
}

/// A tool is found again by its name.
pub proof fn tool_is_found_by_name(tool: ToolName)
    ensures
        ToolName::named(tool.name()) == Some(tool),
{
    reveal_strlit("read");
    assert("read"@.len() == 4);
    reveal_strlit("grep");
    assert("grep"@.len() == 4);
    reveal_strlit("glob");
    assert("glob"@.len() == 4);
    reveal_strlit("list");
    assert("list"@.len() == 4);
    reveal_strlit("edit");
    assert("edit"@.len() == 4);
    reveal_strlit("write");
    assert("write"@.len() == 5);
    reveal_strlit("patch");
    assert("patch"@.len() == 5);
    reveal_strlit("bash");
    assert("bash"@.len() == 4);
    reveal_strlit("question");
    assert("question"@.len() == 8);
    reveal_strlit("task");
    assert("task"@.len() == 4);
    reveal_strlit("webfetch");
    assert("webfetch"@.len() == 8);
    reveal_strlit("memory");
    assert("memory"@.len() == 6);
    reveal_strlit("move");
    assert("move"@.len() == 4);
    reveal_strlit("copy");
    assert("copy"@.len() == 4);
    reveal_strlit("delete");
    assert("delete"@.len() == 6);
    reveal_strlit("mkdir");
    assert("mkdir"@.len() == 5);
    reveal_strlit("symbols");
    assert("symbols"@.len() == 7);
    reveal_strlit("lsp");
    assert("lsp"@.len() == 3);
    reveal_strlit("agent");
    assert("agent"@.len() == 5);
    assert("read"@[0] != "grep"@[0]);
    assert("read"@[0] != "glob"@[0]);
    assert("read"@[0] != "list"@[0]);
    assert("read"@[0] != "edit"@[0]);
    assert("read"@[0] != "bash"@[0]);
    assert("read"@[0] != "task"@[0]);
    assert("read"@[0] != "move"@[0]);
    assert("read"@[0] != "copy"@[0]);
    assert("grep"@[1] != "glob"@[1]);
    assert("grep"@[0] != "list"@[0]);
    assert("grep"@[0] != "edit"@[0]);
    assert("grep"@[0] != "bash"@[0]);
    assert("grep"@[0] != "task"@[0]);
    assert("grep"@[0] != "move"@[0]);
    assert("grep"@[0] != "copy"@[0]);
    assert("glob"@[0] != "list"@[0]);
    assert("glob"@[0] != "edit"@[0]);
    assert("glob"@[0] != "bash"@[0]);
    assert("glob"@[0] != "task"@[0]);
    assert("glob"@[0] != "move"@[0]);
    assert("glob"@[0] != "copy"@[0]);
    assert("list"@[0] != "edit"@[0]);
    assert("list"@[0] != "bash"@[0]);
    assert("list"@[0] != "task"@[0]);
    assert("list"@[0] != "move"@[0]);
    assert("list"@[0] != "copy"@[0]);
    assert("edit"@[0] != "bash"@[0]);
    assert("edit"@[0] != "task"@[0]);
    assert("edit"@[0] != "move"@[0]);
    assert("edit"@[0] != "copy"@[0]);
    assert("bash"@[0] != "task"@[0]);
    assert("bash"@[0] != "move"@[0]);
    assert("bash"@[0] != "copy"@[0]);
    assert("task"@[0] != "move"@[0]);
    assert("task"@[0] != "copy"@[0]);
    assert("move"@[0] != "copy"@[0]);
    assert("write"@[0] != "patch"@[0]);
    assert("write"@[0] != "mkdir"@[0]);
    assert("write"@[0] != "agent"@[0]);
    assert("patch"@[0] != "mkdir"@[0]);
    assert("patch"@[0] != "agent"@[0]);
    assert("mkdir"@[0] != "agent"@[0]);
    assert("question"@[0] != "webfetch"@[0]);
    assert("memory"@[0] != "delete"@[0]);
}

/// The name under which the tool of an MCP server goes.
pub open spec fn mcp_name(server: Seq<char>, tool: Seq<char>) -> Seq<char> {
    "mcp__"@ + server + "__"@ + tool
}

/// Whether `name` is that of a tool of an MCP server, the server's name ending at `k`.
pub open spec fn mcp_name_at(name: Seq<char>, k: int) -> bool {
    &&& "mcp__"@.is_prefix_of(name)
    &&& "mcp__"@.len() < k
    &&& k + 2 < name.len()
    &&& name[k] == '_'
    &&& name[k + 1] == '_'
}

/// Whether `name` is that of a tool of an MCP server.
pub open spec fn is_mcp_name(name: Seq<char>) -> bool {
    exists|k: int| mcp_name_at(name, k)
}

/// The names among `names` that are those of tools of MCP servers, in order.
pub open spec fn mcp_names(names: Seq<Seq<char>>) -> Seq<Seq<char>>
    decreases names.len(),
{
    if names.len() == 0 {
        Seq::empty()
    } else {
        let before = mcp_names(names.drop_last());
        if is_mcp_name(names.last()) {
            before.push(names.last())
        } else {
            before
        }
    }
}

/// The name under which the tool of an MCP server goes.
pub fn prefixed_tool_name(server: &str, tool: &str) -> (r: String)
    ensures
        r@ == mcp_name(server@, tool@),
{
    cat4("mcp__", server, "__", tool)
}

/// Whether `name` is that of a tool of an MCP server.
pub fn is_prefixed_tool_name(name: &str) -> (r: bool)
    ensures
        r == is_mcp_name(name@),
{
    proof {
        reveal_strlit("mcp__");
    }
    if !starts_with(name, "mcp__") {
        return false;
    }
    let cs = chars_of(name);
    let n: usize = cs.len();
    let mut k: usize = 6;
    while k < n && n - k > 2
        invariant
            6 <= k,
            n == cs@.len(),
            cs@ == name@,
            "mcp__"@.len() == 5,
            "mcp__"@.is_prefix_of(name@),
            forall|j: int| 6 <= j < k ==> !mcp_name_at(name@, j),
        decreases n - k,
    {
        if cs[k] == '_' && cs[k + 1] == '_' {
            proof {
                assert(mcp_name_at(name@, k as int));
            }
            return true;
        }
        k = k + 1;
    }
    false
}

/// A name is that of a tool of an MCP server exactly where it is put together
/// from the name of a server and the name of a tool.
pub proof fn mcp_names_are_recognised(name: Seq<char>)
    ensures
        is_mcp_name(name) <==> exists|server: Seq<char>, tool: Seq<char>|
            server.len() > 0 && tool.len() > 0 && name == #[trigger] mcp_name(server, tool),
{
    reveal_strlit("mcp__");
    reveal_strlit("__");
    if is_mcp_name(name) {
        let k = choose|k: int| mcp_name_at(name, k);
        let server = name.subrange(5, k);
        let tool = name.skip(k + 2);
        assert(name.subrange(0, 5) == "mcp__"@);
        assert(name =~= mcp_name(server, tool));
    }
    if exists|server: Seq<char>, tool: Seq<char>|
        server.len() > 0 && tool.len() > 0 && name == #[trigger] mcp_name(server, tool) {
        let (server, tool) = choose|server: Seq<char>, tool: Seq<char>|
            server.len() > 0 && tool.len() > 0 && name == #[trigger] mcp_name(server, tool);
        assert(name.subrange(0, 5) =~= "mcp__"@);
        assert(mcp_name_at(name, 5 + server.len() as int));
    }
}

} // verus!
