//! The blocks that the message area shows.
use crate::text::same_text;
use crate::tool::ToolName;
use crate::tool_display::DiffContent;
use vstd::prelude::*;
use vstd::string::*;

verus! {

/// How far a group of tool calls has come.
#[derive(Clone, Copy, Debug, PartialEq, Eq, Structural)]
pub enum ToolGroupStatus {
    Preparing,
    Running { current_tool: ToolName },
    Complete,
}

/// What a sub-agent is doing right now.
#[derive(Debug, PartialEq, Eq)]
pub struct AgentProgress {
    pub tool_name: ToolName,
    pub args_summary: String,
    pub result_summary: Option<String>,
}

/// One tool call as it is shown.
#[derive(Debug, PartialEq, Eq)]
pub struct ToolCall {
    pub call_id: String,
    pub tool_name: ToolName,
    pub args_summary: String,
    pub full_output: Option<String>,
    pub result_summary: Option<String>,
    pub diff_content: Option<DiffContent>,
    pub is_error: bool,
    pub expanded: bool,
    pub agent_progress: Option<AgentProgress>,
}

/// Tool calls that the assistant made together.
#[derive(Debug, PartialEq, Eq)]
pub struct ToolGroup {
    pub calls: Vec<ToolCall>,
    pub status: ToolGroupStatus,
}

/// A part of an assistant block.
#[derive(Debug, PartialEq, Eq)]
pub enum AssistantPart {
    Text(String),
    ToolGroup(ToolGroup),
}

/// One block of the message area.
#[derive(Debug, PartialEq, Eq)]
pub enum MessageBlock {
    User { text: String },
    Assistant { thinking: Option<String>, parts: Vec<AssistantPart> },
    System { text: String },
    Error { text: String },
    Permission { tool_name: String, args_summary: String, diff_content: Option<DiffContent> },
    Question {
        question: String,
        options: Vec<String>,
        selected: Option<usize>,
        free_text: String,
        answered: Option<String>,
    },
}

/// Whether `new` is `old` with one more element at its end.
pub open spec fn pushed<A>(old_seq: Seq<A>, new_seq: Seq<A>) -> bool {
    new_seq.len() == old_seq.len() + 1 && new_seq.drop_last() == old_seq
}

/// The index of the last of `calls` with the id `id`.
pub open spec fn last_call(calls: Seq<ToolCall>, id: Seq<char>) -> Option<int>
    decreases calls.len(),
{
    if calls.len() == 0 {
        None
    } else if calls.last().call_id@ == id {
        Some(calls.len() - 1)
    } else {
        last_call(calls.drop_last(), id)
    }
}

/// The tool calls of a part.
pub open spec fn part_calls(part: AssistantPart) -> Seq<ToolCall> {
    match part {
        AssistantPart::ToolGroup(g) => g.calls@,
        AssistantPart::Text(_) => Seq::empty(),
    }
}

/// Where the latest call with the id `id` stands: the index of its part and
/// its index within that part.
pub open spec fn find_call(parts: Seq<AssistantPart>, id: Seq<char>) -> Option<(int, int)>
    decreases parts.len(),
{
    if parts.len() == 0 {
        None
    } else {
        match last_call(part_calls(parts.last()), id) {
            Some(j) => Some((parts.len() - 1, j)),
            None => find_call(parts.drop_last(), id),
        }
    }
}

/// Whether every call has its result.
pub open spec fn all_done(calls: Seq<ToolCall>) -> bool {
    forall|i: int| 0 <= i < calls.len() ==> (#[trigger] calls[i]).result_summary is Some
}

/// `parts` after `text` was added at the end: to the last part where that is
/// text, else as a part of its own.
pub open spec fn text_added(
    old_parts: Seq<AssistantPart>,
    new_parts: Seq<AssistantPart>,
    text: Seq<char>,
) -> bool {
    if old_parts.len() > 0 && old_parts.last() is Text {
        &&& new_parts.len() == old_parts.len()
        &&& new_parts.drop_last() == old_parts.drop_last()
        &&& new_parts.last() matches AssistantPart::Text(t)
        &&& t@ == old_parts.last()->Text_0@ + text
    } else {
        &&& pushed(old_parts, new_parts)
        &&& new_parts.last() matches AssistantPart::Text(t)
        &&& t@ == text
    }
}

/// Whether the last of `parts` is a tool group that still takes calls.
pub open spec fn has_open_group(parts: Seq<AssistantPart>) -> bool {
    parts.len() > 0 && (parts.last() matches AssistantPart::ToolGroup(g) && g.status
        != ToolGroupStatus::Complete)
}

/// `parts` after a call of `tool` was added: to the last part where that is an
/// unfinished group, else in a group of its own.
pub open spec fn call_added(
    old_parts: Seq<AssistantPart>,
    new_parts: Seq<AssistantPart>,
    call: ToolCall,
) -> bool {
    &&& new_parts.len() > 0
    &&& new_parts.last() matches AssistantPart::ToolGroup(g)
    &&& g.status == (ToolGroupStatus::Running { current_tool: call.tool_name })
    &&& if has_open_group(old_parts) {
        &&& new_parts.len() == old_parts.len()
        &&& new_parts.drop_last() == old_parts.drop_last()
        &&& g.calls@ == old_parts.last()->ToolGroup_0.calls@.push(call)
    } else {
        &&& pushed(old_parts, new_parts)
        &&& g.calls@ == seq![call]
    }
}

/// `parts` after the latest call with the id `id` was replaced by `call`, and
/// its group marked complete where every call in it now has its result.
pub open spec fn call_completed(
    old_parts: Seq<AssistantPart>,
    new_parts: Seq<AssistantPart>,
    at: (int, int),
    call: ToolCall,
) -> bool {
    let g = old_parts[at.0]->ToolGroup_0;
    &&& new_parts.len() == old_parts.len()
    &&& forall|k: int|
        0 <= k < old_parts.len() && k != at.0 ==> #[trigger] new_parts[k] == old_parts[k]
    &&& new_parts[at.0] matches AssistantPart::ToolGroup(h)
    &&& h.calls@ == g.calls@.update(at.1, call)
    &&& h.status == (if all_done(h.calls@) {
        ToolGroupStatus::Complete
    } else {
        g.status
    })
}

/// `parts` after the latest call with the id `id` was replaced by `call`.
pub open spec fn call_replaced(
    old_parts: Seq<AssistantPart>,
    new_parts: Seq<AssistantPart>,
    at: (int, int),
    call: ToolCall,
) -> bool {
    let g = old_parts[at.0]->ToolGroup_0;
    &&& new_parts.len() == old_parts.len()
    &&& forall|k: int|
        0 <= k < old_parts.len() && k != at.0 ==> #[trigger] new_parts[k] == old_parts[k]
    &&& new_parts[at.0] matches AssistantPart::ToolGroup(h)
    &&& h.calls@ == g.calls@.update(at.1, call)
    &&& h.status == g.status
}

proof fn lemma_last_call(calls: Seq<ToolCall>, id: Seq<char>)
    ensures
        last_call(calls, id) matches Some(j) ==> 0 <= j < calls.len() && calls[j].call_id@ == id,
    decreases calls.len(),
{
    if calls.len() > 0 && calls.last().call_id@ != id {
        lemma_last_call(calls.drop_last(), id);
    }
}

/// A found call stands where it is said to.
pub proof fn lemma_find_call(parts: Seq<AssistantPart>, id: Seq<char>)
    ensures
        find_call(parts, id) matches Some((p, j)) ==> {
            &&& 0 <= p < parts.len()
            &&& parts[p] is ToolGroup
            &&& 0 <= j < parts[p]->ToolGroup_0.calls@.len()
            &&& parts[p]->ToolGroup_0.calls@[j].call_id@ == id
        },
    decreases parts.len(),
{
    if parts.len() > 0 {
        lemma_last_call(part_calls(parts.last()), id);
        lemma_find_call(parts.drop_last(), id);
    }
}

fn locate_in_group(calls: &Vec<ToolCall>, id: &str) -> (r: Option<usize>)
    ensures
        match r {
            Some(j) => last_call(calls@, id@) == Some(j as int) && j < calls@.len(),
            None => last_call(calls@, id@) is None,
        },
{
    let mut n: usize = calls.len();
    proof {
        assert(calls@.take(n as int) =~= calls@);
    }
    while n > 0
        invariant
            n <= calls@.len(),
            last_call(calls@, id@) == last_call(calls@.take(n as int), id@),
        decreases n,
    {
        proof {
            assert(calls@.take(n as int).last() == calls@[n - 1]);
            assert(calls@.take(n as int).drop_last() =~= calls@.take(n - 1));
        }
        if same_text(calls[n - 1].call_id.as_str(), id) {
            return Some(n - 1);
        }
        n = n - 1;
    }
    None
}

fn locate_call(parts: &Vec<AssistantPart>, id: &str) -> (r: Option<(usize, usize)>)
    ensures
        match r {
            Some((p, j)) => find_call(parts@, id@) == Some((p as int, j as int)),
            None => find_call(parts@, id@) is None,
        },
{
    let mut n: usize = parts.len();
    proof {
        assert(parts@.take(n as int) =~= parts@);
    }
    while n > 0
        invariant
            n <= parts@.len(),
            find_call(parts@, id@) == find_call(parts@.take(n as int), id@),
        decreases n,
    {
        proof {
            assert(parts@.take(n as int).last() == parts@[n - 1]);
            assert(parts@.take(n as int).drop_last() =~= parts@.take(n - 1));
        }
        match &parts[n - 1] {
            AssistantPart::ToolGroup(g) => {
                match locate_in_group(&g.calls, id) {
                    Some(j) => {
                        return Some((n - 1, j));
                    },
                    None => {},
                }
            },
            AssistantPart::Text(_) => {},
        }
        n = n - 1;
    }
    None
}

fn every_call_done(calls: &Vec<ToolCall>) -> (r: bool)
    ensures
        r == all_done(calls@),
{
    let mut i: usize = 0;
    while i < calls.len()
        invariant
            i <= calls@.len(),
            forall|k: int| 0 <= k < i ==> (#[trigger] calls@[k]).result_summary is Some,
        decreases calls@.len() - i,
    {
        if calls[i].result_summary.is_none() {
            return false;
        }
        i = i + 1;
    }
    true
}

impl MessageBlock {
    pub open spec fn is_user_text(self, t: Seq<char>) -> bool {
        self matches MessageBlock::User { text } && text@ == t
    }

    pub open spec fn is_system_text(self, t: Seq<char>) -> bool {
        self matches MessageBlock::System { text } && text@ == t
    }

    pub open spec fn is_error_text(self, t: Seq<char>) -> bool {
        self matches MessageBlock::Error { text } && text@ == t
    }

    /// Whether this is an assistant block of the one text `t`.
    pub open spec fn is_assistant_text(self, t: Seq<char>) -> bool {
        &&& self matches MessageBlock::Assistant { thinking, parts }
        &&& thinking is None
        &&& parts@.len() == 1
        &&& parts@[0] matches AssistantPart::Text(s)
        &&& s@ == t
    }

    /// Whether this is an assistant block with nothing in it.
    pub open spec fn is_blank(self) -> bool {
        self matches MessageBlock::Assistant { thinking, parts } && thinking is None
            && parts@.len() == 0
    }

    /// Whether this is a question that still waits for its answer.
    pub open spec fn is_unanswered(self) -> bool {
        self matches MessageBlock::Question { answered, .. } && answered is None
    }

    /// A block of the assistant that says `text`.
    pub fn assistant_text(text: String) -> (r: MessageBlock)
        ensures
            r.is_assistant_text(text@),
    {
        let parts = vec![AssistantPart::Text(text)];
        MessageBlock::Assistant { thinking: None, parts }
    }

    /// A block of the assistant with nothing in it yet.
    pub fn blank() -> (r: MessageBlock)
        ensures
            r.is_blank(),
    {
        MessageBlock::Assistant { thinking: None, parts: Vec::new() }
    }

    /// Whether this is a block of the assistant.
    pub fn is_assistant(&self) -> (r: bool)
        ensures
            r == (*self is Assistant),
    {
        match self {
            MessageBlock::Assistant { .. } => true,
            _ => false,
        }
    }

    /// Whether this is a block of the assistant with nothing in it.
    pub fn is_empty_assistant(&self) -> (r: bool)
        ensures
            r == self.is_blank(),
    {
        match self {
            MessageBlock::Assistant { thinking, parts } => thinking.is_none() && parts.len() == 0,
            _ => false,
        }
    }

    /// Whether this is a question that still waits for its answer.
    pub fn is_unanswered_question(&self) -> (r: bool)
        ensures
            r == self.is_unanswered(),
    {
        match self {
            MessageBlock::Question { answered, .. } => answered.is_none(),
            _ => false,
        }
    }

    /// Adds text that the assistant wrote.
    pub fn append_text(&mut self, more: &str)
        ensures
            !(*old(self) is Assistant) ==> *final(self) == *old(self),
            *old(self) is Assistant ==> {
                &&& *final(self) is Assistant
                &&& final(self)->thinking == old(self)->thinking
                &&& text_added(old(self)->parts@, final(self)->parts@, more@)
            },
    {
        match self {
            MessageBlock::Assistant { parts, .. } => {
                let n: usize = parts.len();
                let ghost before = parts@;
                if n > 0 {
                    match &mut parts[n - 1] {
                        AssistantPart::Text(t) => {
                            t.append(more);
                            proof {
                                assert(parts@.drop_last() =~= before.drop_last());
                            }
                            return;
                        },
                        AssistantPart::ToolGroup(_) => {},
                    }
                    proof {
                        assert(parts@ =~= before);
                    }
                }
                parts.push(AssistantPart::Text(more.to_owned()));
                proof {
                    assert(parts@.drop_last() =~= before);
                }
            },
            _ => {},
        }
    }

    /// Adds to what the assistant was thinking.
    pub fn append_thinking(&mut self, more: &str)
        ensures
            !(*old(self) is Assistant) ==> *final(self) == *old(self),
            *old(self) is Assistant ==> {
                &&& *final(self) is Assistant
                &&& final(self)->parts == old(self)->parts
                &&& final(self)->thinking matches Some(t)
                &&& t@ == (match old(self)->thinking {
                    Some(s) => s@ + more@,
                    None => more@,
                })
            },
    {
        match self {
            MessageBlock::Assistant { thinking, .. } => {
                match thinking {
                    Some(t) => {
                        t.append(more);
                    },
                    None => {
                        *thinking = Some(more.to_owned());
                    },
                }
            },
            _ => {},
        }
    }

    /// Makes sure that the last part is an unfinished group of tool calls.
    pub fn ensure_preparing_tool_group(&mut self)
        ensures
            !(*old(self) is Assistant) ==> *final(self) == *old(self),
            *old(self) is Assistant ==> {
                &&& *final(self) is Assistant
                &&& final(self)->thinking == old(self)->thinking
                &&& has_open_group(final(self)->parts@)
                &&& has_open_group(old(self)->parts@) ==> final(self)->parts@ == old(self)->parts@
                &&& !has_open_group(old(self)->parts@) ==> {
                    &&& pushed(old(self)->parts@, final(self)->parts@)
                    &&& final(self)->parts@.last()->ToolGroup_0.calls@.len() == 0
                    &&& final(self)->parts@.last()->ToolGroup_0.status == ToolGroupStatus::Preparing
                }
            },
    {
        match self {
            MessageBlock::Assistant { parts, .. } => {
                let n: usize = parts.len();
                let ghost before = parts@;
                if n > 0 {
                    match &parts[n - 1] {
                        AssistantPart::ToolGroup(g) => {
                            if g.status != ToolGroupStatus::Complete {
                                return;
                            }
                        },
                        AssistantPart::Text(_) => {},
                    }
                }
                parts.push(
                    AssistantPart::ToolGroup(
                        ToolGroup { calls: Vec::new(), status: ToolGroupStatus::Preparing },
                    ),
                );
                proof {
                    assert(parts@.drop_last() =~= before);
                }
            },
            _ => {},
        }
    }

    /// Adds a tool call that was just made.
    pub fn add_tool_call(
        &mut self,
        call_id: String,
        tool_name: ToolName,
        args_summary: String,
        diff_content: Option<DiffContent>,
    )
        ensures
            !(*old(self) is Assistant) ==> *final(self) == *old(self),
            *old(self) is Assistant ==> {
                &&& *final(self) is Assistant
                &&& final(self)->thinking == old(self)->thinking
                &&& call_added(
                    old(self)->parts@,
                    final(self)->parts@,
                    ToolCall {
                        call_id,
                        tool_name,
                        args_summary,
                        full_output: None,
                        result_summary: None,
                        diff_content,
                        is_error: false,
                        expanded: false,
                        agent_progress: None,
                    },
                )
            },
    {
        match self {
            MessageBlock::Assistant { parts, .. } => {
                let call = ToolCall {
                    call_id,
                    tool_name,
                    args_summary,
                    full_output: None,
                    result_summary: None,
                    diff_content,
                    is_error: false,
                    expanded: false,
                    agent_progress: None,
                };
                let status = ToolGroupStatus::Running { current_tool: tool_name };
                let n: usize = parts.len();
                let ghost before = parts@;
                let mut open = false;
                if n > 0 {
                    match &parts[n - 1] {
                        AssistantPart::ToolGroup(g) => {
                            open = g.status != ToolGroupStatus::Complete;
                        },
                        AssistantPart::Text(_) => {},
                    }
                }
                if open {
                    match &mut parts[n - 1] {
                        AssistantPart::ToolGroup(g) => {
                            g.calls.push(call);
                            g.status = status;
                        },
                        AssistantPart::Text(_) => {},
                    }
                    proof {
                        assert(parts@.drop_last() =~= before.drop_last());
                    }
                } else {
                    let ghost added = call;
                    let calls = vec![call];
                    proof {
                        assert(calls@ =~= seq![added]);
                    }
                    parts.push(AssistantPart::ToolGroup(ToolGroup { calls, status }));
                    proof {
                        assert(parts@.drop_last() =~= before);
                    }
                }
            },
            _ => {},
        }
    }

    /// Gives the latest call with the id `call_id` its result; its group is
    /// complete once every call in it has one.
    pub fn complete_tool_call(
        &mut self,
        call_id: &str,
        summary: String,
        output: String,
        is_error: bool,
    )
        ensures
            !(*old(self) is Assistant) ==> *final(self) == *old(self),
            *old(self) is Assistant ==> {
                &&& *final(self) is Assistant
                &&& final(self)->thinking == old(self)->thinking
                &&& match find_call(old(self)->parts@, call_id@) {
                    Some(at) => call_completed(
                        old(self)->parts@,
                        final(self)->parts@,
                        at,
                        ToolCall {
                            result_summary: Some(summary),
                            full_output: Some(output),
                            is_error,
                            ..old(self)->parts@[at.0]->ToolGroup_0.calls@[at.1]
                        },
                    ),
                    None => final(self)->parts@ == old(self)->parts@,
                }
            },
    {
        match self {
            MessageBlock::Assistant { parts, .. } => {
                let ghost before = parts@;
                proof {
                    lemma_find_call(parts@, call_id@);
                }
                match locate_call(parts, call_id) {
                    Some((p, j)) => {
                        match &mut parts[p] {
                            AssistantPart::ToolGroup(g) => {
                                let ghost calls_before = g.calls@;
                                let call = &mut g.calls[j];
                                call.result_summary = Some(summary);
                                call.full_output = Some(output);
                                call.is_error = is_error;
                                proof {
                                    assert(g.calls@ =~= calls_before.update(
                                        j as int,
                                        ToolCall {
                                            result_summary: Some(summary),
                                            full_output: Some(output),
                                            is_error,
                                            ..calls_before[j as int]
                                        },
                                    ));
                                }
                                if every_call_done(&g.calls) {
                                    g.status = ToolGroupStatus::Complete;
                                }
                            },
                            AssistantPart::Text(_) => {},
                        }
                    },
                    None => {},
                }
            },
            _ => {},
        }
    }

    /// Shows what the sub-agent of the latest call with the id `call_id` started to do.
    pub fn update_agent_progress(
        &mut self,
        call_id: &str,
        tool_name: ToolName,
        args_summary: String,
    )
        ensures
            !(*old(self) is Assistant) ==> *final(self) == *old(self),
            *old(self) is Assistant ==> {
                &&& *final(self) is Assistant
                &&& final(self)->thinking == old(self)->thinking
                &&& match find_call(old(self)->parts@, call_id@) {
                    Some(at) => call_replaced(
                        old(self)->parts@,
                        final(self)->parts@,
                        at,
                        ToolCall {
                            agent_progress: Some(
                                AgentProgress { tool_name, args_summary, result_summary: None },
                            ),
                            ..old(self)->parts@[at.0]->ToolGroup_0.calls@[at.1]
                        },
                    ),
                    None => final(self)->parts@ == old(self)->parts@,
                }
            },
    {
        match self {
            MessageBlock::Assistant { parts, .. } => {
                proof {
                    lemma_find_call(parts@, call_id@);
                }
                match locate_call(parts, call_id) {
                    Some((p, j)) => {
                        match &mut parts[p] {
                            AssistantPart::ToolGroup(g) => {
                                g.calls[j].agent_progress = Some(
                                    AgentProgress { tool_name, args_summary, result_summary: None },
                                );
                            },
                            AssistantPart::Text(_) => {},
                        }
                    },
                    None => {},
                }
            },
            _ => {},
        }
    }

    /// Shows what came of the last thing that the sub-agent of the latest call
    /// with the id `call_id` did. A sub-agent that did nothing yet shows nothing.
    pub fn update_agent_progress_result(&mut self, call_id: &str, result_summary: Option<String>)
        ensures
            !(*old(self) is Assistant) ==> *final(self) == *old(self),
            *old(self) is Assistant ==> {
                &&& *final(self) is Assistant
                &&& final(self)->thinking == old(self)->thinking
                &&& match find_call(old(self)->parts@, call_id@) {
                    Some(at) => {
                        let call = old(self)->parts@[at.0]->ToolGroup_0.calls@[at.1];
                        call_replaced(
                            old(self)->parts@,
                            final(self)->parts@,
                            at,
                            ToolCall {
                                agent_progress: match call.agent_progress {
                                    Some(p) => Some(AgentProgress { result_summary, ..p }),
                                    None => None,
                                },
                                ..call
                            },
                        )
                    },
                    None => final(self)->parts@ == old(self)->parts@,
                }
            },
    {
        match self {
            MessageBlock::Assistant { parts, .. } => {
                proof {
                    lemma_find_call(parts@, call_id@);
                }
                match locate_call(parts, call_id) {
                    Some((p, j)) => {
                        match &mut parts[p] {
                            AssistantPart::ToolGroup(g) => {
                                let ghost calls_before = g.calls@;
                                match &mut g.calls[j].agent_progress {
                                    Some(progress) => {
                                        progress.result_summary = result_summary;
                                    },
                                    None => {},
                                }
                                proof {
                                    if calls_before[j as int].agent_progress is None {
                                        assert(g.calls@ =~= calls_before.update(
                                            j as int,
                                            calls_before[j as int],
                                        ));
                                    }
                                }
                            },
                            AssistantPart::Text(_) => {},
                        }
                    },
                    None => {},
                }
            },
            _ => {},
        }
    }
}

} // verus!
