//! What holds of what the models are told, whatever was said.
use crate::effects::ChatMessage;
use crate::message::{Message, Role};
use crate::paths::shown_under;
use crate::prompt::{
    agents_part, agents_sections, all_instructions, capped_context, chat_view,
    context_parts, first_lines, formatted_time, history_of, identity_part, last_n, memory_part,
    prompt_at, prompt_parts, recent_part, resource_lines, resources_part, sent_history, tasks_part, tool_lines,
    tools_part, transcript, tree_part, user_texts, user_transcript, LocalTime, McpResource, McpTool,
    PromptFacts, ReadFile, DATE_FORMAT, HOW_YOU_WORK, IDENTITY, MCP_GUIDANCE, PLAN_MODE,
};
use crate::prompts::TOOL_GUIDANCE;
use crate::state::{AgentMode, AgentsFile, App};
use crate::text::{byte_len, byte_prefix, join, lines, opt_part, opt_text, trim};
use crate::text_laws::{joined_parts_occur, occurs};
use vstd::prelude::*;

verus! {

/// Whether a message was said by the user or the assistant, and is not empty.
pub open spec fn was_said(m: Message) -> bool {
    (m.role == Role::User || m.role == Role::Assistant) && m.text@.len() > 0
}

/// Who said a message, and what.
pub open spec fn as_said(m: Message) -> (Role, Seq<char>) {
    (m.role, m.text@)
}

proof fn lemma_history(messages: Seq<Message>)
    ensures
        history_of(messages) == messages.filter(|m: Message| was_said(m)).map_values(
            |m: Message| as_said(m),
        ),
    decreases messages.len(),
{
    reveal(Seq::filter);
    if messages.len() > 0 {
        lemma_history(messages.drop_last());
    }
    assert(history_of(messages) =~= messages.filter(|m: Message| was_said(m)).map_values(
        |m: Message| as_said(m),
    ));
}

/// The history that goes along with a message is all that the user and the
/// assistant said before it, in order and each under its role: nothing that has
/// a text is withheld, and nothing is added.
pub proof fn history_is_what_was_said(earlier: Seq<Message>, last: Message)
    ensures
        sent_history(earlier.push(last)) == earlier.filter(
            |m: Message| was_said(m),
        ).map_values(|m: Message| as_said(m)),
{
    assert(earlier.push(last).drop_last() =~= earlier);
    lemma_history(earlier);
    if earlier.len() == 0 {
        reveal(Seq::filter);
        assert(sent_history(earlier.push(last)) =~= earlier.filter(
            |m: Message| was_said(m),
        ).map_values(|m: Message| as_said(m)));
    }
}

/// Every earlier message of the user and of the assistant that has a text
/// stands in the history.
pub proof fn nothing_said_is_withheld(messages: Seq<Message>, i: int)
    requires
        0 <= i < messages.len() - 1,
        messages[i].role == Role::User || messages[i].role == Role::Assistant,
        messages[i].text@.len() > 0,
    ensures
        sent_history(messages).contains((messages[i].role, messages[i].text@)),
{
    let earlier = messages.drop_last();
    assert(earlier.push(messages.last()) =~= messages);
    history_is_what_was_said(earlier, messages.last());
    let said = |m: Message| was_said(m);
    earlier.lemma_filter_contains(said, i);
    let kept = earlier.filter(said);
    let k = choose|k: int| 0 <= k < kept.len() && kept[k] == earlier[i];
    assert(sent_history(messages)[k] == (messages[i].role, messages[i].text@));
}

/// What was said first comes first, and one part of a conversation does not
/// change what is sent of another.
pub proof fn histories_add_up(a: Seq<Message>, b: Seq<Message>, last: Message)
    ensures
        sent_history((a + b).push(last)) == sent_history(a.push(last)) + sent_history(b.push(last)),
    decreases b.len(),
{
    lemma_histories_join(a, b);
    assert((a + b).push(last).drop_last() =~= a + b);
    assert(a.push(last).drop_last() =~= a);
    assert(b.push(last).drop_last() =~= b);
    if a.len() == 0 {
        assert(a + b =~= b);
    }
    assert(sent_history((a + b).push(last)) =~= sent_history(a.push(last)) + sent_history(
        b.push(last),
    ));
}

proof fn lemma_histories_join(a: Seq<Message>, b: Seq<Message>)
    ensures
        history_of(a + b) == history_of(a) + history_of(b),
    decreases b.len(),
{
    if b.len() == 0 {
        assert(a + b =~= a);
        assert(history_of(a) + history_of(b) =~= history_of(a));
    } else {
        lemma_histories_join(a, b.drop_last());
        assert((a + b).drop_last() =~= a + b.drop_last());
        assert(history_of(a + b) =~= history_of(a) + history_of(b));
    }
}

/// A message to the model keeps who said it and what.
pub proof fn chat_messages_keep_their_role(text: String)
    ensures
        chat_view(ChatMessage::User(text)) == (Role::User, text@),
        chat_view(ChatMessage::Assistant(text)) == (Role::Assistant, text@),
{
}

/// The transcript of a conversation is that of its first part followed by that
/// of the rest, so no message is lost by what comes before or behind it.
pub proof fn transcripts_join(a: Seq<Message>, b: Seq<Message>)
    ensures
        transcript(a + b) == transcript(a) + transcript(b),
    decreases b.len(),
{
    if b.len() == 0 {
        assert(a + b =~= a);
        assert(transcript(a) + transcript(b) =~= transcript(a));
    } else {
        transcripts_join(a, b.drop_last());
        assert((a + b).drop_last() =~= a + b.drop_last());
        assert((a + b).last() == b.last());
        assert(transcript(a + b) =~= transcript(a) + transcript(b));
    }
}

/// The transcript of one message says whose it is and what it says; a message
/// without a text is not mentioned.
pub proof fn transcript_of_one(m: Message)
    ensures
        m.text@.len() == 0 ==> transcript(seq![m]).len() == 0,
        m.text@.len() > 0 && m.role == Role::User ==> transcript(seq![m]) == "[User]: "@ + m.text@
            + "\n\n"@,
        m.text@.len() > 0 && m.role == Role::Assistant ==> transcript(seq![m]) == "[Assistant]: "@
            + m.text@ + "\n\n"@,
        m.text@.len() > 0 && m.role == Role::System ==> transcript(seq![m]) == "[System]: "@
            + m.text@ + "\n\n"@,
{
    reveal_strlit("[");
    reveal_strlit("]: ");
    reveal_strlit("User");
    reveal_strlit("Assistant");
    reveal_strlit("System");
    reveal_strlit("[User]: ");
    reveal_strlit("[Assistant]: ");
    reveal_strlit("[System]: ");
    let one = seq![m];
    assert(one.drop_last() =~= Seq::<Message>::empty());
    assert(transcript(one.drop_last()) == Seq::<char>::empty());
    if m.text@.len() > 0 {
        match m.role {
            Role::User => {
                assert(transcript(one) =~= "[User]: "@ + m.text@ + "\n\n"@);
            },
            Role::Assistant => {
                assert(transcript(one) =~= "[Assistant]: "@ + m.text@ + "\n\n"@);
            },
            Role::System => {
                assert(transcript(one) =~= "[System]: "@ + m.text@ + "\n\n"@);
            },
        }
    }
}

/// Every message with a text stands in the transcript that is summarised.
pub proof fn transcript_leaves_nothing_out(messages: Seq<Message>, i: int)
    requires
        0 <= i < messages.len(),
    ensures
        occurs(messages[i].text@, transcript(messages)),
{
    let a = messages.take(i);
    let m = messages[i];
    let b = messages.skip(i + 1);
    assert(messages =~= a + seq![m] + b);
    transcripts_join(a + seq![m], b);
    transcripts_join(a, seq![m]);
    transcript_of_one(m);
    let one = transcript(seq![m]);
    let all = transcript(messages);
    let k = transcript(a).len();
    assert(all == transcript(a) + one + transcript(b));
    reveal_strlit("[User]: ");
    reveal_strlit("[Assistant]: ");
    reveal_strlit("[System]: ");
    let head: nat = if m.text@.len() == 0 {
        0
    } else {
        match m.role {
            Role::User => 8nat,
            Role::Assistant => 13nat,
            Role::System => 10nat,
        }
    };
    assert(all.subrange((k + head) as int, (k + head) as int + m.text@.len()) =~= m.text@);
}

/// The texts of the user are those of all messages of the user, in order.
pub proof fn user_texts_are_all(messages: Seq<Message>)
    ensures
        user_texts(messages) == messages.filter(|m: Message| m.role == Role::User).map_values(
            |m: Message| m.text@,
        ),
    decreases messages.len(),
{
    reveal(Seq::filter);
    if messages.len() > 0 {
        user_texts_are_all(messages.drop_last());
    }
    assert(user_texts(messages) =~= messages.filter(
        |m: Message| m.role == Role::User,
    ).map_values(|m: Message| m.text@));
}

/// The last few are a piece of the end, as many as asked for where there are so many.
pub proof fn last_ones_are_the_end(s: Seq<Seq<char>>, n: nat)
    ensures
        last_n(s, n).len() == (if s.len() < n {
            s.len()
        } else {
            n
        }),
        forall|k: int|
            0 <= k < last_n(s, n).len() ==> #[trigger] last_n(s, n)[k] == s[s.len() - last_n(
                s,
                n,
            ).len() + k],
{
}

/// What the user said is told text by text: no text is lost by what comes
/// before or behind it, and each that is not empty stands there.
pub proof fn user_transcripts_join(a: Seq<Seq<char>>, b: Seq<Seq<char>>)
    ensures
        user_transcript(a + b) == user_transcript(a) + user_transcript(b),
    decreases b.len(),
{
    if b.len() == 0 {
        assert(a + b =~= a);
        assert(user_transcript(a) + user_transcript(b) =~= user_transcript(a));
    } else {
        user_transcripts_join(a, b.drop_last());
        assert((a + b).drop_last() =~= a + b.drop_last());
        assert((a + b).last() == b.last());
        assert(user_transcript(a + b) =~= user_transcript(a) + user_transcript(b));
    }
}

/// One text of the user as it is told.
pub proof fn user_transcript_of_one(t: Seq<char>)
    ensures
        t.len() == 0 ==> user_transcript(seq![t]).len() == 0,
        t.len() > 0 ==> user_transcript(seq![t]) == "[User]: "@ + t + "\n\n"@,
{
    let one = seq![t];
    assert(one.drop_last() =~= Seq::<Seq<char>>::empty());
    assert(user_transcript(one.drop_last()) == Seq::<char>::empty());
    if t.len() > 0 {
        assert(user_transcript(one) =~= "[User]: "@ + t + "\n\n"@);
    }
}

/// The context tells of the last five texts of the user, and of none where the
/// user said nothing.
pub proof fn recent_texts_are_told(messages: Seq<Message>)
    ensures
        (forall|i: int| 0 <= i < messages.len() ==> (#[trigger] messages[i]).role != Role::User)
            <==> recent_part(messages) is None,
        recent_part(messages) matches Some(t) ==> {
            let said = messages.filter(|m: Message| m.role == Role::User).map_values(
                |m: Message| m.text@,
            );
            let from = if said.len() > 5 {
                said.len() - 5
            } else {
                0
            };
            t == "## Recent Conversation\n\n"@ + user_transcript(said.skip(from))
        },
{
    let is_user = |m: Message| m.role == Role::User;
    user_texts_are_all(messages);
    let said = messages.filter(is_user).map_values(|m: Message| m.text@);
    assert(said.skip(0) =~= said);
    if forall|i: int| 0 <= i < messages.len() ==> (#[trigger] messages[i]).role != Role::User {
        if messages.filter(is_user).len() > 0 {
            messages.lemma_filter_pred(is_user, 0);
            messages.lemma_filter_contains_rev(is_user, messages.filter(is_user)[0]);
        }
    } else {
        let i = choose|i: int|
            0 <= i < messages.len() && (#[trigger] messages[i]).role == Role::User;
        messages.lemma_filter_contains(is_user, i);
        assert(messages.filter(is_user).len() > 0);
    }
}

/// The instructions of the files are told file by file, each with its path and
/// all it says.
pub proof fn instructions_join(root: Seq<char>, a: Seq<AgentsFile>, b: Seq<AgentsFile>)
    ensures
        agents_sections(root, a + b) == agents_sections(root, a) + agents_sections(root, b),
    decreases b.len(),
{
    if b.len() == 0 {
        assert(a + b =~= a);
        assert(agents_sections(root, a) + agents_sections(root, b) =~= agents_sections(root, a));
    } else {
        instructions_join(root, a, b.drop_last());
        assert((a + b).drop_last() =~= a + b.drop_last());
        assert((a + b).last() == b.last());
        assert(agents_sections(root, a + b) =~= agents_sections(root, a) + agents_sections(
            root,
            b,
        ));
    }
}

/// The instructions of one file: under its path from the root, all of its content.
pub proof fn instructions_of_one(root: Seq<char>, f: AgentsFile)
    ensures
        agents_sections(root, seq![f]) == "\n### "@ + shown_under(root, f.path@) + "\n\n"@
            + f.content@ + "\n"@,
        agents_part(root, seq![f]) is Some,
{
    let one = seq![f];
    assert(one.drop_last() =~= Seq::<AgentsFile>::empty());
    assert(agents_sections(root, one.drop_last()) == Seq::<char>::empty());
    assert(agents_sections(root, one) =~= "\n### "@ + shown_under(root, f.path@) + "\n\n"@
        + f.content@ + "\n"@);
}

/// There is a part on instructions exactly where there are instructions, and it
/// holds all of them.
pub proof fn instructions_are_told(root: Seq<char>, files: Seq<AgentsFile>, i: int)
    requires
        0 <= i < files.len(),
    ensures
        agents_part(root, Seq::empty()) is None,
        agents_part(root, files) matches Some(t) && occurs(files[i].content@, t),
{
    let a = files.take(i);
    let f = files[i];
    let b = files.skip(i + 1);
    assert(files =~= a + seq![f] + b);
    instructions_join(root, a + seq![f], b);
    instructions_join(root, a, seq![f]);
    instructions_of_one(root, f);
    let head = "\n---\n\n## Project Instructions (AGENTS.md)\n"@;
    let t = agents_part(root, files)->Some_0;
    let lead = "\n### "@ + shown_under(root, f.path@) + "\n\n"@;
    let k = head.len() + agents_sections(root, a).len() + lead.len();
    assert(t == head + (agents_sections(root, a) + (lead + f.content@ + "\n"@) + agents_sections(
        root,
        b,
    )));
    assert(t.subrange(k as int, k as int + f.content@.len()) =~= f.content@);
}

/// The tools of MCP servers are told tool by tool.
pub proof fn tool_lines_join(a: Seq<McpTool>, b: Seq<McpTool>)
    ensures
        tool_lines(a + b) == tool_lines(a) + tool_lines(b),
    decreases b.len(),
{
    if b.len() == 0 {
        assert(a + b =~= a);
        assert(tool_lines(a) + tool_lines(b) =~= tool_lines(a));
    } else {
        tool_lines_join(a, b.drop_last());
        assert((a + b).drop_last() =~= a + b.drop_last());
        assert((a + b).last() == b.last());
        assert(tool_lines(a + b) =~= tool_lines(a) + tool_lines(b));
    }
}

/// The line on one tool names its server, itself and what it does.
pub proof fn tool_line_of_one(t: McpTool)
    ensures
        tool_lines(seq![t]) == "\n- `mcp__"@ + t.server_id@ + "__"@ + t.name@ + "`: "@ + (
        match t.description {
            Some(d) => d@,
            None => "(no description)"@,
        }),
        tools_part(seq![t]) == Some(MCP_GUIDANCE@ + tool_lines(seq![t]) + "\n"@),
        tools_part(Seq::empty()) is None,
{
    reveal_strlit("\n- `mcp__");
    reveal_strlit("\n- `");
    reveal_strlit("mcp__");
    let one = seq![t];
    assert(one.drop_last() =~= Seq::<McpTool>::empty());
    assert(tool_lines(one.drop_last()) == Seq::<char>::empty());
    assert(tool_lines(one) =~= "\n- `mcp__"@ + t.server_id@ + "__"@ + t.name@ + "`: "@ + (
    match t.description {
        Some(d) => d@,
        None => "(no description)"@,
    }));
}

/// A resource that fits is told and takes its room from those behind it; one
/// that does not ends the list with a note.
pub proof fn resources_are_told_in_turn(r: McpResource, rest: Seq<McpResource>, room: nat)
    ensures
        ({
            let line = "\n- **"@ + r.server_id@ + "/"@ + r.name@ + "**: "@ + (match r.description {
                Some(d) => d@,
                None => ""@,
            }) + "\n"@;
            resource_lines(seq![r] + rest, room) == (if byte_len(line) <= room {
                line + resource_lines(rest, (room - byte_len(line)) as nat)
            } else {
                "\n(additional resources omitted)\n"@
            })
        }),
        resource_lines(Seq::empty(), room).len() == 0,
        resources_part(seq![r] + rest) == Some(
            "\n## MCP Context\n"@ + resource_lines(seq![r] + rest, 2000),
        ),
        resources_part(Seq::empty()) is None,
{
    assert((seq![r] + rest).skip(1) =~= rest);
    assert((seq![r] + rest)[0] == r);
}

/// A memory that is more than white space is told: all of it where it is short,
/// else as much of its start as fits.
pub proof fn memory_is_told(m: Seq<char>)
    ensures
        memory_part(None) is None,
        trim(m).len() == 0 ==> memory_part(Some(m)) is None,
        trim(m).len() > 0 && byte_len(m) <= 2000 ==> memory_part(Some(m)) == Some(
            "\n## Project Memory\n\n"@ + m,
        ),
        trim(m).len() > 0 && byte_len(m) > 2000 ==> memory_part(Some(m)) == Some(
            "\n## Project Memory\n\n"@ + byte_prefix(m, 2000)
                + "...\n(use memory tool to read full content)"@,
        ),
{
    if trim(m).len() > 0 && byte_len(m) > 2000 {
        assert(memory_part(Some(m))->Some_0 =~= "\n## Project Memory\n\n"@ + byte_prefix(m, 2000)
            + "...\n(use memory tool to read full content)"@);
    }
}

/// A part that may be missing stands behind what comes before it.
proof fn lemma_part_behind(before: Seq<Seq<char>>, p: Option<Seq<char>>)
    ensures
        (before + opt_part(p)).len() == before.len() + there(p),
        forall|i: int| 0 <= i < before.len() ==> #[trigger] (before + opt_part(p))[i] == before[i],
        p matches Some(t) ==> (before + opt_part(p))[before.len() as int] == t,
{
}

/// The prompt begins with who the assistant is and how tools are used; it holds
/// every further part that there is, the memory before the tasks, those before
/// the instructions, and so on; in Plan mode it ends with what that means.
pub proof fn prompt_holds_its_parts(app: App, date: Seq<char>, facts: PromptFacts)
    ensures
        ({
            let parts = prompt_parts(app, date, facts);
            let memory = memory_part(match facts.memory {
                Some(m) => Some(m@),
                None => None,
            });
            let tasks = tasks_part(facts.task_summary@);
            let agents = agents_part(app.project.root@, app.agents_files@);
            let resources = match facts.mcp {
                Some(m) => resources_part(m.0@),
                None => None,
            };
            let tools = match facts.mcp {
                Some(m) => tools_part(m.1@),
                None => None,
            };
            let a = 2 + there(memory);
            let b = a + there(tasks);
            let c = b + there(agents);
            let d = c + there(resources);
            let e = d + there(tools);
            &&& parts.len() == e + (if app.mode == AgentMode::Plan {
                1int
            } else {
                0int
            })
            &&& parts[0] == identity_part(app, date)
            &&& parts[1] == TOOL_GUIDANCE@
            &&& memory matches Some(t) ==> parts[2] == t
            &&& tasks matches Some(t) ==> parts[a] == t
            &&& agents matches Some(t) ==> parts[b] == t
            &&& resources matches Some(t) ==> parts[c] == t
            &&& tools matches Some(t) ==> parts[d] == t
            &&& app.mode == AgentMode::Plan ==> parts[e] == PLAN_MODE@
        }),
{
    let memory = memory_part(opt_text(facts.memory));
    let tasks = tasks_part(facts.task_summary@);
    let agents = agents_part(app.project.root@, app.agents_files@);
    let resources = match facts.mcp {
        Some(m) => resources_part(m.0@),
        None => None,
    };
    let tools = match facts.mcp {
        Some(m) => tools_part(m.1@),
        None => None,
    };
    let plan = if app.mode == AgentMode::Plan {
        Some(PLAN_MODE@)
    } else {
        None
    };
    let p0 = seq![identity_part(app, date), TOOL_GUIDANCE@];
    lemma_parts_in_turn(p0, memory, tasks, agents, resources, tools, plan);
}

proof fn lemma_parts_in_turn(
    p0: Seq<Seq<char>>,
    o1: Option<Seq<char>>,
    o2: Option<Seq<char>>,
    o3: Option<Seq<char>>,
    o4: Option<Seq<char>>,
    o5: Option<Seq<char>>,
    o6: Option<Seq<char>>,
)
    ensures
        ({
            let parts = p0 + opt_part(o1) + opt_part(o2) + opt_part(o3) + opt_part(o4) + opt_part(
                o5,
            ) + opt_part(o6);
            let a = p0.len() + there(o1);
            let b = a + there(o2);
            let c = b + there(o3);
            let d = c + there(o4);
            let e = d + there(o5);
            &&& parts.len() == e + there(o6)
            &&& forall|i: int| 0 <= i < p0.len() ==> #[trigger] parts[i] == p0[i]
            &&& o1 matches Some(t) ==> parts[p0.len() as int] == t
            &&& o2 matches Some(t) ==> parts[a] == t
            &&& o3 matches Some(t) ==> parts[b] == t
            &&& o4 matches Some(t) ==> parts[c] == t
            &&& o5 matches Some(t) ==> parts[d] == t
            &&& o6 matches Some(t) ==> parts[e] == t
        }),
{
    let p1 = p0 + opt_part(o1);
    let p2 = p1 + opt_part(o2);
    let p3 = p2 + opt_part(o3);
    let p4 = p3 + opt_part(o4);
    let p5 = p4 + opt_part(o5);
    lemma_part_behind(p0, o1);
    lemma_part_behind(p1, o2);
    lemma_part_behind(p2, o3);
    lemma_part_behind(p3, o4);
    lemma_part_behind(p4, o5);
    lemma_part_behind(p5, o6);
}

/// One where there is something, else none.
pub open spec fn there(p: Option<Seq<char>>) -> int {
    if p is Some {
        1
    } else {
        0
    }
}

/// Each part of the prompt stands in it as it is.
pub proof fn prompt_says_its_parts(app: App, date: Seq<char>, facts: PromptFacts, i: int)
    requires
        0 <= i < prompt_parts(app, date, facts).len(),
    ensures
        occurs(prompt_parts(app, date, facts)[i], join(prompt_parts(app, date, facts), "\n"@)),
{
    joined_parts_occur(prompt_parts(app, date, facts), "\n"@, i);
}

/// The prompt tells where the assistant works, with which model, in which mode
/// and on which day, and the branch where there is one.
pub proof fn identity_tells_the_circumstances(app: App, date: Seq<char>)
    ensures
        ({
            let before = IDENTITY@ + app.project.root@ + "\n- **Model**: "@;
            let model = match app.current_model {
                Some(m) => m@,
                None => "unknown"@,
            };
            let mode = match app.mode {
                AgentMode::Plan => "\n- **Mode**: Plan\n- **Date**: "@,
                AgentMode::Build => "\n- **Mode**: Build\n- **Date**: "@,
            };
            let after = match app.sidebar_state.git_branch {
                Some(b) => "\n- **Git branch**: "@ + b@ + HOW_YOU_WORK@,
                None => HOW_YOU_WORK@,
            };
            identity_part(app, date) == before + model + mode + date + after
        }),
{
    reveal_strlit("\n- **Mode**: ");
    reveal_strlit("Plan");
    reveal_strlit("Build");
    reveal_strlit("\n- **Date**: ");
    reveal_strlit("\n- **Mode**: Plan\n- **Date**: ");
    reveal_strlit("\n- **Mode**: Build\n- **Date**: ");
    let before = IDENTITY@ + app.project.root@ + "\n- **Model**: "@;
    let model = match app.current_model {
        Some(m) => m@,
        None => "unknown"@,
    };
    let mode = match app.mode {
        AgentMode::Plan => "\n- **Mode**: Plan\n- **Date**: "@,
        AgentMode::Build => "\n- **Mode**: Build\n- **Date**: "@,
    };
    let after = match app.sidebar_state.git_branch {
        Some(b) => "\n- **Git branch**: "@ + b@ + HOW_YOU_WORK@,
        None => HOW_YOU_WORK@,
    };
    assert(identity_part(app, date) =~= before + model + mode + date + after);
}

/// The context holds the tree, each file, each instruction file and what the
/// user said lately, in this order.
pub proof fn context_holds_its_parts(app: App, entries: Seq<Seq<char>>, files: Seq<ReadFile>)
    ensures
        ({
            let parts = context_parts(app, entries, files);
            let n = there(tree_part(entries));
            let m = n + files.len();
            let agents = app.agents_files@;
            let k = m + if agents.len() == 0 {
                1
            } else {
                agents.len() as int
            };
            &&& parts.len() == k + there(recent_part(app.stored_messages@))
            &&& entries.len() > 0 ==> parts[0] == "## File Tree\n\n```\n"@ + join(entries, "\n"@)
                + "\n```"@
            &&& entries.len() == 0 <==> n == 0
            &&& forall|i: int|
                0 <= i < files.len() ==> #[trigger] parts[n + i] == "## "@ + files[i].name@
                    + "\n\n```\n"@ + first_lines(files[i].content@) + "\n```"@
            &&& agents.len() == 0 ==> parts[m]
                == "## Current AGENTS.md\n\n(No AGENTS.md exists yet)"@
            &&& forall|i: int|
                0 <= i < agents.len() ==> #[trigger] parts[m + i] == "## Current AGENTS.md ("@
                    + agents[i].path@ + ")\n\n"@ + agents[i].content@
            &&& recent_part(app.stored_messages@) matches Some(t) ==> parts[k] == t
        }),
{
}

/// A file is shown with its first hundred lines, or all of them where there are
/// no more.
pub proof fn files_are_shown_from_their_start(content: Seq<char>)
    ensures
        lines(content).len() <= 100 ==> first_lines(content) == join(lines(content), "\n"@),
        lines(content).len() > 100 ==> first_lines(content) == join(
            lines(content).subrange(0, 100),
            "\n"@,
        ),
{
    if lines(content).len() > 100 {
        assert(lines(content).take(100) =~= lines(content).subrange(0, 100));
    }
}

/// A context that fits is left as it is; else its start is kept and the cut is marked.
pub proof fn context_keeps_its_start(s: Seq<char>)
    ensures
        byte_len(s) <= 10_000 ==> capped_context(s) == s,
        byte_len(s) > 10_000 ==> capped_context(s) == byte_prefix(s, 10_000)
            + "\n\n(truncated)"@,
{
}

/// All instructions together hold the content of each file.
pub proof fn all_instructions_hold_each(app: App, i: int)
    requires
        0 <= i < app.agents_files@.len(),
    ensures
        all_instructions(app) matches Some(t) && occurs(app.agents_files@[i].content@, t),
{
    let contents = Seq::new(
        app.agents_files@.len(),
        |i: int| app.agents_files@[i].content@,
    );
    joined_parts_occur(contents, "\n\n"@, i);
    assert(contents[i] == app.agents_files@[i].content@);
}

/// Summaries are asked from the small model where there is one, else from the one
/// in use.
pub proof fn small_model_sums_up(app: App)
    ensures
        app.config.small_model is Some ==> app.compact_model() == Some(
            app.config.small_model->Some_0@,
        ),
        app.config.small_model is None && app.current_model is Some ==> app.compact_model() == Some(
            app.current_model->Some_0@,
        ),
        app.config.small_model is None && app.current_model is None ==> app.compact_model() is None,
{
}

/// The model of a session is kept while it is known; one that is not gives way to
/// the configured one, if there is one.
pub proof fn known_models_are_kept(app: App, model_ref: Seq<char>)
    ensures
        app.provider_registry is None ==> app.valid_model(model_ref) == model_ref,
        app.provider_registry matches Some(registry) ==> {
            &&& registry.lookup(model_ref) is Ok ==> app.valid_model(model_ref) == model_ref
            &&& registry.lookup(model_ref) is Err && app.config.model is Some ==> app.valid_model(
                model_ref,
            ) == app.config.model->Some_0@
            &&& registry.lookup(model_ref) is Err && app.config.model is None ==> app.valid_model(
                model_ref,
            ) == model_ref
        },
{
}

/// The prompt at a time holds each of its parts.
pub proof fn prompt_holds_each_part(
    app: App,
    at: LocalTime,
    facts: PromptFacts,
    date: Seq<char>,
    i: int,
)
    requires
        formatted_time(
            at.year as int,
            at.month as int,
            at.day as int,
            at.hour as int,
            at.minute as int,
            DATE_FORMAT@,
        ) == Some(date),
        0 <= i < prompt_parts(app, date, facts).len(),
    ensures
        prompt_at(app, at, facts) is Some,
        occurs(prompt_parts(app, date, facts)[i], prompt_at(app, at, facts)->Some_0),
{
    joined_parts_occur(prompt_parts(app, date, facts), "\n"@, i);
}

/// The tasks at hand are told as they are, and without any nothing is.
pub proof fn tasks_are_told(summary: Seq<char>)
    ensures
        tasks_part(summary) is Some <==> summary.len() > 0,
        summary.len() > 0 ==> tasks_part(summary)->Some_0 == "\n## Active Tasks\n\n"@ + summary,
{
}

} // verus!
