//! What holds of sessions that become scenarios.
use crate::blocks::{AssistantPart, MessageBlock, ToolCall};
use crate::message::{Message, Role};
use crate::scenario::{
    assistant_trace, block_calls, block_trace, body_trace, call_fixture, calls_of, calls_trace,
    fixtures, has_interjection, indented, is_fixture_path, output_trace, quoted, summary_path,
    text_of, truncated_trace, unanswered_pair, user_count, user_turns,
};
use crate::text::{decimal, join, lines, trim};
use crate::text_laws::occurs;
use crate::tool::ToolName;
use vstd::prelude::*;

verus! {

/// How many turns the user took.
pub open spec fn turns_in(blocks: Seq<MessageBlock>) -> nat {
    blocks.filter(|b: MessageBlock| b is User).len()
}

proof fn lemma_turns(blocks: Seq<MessageBlock>)
    ensures
        user_count(blocks) == turns_in(blocks),
    decreases blocks.len(),
{
    reveal(Seq::filter);
    if blocks.len() > 0 {
        lemma_turns(blocks.drop_last());
    }
}

/// A turn of the user opens a section of its own, numbered one higher than the
/// turns before it, with all that the user said.
pub proof fn each_turn_is_traced(blocks: Seq<MessageBlock>, text: String)
    ensures
        body_trace(blocks.push(MessageBlock::User { text })) == body_trace(blocks) + ("## Turn "@
            + decimal(turns_in(blocks) + 1) + "\n\n**User:**\n\n"@ + quoted(lines(text@)) + "\n"@),
{
    reveal_strlit("\n\n");
    reveal_strlit("**User:**\n\n");
    reveal_strlit("\n\n**User:**\n\n");
    let all = blocks.push(MessageBlock::User { text });
    assert(all.drop_last() =~= blocks);
    lemma_turns(blocks);
    assert(body_trace(all) =~= body_trace(blocks) + ("## Turn "@ + decimal(turns_in(blocks) + 1)
        + "\n\n**User:**\n\n"@ + quoted(lines(text@)) + "\n"@));
}

/// What the assistant did is traced in every turn alike: behind any number of
/// turns of the user the trace grows by the same, before the first by nothing.
pub proof fn assistant_is_traced_in_every_turn(
    blocks: Seq<MessageBlock>,
    thinking: Option<String>,
    parts: Vec<AssistantPart>,
)
    ensures
        ({
            let all = blocks.push(MessageBlock::Assistant { thinking, parts });
            let calls = calls_of(parts@);
            let said = text_of(parts@);
            let did = (if calls.len() > 0 {
                "**Tool calls:**\n\n"@ + calls_trace(calls)
            } else {
                Seq::empty()
            }) + (if trim(said).len() > 0 {
                "**Assistant:**\n\n"@ + quoted(lines(said)) + "\n"@
            } else {
                Seq::empty()
            });
            &&& turns_in(blocks) > 0 ==> body_trace(all) == body_trace(blocks) + did
            &&& turns_in(blocks) == 0 ==> body_trace(all) == body_trace(blocks)
        }),
{
    let all = blocks.push(MessageBlock::Assistant { thinking, parts });
    assert(all.drop_last() =~= blocks);
    lemma_turns(blocks);
    if turns_in(blocks) == 0 {
        assert(body_trace(blocks) + Seq::<char>::empty() =~= body_trace(blocks));
    }
}

/// What a block adds to the trace does not depend on how many turns went before
/// it, but for the number of a turn of the user.
pub proof fn later_turns_are_traced_like_the_first(block: MessageBlock, m: nat, n: nat)
    requires
        !(block is User),
        m > 0,
        n > 0,
    ensures
        block_trace(block, m) == block_trace(block, n),
{
}

/// The tool calls of an answer are those of all its parts, in order.
pub proof fn calls_of_parts_join(a: Seq<AssistantPart>, b: Seq<AssistantPart>)
    ensures
        calls_of(a + b) == calls_of(a) + calls_of(b),
    decreases b.len(),
{
    if b.len() == 0 {
        assert(a + b =~= a);
        assert(calls_of(a) + calls_of(b) =~= calls_of(a));
    } else {
        calls_of_parts_join(a, b.drop_last());
        assert((a + b).drop_last() =~= a + b.drop_last());
        assert((a + b).last() == b.last());
        assert(calls_of(a + b) =~= calls_of(a) + calls_of(b));
    }
}

/// The text of an answer is that of all its parts, in order.
pub proof fn texts_of_parts_join(a: Seq<AssistantPart>, b: Seq<AssistantPart>)
    ensures
        text_of(a + b) == text_of(a) + text_of(b),
    decreases b.len(),
{
    if b.len() == 0 {
        assert(a + b =~= a);
        assert(text_of(a) + text_of(b) =~= text_of(a));
    } else {
        texts_of_parts_join(a, b.drop_last());
        assert((a + b).drop_last() =~= a + b.drop_last());
        assert((a + b).last() == b.last());
        assert(text_of(a + b) =~= text_of(a) + text_of(b));
    }
}

/// A part is a text or a group of calls, and counts as what it is.
pub proof fn part_is_text_or_calls(part: AssistantPart)
    ensures
        part matches AssistantPart::Text(t) ==> calls_of(seq![part]).len() == 0 && text_of(
            seq![part],
        ) == t@,
        part matches AssistantPart::ToolGroup(g) ==> calls_of(seq![part]) == g.calls@ && text_of(
            seq![part],
        ).len() == 0,
{
    let one = seq![part];
    assert(one.drop_last() =~= Seq::<AssistantPart>::empty());
    assert(calls_of(one.drop_last()) =~= Seq::<ToolCall>::empty());
    assert(text_of(one.drop_last()) =~= Seq::<char>::empty());
    assert(calls_of(one) =~= match part {
        AssistantPart::ToolGroup(g) => g.calls@,
        AssistantPart::Text(_) => Seq::empty(),
    });
    assert(text_of(one) =~= match part {
        AssistantPart::Text(t) => t@,
        AssistantPart::ToolGroup(_) => Seq::empty(),
    });
}

/// Each call is traced under its number, with its tool, what it was asked for,
/// whether it failed, and what it gave back.
pub proof fn each_call_is_traced(calls: Seq<ToolCall>, call: ToolCall)
    ensures
        ({
            let head = decimal(calls.len() + 1) + ". `"@ + call.tool_name.name() + "`"@;
            let asked = if call.args_summary@.len() > 0 {
                " `"@ + call.args_summary@ + "`"@
            } else {
                Seq::empty()
            };
            let mark = if call.is_error {
                " [ERROR]"@
            } else {
                Seq::empty()
            };
            calls_trace(calls.push(call)) == calls_trace(calls) + (head + asked + mark + "\n"@
                + output_trace(call))
        }),
        calls_trace(Seq::empty()).len() == 0,
{
    assert(calls.push(call).drop_last() =~= calls);
}

/// What a call gave back is traced where it is more than white space: up to
/// twenty lines of it, and how many more there are.
pub proof fn outputs_are_traced(call: ToolCall)
    ensures
        call.full_output is None ==> output_trace(call).len() == 0,
        call.full_output matches Some(o) ==> {
            &&& trim(o@).len() == 0 ==> output_trace(call).len() == 0
            &&& trim(o@).len() > 0 && lines(o@).len() <= 20 ==> output_trace(call) == "\n   ```\n"@
                + indented(lines(o@)) + "   ```\n\n"@
            &&& trim(o@).len() > 0 && lines(o@).len() > 20 ==> output_trace(call) == "\n   ```\n"@
                + indented(
                lines(
                    join(lines(o@).subrange(0, 20), "\n"@) + "\n... ("@ + decimal(
                        (lines(o@).len() - 20) as nat,
                    ) + " more lines)"@,
                ),
            ) + "   ```\n\n"@
        },
{
    if call.full_output is Some {
        let o = call.full_output->Some_0;
        if lines(o@).len() > 20 {
            assert(lines(o@).take(20) =~= lines(o@).subrange(0, 20));
        }
    }
}

/// Lines are quoted one by one, each as it reads.
pub proof fn quotes_join(a: Seq<Seq<char>>, b: Seq<Seq<char>>)
    ensures
        quoted(a + b) == quoted(a) + quoted(b),
    decreases b.len(),
{
    if b.len() == 0 {
        assert(a + b =~= a);
        assert(quoted(a) + quoted(b) =~= quoted(a));
    } else {
        quotes_join(a, b.drop_last());
        assert((a + b).drop_last() =~= a + b.drop_last());
        assert((a + b).last() == b.last());
        assert(quoted(a + b) =~= quoted(a) + quoted(b));
    }
}

/// Lines are set in one by one, each as it reads.
pub proof fn indents_join(a: Seq<Seq<char>>, b: Seq<Seq<char>>)
    ensures
        indented(a + b) == indented(a) + indented(b),
    decreases b.len(),
{
    if b.len() == 0 {
        assert(a + b =~= a);
        assert(indented(a) + indented(b) =~= indented(a));
    } else {
        indents_join(a, b.drop_last());
        assert((a + b).drop_last() =~= a + b.drop_last());
        assert((a + b).last() == b.last());
        assert(indented(a + b) =~= indented(a) + indented(b));
    }
}

/// One line quoted, and one line set in.
pub proof fn one_line_is_kept(line: Seq<char>)
    ensures
        line.len() == 0 ==> quoted(seq![line]) == ">\n"@ && indented(seq![line]) == "\n"@,
        line.len() > 0 ==> quoted(seq![line]) == "> "@ + line + "\n"@ && indented(seq![line])
            == "   "@ + line + "\n"@,
{
    let one = seq![line];
    assert(one.drop_last() =~= Seq::<Seq<char>>::empty());
    assert(quoted(one.drop_last()) =~= Seq::<char>::empty());
    assert(indented(one.drop_last()) =~= Seq::<char>::empty());
    if line.len() == 0 {
        assert(quoted(one) =~= ">\n"@);
        assert(indented(one) =~= "\n"@);
    } else {
        assert(quoted(one) =~= "> "@ + line + "\n"@);
        assert(indented(one) =~= "   "@ + line + "\n"@);
    }
}

/// What everyone said in a turn stands in the trace.
pub proof fn trace_quotes_the_user(blocks: Seq<MessageBlock>, i: int)
    requires
        0 <= i < blocks.len(),
        blocks[i] is User,
    ensures
        occurs(quoted(lines(blocks[i]->User_text@)), body_trace(blocks)),
    decreases blocks.len(),
{
    let text = blocks[i]->User_text;
    let q = quoted(lines(text@));
    let front = blocks.drop_last();
    let all = body_trace(blocks);
    if i == blocks.len() - 1 {
        each_turn_is_traced(front, text);
        assert(front.push(MessageBlock::User { text }) =~= blocks);
        let head = "## Turn "@ + decimal(turns_in(front) + 1) + "\n\n**User:**\n\n"@;
        let k = (body_trace(front).len() + head.len()) as int;
        assert(all.subrange(k, k + q.len()) =~= q);
    } else {
        trace_quotes_the_user(front, i);
        let before = body_trace(front);
        let k = choose|k: int|
            0 <= k && k + q.len() <= before.len() && #[trigger] before.subrange(k, k + q.len()) == q;
        assert(all.subrange(k, k + q.len()) =~= before.subrange(k, k + q.len()));
    }
}

/// Whether a message is a turn of the user that says something.
pub open spec fn is_turn(m: Message) -> bool {
    m.role == Role::User && trim(m.text@).len() > 0
}

/// The turns of a scenario are all that the user said, trimmed and in order;
/// only blank messages are left out.
pub proof fn turns_are_what_the_user_said(messages: Seq<Message>)
    ensures
        user_turns(messages) == messages.filter(|m: Message| is_turn(m)).map_values(
            |m: Message| trim(m.text@),
        ),
    decreases messages.len(),
{
    reveal(Seq::filter);
    if messages.len() > 0 {
        turns_are_what_the_user_said(messages.drop_last());
    }
    assert(user_turns(messages) =~= messages.filter(|m: Message| is_turn(m)).map_values(
        |m: Message| trim(m.text@),
    ));
}

/// A user who writes again before the assistant answered interjects, wherever
/// in the session that is.
pub proof fn writing_twice_is_an_interjection(
    before: Seq<Message>,
    first: Message,
    between: Seq<Message>,
    second: Message,
    after: Seq<Message>,
)
    requires
        first.role == Role::User,
        second.role == Role::User,
        forall|i: int|
            0 <= i < between.len() ==> (#[trigger] between[i]).role != Role::Assistant,
    ensures
        has_interjection(before + seq![first] + between + seq![second] + after),
{
    let all = before + seq![first] + between + seq![second] + after;
    let i = before.len() as int;
    let j = i + 1 + between.len();
    assert forall|k: int| i < k < j implies (#[trigger] all[k]).role != Role::Assistant by {
        assert(all[k] == between[k - i - 1]);
    }
    assert(unanswered_pair(all, i, j));
}

/// Whether the assistant answers between two messages.
pub open spec fn answered(messages: Seq<Message>, i: int, j: int) -> bool {
    exists|k: int| i < k < j && (#[trigger] messages[k]).role == Role::Assistant
}

/// A session in which the assistant answers between any two messages of the
/// user holds no interjection.
pub proof fn answered_session_has_no_interjection(messages: Seq<Message>)
    requires
        forall|i: int, j: int|
            0 <= i < j < messages.len() && messages[i].role == Role::User && messages[j].role
                == Role::User ==> #[trigger] answered(messages, i, j),
    ensures
        !has_interjection(messages),
{
    if has_interjection(messages) {
        let (i, j) = choose|i: int, j: int| unanswered_pair(messages, i, j);
        assert(answered(messages, i, j));
        let k = choose|k: int| i < k < j && (#[trigger] messages[k]).role == Role::Assistant;
        assert(messages[k].role != Role::Assistant);
    }
}

/// Later calls only add fixtures: what was collected stays where it is.
pub proof fn fixtures_only_grow(a: Seq<ToolCall>, b: Seq<ToolCall>)
    ensures
        fixtures(a).is_prefix_of(fixtures(a + b)),
    decreases b.len(),
{
    if b.len() == 0 {
        assert(a + b =~= a);
        assert(fixtures(a).subrange(0, fixtures(a).len() as int) =~= fixtures(a));
    } else {
        fixtures_only_grow(a, b.drop_last());
        assert((a + b).drop_last() =~= a + b.drop_last());
        let mid = fixtures(a + b.drop_last());
        let n = fixtures(a).len() as int;
        assert(mid.subrange(0, n) == fixtures(a));
        assert(fixtures(a + b).subrange(0, n) =~= mid.subrange(0, n));
    }
}

/// A call names a fixture exactly where it is a finished read or change of a
/// file without an error, and its path can be copied.
pub proof fn finished_calls_name_fixtures(call: ToolCall)
    ensures
        ({
            let counts = !call.is_error && call.full_output is Some && (call.tool_name
                == ToolName::Read || call.tool_name == ToolName::Edit || call.tool_name
                == ToolName::Write || call.tool_name == ToolName::Patch);
            &&& !counts ==> call_fixture(call) is None
            &&& counts ==> (match summary_path(call.tool_name, call.args_summary@) {
                Some(p) => call_fixture(call) == (if is_fixture_path(p) {
                    Some(p)
                } else {
                    None
                }),
                None => call_fixture(call) is None,
            })
        }),
{
}

/// A change to a file names the file by its summary alone.
pub proof fn changes_name_their_file(tool: ToolName, summary: Seq<char>)
    requires
        tool == ToolName::Edit || tool == ToolName::Write || tool == ToolName::Patch,
        summary.len() > 0,
    ensures
        summary_path(tool, summary) == Some(summary),
        summary_path(tool, Seq::empty()) is None,
        summary_path(ToolName::Bash, summary) is None,
        summary_path(ToolName::List, summary) is None,
{
}

/// The calls of a session are those of all answers, in order.
pub proof fn calls_of_blocks_join(a: Seq<MessageBlock>, b: Seq<MessageBlock>)
    ensures
        block_calls(a + b) == block_calls(a) + block_calls(b),
    decreases b.len(),
{
    if b.len() == 0 {
        assert(a + b =~= a);
        assert(block_calls(a) + block_calls(b) =~= block_calls(a));
    } else {
        calls_of_blocks_join(a, b.drop_last());
        assert((a + b).drop_last() =~= a + b.drop_last());
        assert((a + b).last() == b.last());
        assert(block_calls(a + b) =~= block_calls(a) + block_calls(b));
    }
}

/// Only answers hold calls.
pub proof fn only_answers_hold_calls(block: MessageBlock)
    ensures
        block matches MessageBlock::Assistant { parts, .. } ==> block_calls(seq![block])
            == calls_of(parts@),
        !(block is Assistant) ==> block_calls(seq![block]).len() == 0,
{
    let one = seq![block];
    assert(one.drop_last() =~= Seq::<MessageBlock>::empty());
    assert(block_calls(one.drop_last()) =~= Seq::<ToolCall>::empty());
    if block is Assistant {
        assert(block_calls(one) =~= calls_of(block->parts@));
    }
}

/// A path can be copied where it lies within the project: it is relative and
/// never leads upwards.
pub proof fn fixture_paths_stay_inside(path: Seq<char>)
    ensures
        path.len() == 0 ==> !is_fixture_path(path),
        path.len() > 0 && path[0] == '/' ==> !is_fixture_path(path),
        path == seq!['.', '.'] ==> !is_fixture_path(path),
        path.len() > 2 && path[0] == '.' && path[1] == '.' && path[2] == '/' ==> !is_fixture_path(
            path,
        ),
        (exists|i: int|
            0 < i && i + 3 <= path.len() && path[i - 1] == '/' && #[trigger] path[i] == '.'
                && path[i + 1] == '.' && path[i + 2] == '/') ==> !is_fixture_path(path),
        path.len() > 0 && (forall|i: int|
            0 <= i < path.len() ==> #[trigger] path[i] != '.' && path[0] != '/')
            ==> is_fixture_path(path),
{
    use_parents(path);
}

proof fn use_parents(path: Seq<char>)
    ensures
        is_fixture_path(path) ==> forall|i: int| !#[trigger] crate::scenario::parent_at(path, i),
        path == seq!['.', '.'] ==> crate::scenario::parent_at(path, 0),
        path.len() > 2 && path[0] == '.' && path[1] == '.' && path[2] == '/'
            ==> crate::scenario::parent_at(path, 0),
        forall|i: int|
            0 < i && i + 3 <= path.len() && path[i - 1] == '/' && #[trigger] path[i] == '.'
                && path[i + 1] == '.' && path[i + 2] == '/' ==> crate::scenario::parent_at(path, i),
{
}

/// Of a long output the first lines are kept.
pub proof fn long_outputs_keep_their_start(s: Seq<char>, max: nat)
    ensures
        lines(s).len() <= max ==> truncated_trace(s, max) == s,
        lines(s).len() > max ==> join(lines(s).take(max as int), "\n"@).is_prefix_of(
            truncated_trace(s, max),
        ),
{
    let head = join(lines(s).take(max as int), "\n"@);
    if lines(s).len() > max {
        assert(truncated_trace(s, max).subrange(0, head.len() as int) =~= head);
    }
}

/// What is traced of an answer: first its calls, then what it says.
pub proof fn answers_are_traced_whole(parts: Seq<AssistantPart>)
    ensures
        calls_of(parts).len() == 0 && trim(text_of(parts)).len() == 0 ==> assistant_trace(
            parts,
        ).len() == 0,
        calls_of(parts).len() > 0 ==> occurs(calls_trace(calls_of(parts)), assistant_trace(parts)),
        trim(text_of(parts)).len() > 0 ==> occurs(
            quoted(lines(text_of(parts))),
            assistant_trace(parts),
        ),
{
    let calls = calls_of(parts);
    let all = assistant_trace(parts);
    let ct = calls_trace(calls);
    let head = "**Tool calls:**\n\n"@;
    if calls.len() > 0 {
        assert(all.subrange(head.len() as int, head.len() as int + ct.len()) =~= ct);
    }
    if trim(text_of(parts)).len() > 0 {
        let q = quoted(lines(text_of(parts)));
        let k = (if calls.len() > 0 {
            head.len() + ct.len()
        } else {
            0
        }) + "**Assistant:**\n\n"@.len();
        assert(all.subrange(k as int, k as int + q.len()) =~= q);
    }
}

} // verus!
