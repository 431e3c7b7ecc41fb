//! Turning a session into a scenario: the turns of the user, the files that
//! were touched, a readable trace, and the dialogue that saves them.
use crate::blocks::{AssistantPart, MessageBlock, ToolCall};
use crate::json::Json;
use crate::message::{Message, Role};
use crate::text::{
    all_digits, cat4, chars_of, decimal, decimal_text, ends_with, holds, is_digit, join, join_text,
    lemma_decimal, lines, same_text, split_lines, string_of, trim, trimmed, views, lemma_views_push,
};
use crate::tool::ToolName;
use crate::tool_display::args_summary;
use vstd::prelude::*;
use vstd::string::*;

verus! {

/// Why the turns of a session cannot be replayed.
#[derive(Clone, Copy, Debug, PartialEq, Eq, Structural)]
pub enum UserTurnError {
    /// The user wrote twice without a reply of the assistant in between.
    MidStreamInterjection,
}

/// Whether the user wrote at `i` and again at `j`, and the assistant not in between.
pub open spec fn unanswered_pair(messages: Seq<Message>, i: int, j: int) -> bool {
    &&& 0 <= i < j < messages.len()
    &&& messages[i].role == Role::User
    &&& messages[j].role == Role::User
    &&& forall|k: int| i < k < j ==> (#[trigger] messages[k]).role != Role::Assistant
}

/// Whether the user wrote twice without a reply of the assistant in between.
pub open spec fn has_interjection(messages: Seq<Message>) -> bool {
    exists|i: int, j: int| unanswered_pair(messages, i, j)
}

/// The trimmed texts of the user, those that are not empty, in order.
pub open spec fn user_turns(messages: Seq<Message>) -> Seq<Seq<char>>
    decreases messages.len(),
{
    if messages.len() == 0 {
        Seq::empty()
    } else {
        let before = user_turns(messages.drop_last());
        let m = messages.last();
        if m.role == Role::User && trim(m.text@).len() > 0 {
            before.push(trim(m.text@))
        } else {
            before
        }
    }
}

/// The turns of the user in a session that can be replayed: the user spoke
/// again only after the assistant had replied. System messages do not count
/// as replies, nor do they stand in the way of one.
pub fn collect_user_turns(messages: &Vec<Message>) -> (r: Result<Vec<String>, UserTurnError>)
    ensures
        match r {
            Ok(turns) => !has_interjection(messages@) && views(turns@) == user_turns(messages@),
            Err(e) => e == UserTurnError::MidStreamInterjection && has_interjection(messages@),
        },
{
    let mut turns: Vec<String> = Vec::new();
    let mut waiting = false;
    let mut i: usize = 0;
    let ghost mut last_user: int = -1;
    proof {
        assert(views(turns@) =~= Seq::<Seq<char>>::empty());
    }
    while i < messages.len()
        invariant
            i <= messages@.len(),
            -1 <= last_user < i,
            forall|k: int|
                last_user < k < i ==> (#[trigger] messages@[k]).role != Role::User,
            last_user >= 0 ==> messages@[last_user].role == Role::User,
            waiting == (last_user >= 0 && forall|k: int|
                last_user < k < i ==> (#[trigger] messages@[k]).role != Role::Assistant),
            !has_interjection(messages@.take(i as int)),
            views(turns@) == user_turns(messages@.take(i as int)),
        decreases messages@.len() - i,
    {
        let ghost head = messages@.take(i as int);
        let ghost next = messages@.take(i + 1);
        proof {
            assert(next.drop_last() =~= head);
            assert(next.last() == messages@[i as int]);
        }
        let m = &messages[i];
        if m.role == Role::User {
            if waiting {
                proof {
                    assert(unanswered_pair(messages@, last_user, i as int));
                }
                return Err(UserTurnError::MidStreamInterjection);
            }
            let text = trimmed(m.text.as_str());
            if text.as_str().is_empty() {
            } else {
                proof {
                    lemma_views_push(turns@, text);
                }
                turns.push(text);
            }
        }
        proof {
            assert forall|a: int, b: int| !unanswered_pair(next, a, b) by {
                if unanswered_pair(next, a, b) {
                    if b < i {
                        assert forall|k: int| a < k < b implies (#[trigger] head[k]).role
                            != Role::Assistant by {
                            assert(next[k].role != Role::Assistant);
                        }
                        assert(unanswered_pair(head, a, b));
                    } else {
                        assert(messages@[a].role == Role::User);
                        assert(a <= last_user);
                        assert forall|k: int| last_user < k < i implies (#[trigger] messages@[k]).role
                            != Role::Assistant by {
                            assert(next[k].role != Role::Assistant);
                        }
                    }
                }
            }
            if messages@[i as int].role == Role::User {
                last_user = i as int;
            }
        }
        if m.role == Role::User {
            waiting = true;
        } else if m.role == Role::Assistant {
            waiting = false;
            proof {
                assert(messages@[i as int].role == Role::Assistant);
            }
        }
        i = i + 1;
    }
    proof {
        assert(messages@.take(messages@.len() as int) =~= messages@);
    }
    Ok(turns)
}

/// `line` as a line of a quotation.
pub open spec fn quoted_line(line: Seq<char>) -> Seq<char> {
    if line.len() == 0 {
        ">\n"@
    } else {
        "> "@ + line + "\n"@
    }
}

/// `ls` as a quotation.
pub open spec fn quoted(ls: Seq<Seq<char>>) -> Seq<char>
    decreases ls.len(),
{
    if ls.len() == 0 {
        Seq::empty()
    } else {
        quoted(ls.drop_last()) + quoted_line(ls.last())
    }
}

/// Adds `text` as a quotation at the end of `out`.
pub fn emit_quoted(out: &mut String, text: &str)
    ensures
        final(out)@ == old(out)@ + quoted(lines(text@)),
{
    let ls = split_lines(text);
    let ghost start = out@;
    let mut i: usize = 0;
    proof {
        assert(start + quoted(lines(text@).take(0)) =~= start);
    }
    while i < ls.len()
        invariant
            i <= ls@.len(),
            views(ls@) == lines(text@),
            out@ == start + quoted(lines(text@).take(i as int)),
        decreases ls@.len() - i,
    {
        let ghost before = out@;
        let ghost all = lines(text@);
        if ls[i].as_str().is_empty() {
            out.append(">\n");
        } else {
            out.append("> ");
            out.append(ls[i].as_str());
            out.append("\n");
        }
        proof {
            assert(all[i as int] == ls@[i as int]@);
            assert(out@ =~= before + quoted_line(all[i as int]));
            assert(all.take(i + 1).drop_last() =~= all.take(i as int));
            assert(all.take(i + 1).last() == all[i as int]);
            assert(out@ =~= start + quoted(all.take(i + 1)));
        }
        i = i + 1;
    }
    proof {
        assert(lines(text@).take(ls@.len() as int) =~= lines(text@));
    }
}

/// The first `max` lines of a text and a note on how many more there are; a
/// text of no more lines as it is.
pub open spec fn truncated_trace(s: Seq<char>, max: nat) -> Seq<char> {
    if lines(s).len() <= max {
        s
    } else {
        join(lines(s).take(max as int), "\n"@) + "\n... ("@ + decimal(
            (lines(s).len() - max) as nat,
        ) + " more lines)"@
    }
}

/// The first `max_lines` lines of a text and a note on how many more there
/// are; a text of no more lines as it is.
pub fn truncate_trace_output(s: &str, max_lines: usize) -> (r: String)
    ensures
        r@ == truncated_trace(s@, max_lines as nat),
{
    let mut ls = split_lines(s);
    proof {
        assert(views(ls@).len() == ls@.len());
    }
    if ls.len() <= max_lines {
        return s.to_owned();
    }
    let omitted: u64 = (ls.len() - max_lines) as u64;
    ls.truncate(max_lines);
    let head = join_text(&ls, "\n");
    proof {
        assert(views(ls@) =~= lines(s@).take(max_lines as int));
    }
    cat4(head.as_str(), "\n... (", decimal_text(omitted).as_str(), " more lines)")
}

/// `line` as a line of a tool's output in the trace.
pub open spec fn indented_line(line: Seq<char>) -> Seq<char> {
    if line.len() == 0 {
        "\n"@
    } else {
        "   "@ + line + "\n"@
    }
}

/// `ls` as a tool's output in the trace.
pub open spec fn indented(ls: Seq<Seq<char>>) -> Seq<char>
    decreases ls.len(),
{
    if ls.len() == 0 {
        Seq::empty()
    } else {
        indented(ls.drop_last()) + indented_line(ls.last())
    }
}

fn indent_text(text: &str) -> (r: String)
    ensures
        r@ == indented(lines(text@)),
{
    let ls = split_lines(text);
    let mut out = String::new();
    let mut i: usize = 0;
    while i < ls.len()
        invariant
            i <= ls@.len(),
            views(ls@) == lines(text@),
            out@ == indented(lines(text@).take(i as int)),
        decreases ls@.len() - i,
    {
        let ghost before = out@;
        let ghost all = lines(text@);
        if ls[i].as_str().is_empty() {
            out.append("\n");
        } else {
            out.append("   ");
            out.append(ls[i].as_str());
            out.append("\n");
        }
        proof {
            assert(all[i as int] == ls@[i as int]@);
            assert(out@ =~= before + indented_line(all[i as int]));
            assert(all.take(i + 1).drop_last() =~= all.take(i as int));
            assert(all.take(i + 1).last() == all[i as int]);
        }
        i = i + 1;
    }
    proof {
        assert(lines(text@).take(ls@.len() as int) =~= lines(text@));
    }
    out
}

/// The part of the trace that shows what the call gave back.
pub open spec fn output_trace(call: ToolCall) -> Seq<char> {
    match call.full_output {
        Some(output) if trim(output@).len() > 0 => "\n   ```\n"@ + indented(
            lines(truncated_trace(output@, 20)),
        ) + "   ```\n\n"@,
        _ => Seq::empty(),
    }
}

/// What the trace says of a call, the `n`th of its block.
pub open spec fn call_trace(n: nat, call: ToolCall) -> Seq<char> {
    let summary = if call.args_summary@.len() == 0 {
        Seq::empty()
    } else {
        " `"@ + call.args_summary@ + "`"@
    };
    let mark = if call.is_error {
        " [ERROR]"@
    } else {
        Seq::empty()
    };
    decimal(n) + ". `"@ + call.tool_name.name() + "`"@ + summary + mark + "\n"@ + output_trace(call)
}

/// What the trace says of the calls of a block.
pub open spec fn calls_trace(calls: Seq<ToolCall>) -> Seq<char>
    decreases calls.len(),
{
    if calls.len() == 0 {
        Seq::empty()
    } else {
        calls_trace(calls.drop_last()) + call_trace(calls.len(), calls.last())
    }
}

/// The tool calls of all parts, in order.
pub open spec fn calls_of(parts: Seq<AssistantPart>) -> Seq<ToolCall>
    decreases parts.len(),
{
    if parts.len() == 0 {
        Seq::empty()
    } else {
        match parts.last() {
            AssistantPart::ToolGroup(g) => calls_of(parts.drop_last()) + g.calls@,
            AssistantPart::Text(_) => calls_of(parts.drop_last()),
        }
    }
}

/// The texts of all parts, joined.
pub open spec fn text_of(parts: Seq<AssistantPart>) -> Seq<char>
    decreases parts.len(),
{
    if parts.len() == 0 {
        Seq::empty()
    } else {
        match parts.last() {
            AssistantPart::Text(t) => text_of(parts.drop_last()) + t@,
            AssistantPart::ToolGroup(_) => text_of(parts.drop_last()),
        }
    }
}

/// How many of `blocks` are of the user.
pub open spec fn user_count(blocks: Seq<MessageBlock>) -> nat
    decreases blocks.len(),
{
    if blocks.len() == 0 {
        0
    } else {
        user_count(blocks.drop_last()) + if blocks.last() is User {
            1nat
        } else {
            0nat
        }
    }
}

/// What the trace says of the parts of an assistant block.
pub open spec fn assistant_trace(parts: Seq<AssistantPart>) -> Seq<char> {
    let calls = if calls_of(parts).len() == 0 {
        Seq::empty()
    } else {
        "**Tool calls:**\n\n"@ + calls_trace(calls_of(parts))
    };
    let said = if trim(text_of(parts)).len() == 0 {
        Seq::empty()
    } else {
        "**Assistant:**\n\n"@ + quoted(lines(text_of(parts))) + "\n"@
    };
    calls + said
}

/// What the trace says of a block that comes after `turns` turns of the user:
/// a turn of the user opens a numbered section, what the assistant did before
/// the first of them is left out, and so is every other kind of block.
pub open spec fn block_trace(block: MessageBlock, turns: nat) -> Seq<char> {
    match block {
        MessageBlock::User { text } => "## Turn "@ + decimal(turns + 1) + "\n\n"@
            + "**User:**\n\n"@ + quoted(lines(text@)) + "\n"@,
        MessageBlock::Assistant { parts, .. } if turns > 0 => assistant_trace(parts@),
        _ => Seq::empty(),
    }
}

/// What the trace says of `blocks`.
pub open spec fn body_trace(blocks: Seq<MessageBlock>) -> Seq<char>
    decreases blocks.len(),
{
    if blocks.len() == 0 {
        Seq::empty()
    } else {
        body_trace(blocks.drop_last()) + block_trace(
            blocks.last(),
            user_count(blocks.drop_last()),
        )
    }
}

/// The opening of every trace.
pub const TRACE_HEADER: &'static str = "# Session trace\n\n\
    This is what happened in the original session that generated the\n\
    neighboring `scenario.toml`. Use it as a reference while filling\n\
    in the TODOs — the tool-call sequence and final assistant message\n\
    below are the raw material for concrete `pass_when` / `fail_when`\n\
    text and `final_message_contains` sentinels.\n\
    \n\
    This file is **not** loaded by the eval runner (it's not listed in\n\
    `[setup].copy_fixtures`). Keep it committed as documentation of\n\
    why the scenario exists, or delete it before committing if you\n\
    prefer scenario directories to stay minimal.\n\n";

fn write_call(n: u64, call: &ToolCall) -> (r: String)
    ensures
        r@ == call_trace(n as nat, *call),
{
    let mut out = decimal_text(n);
    out.append(". `");
    out.append(call.tool_name.as_str());
    out.append("`");
    let mut summary = String::new();
    if !call.args_summary.as_str().is_empty() {
        summary.append(" `");
        summary.append(call.args_summary.as_str());
        summary.append("`");
        proof {
            assert(summary@ =~= " `"@ + call.args_summary@ + "`"@);
        }
    }
    out.append(summary.as_str());
    let mut mark = String::new();
    if call.is_error {
        mark.append(" [ERROR]");
        proof {
            assert(mark@ =~= " [ERROR]"@);
        }
    }
    out.append(mark.as_str());
    out.append("\n");
    let mut tail = String::new();
    match &call.full_output {
        Some(output) => {
            let bare = trimmed(output.as_str());
            if !bare.as_str().is_empty() {
                let shown = truncate_trace_output(output.as_str(), 20);
                tail.append("\n   ```\n");
                tail.append(indent_text(shown.as_str()).as_str());
                tail.append("   ```\n\n");
            }
        },
        None => {},
    }
    proof {
        assert(tail@ =~= output_trace(*call));
    }
    out.append(tail.as_str());
    out
}

/// The calls that a sequence of references points to.
pub open spec fn deref_calls(refs: Seq<&ToolCall>) -> Seq<ToolCall> {
    Seq::new(refs.len(), |i: int| *refs[i])
}

fn collect_calls<'a>(parts: &'a Vec<AssistantPart>) -> (r: Vec<&'a ToolCall>)
    ensures
        deref_calls(r@) == calls_of(parts@),
{
    let mut out: Vec<&'a ToolCall> = Vec::new();
    let mut i: usize = 0;
    proof {
        assert(deref_calls(out@) =~= Seq::<ToolCall>::empty());
    }
    while i < parts.len()
        invariant
            i <= parts@.len(),
            deref_calls(out@) == calls_of(parts@.take(i as int)),
        decreases parts@.len() - i,
    {
        proof {
            assert(parts@.take(i + 1).drop_last() =~= parts@.take(i as int));
            assert(parts@.take(i + 1).last() == parts@[i as int]);
        }
        match &parts[i] {
            AssistantPart::ToolGroup(g) => {
                let ghost before = deref_calls(out@);
                let mut j: usize = 0;
                proof {
                    assert(before + g.calls@.take(0) =~= before);
                }
                while j < g.calls.len()
                    invariant
                        j <= g.calls@.len(),
                        deref_calls(out@) == before + g.calls@.take(j as int),
                    decreases g.calls@.len() - j,
                {
                    let ghost prev = out@;
                    out.push(&g.calls[j]);
                    proof {
                        assert(deref_calls(out@) =~= deref_calls(prev).push(g.calls@[j as int]));
                        assert(before + g.calls@.take(j + 1) =~= (before + g.calls@.take(
                            j as int,
                        )).push(g.calls@[j as int]));
                    }
                    j = j + 1;
                }
                proof {
                    assert(g.calls@.take(g.calls@.len() as int) =~= g.calls@);
                }
            },
            AssistantPart::Text(_) => {},
        }
        i = i + 1;
    }
    proof {
        assert(parts@.take(parts@.len() as int) =~= parts@);
    }
    out
}

fn collect_text(parts: &Vec<AssistantPart>) -> (r: String)
    ensures
        r@ == text_of(parts@),
{
    let mut out = String::new();
    let mut i: usize = 0;
    while i < parts.len()
        invariant
            i <= parts@.len(),
            out@ == text_of(parts@.take(i as int)),
        decreases parts@.len() - i,
    {
        proof {
            assert(parts@.take(i + 1).drop_last() =~= parts@.take(i as int));
            assert(parts@.take(i + 1).last() == parts@[i as int]);
        }
        match &parts[i] {
            AssistantPart::Text(t) => {
                out.append(t.as_str());
            },
            AssistantPart::ToolGroup(_) => {},
        }
        i = i + 1;
    }
    proof {
        assert(parts@.take(parts@.len() as int) =~= parts@);
    }
    out
}

fn write_parts(parts: &Vec<AssistantPart>) -> (r: String)
    ensures
        r@ == assistant_trace(parts@),
{
    let calls = collect_calls(parts);
    let ghost all = calls_of(parts@);
    proof {
        assert(all.len() == calls@.len());
    }
    let mut out = String::new();
    if calls.len() > 0 {
        out.append("**Tool calls:**\n\n");
        let ghost start = out@;
        proof {
            assert(start =~= "**Tool calls:**\n\n"@);
            assert(start + calls_trace(all.take(0)) =~= start);
        }
        let mut i: usize = 0;
        while i < calls.len()
            invariant
                i <= calls@.len(),
                deref_calls(calls@) == all,
                out@ == start + calls_trace(all.take(i as int)),
            decreases calls@.len() - i,
        {
            let ghost before = out@;
            proof {
                assert(all[i as int] == *calls@[i as int]);
                assert(all.take(i + 1).drop_last() =~= all.take(i as int));
                assert(all.take(i + 1).last() == all[i as int]);
            }
            let entry = write_call(i as u64 + 1, calls[i]);
            out.append(entry.as_str());
            proof {
                assert(out@ =~= start + calls_trace(all.take(i + 1)));
            }
            i = i + 1;
        }
        proof {
            assert(all.take(all.len() as int) =~= all);
        }
    }
    let ghost shown = out@;
    let said = collect_text(parts);
    let bare = trimmed(said.as_str());
    if !bare.as_str().is_empty() {
        out.append("**Assistant:**\n\n");
        emit_quoted(&mut out, said.as_str());
        out.append("\n");
    }
    proof {
        assert(out@ =~= assistant_trace(parts@));
    }
    out
}

/// The session as a readable text: each turn of the user, numbered, with the
/// tool calls and the words of the assistant that followed it.
pub fn build_session_trace(blocks: &Vec<MessageBlock>) -> (r: String)
    ensures
        r@ == TRACE_HEADER@ + body_trace(blocks@),
{
    let mut out = TRACE_HEADER.to_owned();
    let ghost start = out@;
    let mut turns: u64 = 0;
    let mut i: usize = 0;
    proof {
        assert(start + body_trace(blocks@.take(0)) =~= start);
    }
    while i < blocks.len()
        invariant
            i <= blocks@.len(),
            turns <= i,
            turns as nat == user_count(blocks@.take(i as int)),
            out@ == start + body_trace(blocks@.take(i as int)),
        decreases blocks@.len() - i,
    {
        let ghost before = out@;
        let ghost earlier = turns as nat;
        proof {
            assert(blocks@.take(i + 1).drop_last() =~= blocks@.take(i as int));
            assert(blocks@.take(i + 1).last() == blocks@[i as int]);
        }
        match &blocks[i] {
            MessageBlock::User { text } => {
                turns = turns + 1;
                out.append("## Turn ");
                out.append(decimal_text(turns).as_str());
                out.append("\n\n");
                out.append("**User:**\n\n");
                emit_quoted(&mut out, text.as_str());
                out.append("\n");
            },
            MessageBlock::Assistant { parts, .. } => {
                if turns > 0 {
                    out.append(write_parts(parts).as_str());
                }
            },
            _ => {},
        }
        proof {
            assert(out@ =~= before + block_trace(blocks@[i as int], earlier));
            assert(out@ =~= start + body_trace(blocks@.take(i + 1)));
        }
        i = i + 1;
    }
    proof {
        assert(blocks@.take(blocks@.len() as int) =~= blocks@);
    }
    out
}

/// Whether the files that a call of `tool` names can be fixtures.
pub open spec fn names_fixture(tool: ToolName) -> bool {
    tool is Read || tool is Edit || tool is Write || tool is Patch
}

/// Whether the files that a call of `tool` names can be fixtures.
pub fn is_fixture_candidate_tool(tool: ToolName) -> (r: bool)
    ensures
        r == names_fixture(tool),
{
    match tool {
        ToolName::Read | ToolName::Edit | ToolName::Write | ToolName::Patch => true,
        _ => false,
    }
}

/// Whether `s` reads "N files".
pub open spec fn is_file_count(s: Seq<char>) -> bool {
    &&& " files"@.is_suffix_of(s)
    &&& s.len() > 6
    &&& all_digits(s.take(s.len() - 6))
}

/// Whether `s` is a non-empty text of `k` characters followed by " (tail N)".
pub open spec fn tail_at(s: Seq<char>, k: int) -> bool {
    &&& 0 < k
    &&& k + 8 < s.len()
    &&& s.subrange(k, k + 7) == " (tail "@
    &&& all_digits(s.subrange(k + 7, s.len() - 1))
    &&& s.last() == ')'
}

/// What stands before " (tail N)" at the end of `s`, where it is not empty.
pub open spec fn before_tail(s: Seq<char>) -> Option<Seq<char>> {
    if exists|k: int| tail_at(s, k) {
        Some(s.take(choose|k: int| tail_at(s, k)))
    } else {
        None
    }
}

/// The place of " (tail N)" at the end of a text is where its digits begin.
pub proof fn lemma_tail_at(s: Seq<char>, k: int, d: int)
    requires
        tail_at(s, k),
        0 < d < s.len(),
        !is_digit(s[d - 1]),
        forall|i: int| d <= i < s.len() - 1 ==> is_digit(#[trigger] s[i]),
    ensures
        k + 7 == d,
{
    reveal_strlit(" (tail ");
    assert(s.subrange(k, k + 7)[6] == ' ');
    if k + 7 < d {
        assert(s.subrange(k + 7, s.len() - 1)[d - 1 - (k + 7)] == s[d - 1]);
        assert(is_digit(s[d - 1]));
    }
    if k + 7 > d {
        assert(s[k + 6] == ' ');
        assert(is_digit(s[k + 6]));
    }
}

/// Where `s` ends in " (tail N)", the text before it.
pub proof fn lemma_before_tail(s: Seq<char>, k: int)
    requires
        tail_at(s, k),
    ensures
        before_tail(s) == Some(s.take(k)),
{
    reveal_strlit(" (tail ");
    let m = choose|m: int| tail_at(s, m);
    let d = k + 7;
    assert(s.subrange(k, k + 7)[6] == s[k + 6]);
    assert forall|i: int| d <= i < s.len() - 1 implies is_digit(#[trigger] s[i]) by {
        assert(s.subrange(k + 7, s.len() - 1)[i - d] == s[i]);
    }
    lemma_tail_at(s, m, d);
}

/// Whether `s` reads "N files": the summary of a read of several files.
pub fn is_multi_path_read_summary(summary: &str) -> (r: bool)
    ensures
        r == is_file_count(summary@),
{
    proof {
        reveal_strlit(" files");
    }
    if !ends_with(summary, " files") {
        return false;
    }
    let cs = chars_of(summary);
    let n: usize = cs.len() - 6;
    let mut i: usize = 0;
    while i < n
        invariant
            i <= n,
            n == cs@.len() - 6,
            cs@ == summary@,
            forall|k: int| 0 <= k < i ==> is_digit(#[trigger] cs@[k]),
        decreases n - i,
    {
        if cs[i] < '0' || cs[i] > '9' {
            proof {
                assert(summary@.take(summary@.len() - 6)[i as int] == cs@[i as int]);
            }
            return false;
        }
        i = i + 1;
    }
    n > 0
}

/// What stands before " (tail N)" at the end of `summary`, where it is not empty.
pub fn strip_tail_suffix(summary: &str) -> (r: Option<String>)
    ensures
        match r {
            Some(p) => before_tail(summary@) == Some(p@),
            None => before_tail(summary@) is None,
        },
{
    proof {
        reveal_strlit(" (tail ");
    }
    let cs = chars_of(summary);
    let n: usize = cs.len();
    if n < 10 || cs[n - 1] != ')' {
        return None;
    }
    let mut d: usize = n - 1;
    while d > 0 && cs[d - 1] >= '0' && cs[d - 1] <= '9'
        invariant
            d <= n - 1,
            n == cs@.len(),
            n >= 10,
            forall|i: int| d <= i < n - 1 ==> is_digit(#[trigger] cs@[i]),
        decreases d,
    {
        d = d - 1;
    }
    if d < 8 || d == n - 1 {
        proof {
            assert forall|k: int| !tail_at(summary@, k) by {
                if tail_at(summary@, k) {
                    assert(summary@.subrange(k, k + 7)[6] == summary@[k + 6]);
                    if d == 0 {
                        assert(is_digit(summary@[k + 6]));
                    } else {
                        lemma_tail_at(summary@, k, d as int);
                    }
                }
            }
        }
        return None;
    }
    let head = string_of(&cs, d - 7, d);
    if !same_text(head.as_str(), " (tail ") {
        proof {
            assert forall|k: int| !tail_at(summary@, k) by {
                if tail_at(summary@, k) {
                    lemma_tail_at(summary@, k, d as int);
                }
            }
        }
        return None;
    }
    let r = string_of(&cs, 0, d - 7);
    proof {
        assert(tail_at(summary@, d - 7));
        lemma_before_tail(summary@, d - 7);
        assert(r@ =~= summary@.take(d - 7));
    }
    Some(r)
}

/// The path that a call of `tool` names, going by its argument summary.
pub open spec fn summary_path(tool: ToolName, summary: Seq<char>) -> Option<Seq<char>> {
    if summary.len() == 0 {
        None
    } else {
        match tool {
            ToolName::Edit | ToolName::Write | ToolName::Patch => Some(summary),
            ToolName::Read => if is_file_count(summary) {
                None
            } else if " (count)"@.is_suffix_of(summary) {
                if summary.len() == 8 {
                    None
                } else {
                    Some(summary.take(summary.len() - 8))
                }
            } else if before_tail(summary) is Some {
                before_tail(summary)
            } else {
                Some(summary)
            },
            _ => None,
        }
    }
}

/// The path that a call of `tool` names, going by its argument summary: all of
/// the summary but for the marks that a read adds at its end.
pub fn path_from_args_summary(tool: ToolName, summary: &str) -> (r: Option<String>)
    ensures
        match r {
            Some(p) => summary_path(tool, summary@) == Some(p@),
            None => summary_path(tool, summary@) is None,
        },
{
    proof {
        reveal_strlit(" (count)");
    }
    if summary.is_empty() {
        return None;
    }
    match tool {
        ToolName::Edit | ToolName::Write | ToolName::Patch => Some(summary.to_owned()),
        ToolName::Read => {
            if is_multi_path_read_summary(summary) {
                return None;
            }
            if ends_with(summary, " (count)") {
                let cs = chars_of(summary);
                if cs.len() == 8 {
                    return None;
                }
                let p = string_of(&cs, 0, cs.len() - 8);
                proof {
                    assert(p@ =~= summary@.take(summary@.len() - 8));
                }
                return Some(p);
            }
            match strip_tail_suffix(summary) {
                Some(p) => Some(p),
                None => Some(summary.to_owned()),
            }
        },
        _ => None,
    }
}

/// Whether the component of `path` at `i` is "..".
pub open spec fn parent_at(path: Seq<char>, i: int) -> bool {
    &&& 0 <= i
    &&& i + 2 <= path.len()
    &&& i == 0 || path[i - 1] == '/'
    &&& path[i] == '.'
    &&& path[i + 1] == '.'
    &&& i + 2 == path.len() || path[i + 2] == '/'
}

/// Whether `path` is relative, does not start at "." and has no component "..".
pub open spec fn is_fixture_path(path: Seq<char>) -> bool {
    &&& path.len() > 0
    &&& path[0] != '/'
    &&& !(path[0] == '.' && (path.len() == 1 || path[1] == '/'))
    &&& forall|i: int| !parent_at(path, i)
}

/// Whether `path` can be copied as a fixture: it is relative, does not start
/// at "." and has no component "..".
pub fn is_valid_fixture_candidate(path: &str) -> (r: bool)
    ensures
        r == is_fixture_path(path@),
{
    let cs = chars_of(path);
    let n: usize = cs.len();
    if n == 0 || cs[0] == '/' {
        return false;
    }
    if cs[0] == '.' && (n == 1 || cs[1] == '/') {
        return false;
    }
    let mut i: usize = 0;
    while i < n - 1
        invariant
            i <= n,
            n == cs@.len(),
            n > 0,
            cs@ == path@,
            forall|k: int| 0 <= k < i ==> !parent_at(path@, k),
        decreases n - i,
    {
        if cs[i] == '.' && cs[i + 1] == '.' && (i == 0 || cs[i - 1] == '/') && (i + 2 == n || cs[i
            + 2] == '/') {
            proof {
                assert(parent_at(path@, i as int));
            }
            return false;
        }
        i = i + 1;
    }
    true
}

/// The fixture that a call names: the path of a call that succeeded.
pub open spec fn call_fixture(call: ToolCall) -> Option<Seq<char>> {
    if call.is_error || call.full_output is None || !names_fixture(call.tool_name) {
        None
    } else {
        match summary_path(call.tool_name, call.args_summary@) {
            Some(p) if is_fixture_path(p) => Some(p),
            _ => None,
        }
    }
}

/// The fixtures that `calls` name, each where it is named first.
pub open spec fn fixtures(calls: Seq<ToolCall>) -> Seq<Seq<char>>
    decreases calls.len(),
{
    if calls.len() == 0 {
        Seq::empty()
    } else {
        let before = fixtures(calls.drop_last());
        match call_fixture(calls.last()) {
            Some(p) if !before.contains(p) => before.push(p),
            _ => before,
        }
    }
}

/// The tool calls of all blocks, in order.
pub open spec fn block_calls(blocks: Seq<MessageBlock>) -> Seq<ToolCall>
    decreases blocks.len(),
{
    if blocks.len() == 0 {
        Seq::empty()
    } else {
        match blocks.last() {
            MessageBlock::Assistant { parts, .. } => block_calls(blocks.drop_last()) + calls_of(
                parts@,
            ),
            _ => block_calls(blocks.drop_last()),
        }
    }
}

fn fixture_of(call: &ToolCall) -> (r: Option<String>)
    ensures
        match r {
            Some(p) => call_fixture(*call) == Some(p@),
            None => call_fixture(*call) is None,
        },
{
    if call.is_error || call.full_output.is_none() || !is_fixture_candidate_tool(call.tool_name) {
        return None;
    }
    match path_from_args_summary(call.tool_name, call.args_summary.as_str()) {
        Some(p) => {
            if is_valid_fixture_candidate(p.as_str()) {
                Some(p)
            } else {
                None
            }
        },
        None => None,
    }
}

/// The paths of the files that the assistant read or changed and that can be
/// fixtures, each once, in the order in which they were first named.
pub fn collect_fixture_paths(blocks: &Vec<MessageBlock>) -> (r: Vec<String>)
    ensures
        views(r@) == fixtures(block_calls(blocks@)),
        views(r@).no_duplicates(),
{
    let mut out: Vec<String> = Vec::new();
    let mut i: usize = 0;
    proof {
        assert(views(out@) =~= Seq::<Seq<char>>::empty());
    }
    while i < blocks.len()
        invariant
            i <= blocks@.len(),
            views(out@) == fixtures(block_calls(blocks@.take(i as int))),
        decreases blocks@.len() - i,
    {
        proof {
            assert(blocks@.take(i + 1).drop_last() =~= blocks@.take(i as int));
            assert(blocks@.take(i + 1).last() == blocks@[i as int]);
        }
        match &blocks[i] {
            MessageBlock::Assistant { parts, .. } => {
                let calls = collect_calls(parts);
                let ghost seen = block_calls(blocks@.take(i as int));
                let ghost all = calls_of(parts@);
                let mut j: usize = 0;
                proof {
                    assert(seen + all.take(0) =~= seen);
                }
                while j < calls.len()
                    invariant
                        j <= calls@.len(),
                        deref_calls(calls@) == all,
                        views(out@) == fixtures(seen + all.take(j as int)),
                    decreases calls@.len() - j,
                {
                    proof {
                        assert(all[j as int] == *calls@[j as int]);
                        let next = seen + all.take(j + 1);
                        assert(next.drop_last() =~= seen + all.take(j as int));
                        assert(next.last() == all[j as int]);
                    }
                    match fixture_of(calls[j]) {
                        Some(p) => {
                            if !holds(&out, p.as_str()) {
                                proof {
                                    lemma_views_push(out@, p);
                                }
                                out.push(p);
                            }
                        },
                        None => {},
                    }
                    j = j + 1;
                }
                proof {
                    assert(all.take(all.len() as int) =~= all);
                }
            },
            _ => {},
        }
        i = i + 1;
    }
    proof {
        assert(blocks@.take(blocks@.len() as int) =~= blocks@);
        fixtures_are_distinct(block_calls(blocks@));
    }
    out
}

/// No fixture is named twice, and each is the fixture of one of the calls.
pub proof fn fixtures_are_distinct(calls: Seq<ToolCall>)
    ensures
        fixtures(calls).no_duplicates(),
        forall|p: Seq<char>| #[trigger]
            fixtures(calls).contains(p) <==> exists|i: int|
                0 <= i < calls.len() && call_fixture(#[trigger] calls[i]) == Some(p),
    decreases calls.len(),
{
    if calls.len() > 0 {
        let head = calls.drop_last();
        fixtures_are_distinct(head);
        let before = fixtures(head);
        let now = fixtures(calls);
        assert forall|p: Seq<char>| #[trigger] now.contains(p) <==> exists|i: int|
            0 <= i < calls.len() && call_fixture(#[trigger] calls[i]) == Some(p) by {
            if exists|i: int| 0 <= i < calls.len() && call_fixture(#[trigger] calls[i]) == Some(p) {
                let i = choose|i: int|
                    0 <= i < calls.len() && call_fixture(#[trigger] calls[i]) == Some(p);
                if i < head.len() {
                    assert(call_fixture(head[i]) == Some(p));
                    assert(before.contains(p));
                    let k = choose|k: int| 0 <= k < before.len() && before[k] == p;
                    assert(now[k] == p);
                } else if !before.contains(p) {
                    assert(now[now.len() - 1] == p);
                } else {
                    assert(now == before);
                }
            }
            if now.contains(p) {
                if before.contains(p) {
                    let i = choose|i: int|
                        0 <= i < head.len() && call_fixture(#[trigger] head[i]) == Some(p);
                    assert(call_fixture(calls[i]) == Some(p));
                } else {
                    let k = choose|k: int| 0 <= k < now.len() && now[k] == p;
                    if k < before.len() {
                        assert(before[k] == p);
                    }
                    assert(call_fixture(calls[calls.len() - 1]) == Some(p));
                }
            }
        }
    }
}

/// A read of one file, or a change to one, whose summary was taken from its
/// arguments gives back the path in those arguments. Left out is a read of all
/// of a file whose own name ends in one of the marks that summaries use.
pub proof fn path_survives_summary(tool: ToolName, args: Json)
    requires
        names_fixture(tool),
        tool is Read ==> args.array_field("paths"@) is None,
        ({
            let path = args.text_or(
                if tool is Read {
                    "path"@
                } else {
                    "file_path"@
                },
                ""@,
            );
            &&& path.len() > 0
            &&& tool is Read && !args.flag("count"@) && args.uint_field("tail"@) is None ==> {
                &&& !is_file_count(path)
                &&& !" (count)"@.is_suffix_of(path)
                &&& before_tail(path) is None
            }
        }),
    ensures
        summary_path(tool, args_summary(tool, args)) == Some(
            args.text_or(
                if tool is Read {
                    "path"@
                } else {
                    "file_path"@
                },
                ""@,
            ),
        ),
{
    reveal_strlit(" (count)");
    reveal_strlit(" (tail ");
    reveal_strlit(" files");
    reveal_strlit(")");
    if tool is Read {
        let path = args.text_or("path"@, ""@);
        let s = args_summary(tool, args);
        if args.flag("count"@) {
            assert(s == path + " (count)"@);
            assert(s.subrange(s.len() - 8, s.len() as int) =~= " (count)"@);
            assert(s.last() == ')');
            if " files"@.is_suffix_of(s) {
                assert(s.subrange(s.len() - 6, s.len() as int)[5] == 's');
            }
            assert(s.take(s.len() - 8) =~= path);
        } else {
            match args.uint_field("tail"@) {
                Some(n) => {
                    let d = decimal(n as nat);
                    lemma_decimal(n as nat);
                    let k = path.len() as int;
                    assert(s == path + " (tail "@ + d + ")"@);
                    assert(s.subrange(k, k + 7) =~= " (tail "@);
                    assert(s.subrange(k + 7, s.len() - 1) =~= d);
                    assert(s.last() == ')');
                    assert(tail_at(s, k));
                    lemma_before_tail(s, k);
                    assert(s.take(k) =~= path);
                    if " files"@.is_suffix_of(s) {
                        assert(s.subrange(s.len() - 6, s.len() as int)[5] == 's');
                    }
                    if " (count)"@.is_suffix_of(s) {
                        assert(s.subrange(s.len() - 8, s.len() as int)[6] == 't');
                        assert(is_digit(d[d.len() - 1]));
                        assert(s[s.len() - 2] == d[d.len() - 1]);
                    }
                },
                None => {},
            }
        }
    }
}

/// A read of several files names no single path.
pub proof fn several_paths_name_none(args: Json)
    requires
        args.array_field("paths"@) is Some,
    ensures
        summary_path(ToolName::Read, args_summary(ToolName::Read, args)) is None,
{
    reveal_strlit(" files");
    let n = args.array_field("paths"@)->Some_0.len();
    let s = args_summary(ToolName::Read, args);
    lemma_decimal(n);
    assert(s == decimal(n) + " files"@);
    assert(s.subrange(s.len() - 6, s.len() as int) =~= " files"@);
    assert(s.take(s.len() - 6) =~= decimal(n));
}

/// Every fixture that is collected can be copied: it is relative, does not
/// start at "." and has no component "..".
pub proof fn fixtures_can_be_copied(calls: Seq<ToolCall>)
    ensures
        forall|i: int| 0 <= i < fixtures(calls).len() ==> is_fixture_path(#[trigger] fixtures(calls)[i]),
{
    fixtures_are_distinct(calls);
    assert forall|i: int| 0 <= i < fixtures(calls).len() implies is_fixture_path(
        #[trigger] fixtures(calls)[i],
    ) by {
        let p = fixtures(calls)[i];
        assert(fixtures(calls).contains(p));
        let k = choose|k: int| 0 <= k < calls.len() && call_fixture(#[trigger] calls[k]) == Some(p);
        assert(call_fixture(calls[k]) == Some(p));
    }
}

/// A block that is neither of the user nor of the assistant leaves no trace.
pub proof fn chatter_leaves_no_trace(
    before: Seq<MessageBlock>,
    block: MessageBlock,
    after: Seq<MessageBlock>,
)
    requires
        !(block is User),
        !(block is Assistant),
    ensures
        body_trace(before + seq![block] + after) == body_trace(before + after),
        user_count(before + seq![block] + after) == user_count(before + after),
    decreases after.len(),
{
    let with = before + seq![block] + after;
    let without = before + after;
    if after.len() == 0 {
        assert(with.drop_last() =~= before);
        assert(with.last() == block);
        assert(without =~= before);
        assert(body_trace(before) + Seq::<char>::empty() =~= body_trace(before));
    } else {
        chatter_leaves_no_trace(before, block, after.drop_last());
        assert(with.drop_last() =~= before + seq![block] + after.drop_last());
        assert(without.drop_last() =~= before + after.drop_last());
        assert(with.last() == without.last());
    }
}

/// A system message anywhere in a session changes neither whether the session
/// can be replayed nor what the user said in it.
pub proof fn system_messages_do_not_matter(messages: Seq<Message>, k: int, m: Message)
    requires
        0 <= k <= messages.len(),
        m.role == Role::System,
    ensures
        has_interjection(messages.insert(k, m)) == has_interjection(messages),
        user_turns(messages.insert(k, m)) == user_turns(messages),
{
    let more = messages.insert(k, m);
    if has_interjection(messages) {
        let (i, j) = choose|i: int, j: int| unanswered_pair(messages, i, j);
        let a = if i < k {
            i
        } else {
            i + 1
        };
        let b = if j < k {
            j
        } else {
            j + 1
        };
        assert forall|x: int| a < x < b implies (#[trigger] more[x]).role != Role::Assistant by {
            if x < k {
                assert(more[x] == messages[x]);
            } else if x > k {
                assert(more[x] == messages[x - 1]);
            }
        }
        assert(unanswered_pair(more, a, b));
    }
    if has_interjection(more) {
        let (a, b) = choose|a: int, b: int| unanswered_pair(more, a, b);
        let i = if a < k {
            a
        } else {
            a - 1
        };
        let j = if b < k {
            b
        } else {
            b - 1
        };
        assert(a != k && b != k);
        assert forall|x: int| i < x < j implies (#[trigger] messages[x]).role != Role::Assistant by {
            if x < k {
                assert(more[x] == messages[x]);
            } else {
                assert(more[x + 1] == messages[x]);
            }
        }
        assert(unanswered_pair(messages, i, j));
    }
    lemma_turns_without_system(messages, k, m);
}

proof fn lemma_turns_without_system(messages: Seq<Message>, k: int, m: Message)
    requires
        0 <= k <= messages.len(),
        m.role == Role::System,
    ensures
        user_turns(messages.insert(k, m)) == user_turns(messages),
    decreases messages.len(),
{
    let more = messages.insert(k, m);
    if k == messages.len() {
        assert(more.drop_last() =~= messages);
        assert(more.last() == m);
    } else {
        lemma_turns_without_system(messages.drop_last(), k, m);
        assert(more.drop_last() =~= messages.drop_last().insert(k, m));
        assert(more.last() == messages.last());
    }
}

/// What a session begins with, its trace begins with: more blocks only add to it.
pub proof fn trace_only_grows(blocks: Seq<MessageBlock>, more: Seq<MessageBlock>)
    ensures
        body_trace(blocks).is_prefix_of(body_trace(blocks + more)),
        (TRACE_HEADER@ + body_trace(blocks)).is_prefix_of(
            TRACE_HEADER@ + body_trace(blocks + more),
        ),
    decreases more.len(),
{
    if more.len() == 0 {
        assert(blocks + more =~= blocks);
        assert(body_trace(blocks).is_prefix_of(body_trace(blocks)));
    } else {
        trace_only_grows(blocks, more.drop_last());
        let all = blocks + more;
        assert(all.drop_last() =~= blocks + more.drop_last());
        let short = body_trace(blocks);
        let mid = body_trace(blocks + more.drop_last());
        assert(mid.subrange(0, short.len() as int) == short);
        assert(body_trace(all).subrange(0, short.len() as int) =~= short) by {
            assert(body_trace(all).subrange(0, short.len() as int) =~= mid.subrange(
                0,
                short.len() as int,
            ));
        }
    }
    let a = TRACE_HEADER@ + body_trace(blocks);
    let b = TRACE_HEADER@ + body_trace(blocks + more);
    let short = body_trace(blocks);
    let long = body_trace(blocks + more);
    assert(long.subrange(0, short.len() as int) == short);
    assert forall|i: int| 0 <= i < a.len() implies a[i] == b[i] by {
        let h = TRACE_HEADER@.len();
        if i >= h {
            assert(long.subrange(0, short.len() as int)[i - h] == long[i - h]);
        }
    }
    assert(b.subrange(0, a.len() as int) =~= a);
}

/// Whether someone speaks in a block: the user or the assistant.
pub open spec fn is_spoken(block: MessageBlock) -> bool {
    block is User || block is Assistant
}

/// All that neither the user nor the assistant said can go at once: the trace
/// stays as it is.
pub proof fn only_spoken_blocks_are_traced(blocks: Seq<MessageBlock>)
    ensures
        body_trace(blocks.filter(|b: MessageBlock| is_spoken(b))) == body_trace(blocks),
        user_count(blocks.filter(|b: MessageBlock| is_spoken(b))) == user_count(blocks),
    decreases blocks.len(),
{
    let spoken = |b: MessageBlock| is_spoken(b);
    reveal(Seq::filter);
    if blocks.len() > 0 {
        let front = blocks.drop_last();
        only_spoken_blocks_are_traced(front);
        let kept = front.filter(spoken);
        if is_spoken(blocks.last()) {
            assert(blocks.filter(spoken) == kept.push(blocks.last()));
            assert(kept.push(blocks.last()).drop_last() =~= kept);
        } else {
            assert(blocks.filter(spoken) == kept);
            assert(body_trace(front) + Seq::<char>::empty() =~= body_trace(front));
        }
    }
}

} // verus!
