//! What holds of the blocks of a conversation.
use crate::blocks::{
    call_added, call_completed, call_replaced, find_call, last_call, part_calls, pushed,
    text_added, AssistantPart, MessageBlock, ToolCall, ToolGroupStatus,
};
use crate::effects::{replied, Effect};
use crate::helpers::{
    last_done, last_done_in, last_of, question_answered, question_shown,
    without_blank_tail, without_permission, BlockKind,
};
use crate::message::{Message, Role};
use crate::scenario::{calls_of, text_of};
use crate::scenario_laws::{calls_of_parts_join, part_is_text_or_calls, texts_of_parts_join};
use crate::state::PendingQuestion;
use crate::tool::ToolName;
use vstd::prelude::*;

verus! {

/// A block is told by what it is and what it reads.
pub proof fn blocks_are_what_they_say(text: String, t: Seq<char>)
    ensures
        (MessageBlock::User { text }).is_user_text(t) <==> text@ == t,
        (MessageBlock::System { text }).is_system_text(t) <==> text@ == t,
        (MessageBlock::Error { text }).is_error_text(t) <==> text@ == t,
        !(MessageBlock::User { text }).is_system_text(t),
        !(MessageBlock::User { text }).is_error_text(t),
        !(MessageBlock::System { text }).is_user_text(t),
        !(MessageBlock::System { text }).is_error_text(t),
        !(MessageBlock::Error { text }).is_user_text(t),
        !(MessageBlock::Error { text }).is_system_text(t),
{
}

/// Only a block of its kind reads as one.
pub proof fn only_its_kind_reads_so(b: MessageBlock, t: Seq<char>)
    ensures
        b.is_user_text(t) ==> b is User && b->User_text@ == t,
        b.is_system_text(t) ==> b is System && b->System_text@ == t,
        b.is_error_text(t) ==> b is Error && b->Error_text@ == t,
        b.is_assistant_text(t) ==> b is Assistant && text_of(b->parts@) == t && calls_of(
            b->parts@,
        ).len() == 0 && b->thinking is None,
        b.is_blank() <==> b is Assistant && b->parts@.len() == 0 && b->thinking is None,
        b.is_unanswered() <==> b is Question && b->answered is None,
{
    if b.is_assistant_text(t) {
        let parts = b->parts@;
        assert(parts =~= seq![parts[0]]);
        part_is_text_or_calls(parts[0]);
    }
}

/// A message is told by its session, who said it, and what it reads.
pub proof fn messages_are_what_they_say(m: Message, id: Seq<char>, role: Role, text: Seq<char>)
    ensures
        m.is(id, role, text) <==> m.session_id@ == id && m.role == role && m.text@ == text,
{
}

/// What is added comes at the end, and all else stays.
pub proof fn adding_keeps_the_rest<A>(before: Seq<A>, after: Seq<A>)
    ensures
        pushed(before, after) <==> after.len() > 0 && after == before.push(after.last()),
{
    if pushed(before, after) {
        assert(after =~= before.push(after.last()));
    } else if after.len() > 0 && after == before.push(after.last()) {
        assert(after.drop_last() =~= before);
    }
}

/// An answer to a question is one effect more, which says it.
pub proof fn replies_say_the_answer(old_fx: Seq<Effect>, text: String)
    ensures
        replied(old_fx, old_fx.push(Effect::ReplyQuestion(text)), text@),
        forall|new_fx: Seq<Effect>, t: Seq<char>| #[trigger]
            replied(old_fx, new_fx, t) ==> new_fx.len() == old_fx.len() + 1 && new_fx.drop_last()
                == old_fx && new_fx.last() is ReplyQuestion && new_fx.last()->ReplyQuestion_0@
                == t,
{
    assert(old_fx.push(Effect::ReplyQuestion(text)).drop_last() =~= old_fx);
}

/// Text that is added to an answer comes behind what it said; its calls stay.
pub proof fn text_grows(
    old_parts: Seq<AssistantPart>,
    new_parts: Seq<AssistantPart>,
    text: Seq<char>,
)
    requires
        text_added(old_parts, new_parts, text),
    ensures
        text_of(new_parts) == text_of(old_parts) + text,
        calls_of(new_parts) == calls_of(old_parts),
{
    let last = new_parts.last();
    let front = new_parts.drop_last();
    assert(new_parts =~= front + seq![last]);
    texts_of_parts_join(front, seq![last]);
    calls_of_parts_join(front, seq![last]);
    part_is_text_or_calls(last);
    if old_parts.len() > 0 && old_parts.last() is Text {
        assert(old_parts =~= front + seq![old_parts.last()]);
        texts_of_parts_join(front, seq![old_parts.last()]);
        calls_of_parts_join(front, seq![old_parts.last()]);
        part_is_text_or_calls(old_parts.last());
        assert(text_of(new_parts) =~= text_of(old_parts) + text);
    }
    assert(calls_of(new_parts) =~= calls_of(old_parts));
}

/// A call that is added to an answer comes behind its other calls; its text stays.
pub proof fn calls_grow(
    old_parts: Seq<AssistantPart>,
    new_parts: Seq<AssistantPart>,
    call: ToolCall,
)
    requires
        call_added(old_parts, new_parts, call),
    ensures
        calls_of(new_parts) == calls_of(old_parts).push(call),
        text_of(new_parts) == text_of(old_parts),
{
    let last = new_parts.last();
    let front = new_parts.drop_last();
    assert(new_parts =~= front + seq![last]);
    texts_of_parts_join(front, seq![last]);
    calls_of_parts_join(front, seq![last]);
    part_is_text_or_calls(last);
    if new_parts.len() == old_parts.len() {
        assert(old_parts =~= front + seq![old_parts.last()]);
        texts_of_parts_join(front, seq![old_parts.last()]);
        calls_of_parts_join(front, seq![old_parts.last()]);
        part_is_text_or_calls(old_parts.last());
    }
    assert(calls_of(new_parts) =~= calls_of(old_parts).push(call));
    assert(text_of(new_parts) =~= text_of(old_parts));
}

proof fn lemma_changed_group(
    old_parts: Seq<AssistantPart>,
    new_parts: Seq<AssistantPart>,
    p: int,
)
    requires
        0 <= p < old_parts.len(),
        new_parts.len() == old_parts.len(),
        forall|k: int| 0 <= k < old_parts.len() && k != p ==> #[trigger] new_parts[k] == old_parts[k],
        old_parts[p] is ToolGroup,
        new_parts[p] is ToolGroup,
    ensures
        text_of(new_parts) == text_of(old_parts),
        calls_of(old_parts) == calls_of(old_parts.take(p)) + old_parts[p]->ToolGroup_0.calls@
            + calls_of(old_parts.skip(p + 1)),
        calls_of(new_parts) == calls_of(old_parts.take(p)) + new_parts[p]->ToolGroup_0.calls@
            + calls_of(old_parts.skip(p + 1)),
{
    let a = old_parts.take(p);
    let b = old_parts.skip(p + 1);
    let m = seq![old_parts[p]];
    let n = seq![new_parts[p]];
    assert(old_parts =~= a + m + b);
    assert(new_parts =~= a + n + b);
    texts_of_parts_join(a + m, b);
    texts_of_parts_join(a, m);
    texts_of_parts_join(a + n, b);
    texts_of_parts_join(a, n);
    calls_of_parts_join(a + m, b);
    calls_of_parts_join(a, m);
    calls_of_parts_join(a + n, b);
    calls_of_parts_join(a, n);
    part_is_text_or_calls(old_parts[p]);
    part_is_text_or_calls(new_parts[p]);
    assert(text_of(m) =~= text_of(n));
}

/// A result goes to the call it belongs to: that call is replaced, all other
/// calls and the text stay, and the group is complete exactly where every call
/// in it has its result, or where it was.
pub proof fn results_go_to_their_call(
    old_parts: Seq<AssistantPart>,
    new_parts: Seq<AssistantPart>,
    at: (int, int),
    call: ToolCall,
)
    requires
        0 <= at.0 < old_parts.len(),
        old_parts[at.0] is ToolGroup,
        0 <= at.1 < old_parts[at.0]->ToolGroup_0.calls@.len(),
        call_completed(old_parts, new_parts, at, call),
    ensures
        ({
            let k = calls_of(old_parts.take(at.0)).len() + at.1;
            &&& 0 <= k < calls_of(old_parts).len()
            &&& calls_of(old_parts)[k] == old_parts[at.0]->ToolGroup_0.calls@[at.1]
            &&& calls_of(new_parts) == calls_of(old_parts).update(k, call)
        }),
        text_of(new_parts) == text_of(old_parts),
        (forall|i: int|
            0 <= i < new_parts[at.0]->ToolGroup_0.calls@.len() ==> (
            #[trigger] new_parts[at.0]->ToolGroup_0.calls@[i]).result_summary is Some)
            ==> new_parts[at.0]->ToolGroup_0.status == ToolGroupStatus::Complete,
        !(forall|i: int|
            0 <= i < new_parts[at.0]->ToolGroup_0.calls@.len() ==> (
            #[trigger] new_parts[at.0]->ToolGroup_0.calls@[i]).result_summary is Some)
            ==> new_parts[at.0]->ToolGroup_0.status == old_parts[at.0]->ToolGroup_0.status,
{
    lemma_changed_group(old_parts, new_parts, at.0);
    let k = calls_of(old_parts.take(at.0)).len() + at.1;
    assert(calls_of(new_parts) =~= calls_of(old_parts).update(k, call));
}

/// A call that is replaced keeps its place; all other calls and the text stay.
pub proof fn replaced_calls_keep_their_place(
    old_parts: Seq<AssistantPart>,
    new_parts: Seq<AssistantPart>,
    at: (int, int),
    call: ToolCall,
)
    requires
        0 <= at.0 < old_parts.len(),
        old_parts[at.0] is ToolGroup,
        0 <= at.1 < old_parts[at.0]->ToolGroup_0.calls@.len(),
        call_replaced(old_parts, new_parts, at, call),
    ensures
        calls_of(new_parts) == calls_of(old_parts).update(
            calls_of(old_parts.take(at.0)).len() + at.1,
            call,
        ),
        text_of(new_parts) == text_of(old_parts),
        new_parts[at.0]->ToolGroup_0.status == old_parts[at.0]->ToolGroup_0.status,
{
    lemma_changed_group(old_parts, new_parts, at.0);
    let k = calls_of(old_parts.take(at.0)).len() + at.1;
    assert(calls_of(new_parts) =~= calls_of(old_parts).update(k, call));
}

proof fn lemma_last_call(calls: Seq<ToolCall>, id: Seq<char>)
    ensures
        match last_call(calls, id) {
            Some(j) => 0 <= j < calls.len() && calls[j].call_id@ == id && forall|k: int|
                j < k < calls.len() ==> (#[trigger] calls[k]).call_id@ != id,
            None => forall|k: int| 0 <= k < calls.len() ==> (#[trigger] calls[k]).call_id@ != id,
        },
    decreases calls.len(),
{
    if calls.len() > 0 && calls.last().call_id@ != id {
        lemma_last_call(calls.drop_last(), id);
        assert forall|k: int| 0 <= k < calls.len() - 1 implies #[trigger] calls[k]
            == calls.drop_last()[k] by {}
    }
}

/// A call is found by its id, and of several with the same id the latest; it is
/// not found only where no call has that id.
pub proof fn the_latest_call_is_found(parts: Seq<AssistantPart>, id: Seq<char>)
    ensures
        find_call(parts, id) is None <==> forall|k: int|
            0 <= k < calls_of(parts).len() ==> (#[trigger] calls_of(parts)[k]).call_id@ != id,
        find_call(parts, id) matches Some((p, j)) ==> {
            let k = calls_of(parts.take(p)).len() + j;
            &&& 0 <= p < parts.len()
            &&& parts[p] is ToolGroup
            &&& 0 <= j < parts[p]->ToolGroup_0.calls@.len()
            &&& 0 <= k < calls_of(parts).len()
            &&& calls_of(parts)[k] == parts[p]->ToolGroup_0.calls@[j]
            &&& calls_of(parts)[k].call_id@ == id
            &&& forall|i: int|
                k < i < calls_of(parts).len() ==> (#[trigger] calls_of(parts)[i]).call_id@ != id
        },
    decreases parts.len(),
{
    if parts.len() > 0 {
        let front = parts.drop_last();
        let own = part_calls(parts.last());
        assert(parts =~= front + seq![parts.last()]);
        calls_of_parts_join(front, seq![parts.last()]);
        part_is_text_or_calls(parts.last());
        assert(calls_of(parts) =~= calls_of(front) + own);
        lemma_last_call(own, id);
        the_latest_call_is_found(front, id);
        let n = calls_of(front).len() as int;
        assert forall|i: int| n <= i < calls_of(parts).len() implies #[trigger] calls_of(parts)[i]
            == own[i - n] by {}
        assert forall|i: int| 0 <= i < n implies #[trigger] calls_of(parts)[i] == calls_of(
            front,
        )[i] by {}
        match last_call(own, id) {
            Some(j) => {
                assert(parts.take(parts.len() - 1) =~= front);
                assert(calls_of(parts)[n + j] == own[j]);
            },
            None => {
                if find_call(front, id) is Some {
                    let (p, j) = find_call(front, id)->Some_0;
                    assert(parts.take(p) =~= front.take(p));
                    let k = calls_of(front.take(p)).len() + j;
                    assert(calls_of(parts)[k] == calls_of(front)[k]);
                }
            },
        }
    }
}

proof fn lemma_last_done(calls: Seq<ToolCall>, tool: ToolName)
    ensures
        ({
            let done = calls.filter(|c: ToolCall| c.tool_name == tool && c.result_summary is Some);
            last_done(calls, tool) == (if done.len() == 0 {
                None
            } else {
                Some(done.last())
            })
        }),
    decreases calls.len(),
{
    reveal(Seq::filter);
    if calls.len() > 0 {
        lemma_last_done(calls.drop_last(), tool);
    }
}

/// The last finished call of a tool is the last of all calls of the answer that
/// are of that tool and have their result.
pub proof fn the_last_finished_call_counts(parts: Seq<AssistantPart>, tool: ToolName)
    ensures
        ({
            let done = calls_of(parts).filter(
                |c: ToolCall| c.tool_name == tool && c.result_summary is Some,
            );
            last_done_in(parts, tool) == (if done.len() == 0 {
                None
            } else {
                Some(done.last())
            })
        }),
    decreases parts.len(),
{
    let picked = |c: ToolCall| c.tool_name == tool && c.result_summary is Some;
    if parts.len() == 0 {
        reveal(Seq::filter);
    } else {
        let front = parts.drop_last();
        the_last_finished_call_counts(front, tool);
        let own = part_calls(parts.last());
        assert(parts =~= front + seq![parts.last()]);
        calls_of_parts_join(front, seq![parts.last()]);
        part_is_text_or_calls(parts.last());
        assert(calls_of(parts) =~= calls_of(front) + own);
        lemma_last_done(own, tool);
        Seq::filter_distributes_over_add(calls_of(front), own, picked);
        if own.filter(picked).len() == 0 {
            assert(calls_of(parts).filter(picked) =~= calls_of(front).filter(picked));
        }
        if parts.last() is Text {
            assert(own.len() == 0);
            reveal(Seq::filter);
        }
    }
}

/// The last block of a kind is of that kind, and none behind it is; there is none
/// only where no block is.
pub proof fn the_last_of_a_kind(blocks: Seq<MessageBlock>)
    ensures
        match last_of(blocks, BlockKind::Assistant) {
            Some(i) => 0 <= i < blocks.len() && blocks[i] is Assistant && forall|k: int|
                i < k < blocks.len() ==> !(#[trigger] blocks[k] is Assistant),
            None => forall|k: int| 0 <= k < blocks.len() ==> !(#[trigger] blocks[k] is Assistant),
        },
        match last_of(blocks, BlockKind::Permission) {
            Some(i) => 0 <= i < blocks.len() && blocks[i] is Permission && forall|k: int|
                i < k < blocks.len() ==> !(#[trigger] blocks[k] is Permission),
            None => forall|k: int| 0 <= k < blocks.len() ==> !(#[trigger] blocks[k] is Permission),
        },
        match last_of(blocks, BlockKind::OpenQuestion) {
            Some(i) => 0 <= i < blocks.len() && blocks[i] is Question && blocks[i]->answered is None
                && forall|k: int|
                i < k < blocks.len() ==> !(#[trigger] blocks[k] is Question
                    && blocks[k]->answered is None),
            None => forall|k: int|
                0 <= k < blocks.len() ==> !(#[trigger] blocks[k] is Question
                    && blocks[k]->answered is None),
        },
    decreases blocks.len(),
{
    if blocks.len() > 0 {
        let front = blocks.drop_last();
        the_last_of_a_kind(front);
        assert forall|k: int| 0 <= k < front.len() implies #[trigger] blocks[k] == front[k] by {}
    }
}

/// Taking a blank answer from the end takes nothing else.
pub proof fn only_a_blank_answer_is_taken(blocks: Seq<MessageBlock>)
    ensures
        ({
            let blank = blocks.len() > 0 && blocks.last() is Assistant
                && blocks.last()->parts@.len() == 0 && blocks.last()->thinking is None;
            &&& !blank ==> without_blank_tail(blocks) == blocks
            &&& blank ==> without_blank_tail(blocks) == blocks.subrange(0, blocks.len() - 1)
        }),
{
    if blocks.len() > 0 {
        assert(blocks.drop_last() =~= blocks.subrange(0, blocks.len() - 1));
    }
}

/// A permission prompt that is over is taken away, and nothing but it.
pub proof fn only_the_prompt_is_taken(before: Seq<MessageBlock>, prompt: MessageBlock, after: Seq<
    MessageBlock,
>)
    requires
        prompt is Permission,
        forall|k: int| 0 <= k < after.len() ==> !(#[trigger] after[k] is Permission),
    ensures
        without_permission(before + seq![prompt] + after) == before + after,
        without_permission(after) == after,
{
    let all = before + seq![prompt] + after;
    the_last_of_a_kind(all);
    the_last_of_a_kind(after);
    let n = before.len() as int;
    assert(all[n] is Permission);
    let i = last_of(all, BlockKind::Permission)->Some_0;
    if i > n {
        assert(all[i] == after[i - n - 1]);
    }
    assert(all.remove(n) =~= before + after);
}

/// An answer goes to the last question that waits for one; everything else stays.
pub proof fn answer_goes_to_its_question(
    old_blocks: Seq<MessageBlock>,
    new_blocks: Seq<MessageBlock>,
    answer: Seq<char>,
    i: int,
)
    requires
        question_answered(old_blocks, new_blocks, answer),
        0 <= i < old_blocks.len(),
        old_blocks[i] is Question,
        old_blocks[i]->answered is None,
        forall|k: int|
            i < k < old_blocks.len() ==> !(#[trigger] old_blocks[k] is Question
                && old_blocks[k]->answered is None),
    ensures
        new_blocks.len() == old_blocks.len(),
        new_blocks[i] is Question,
        new_blocks[i]->answered is Some,
        new_blocks[i]->answered->Some_0@ == answer,
        new_blocks[i]->question == old_blocks[i]->question,
        new_blocks[i]->options == old_blocks[i]->options,
        forall|k: int| 0 <= k < old_blocks.len() && k != i ==> #[trigger] new_blocks[k] == old_blocks[k],
{
    the_last_of_a_kind(old_blocks);
}

/// What the user has chosen and typed so far is shown in the question that
/// waits; everything else stays.
pub proof fn choice_is_shown_in_its_question(
    old_blocks: Seq<MessageBlock>,
    new_blocks: Seq<MessageBlock>,
    q: PendingQuestion,
    i: int,
)
    requires
        question_shown(old_blocks, new_blocks, q),
        0 <= i < old_blocks.len(),
        old_blocks[i] is Question,
        old_blocks[i]->answered is None,
        forall|k: int|
            i < k < old_blocks.len() ==> !(#[trigger] old_blocks[k] is Question
                && old_blocks[k]->answered is None),
    ensures
        new_blocks.len() == old_blocks.len(),
        new_blocks[i] is Question,
        new_blocks[i]->answered is None,
        new_blocks[i]->selected == q.selected,
        new_blocks[i]->free_text@ == q.free_text@,
        new_blocks[i]->question == old_blocks[i]->question,
        new_blocks[i]->options == old_blocks[i]->options,
        forall|k: int| 0 <= k < old_blocks.len() && k != i ==> #[trigger] new_blocks[k] == old_blocks[k],
{
    the_last_of_a_kind(old_blocks);
}

} // verus!
