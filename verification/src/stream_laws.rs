//! What holds of a conversation while it goes on and when it ends.
use crate::block_laws::{
    calls_grow, replaced_calls_keep_their_place, results_go_to_their_call, text_grows,
    the_last_finished_call_counts, the_last_of_a_kind, the_latest_call_is_found,
};
use crate::blocks::{call_added, call_completed, find_call, pushed, MessageBlock, ToolCall};
use crate::effects::Effect;
use crate::events::{event_handled, AppEvent, EventFacts};
use crate::helpers::{relative_to, without_blank_tail};
use crate::json::Json;
use crate::message::{Message, Role};
use crate::scenario::{calls_of, text_of};
use crate::sessions::title_sought;
use crate::sidebar::{change_recorded, diff_counts, sidebar_updated, tokens_synced};
use crate::state::{App, SessionInfo, TokenUsage};
use crate::stream_events::{
    answer_effects, answer_finished, answer_stored, answer_wound_up, call_announced, call_made,
    change_noted, changes_files, closing_effects, compaction_level, completed_task, delta_taken, has_result, is_compaction_due,
    is_new_call, percent_full, progress_taken, reasoning_taken, response_started, result_shown,
    result_taken, session_effects, stream_finished, task_noted, titled_after, tokens_shown,
    usage_shown, warning_checked, warning_level, usage_added, Usage,
};
use crate::text::{clip, decimal, find_char, lemma_find_char, trim, views};
use crate::tool::{ToolName, ToolOutput};
use crate::tool_display::{args_summary, diff_content};
use vstd::prelude::*;

verus! {

/// Whether the answer that goes on is the block `i`: the last of the assistant's.
pub open spec fn answer_is_at(blocks: Seq<MessageBlock>, i: int) -> bool {
    &&& 0 <= i < blocks.len()
    &&& blocks[i] is Assistant
    &&& forall|k: int| i < k < blocks.len() ==> !(#[trigger] blocks[k] is Assistant)
}

/// Whether all blocks but one are the same.
pub open spec fn only_changes_at(
    old_blocks: Seq<MessageBlock>,
    new_blocks: Seq<MessageBlock>,
    i: int,
) -> bool {
    &&& new_blocks.len() == old_blocks.len()
    &&& forall|k: int|
        0 <= k < old_blocks.len() && k != i ==> #[trigger] new_blocks[k] == old_blocks[k]
}

/// A piece of the answer comes behind what the answer says already, where it is
/// shown and where it is kept; nothing else is touched.
pub proof fn answer_grows(
    pre: App,
    text: String,
    facts: EventFacts,
    post: App,
    old_fx: Seq<Effect>,
    new_fx: Seq<Effect>,
    i: int,
)
    requires
        pre.streaming_active,
        answer_is_at(pre.messages@, i),
        event_handled(pre, AppEvent::LlmDelta { text }, facts, post, old_fx, new_fx),
    ensures
        only_changes_at(pre.messages@, post.messages@, i),
        post.messages@[i] is Assistant,
        post.messages@[i]->thinking == pre.messages@[i]->thinking,
        text_of(post.messages@[i]->parts@) == text_of(pre.messages@[i]->parts@) + text@,
        calls_of(post.messages@[i]->parts@) == calls_of(pre.messages@[i]->parts@),
        post.stored_messages == pre.stored_messages,
        pre.streaming_message is None ==> post.streaming_message is None,
        pre.streaming_message matches Some(m) ==> {
            &&& post.streaming_message is Some
            &&& post.streaming_message->Some_0.text@ == m.text@ + text@
            &&& post.streaming_message->Some_0.role == m.role
            &&& post.streaming_message->Some_0.session_id == m.session_id
        },
        new_fx == old_fx,
{
    reveal(delta_taken);
    the_last_of_a_kind(pre.messages@);
    text_grows(pre.messages@[i]->parts@, post.messages@[i]->parts@, text@);
}

/// A piece of reasoning comes behind what the model thought already.
pub proof fn reasoning_grows(
    pre: App,
    text: String,
    facts: EventFacts,
    post: App,
    old_fx: Seq<Effect>,
    new_fx: Seq<Effect>,
    i: int,
)
    requires
        pre.streaming_active,
        answer_is_at(pre.messages@, i),
        event_handled(pre, AppEvent::LlmReasoning { text }, facts, post, old_fx, new_fx),
    ensures
        only_changes_at(pre.messages@, post.messages@, i),
        post.messages@[i] is Assistant,
        post.messages@[i]->parts == pre.messages@[i]->parts,
        post.messages@[i]->thinking is Some,
        pre.messages@[i]->thinking is None ==> post.messages@[i]->thinking->Some_0@ == text@,
        pre.messages@[i]->thinking is Some ==> post.messages@[i]->thinking->Some_0@
            == pre.messages@[i]->thinking->Some_0@ + text@,
        post.stored_messages == pre.stored_messages,
        post.streaming_message == pre.streaming_message,
        new_fx == old_fx,
{
    reveal(reasoning_taken);
    the_last_of_a_kind(pre.messages@);
}

/// A further response stores what was said so far, where that is anything, and
/// begins a block of its own behind all others.
pub proof fn further_response_keeps_the_first(
    pre: App,
    facts: EventFacts,
    post: App,
    old_fx: Seq<Effect>,
    new_fx: Seq<Effect>,
)
    requires
        pre.streaming_active,
        event_handled(pre, AppEvent::LlmResponseStart, facts, post, old_fx, new_fx),
    ensures
        ({
            let said = pre.streaming_message is Some && pre.streaming_message->Some_0.text@.len() > 0;
            &&& said ==> post.stored_messages@ == pre.stored_messages@.push(
                pre.streaming_message->Some_0,
            ) && new_fx == old_fx.push(Effect::SaveMessage(pre.streaming_message->Some_0))
            &&& !said ==> post.stored_messages@ == pre.stored_messages@ && new_fx == old_fx
        }),
        post.messages@.len() == pre.messages@.len() + 1,
        post.messages@.drop_last() == pre.messages@,
        post.messages@.last() is Assistant,
        post.messages@.last()->parts@.len() == 0,
        pre.current_session matches Some(s) ==> {
            &&& post.streaming_message is Some
            &&& post.streaming_message->Some_0.text@ == ""@
            &&& post.streaming_message->Some_0.role == Role::Assistant
            &&& post.streaming_message->Some_0.session_id@ == s.id@
        },
{
    reveal(response_started);
}

/// A tool call comes behind the calls of the answer: under its id and its tool,
/// with its arguments summed up and its change shown, and without a result yet.
pub proof fn call_is_shown(
    pre: App,
    call_id: String,
    tool_name: ToolName,
    arguments: Json,
    facts: EventFacts,
    post: App,
    old_fx: Seq<Effect>,
    new_fx: Seq<Effect>,
    i: int,
)
    requires
        answer_is_at(pre.messages@, i),
        event_handled(
            pre,
            AppEvent::LlmToolCall { call_id, tool_name, arguments },
            facts,
            post,
            old_fx,
            new_fx,
        ),
    ensures
        only_changes_at(pre.messages@, post.messages@, i),
        post.messages@[i] is Assistant,
        text_of(post.messages@[i]->parts@) == text_of(pre.messages@[i]->parts@),
        ({
            let before = calls_of(pre.messages@[i]->parts@);
            let after = calls_of(post.messages@[i]->parts@);
            let call = after.last();
            &&& after.len() == before.len() + 1
            &&& after.drop_last() == before
            &&& call.call_id == call_id
            &&& call.tool_name == tool_name
            &&& call.args_summary@ == args_summary(tool_name, arguments)
            &&& call.result_summary is None
            &&& call.full_output is None
            &&& !call.is_error
            &&& call.diff_content is Some ==> diff_content(tool_name, arguments) == Some(
                call.diff_content->Some_0@,
            )
            &&& call.diff_content is None ==> diff_content(tool_name, arguments) is None
        }),
        post.status_line_state.activity is RunningTool,
        post.status_line_state.activity->tool_name == tool_name,
        new_fx == old_fx,
{
    reveal(call_made);
    the_last_of_a_kind(pre.messages@);
    let old_parts = pre.messages@[i]->parts@;
    let new_parts = post.messages@[i]->parts@;
    let call = choose|call: ToolCall| #[trigger]
        is_new_call(call, call_id, tool_name, arguments) && call_added(
            old_parts,
            new_parts,
            call,
        );
    calls_grow(old_parts, new_parts, call);
    assert(calls_of(old_parts).push(call).drop_last() =~= calls_of(old_parts));
}

/// The announcement of a call changes neither the text nor the calls of the
/// answer; the status line says which tool it is.
pub proof fn announcement_changes_nothing_said(
    pre: App,
    tool_name: ToolName,
    facts: EventFacts,
    post: App,
    old_fx: Seq<Effect>,
    new_fx: Seq<Effect>,
    i: int,
)
    requires
        answer_is_at(pre.messages@, i),
        event_handled(
            pre,
            AppEvent::LlmToolCallStreaming { tool_name },
            facts,
            post,
            old_fx,
            new_fx,
        ),
    ensures
        only_changes_at(pre.messages@, post.messages@, i),
        text_of(post.messages@[i]->parts@) == text_of(pre.messages@[i]->parts@),
        calls_of(post.messages@[i]->parts@) == calls_of(pre.messages@[i]->parts@),
        post.status_line_state.activity is RunningTool,
        post.status_line_state.activity->tool_name == tool_name,
        post.stored_messages == pre.stored_messages,
        new_fx == old_fx,
{
    reveal(call_announced);
    the_last_of_a_kind(pre.messages@);
    let old_parts = pre.messages@[i]->parts@;
    let new_parts = post.messages@[i]->parts@;
    if new_parts != old_parts {
        assert(new_parts.drop_last() == old_parts);
        assert(calls_of(new_parts) =~= calls_of(old_parts));
        assert(text_of(new_parts) =~= text_of(old_parts));
    }
}

proof fn lemma_result_shown(
    old_blocks: Seq<MessageBlock>,
    new_blocks: Seq<MessageBlock>,
    id: Seq<char>,
    output: ToolOutput,
    i: int,
    k: int,
)
    requires
        result_shown(old_blocks, new_blocks, id, output),
        answer_is_at(old_blocks, i),
        0 <= k < calls_of(old_blocks[i]->parts@).len(),
        calls_of(old_blocks[i]->parts@)[k].call_id@ == id,
        forall|j: int|
            k < j < calls_of(old_blocks[i]->parts@).len() ==> (#[trigger] calls_of(
                old_blocks[i]->parts@,
            )[j]).call_id@ != id,
    ensures
        only_changes_at(old_blocks, new_blocks, i),
        new_blocks[i] is Assistant,
        text_of(new_blocks[i]->parts@) == text_of(old_blocks[i]->parts@),
        ({
            let before = calls_of(old_blocks[i]->parts@);
            let after = calls_of(new_blocks[i]->parts@);
            &&& after == before.update(k, after[k])
            &&& after[k].call_id == before[k].call_id
            &&& after[k].tool_name == before[k].tool_name
            &&& after[k].args_summary == before[k].args_summary
            &&& after[k].diff_content == before[k].diff_content
            &&& after[k].full_output == Some(output.output)
            &&& after[k].is_error == output.is_error
            &&& after[k].result_summary is Some
            &&& after[k].result_summary->Some_0@ == clip(output.output@, 80, 77)
        }),
{
    the_last_of_a_kind(old_blocks);
    let old_parts = old_blocks[i]->parts@;
    let new_parts = new_blocks[i]->parts@;
    the_latest_call_is_found(old_parts, id);
    let at = find_call(old_parts, id)->Some_0;
    let before = old_parts[at.0]->ToolGroup_0.calls@[at.1];
    let call = choose|call: ToolCall|
        {
            &&& #[trigger] has_result(call, before, output)
            &&& call_completed(old_parts, new_parts, at, call)
        };
    results_go_to_their_call(old_parts, new_parts, at, call);
    let n = calls_of(old_parts.take(at.0)).len() + at.1;
    assert(n == k) by {
        if n < k {
            assert(calls_of(old_parts)[k].call_id@ != id);
        }
        if k < n {
            assert(calls_of(old_parts)[n].call_id@ != id);
        }
    }
    assert(calls_of(new_parts) =~= calls_of(old_parts).update(k, calls_of(new_parts)[k]));
}

/// A result goes to the latest call with its id: in full, summed up, and marked
/// where it is an error. No other call and no text changes.
pub proof fn result_is_shown_at_its_call(
    pre: App,
    call_id: String,
    tool_name: ToolName,
    output: ToolOutput,
    facts: EventFacts,
    post: App,
    old_fx: Seq<Effect>,
    new_fx: Seq<Effect>,
    i: int,
    k: int,
)
    requires
        answer_is_at(pre.messages@, i),
        0 <= k < calls_of(pre.messages@[i]->parts@).len(),
        calls_of(pre.messages@[i]->parts@)[k].call_id@ == call_id@,
        forall|j: int|
            k < j < calls_of(pre.messages@[i]->parts@).len() ==> (#[trigger] calls_of(
                pre.messages@[i]->parts@,
            )[j]).call_id@ != call_id@,
        event_handled(
            pre,
            AppEvent::ToolResult { call_id, tool_name, output },
            facts,
            post,
            old_fx,
            new_fx,
        ),
    ensures
        only_changes_at(pre.messages@, post.messages@, i),
        post.messages@[i] is Assistant,
        text_of(post.messages@[i]->parts@) == text_of(pre.messages@[i]->parts@),
        ({
            let before = calls_of(pre.messages@[i]->parts@);
            let after = calls_of(post.messages@[i]->parts@);
            &&& after == before.update(k, after[k])
            &&& after[k].call_id == before[k].call_id
            &&& after[k].tool_name == before[k].tool_name
            &&& after[k].args_summary == before[k].args_summary
            &&& after[k].diff_content == before[k].diff_content
            &&& after[k].full_output == Some(output.output)
            &&& after[k].is_error == output.is_error
            &&& after[k].result_summary is Some
            &&& after[k].result_summary->Some_0@ == clip(output.output@, 80, 77)
        }),
        post.stored_messages == pre.stored_messages,
{
    reveal(result_taken);
    lemma_result_shown(pre.messages@, post.messages@, call_id@, output, i, k);
}

/// A result without an error that may have changed the work tree has the state
/// of the repository looked at, and each result the sidebar.
pub proof fn changes_are_looked_at(
    pre: App,
    call_id: String,
    tool_name: ToolName,
    output: ToolOutput,
    facts: EventFacts,
    post: App,
    old_fx: Seq<Effect>,
    new_fx: Seq<Effect>,
)
    requires
        event_handled(
            pre,
            AppEvent::ToolResult { call_id, tool_name, output },
            facts,
            post,
            old_fx,
            new_fx,
        ),
    ensures
        ({
            let may_change = tool_name == ToolName::Edit || tool_name == ToolName::Write
                || tool_name == ToolName::Patch || tool_name == ToolName::Bash;
            &&& may_change && !output.is_error ==> new_fx == old_fx + seq![
                Effect::RefreshGit,
                Effect::RefreshSidebar,
            ]
            &&& !may_change || output.is_error ==> new_fx == old_fx + seq![Effect::RefreshSidebar]
        }),
        output.is_error ==> post.sidebar_state.changes == pre.sidebar_state.changes
            && post.file_index == pre.file_index
            && post.sidebar_state.session_closed_task_ids
            == pre.sidebar_state.session_closed_task_ids,
        !output.is_error && (tool_name == ToolName::Edit || tool_name == ToolName::Write
            || tool_name == ToolName::Patch) ==> post.file_index is None,
{
    reveal(result_taken);
    let fx1 = old_fx.push(Effect::RefreshGit);
    assert(fx1.push(Effect::RefreshSidebar) =~= old_fx + seq![
        Effect::RefreshGit,
        Effect::RefreshSidebar,
    ]);
    assert(old_fx.push(Effect::RefreshSidebar) =~= old_fx + seq![Effect::RefreshSidebar]);
}

/// The end of an answer stores it behind all that was stored, counts its tokens
/// for the session and the exchange, and has it saved.
pub proof fn answer_is_stored_and_counted(
    pre: App,
    usage: Option<Usage>,
    facts: EventFacts,
    post: App,
    old_fx: Seq<Effect>,
    new_fx: Seq<Effect>,
)
    requires
        pre.streaming_message is Some,
        pre.exchange_count < usize::MAX,
        pre.current_session matches Some(s) ==> (usage matches Some(u) ==> {
            &&& s.token_usage.prompt_tokens + u.prompt_tokens <= u64::MAX
            &&& s.token_usage.completion_tokens + u.completion_tokens <= u64::MAX
            &&& s.token_usage.total_tokens + u.prompt_tokens + u.completion_tokens <= u64::MAX
        }),
        event_handled(pre, AppEvent::LlmFinish { usage }, facts, post, old_fx, new_fx),
    ensures
        post.stored_messages@ == pre.stored_messages@.push(pre.streaming_message->Some_0),
        post.exchange_count == pre.exchange_count + 1,
        post.streaming_message is None,
        !post.streaming_active,
        !post.is_loading,
        pre.current_session is None ==> post.current_session is None,
        pre.current_session matches Some(s) ==> {
            &&& post.current_session is Some
            &&& post.current_session->Some_0.id == s.id
            &&& post.current_session->Some_0.model_ref == s.model_ref
            &&& usage is None ==> post.current_session->Some_0.token_usage == s.token_usage
            &&& usage is Some ==> {
                let t = post.current_session->Some_0.token_usage;
                let u = usage->Some_0;
                &&& t.prompt_tokens == s.token_usage.prompt_tokens + u.prompt_tokens
                &&& t.completion_tokens == s.token_usage.completion_tokens + u.completion_tokens
                &&& t.total_tokens == s.token_usage.total_tokens + u.prompt_tokens
                    + u.completion_tokens
            }
        },
        new_fx.len() > old_fx.len(),
        new_fx.subrange(0, old_fx.len() as int) == old_fx,
        new_fx[old_fx.len() as int] == Effect::SaveMessage(pre.streaming_message->Some_0),
{
    reveal(answer_finished);
    reveal(answer_wound_up);
    let m = pre.streaming_message->Some_0;
    lemma_saved_first(pre, m, usage, facts, post, old_fx, new_fx);
    assert(new_fx.subrange(0, old_fx.len() as int) =~= old_fx);
}

/// Whether an effect is asked for behind some others, whatever follows it.
spec fn is_next(old_fx: Seq<Effect>, x: Effect, fx: Seq<Effect>) -> bool {
    &&& fx.len() > old_fx.len()
    &&& forall|i: int| 0 <= i < old_fx.len() ==> #[trigger] fx[i] == old_fx[i]
    &&& fx[old_fx.len() as int] == x
}

proof fn lemma_still_next(old_fx: Seq<Effect>, x: Effect, a: Seq<Effect>, b: Seq<Effect>)
    requires
        is_next(old_fx, x, a),
        a == b || pushed(a, b),
    ensures
        is_next(old_fx, x, b),
{
    if a != b {
        assert forall|i: int| 0 <= i < a.len() implies #[trigger] b[i] == a[i] by {
            assert(b.drop_last()[i] == b[i]);
        }
    }
}

proof fn lemma_saved_first(
    pre: App,
    m: Message,
    usage: Option<Usage>,
    facts: EventFacts,
    post: App,
    old_fx: Seq<Effect>,
    new_fx: Seq<Effect>,
)
    requires
        pre.streaming_message == Some(m),
        answer_finished(pre, usage, facts.now, post, old_fx, new_fx),
    ensures
        is_next(old_fx, Effect::SaveMessage(m), new_fx),
{
    reveal(answer_finished);
    reveal(answer_wound_up);
    let ended = choose|ended: App|
        {
            &&& ended == (App { messages: ended.messages, ..stream_finished(pre, facts.now) })
            &&& ended.messages@ == #[trigger] without_blank_tail(pre.messages@)
            &&& answer_wound_up(
                App { streaming_message: None, ..ended },
                m,
                usage,
                post,
                old_fx,
                new_fx,
            )
        };
    let at_rest = App { streaming_message: None, ..ended };
    let fx0 = answer_effects(at_rest, m, usage, old_fx);
    let (stored, named, fx) = choose|stored: App, named: App, fx: Seq<Effect>|
        {
            let fx1 = fx.push(Effect::RefreshDiagnostics).push(Effect::RefreshSidebar);
            &&& answer_stored(at_rest, m, usage, stored)
            &&& #[trigger] titled_after(stored, named, fx0, fx)
            &&& warning_checked(sidebar_updated(tokens_synced(named)), post)
            &&& closing_effects(post, fx1, new_fx)
        };
    let x = Effect::SaveMessage(m);
    assert(is_next(old_fx, x, fx0));
    assert(is_next(old_fx, x, fx)) by {
        if pushed(fx0, fx) || fx0 == fx {
            lemma_still_next(old_fx, x, fx0, fx);
        } else {
            let n = fx0.len() as int;
            assert(fx.take(n) == fx0);
            assert forall|i: int| 0 <= i < n implies #[trigger] fx[i] == fx0[i] by {
                assert(fx.take(n)[i] == fx[i]);
            }
        }
    }
    let fx1 = fx.push(Effect::RefreshDiagnostics).push(Effect::RefreshSidebar);
    assert(is_next(old_fx, x, fx1));
    lemma_still_next(old_fx, x, fx1, new_fx);
}

/// What was shown stays when an answer ends: only a blank answer is taken away,
/// and at most a warning is added.
pub proof fn end_keeps_what_was_shown(
    pre: App,
    usage: Option<Usage>,
    facts: EventFacts,
    post: App,
    old_fx: Seq<Effect>,
    new_fx: Seq<Effect>,
    k: int,
)
    requires
        0 <= k < pre.messages@.len(),
        k < pre.messages@.len() - 1 || !(pre.messages@[k] is Assistant)
            || pre.messages@[k]->parts@.len() > 0 || pre.messages@[k]->thinking is Some,
        event_handled(pre, AppEvent::LlmFinish { usage }, facts, post, old_fx, new_fx),
    ensures
        k < post.messages@.len(),
        post.messages@[k] == pre.messages@[k],
{
    reveal(answer_finished);
    reveal(answer_wound_up);
    let ended = choose|ended: App|
        {
            &&& ended == (App {
                messages: ended.messages,
                ..stream_finished(pre, facts.now)
            })
            &&& ended.messages@ == #[trigger] without_blank_tail(pre.messages@)
            &&& match pre.streaming_message {
                None => post == ended && new_fx == old_fx,
                Some(m) => answer_wound_up(
                    App { streaming_message: None, ..ended },
                    m,
                    usage,
                    post,
                    old_fx,
                    new_fx,
                ),
            }
        };
    assert(k < ended.messages@.len() && ended.messages@[k] == pre.messages@[k]);
    if pre.streaming_message is Some {
        assert(post.messages@ == ended.messages@ || post.messages@.drop_last() == ended.messages@);
        if post.messages@ != ended.messages@ {
            assert(post.messages@.drop_last()[k] == post.messages@[k]);
        }
    }
}

/// Tokens are counted each under its name, and both in the total.
pub proof fn tokens_are_counted_once(u: TokenUsage, usage: Usage)
    requires
        u.prompt_tokens + usage.prompt_tokens <= u64::MAX,
        u.completion_tokens + usage.completion_tokens <= u64::MAX,
        u.total_tokens + usage.prompt_tokens + usage.completion_tokens <= u64::MAX,
        u.total_tokens == u.prompt_tokens + u.completion_tokens,
    ensures
        usage_added(u, usage).prompt_tokens == u.prompt_tokens + usage.prompt_tokens,
        usage_added(u, usage).completion_tokens == u.completion_tokens + usage.completion_tokens,
        usage_added(u, usage).total_tokens == usage_added(u, usage).prompt_tokens + usage_added(
            u,
            usage,
        ).completion_tokens,
{
}

/// How full a window is never exceeds the whole, grows with what is used, and is
/// the share in whole percent.
pub proof fn percentage_is_the_share(used: u64, more: u64, window: u64)
    requires
        window > 0,
        used <= more,
    ensures
        percent_full(used, window) <= 100,
        percent_full(used, window) <= percent_full(more, window),
        used >= window ==> percent_full(used, window) == 100,
        used < window ==> percent_full(used, window) * window <= used * 100
            < (percent_full(used, window) + 1) * window,
{
    let u = used as int;
    let m = more as int;
    let w = window as int;
    if u < w {
        assert((u * 100 / w) * w <= u * 100 < (u * 100 / w + 1) * w && 0 <= u * 100 / w <= 100)
            by (nonlinear_arith)
            requires
                0 <= u < w,
        ;
    }
    if m < w {
        assert(u * 100 / w <= m * 100 / w) by (nonlinear_arith)
            requires
                0 <= u <= m,
                w > 0,
        ;
    }
}

/// A number of tokens below a thousand is shown as it is, one below a million in
/// thousands, any other in millions, each with one digit that is as near as can be.
pub proof fn tokens_are_shown_to_a_tenth(n: nat)
    ensures
        n < 1_000 ==> tokens_shown(n) == decimal(n),
        1_000 <= n < 1_000_000 ==> exists|t: nat|
            {
                &&& t * 100 <= n + 50 < (t + 1) * 100
                &&& tokens_shown(n) == #[trigger] decimal(t / 10) + "."@ + decimal(t % 10) + "k"@
            },
        1_000_000 <= n ==> exists|t: nat|
            {
                &&& t * 100_000 <= n + 50_000 < (t + 1) * 100_000
                &&& tokens_shown(n) == #[trigger] decimal(t / 10) + "."@ + decimal(t % 10) + "M"@
            },
{
    if 1_000 <= n < 1_000_000 {
        let t = (n + 50) / 100;
        assert(tokens_shown(n) == decimal(t / 10) + "."@ + decimal(t % 10) + "k"@);
    } else if 1_000_000 <= n {
        let t = (n + 50_000) / 100_000;
        assert(tokens_shown(n) == decimal(t / 10) + "."@ + decimal(t % 10) + "M"@);
    }
}

/// The id of a completed task is what stands between the words that say so and
/// the colon, trimmed.
pub proof fn completed_task_is_named(id: Seq<char>, rest: Seq<char>)
    requires
        forall|i: int| 0 <= i < id.len() ==> #[trigger] id[i] != ':',
    ensures
        completed_task("Completed task "@ + id + seq![':'] + rest) == Some(trim(id)),
        completed_task("Completed task "@ + id) == Some(trim(id)),
{
    let lead = "Completed task "@;
    let tail = id + seq![':'] + rest;
    let all = lead + id + seq![':'] + rest;
    lemma_find_char(tail, ':');
    lemma_find_char(id, ':');
    assert(tail[id.len() as int] == ':');
    let k = find_char(tail, ':');
    if k < id.len() {
        assert(tail[k] == id[k]);
    }
    assert(all.skip(lead.len() as int) =~= tail);
    assert(all.subrange(0, lead.len() as int) =~= lead);
    assert(tail.take(k) =~= id);
    assert((lead + id).skip(lead.len() as int) =~= id);
    assert((lead + id).subrange(0, lead.len() as int) =~= lead);
    assert(id.take(find_char(id, ':')) =~= id);
}

/// Files are changed by editing, writing and patching them.
pub proof fn tools_that_change_files(tool: ToolName)
    ensures
        changes_files(tool) <==> tool == ToolName::Edit || tool == ToolName::Write || tool
            == ToolName::Patch,
{
}

/// The conversation is compacted unasked only where that is wanted, did not fail
/// before, and there is something to compact.
pub proof fn compaction_is_wanted(app: App)
    requires
        is_compaction_due(app),
    ensures
        app.config.auto_compact,
        !app.auto_compact_failed,
        app.stored_messages@.len() >= 4,
        app.current_session is Some,
        app.current_model is Some,
        app.provider_registry is Some,
        app.provider_registry->Some_0.lookup(app.current_model->Some_0@) is Ok,
{
}

/// News from a sub-agent changes neither what was said nor any call but the one
/// it is about, and of that only the news.
pub proof fn progress_changes_only_its_call(
    pre: App,
    call_id: String,
    tool_name: ToolName,
    args: String,
    result: Option<String>,
    facts: EventFacts,
    post: App,
    old_fx: Seq<Effect>,
    new_fx: Seq<Effect>,
    i: int,
    k: int,
)
    requires
        answer_is_at(pre.messages@, i),
        0 <= k < calls_of(pre.messages@[i]->parts@).len(),
        calls_of(pre.messages@[i]->parts@)[k].call_id@ == call_id@,
        forall|j: int|
            k < j < calls_of(pre.messages@[i]->parts@).len() ==> (#[trigger] calls_of(
                pre.messages@[i]->parts@,
            )[j]).call_id@ != call_id@,
        event_handled(
            pre,
            AppEvent::AgentProgress {
                call_id,
                tool_name,
                args_summary: args,
                result_summary: result,
            },
            facts,
            post,
            old_fx,
            new_fx,
        ),
    ensures
        only_changes_at(pre.messages@, post.messages@, i),
        text_of(post.messages@[i]->parts@) == text_of(pre.messages@[i]->parts@),
        ({
            let before = calls_of(pre.messages@[i]->parts@);
            let after = calls_of(post.messages@[i]->parts@);
            let was = before[k].agent_progress;
            let is = after[k].agent_progress;
            &&& after == before.update(k, after[k])
            &&& after[k] == (ToolCall { agent_progress: is, ..before[k] })
            &&& result is None ==> is is Some && is->Some_0.tool_name == tool_name
                && is->Some_0.args_summary == args && is->Some_0.result_summary is None
            &&& result is Some && was is Some ==> is is Some && is->Some_0.result_summary == result
                && is->Some_0.tool_name == was->Some_0.tool_name && is->Some_0.args_summary
                == was->Some_0.args_summary
            &&& result is Some && was is None ==> is is None
        }),
        new_fx == old_fx,
{
    reveal(progress_taken);
    the_last_of_a_kind(pre.messages@);
    let old_parts = pre.messages@[i]->parts@;
    let new_parts = post.messages@[i]->parts@;
    the_latest_call_is_found(old_parts, call_id@);
    let at = find_call(old_parts, call_id@)->Some_0;
    let n = calls_of(old_parts.take(at.0)).len() + at.1;
    assert(n == k) by {
        if n < k {
            assert(calls_of(old_parts)[k].call_id@ != call_id@);
        }
        if k < n {
            assert(calls_of(old_parts)[n].call_id@ != call_id@);
        }
    }
    let h = new_parts[at.0]->ToolGroup_0.calls@[at.1];
    replaced_calls_keep_their_place(old_parts, new_parts, at, h);
    assert(calls_of(new_parts) =~= calls_of(old_parts).update(k, calls_of(new_parts)[k]));
}

/// The user is warned when the prompt reaches six tenths of the window, once and
/// with how full it is; else nothing is said.
pub proof fn warning_is_given_in_time(pre: App, post: App)
    requires
        warning_checked(pre, post),
    ensures
        ({
            let window = pre.status_line_state.context_window;
            let used = pre.status_line_state.last_prompt_tokens;
            let due = !pre.context_warned && window > 0 && used >= warning_level(window);
            &&& !due ==> post == pre
            &&& due ==> {
                &&& post.context_warned
                &&& post.messages@.len() == pre.messages@.len() + 1
                &&& post.messages@.drop_last() == pre.messages@
                &&& post.messages@.last() is System
                &&& post.messages@.last()->System_text@ == "Context window "@ + decimal(
                    percent_full(used, window),
                ) + "% full ("@ + tokens_shown(used as nat) + "/"@ + tokens_shown(window as nat)
                    + "). Consider /compact to free space."@
                &&& post.stored_messages == pre.stored_messages
            }
        }),
{
}

/// A change that a tool made is counted for its file, as many lines as its call
/// shows.
pub proof fn change_is_counted(pre: App, tool: ToolName, post: App, call: ToolCall)
    requires
        tool == ToolName::Edit || tool == ToolName::Write || tool == ToolName::Patch,
        pre.last_completed(tool) == Some(call),
        call.diff_content is Some,
        change_noted(pre, tool, false, post),
    ensures
        post.file_index is None,
        post.messages == pre.messages,
        exists|path: String|
            {
                &&& path@ == relative_to(pre.project.root@, call.args_summary@)
                &&& #[trigger] change_recorded(
                    pre.sidebar_state.changes@,
                    post.sidebar_state.changes@,
                    path,
                    diff_counts(call.diff_content->Some_0).0 as usize,
                    diff_counts(call.diff_content->Some_0).1 as usize,
                )
            },
{
}

/// The last finished call of a tool is sought in the last answer.
pub proof fn last_finished_call_is_of_the_answer(app: App, tool: ToolName, i: int)
    requires
        answer_is_at(app.messages@, i),
    ensures
        ({
            let done = calls_of(app.messages@[i]->parts@).filter(
                |c: ToolCall| c.tool_name == tool && c.result_summary is Some,
            );
            app.last_completed(tool) == (if done.len() == 0 {
                None
            } else {
                Some(done.last())
            })
        }),
{
    the_last_of_a_kind(app.messages@);
    the_last_finished_call_counts(app.messages@[i]->parts@, tool);
}

/// A task that the assistant completed counts as closed in this session, once;
/// the other closed tasks stay.
pub proof fn completed_task_counts_as_closed(
    pre: App,
    output: ToolOutput,
    post: App,
    call: ToolCall,
    id: Seq<char>,
)
    requires
        !output.is_error,
        pre.last_completed(ToolName::Task) == Some(call),
        call.args_summary@ == "complete"@,
        completed_task(output.output@) == Some(id),
        task_noted(pre, ToolName::Task, output, post),
    ensures
        views(post.sidebar_state.session_closed_task_ids@).contains(id),
        forall|k: int|
            0 <= k < pre.sidebar_state.session_closed_task_ids@.len()
                ==> #[trigger] post.sidebar_state.session_closed_task_ids@[k]
                == pre.sidebar_state.session_closed_task_ids@[k],
        views(pre.sidebar_state.session_closed_task_ids@).contains(id)
            ==> post.sidebar_state.session_closed_task_ids@
            == pre.sidebar_state.session_closed_task_ids@,
        post.messages == pre.messages,
{
    let before = pre.sidebar_state.session_closed_task_ids@;
    let after = post.sidebar_state.session_closed_task_ids@;
    if views(before).contains(id) {
        assert(views(after) =~= views(before));
    } else {
        assert(views(after)[after.len() - 1] == id);
        assert forall|k: int| 0 <= k < before.len() implies #[trigger] after[k] == before[k] by {
            assert(after.drop_last()[k] == after[k]);
        }
    }
}

/// What else a result says closes no task.
pub proof fn other_results_close_no_task(pre: App, tool: ToolName, output: ToolOutput, post: App)
    requires
        tool != ToolName::Task || output.is_error || !"Completed task "@.is_prefix_of(
            output.output@,
        ),
        task_noted(pre, tool, output, post),
    ensures
        post == pre,
{
}

/// The tokens of one call are shown as they come: the last prompt as it is, the
/// others added to what the sidebar shows.
pub proof fn usage_is_shown(pre: App, usage: Usage)
    requires
        pre.sidebar_state.prompt_tokens + usage.prompt_tokens <= u64::MAX,
        pre.sidebar_state.completion_tokens + usage.completion_tokens <= u64::MAX,
        pre.sidebar_state.total_tokens + usage.prompt_tokens + usage.completion_tokens <= u64::MAX,
    ensures
        ({
            let post = usage_shown(pre, usage);
            &&& post.last_prompt_tokens == usage.prompt_tokens
            &&& post.status_line_state.last_prompt_tokens == usage.prompt_tokens
            &&& post.sidebar_state.prompt_tokens == pre.sidebar_state.prompt_tokens
                + usage.prompt_tokens
            &&& post.sidebar_state.completion_tokens == pre.sidebar_state.completion_tokens
                + usage.completion_tokens
            &&& post.sidebar_state.total_tokens == pre.sidebar_state.total_tokens
                + usage.prompt_tokens + usage.completion_tokens
            &&& post.messages == pre.messages
            &&& post.current_session == pre.current_session
        }),
{
}

/// After an answer a session whose tokens are known is saved, any other is only
/// marked as used.
pub proof fn session_is_kept_after_an_answer(
    s: SessionInfo,
    usage: Option<Usage>,
    old_fx: Seq<Effect>,
)
    ensures
        usage is Some ==> session_effects(Some(s), usage, old_fx) == old_fx.push(
            Effect::SaveSession,
        ),
        usage is None ==> session_effects(Some(s), usage, old_fx) == old_fx.push(
            Effect::TouchSession,
        ),
        session_effects(None, usage, old_fx) == old_fx,
{
}

/// A conversation that fills its window is compacted when an answer ends, where
/// that is wanted and can be done; else nothing is submitted.
pub proof fn full_conversation_is_compacted(
    pre: App,
    usage: Option<Usage>,
    facts: EventFacts,
    post: App,
    old_fx: Seq<Effect>,
    new_fx: Seq<Effect>,
)
    requires
        pre.streaming_message is Some,
        event_handled(pre, AppEvent::LlmFinish { usage }, facts, post, old_fx, new_fx),
    ensures
        ({
            let full = post.config.auto_compact && !post.auto_compact_failed
                && post.stored_messages@.len() >= 4 && post.current_session is Some
                && post.current_model is Some && post.provider_registry is Some
                && post.provider_registry->Some_0.lookup(post.current_model->Some_0@) is Ok
                && post.last_prompt_tokens >= compaction_level(
                post.provider_registry->Some_0.lookup(
                    post.current_model->Some_0@,
                )->Ok_0.context_window,
            );
            &&& new_fx.len() > 0
            &&& full ==> new_fx.last() is Submit && new_fx.last()->Submit_0@ == "/compact"@
            &&& !full ==> new_fx.last() == Effect::RefreshSidebar
        }),
{
    reveal(answer_finished);
    reveal(answer_wound_up);
}

/// A title is seen to after the first exchange and after no other.
pub proof fn title_is_seen_to_once(pre: App, post: App, old_fx: Seq<Effect>, new_fx: Seq<Effect>)
    requires
        titled_after(pre, post, old_fx, new_fx),
    ensures
        pre.exchange_count == 1 ==> title_sought(pre, post, old_fx, new_fx),
        pre.exchange_count != 1 ==> post == pre && new_fx == old_fx,
{
}

/// The answers behind the first leave the title of the session alone.
pub proof fn later_answers_keep_the_title(
    pre: App,
    usage: Option<Usage>,
    facts: EventFacts,
    post: App,
    old_fx: Seq<Effect>,
    new_fx: Seq<Effect>,
)
    requires
        pre.streaming_message is Some,
        pre.exchange_count > 0,
        pre.exchange_count < usize::MAX,
        event_handled(pre, AppEvent::LlmFinish { usage }, facts, post, old_fx, new_fx),
    ensures
        pre.current_session is Some ==> post.current_session is Some
            && post.current_session->Some_0.title == pre.current_session->Some_0.title,
{
    reveal(answer_finished);
    reveal(answer_wound_up);
}

/// At the end of an answer the user has been warned wherever the window is filled
/// to six tenths.
pub proof fn full_window_is_warned_of(
    pre: App,
    usage: Option<Usage>,
    facts: EventFacts,
    post: App,
    old_fx: Seq<Effect>,
    new_fx: Seq<Effect>,
)
    requires
        pre.streaming_message is Some,
        event_handled(pre, AppEvent::LlmFinish { usage }, facts, post, old_fx, new_fx),
        post.status_line_state.context_window > 0,
        post.status_line_state.last_prompt_tokens >= warning_level(
            post.status_line_state.context_window,
        ),
    ensures
        post.context_warned,
{
    reveal(answer_finished);
    reveal(answer_wound_up);
}

} // verus!
