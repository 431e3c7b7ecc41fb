//! What holds of the application whatever happens to it.
use crate::blocks::pushed;
use crate::commands::{
    agents_update_begun, command_handled, command_run, compaction_begun, debug_export_begun,
    input_handled, is_command, mcp_opened, model_chosen, models_offered, renamed_by_user,
    sessions_browsed, started_anew, Command,
};
use crate::effects::Effect;
use crate::events::{
    compacted, compaction_failed, compaction_finished, event_handled, has_room, mouse_handled, notice_shown,
    ordered_range, permission_asked, question_asked, stream_failed, told_below, update_failed, update_proposed,
    AppEvent, EventFacts,
};
use crate::helpers::{cancelled, interjected, FileRefs};
use crate::input::{message_sent, World};
use crate::keys::{
    key_handled, keys_keep_invariant, permission_key, question_key, KeyCode, KeyEvent, KeyFacts,
};
use crate::message::{Message, Role};
use crate::prompt::{history_of, sent_history};
use crate::sessions::{switched, StoredSession};
use crate::state::{Activity, App, PendingQuestion, SelectionState, SessionInfo};
use crate::stream_events::{
    answer_finished, answer_wound_up, call_announced, call_made, delta_taken, is_compaction_due,
    progress_taken, reasoning_taken, response_started, result_taken, Usage,
};
use vstd::prelude::*;

verus! {

proof fn lemma_stream_event(
    pre: App,
    event: AppEvent,
    facts: EventFacts,
    post: App,
    old_fx: Seq<Effect>,
    new_fx: Seq<Effect>,
)
    requires
        pre.wf(),
        event_handled(pre, event, facts, post, old_fx, new_fx),
        event is LlmResponseStart || event is LlmDelta || event is LlmReasoning
            || event is LlmToolCallStreaming || event is LlmToolCall || event is LlmRetry
            || event is LlmError || event is AgentProgress || event is StreamNotice
            || event is LlmUsageUpdate,
    ensures
        post.wf(),
{
    reveal(response_started);
    reveal(delta_taken);
    reveal(reasoning_taken);
    reveal(call_announced);
    reveal(call_made);
    reveal(progress_taken);
    reveal(told_below);
    reveal(stream_failed);
    reveal(notice_shown);
}

proof fn lemma_result_event(
    pre: App,
    event: AppEvent,
    facts: EventFacts,
    post: App,
    old_fx: Seq<Effect>,
    new_fx: Seq<Effect>,
)
    requires
        pre.wf(),
        event_handled(pre, event, facts, post, old_fx, new_fx),
        event is ToolResult || event is LlmFinish,
    ensures
        post.wf(),
{
    reveal(result_taken);
    reveal(answer_finished);
    reveal(answer_wound_up);
}

proof fn lemma_background_event(
    pre: App,
    event: AppEvent,
    facts: EventFacts,
    post: App,
    old_fx: Seq<Effect>,
    new_fx: Seq<Effect>,
)
    requires
        pre.wf(),
        event_handled(pre, event, facts, post, old_fx, new_fx),
        event is Mouse || event is Paste || event is Resize || event is Tick || event is McpStatus
            || event is PermissionRequest || event is QuestionRequest || event is CompactFinish
            || event is CompactError || event is AgentsUpdateFinish || event is AgentsUpdateError
            || event is TitleGenerated || event is TitleError || event is LspRestartNeeded
            || event is ExportScenarioFinish || event is ExportScenarioError
            || event is ExportScenarioWarning,
    ensures
        post.wf(),
{
    reveal(mouse_handled);
    reveal(permission_asked);
    reveal(question_asked);
    reveal(compaction_finished);
    reveal(compaction_failed);
    reveal(update_proposed);
    reveal(update_failed);
    reveal(told_below);
}

/// Nothing that happens breaks the invariant of the application: at most one
/// of the overlays that exclude each other is visible, the option of a question
/// that is selected exists, and a reply is under way only in a conversation
/// that can be cancelled.
pub proof fn events_keep_invariant(
    pre: App,
    event: AppEvent,
    facts: EventFacts,
    post: App,
    old_fx: Seq<Effect>,
    new_fx: Seq<Effect>,
)
    requires
        pre.wf(),
        event_handled(pre, event, facts, post, old_fx, new_fx),
    ensures
        post.wf(),
{
    match event {
        AppEvent::Key(key) => {
            keys_keep_invariant(pre, key, facts.ui, facts.now, post, old_fx, new_fx);
        },
        AppEvent::ToolResult { .. } | AppEvent::LlmFinish { .. } => {
            lemma_result_event(pre, event, facts, post, old_fx, new_fx);
        },
        AppEvent::LlmResponseStart
        | AppEvent::LlmDelta { .. }
        | AppEvent::LlmReasoning { .. }
        | AppEvent::LlmToolCallStreaming { .. }
        | AppEvent::LlmToolCall { .. }
        | AppEvent::LlmRetry { .. }
        | AppEvent::LlmError { .. }
        | AppEvent::AgentProgress { .. }
        | AppEvent::StreamNotice { .. }
        | AppEvent::LlmUsageUpdate { .. } => {
            lemma_stream_event(pre, event, facts, post, old_fx, new_fx);
        },
        _ => {
            lemma_background_event(pre, event, facts, post, old_fx, new_fx);
        },
    }
}

proof fn lemma_command(
    pre: App,
    c: Command,
    world: World,
    post: App,
    old_fx: Seq<Effect>,
    new_fx: Seq<Effect>,
)
    requires
        pre.wf(),
        command_run(pre, c, world, post, old_fx, new_fx),
    ensures
        post.wf(),
{
    reveal(started_anew);
    reveal(renamed_by_user);
    reveal(model_chosen);
    reveal(models_offered);
    reveal(compaction_begun);
    reveal(agents_update_begun);
    reveal(debug_export_begun);
    reveal(sessions_browsed);
    reveal(mcp_opened);
}

/// Nothing that the user submits breaks the invariant of the application.
pub proof fn input_keeps_invariant(
    pre: App,
    text: Seq<char>,
    world: World,
    post: App,
    old_fx: Seq<Effect>,
    new_fx: Seq<Effect>,
)
    requires
        pre.wf(),
        input_handled(pre, text, world, post, old_fx, new_fx),
    ensures
        post.wf(),
{
    if text.len() > 0 && text[0] == '/' {
        assert(command_handled(pre, text, world, post, old_fx, new_fx));
        if exists|c: Command| #[trigger]
            is_command(text, c) && command_run(pre, c, world, post, old_fx, new_fx) {
            let c = choose|c: Command| #[trigger]
                is_command(text, c) && command_run(pre, c, world, post, old_fx, new_fx);
            lemma_command(pre, c, world, post, old_fx, new_fx);
        }
    } else {
        assert(message_sent(pre, text, world, post, old_fx, new_fx));
    }
}

/// What arrives of an answer once the conversation is over or cancelled is
/// dropped without a trace.
pub proof fn late_answer_is_dropped(
    pre: App,
    event: AppEvent,
    facts: EventFacts,
    post: App,
    old_fx: Seq<Effect>,
    new_fx: Seq<Effect>,
)
    requires
        !pre.streaming_active,
        event is LlmResponseStart || event is LlmDelta || event is LlmReasoning,
        event_handled(pre, event, facts, post, old_fx, new_fx),
    ensures
        post == pre,
        new_fx == old_fx,
{
}

/// A proposal for AGENTS.md that comes after it was cancelled is dropped, and
/// so is the news that it failed.
pub proof fn cancelled_proposal_is_dropped(
    pre: App,
    event: AppEvent,
    facts: EventFacts,
    post: App,
    old_fx: Seq<Effect>,
    new_fx: Seq<Effect>,
)
    requires
        !pre.is_loading,
        event is AgentsUpdateFinish || event is AgentsUpdateError,
        event_handled(pre, event, facts, post, old_fx, new_fx),
    ensures
        post == pre,
        new_fx == old_fx,
{
    reveal(update_proposed);
    reveal(update_failed);
}

/// The end of a conversation, good or bad, leaves the application at rest.
pub proof fn ended_conversation_is_idle(
    pre: App,
    event: AppEvent,
    facts: EventFacts,
    post: App,
    old_fx: Seq<Effect>,
    new_fx: Seq<Effect>,
)
    requires
        event is LlmFinish || event is LlmError,
        event_handled(pre, event, facts, post, old_fx, new_fx),
    ensures
        !post.is_busy(),
        !post.stream_cancel,
        !post.interjection_tx,
        post.streaming_message is None,
        post.status_line_state.activity == Activity::Idle,
{
    reveal(answer_finished);
    reveal(answer_wound_up);
    reveal(stream_failed);
}

proof fn lemma_stream_goes_on(
    pre: App,
    event: AppEvent,
    facts: EventFacts,
    post: App,
    old_fx: Seq<Effect>,
    new_fx: Seq<Effect>,
)
    requires
        event_handled(pre, event, facts, post, old_fx, new_fx),
        event is LlmResponseStart || event is LlmDelta || event is LlmReasoning
            || event is LlmToolCallStreaming || event is LlmToolCall || event is ToolResult
            || event is LlmRetry || event is AgentProgress || event is StreamNotice
            || event is LlmUsageUpdate,
    ensures
        post.streaming_active == pre.streaming_active,
{
    reveal(response_started);
    reveal(delta_taken);
    reveal(reasoning_taken);
    reveal(call_announced);
    reveal(call_made);
    reveal(result_taken);
    reveal(progress_taken);
    reveal(told_below);
    reveal(notice_shown);
}

/// A conversation goes on until it ends: nothing but its end, good or bad, or a
/// key of the user starts or stops one. So who waits for the end misses nothing
/// by looking after each event.
pub proof fn conversation_goes_on_until_its_end(
    pre: App,
    event: AppEvent,
    facts: EventFacts,
    post: App,
    old_fx: Seq<Effect>,
    new_fx: Seq<Effect>,
)
    requires
        !(event is LlmFinish || event is LlmError || event is Key),
        event_handled(pre, event, facts, post, old_fx, new_fx),
    ensures
        post.streaming_active == pre.streaming_active,
{
    match event {
        AppEvent::LlmResponseStart
        | AppEvent::LlmDelta { .. }
        | AppEvent::LlmReasoning { .. }
        | AppEvent::LlmToolCallStreaming { .. }
        | AppEvent::LlmToolCall { .. }
        | AppEvent::ToolResult { .. }
        | AppEvent::LlmRetry { .. }
        | AppEvent::AgentProgress { .. }
        | AppEvent::StreamNotice { .. }
        | AppEvent::LlmUsageUpdate { .. } => {
            lemma_stream_goes_on(pre, event, facts, post, old_fx, new_fx);
        },
        _ => {
            reveal(mouse_handled);
            reveal(permission_asked);
            reveal(question_asked);
            reveal(compaction_finished);
            reveal(compaction_failed);
            reveal(update_proposed);
            reveal(update_failed);
            reveal(told_below);
        },
    }
}

/// The tokens of two updates add up in the sidebar, and the prompt of the later
/// one is what counts against the context window.
pub proof fn usage_adds_up(
    pre: App,
    first: Usage,
    facts: EventFacts,
    mid: App,
    second: Usage,
    later: EventFacts,
    post: App,
    fx: Seq<Effect>,
)
    requires
        has_room(pre, AppEvent::LlmUsageUpdate { usage: first }),
        event_handled(pre, AppEvent::LlmUsageUpdate { usage: first }, facts, mid, fx, fx),
        has_room(mid, AppEvent::LlmUsageUpdate { usage: second }),
        event_handled(mid, AppEvent::LlmUsageUpdate { usage: second }, later, post, fx, fx),
    ensures
        post.sidebar_state.prompt_tokens == pre.sidebar_state.prompt_tokens + first.prompt_tokens
            + second.prompt_tokens,
        post.sidebar_state.completion_tokens == pre.sidebar_state.completion_tokens
            + first.completion_tokens + second.completion_tokens,
        post.sidebar_state.total_tokens == pre.sidebar_state.total_tokens + first.prompt_tokens
            + first.completion_tokens + second.prompt_tokens + second.completion_tokens,
        post.last_prompt_tokens == second.prompt_tokens,
        post.current_session == pre.current_session,
{
}

/// Cancelling leaves the application at rest, with no prompt waiting, and
/// drops what was said so far.
pub proof fn cancelling_ends_everything(pre: App, now: u64, post: App)
    requires
        cancelled(pre, now, post),
    ensures
        !post.is_busy(),
        !post.stream_cancel,
        post.pending_permission is None,
        post.pending_question is None,
        post.streaming_message is None,
        post.stored_messages == pre.stored_messages,
        post.status_line_state.activity == Activity::Idle,
{
}

/// A complete answer is stored behind what was stored before, and once only.
pub proof fn answer_is_stored(
    pre: App,
    event: AppEvent,
    facts: EventFacts,
    post: App,
    old_fx: Seq<Effect>,
    new_fx: Seq<Effect>,
)
    requires
        event is LlmFinish,
        event_handled(pre, event, facts, post, old_fx, new_fx),
    ensures
        match pre.streaming_message {
            Some(m) => post.stored_messages@ == pre.stored_messages@.push(m),
            None => post.stored_messages@ == pre.stored_messages@ && new_fx == old_fx,
        },
{
    reveal(answer_finished);
    reveal(answer_wound_up);
}

/// The pieces of an answer add up to what is stored of it in the end.
pub proof fn pieces_add_up(pre: App, first: Seq<char>, mid: App, second: Seq<char>, post: App)
    requires
        delta_taken(pre, first, mid),
        delta_taken(mid, second, post),
    ensures
        pre.streaming_message matches Some(m) ==> (post.streaming_message matches Some(n)
            && n.session_id == m.session_id && n.role == m.role && n.text@ == m.text@ + (first
            + second)),
{
    reveal(delta_taken);
    if let Some(m) = pre.streaming_message {
        assert(m.text@ + first + second =~= m.text@ + (first + second));
    }
}

/// The tokens of a single call never touch the counts of the session: those
/// are counted when the answer is complete.
pub proof fn single_calls_leave_session(
    pre: App,
    event: AppEvent,
    facts: EventFacts,
    post: App,
    old_fx: Seq<Effect>,
    new_fx: Seq<Effect>,
)
    requires
        event is LlmUsageUpdate,
        event_handled(pre, event, facts, post, old_fx, new_fx),
    ensures
        post.current_session == pre.current_session,
        post.exchange_count == pre.exchange_count,
        new_fx == old_fx,
{
}

/// After a compaction, what the model is sent with the next message is the
/// summary and nothing else of the conversation.
pub proof fn only_summary_is_left(
    pre: App,
    event: AppEvent,
    facts: EventFacts,
    post: App,
    old_fx: Seq<Effect>,
    new_fx: Seq<Effect>,
    next: Message,
)
    requires
        event is CompactFinish,
        event_handled(pre, event, facts, post, old_fx, new_fx),
    ensures
        sent_history(post.stored_messages@.push(next)) == (if event->summary@.len() > 0 {
            seq![(Role::Assistant, event->summary@)]
        } else {
            Seq::empty()
        }),
        !post.context_warned,
        post.last_prompt_tokens == 0,
{
    reveal(compaction_finished);
    assert(exists|mid: App, fx1: Seq<Effect>| #[trigger]
        compacted(pre, event->summary@, mid) && #[trigger] pushed(old_fx, fx1)
            && post.stored_messages == mid.stored_messages);
    let kept = post.stored_messages@;
    assert(kept.push(next).drop_last() =~= kept);
    assert(kept.drop_last() =~= Seq::<Message>::empty());
    reveal_with_fuel(history_of, 3);
    assert(Seq::<(Role, Seq<char>)>::empty().push((Role::Assistant, event->summary@)) =~= seq![
        (Role::Assistant, event->summary@),
    ]);
}

/// How many prompts for permission are answered.
pub open spec fn permission_replies(fx: Seq<Effect>) -> nat
    decreases fx.len(),
{
    if fx.len() == 0 {
        0
    } else {
        permission_replies(fx.drop_last()) + if fx.last() is ReplyPermission {
            1nat
        } else {
            0nat
        }
    }
}

/// How many questions are answered.
pub open spec fn question_replies(fx: Seq<Effect>) -> nat
    decreases fx.len(),
{
    if fx.len() == 0 {
        0
    } else {
        question_replies(fx.drop_last()) + if fx.last() is ReplyQuestion {
            1nat
        } else {
            0nat
        }
    }
}

proof fn lemma_pushed_replies()
    ensures
        forall|fx: Seq<Effect>, e: Effect|
            #![trigger fx.push(e)]
            {
                &&& permission_replies(fx.push(e)) == permission_replies(fx) + if e
                    is ReplyPermission {
                    1nat
                } else {
                    0nat
                }
                &&& question_replies(fx.push(e)) == question_replies(fx) + if e is ReplyQuestion {
                    1nat
                } else {
                    0nat
                }
            },
{
    assert forall|fx: Seq<Effect>, e: Effect|
        #![trigger fx.push(e)]
        {
            &&& permission_replies(fx.push(e)) == permission_replies(fx) + if e is ReplyPermission {
                1nat
            } else {
                0nat
            }
            &&& question_replies(fx.push(e)) == question_replies(fx) + if e is ReplyQuestion {
                1nat
            } else {
                0nat
            }
        } by {
        assert(fx.push(e).drop_last() =~= fx);
    }
}

/// A prompt for permission that goes away is answered, once; one that stays
/// is not.
pub proof fn permission_is_answered_once(
    pre: App,
    key: KeyEvent,
    now: u64,
    post: App,
    old_fx: Seq<Effect>,
    new_fx: Seq<Effect>,
)
    requires
        pre.pending_permission is Some,
        permission_key(pre, key, now, post, old_fx, new_fx),
    ensures
        post.pending_permission is None ==> permission_replies(new_fx) == permission_replies(old_fx)
            + 1,
        post.pending_permission is Some ==> post == pre && new_fx == old_fx,
{
    reveal(permission_key);
    lemma_pushed_replies();
}

/// A question that goes away is answered, once; one that stays is not.
pub proof fn question_is_answered_once(
    pre: App,
    key: KeyEvent,
    now: u64,
    post: App,
    old_fx: Seq<Effect>,
    new_fx: Seq<Effect>,
)
    requires
        pre.pending_question is Some,
        question_key(pre, key, now, post, old_fx, new_fx),
    ensures
        post.pending_question is None ==> question_replies(new_fx) == question_replies(old_fx) + 1,
        post.pending_question is Some ==> new_fx == old_fx,
{
    reveal(question_key);
    lemma_pushed_replies();
}

/// What every key leaves of a question that still waits: it asks the same with
/// the same options, and the option that is selected exists. Up at the first
/// option and Down at the last change nothing, and the free text changes only by
/// typing or deleting while no option is selected.
pub open spec fn prompt_kept(q: PendingQuestion, key: KeyEvent, r: PendingQuestion) -> bool {
    &&& r.call_id == q.call_id
    &&& r.question == q.question
    &&& r.options == q.options
    &&& r.selected matches Some(i) ==> i < r.options@.len()
    &&& key.code == KeyCode::Up && q.selected == Some(0usize) ==> r == q
    &&& key.code == KeyCode::Down && (q.selected matches Some(i) && i + 1 == q.options@.len())
        ==> r == q
    &&& r.free_text@ != q.free_text@ ==> {
        &&& q.selected is None
        &&& r.selected is None
        &&& key.code is Char || key.code == KeyCode::Backspace
    }
}

/// While a question waits whose selected option exists, no key that leaves it
/// waiting changes its options or selects one that does not exist; Up at the
/// first option and Down at the last change nothing, and the free text changes
/// only while no option is selected.
pub proof fn question_prompt_is_kept(
    pre: App,
    key: KeyEvent,
    now: u64,
    post: App,
    old_fx: Seq<Effect>,
    new_fx: Seq<Effect>,
)
    requires
        pre.pending_question is Some,
        pre.selection_exists(),
        question_key(pre, key, now, post, old_fx, new_fx),
    ensures
        post.selection_exists(),
        post.pending_question matches Some(r) ==> prompt_kept(pre.pending_question->Some_0, key, r),
{
    reveal(question_key);
}

/// The same holds of every key that the application takes, whatever else waits.
pub proof fn keys_keep_question(
    pre: App,
    key: KeyEvent,
    ui: KeyFacts,
    now: u64,
    post: App,
    old_fx: Seq<Effect>,
    new_fx: Seq<Effect>,
)
    requires
        pre.pending_question is Some,
        pre.selection_exists(),
        key_handled(pre, key, ui, now, post, old_fx, new_fx),
    ensures
        post.selection_exists(),
        post.pending_question matches Some(r) ==> prompt_kept(pre.pending_question->Some_0, key, r),
{
    if key.pressed && pre.pending_permission is Some {
        reveal(permission_key);
    } else if key.pressed {
        question_prompt_is_kept(pre, key, now, post, old_fx, new_fx);
    }
}

/// Switching to a session makes it current, shows it at rest, and leaves no
/// prompt and no overlay of the last one behind.
pub proof fn switching_starts_clean(pre: App, stored: StoredSession, post: App)
    requires
        switched(pre, stored, post),
    ensures
        post.current_session == Some(stored.session),
        !post.is_busy(),
        post.pending_permission is None,
        post.pending_question is None,
        post.compaction_count == 0,
        post.wf(),
        stored.messages matches Some(m) ==> post.stored_messages == m,
        stored.messages is None ==> post.stored_messages@.len() == 0,
{
}

/// An interjection never starts or ends a conversation.
pub proof fn interjection_keeps_conversation(
    pre: App,
    text: Seq<char>,
    refs: FileRefs,
    channel_open: bool,
    post: App,
    old_fx: Seq<Effect>,
    new_fx: Seq<Effect>,
)
    requires
        interjected(pre, text, refs, channel_open, post, old_fx, new_fx),
    ensures
        post.is_loading == pre.is_loading,
        post.streaming_active == pre.streaming_active,
        post.streaming_message == pre.streaming_message,
{
}

/// A conversation that was just compacted, or that could not be, is not
/// compacted again by itself.
pub proof fn compaction_does_not_repeat(
    pre: App,
    event: AppEvent,
    facts: EventFacts,
    post: App,
    old_fx: Seq<Effect>,
    new_fx: Seq<Effect>,
)
    requires
        event is CompactFinish || event is CompactError,
        event_handled(pre, event, facts, post, old_fx, new_fx),
    ensures
        !is_compaction_due(post),
        !post.is_loading,
{
    reveal(compaction_finished);
    reveal(compaction_failed);
}

/// A new session begins with nothing of the last one: no messages, no counts,
/// no prompts and no overlays.
pub proof fn new_session_starts_clean(
    pre: App,
    now: u64,
    created: Option<SessionInfo>,
    post: App,
    old_fx: Seq<Effect>,
    new_fx: Seq<Effect>,
)
    requires
        started_anew(pre, now, created, post, old_fx, new_fx),
    ensures
        post.current_session == created,
        post.stored_messages@.len() == 0,
        post.messages@.len() == 1,
        post.exchange_count == 0,
        post.compaction_count == 0,
        post.last_prompt_tokens == 0,
        !post.is_busy(),
        !post.context_warned,
        !post.auto_compact_failed,
        post.pending_permission is None,
        post.pending_question is None,
        post.pending_agents_update is None,
        post.wf(),
{
    reveal(started_anew);
}

/// What is copied runs from the earlier end of the selection to the later.
pub proof fn selection_is_ordered(s: SelectionState)
    ensures
        ordered_range(s) is Some <==> s.anchor is Some && s.cursor is Some,
        ordered_range(s) matches Some((a, b)) ==> {
            &&& a.line < b.line || (a.line == b.line && a.column <= b.column)
            &&& (s.anchor == Some(a) && s.cursor == Some(b)) || (s.anchor == Some(b) && s.cursor
                == Some(a))
        },
{
}

} // verus!
