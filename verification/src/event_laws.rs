//! What holds of what the application is told of.
use crate::block_laws::only_its_kind_reads_so;
use crate::effects::{ChatJob, ChatPurpose, Effect};
use crate::events::{
    compaction_failed, compaction_finished, event_handled, flash_after, from_stream, from_terminal,
    is_reply_event, mouse_handled, notice_shown, pasted, permission_asked,
    question_asked, stream_failed, told_below, update_failed, update_proposed, AppEvent,
    EventFacts, MouseEvent, MouseKind, PermissionRequest,
};
use crate::export::QuestionRequest;
use crate::helpers::elapsed;
use crate::message::Role;
use crate::notices::folded;
use crate::scenario::text_of;
use crate::state::{Activity, App, SidebarLsp, SidebarMcp};
use crate::text::decimal;
use crate::tool_display::diff_content;
use vstd::prelude::*;

verus! {

/// Whether one block was added behind all others.
pub open spec fn one_more(pre: App, post: App) -> bool {
    post.messages@.len() == pre.messages@.len() + 1 && post.messages@.drop_last() == pre.messages@
}

/// Whether one error was added that reads `text`.
pub open spec fn error_added(pre: App, post: App, text: Seq<char>) -> bool {
    one_more(pre, post) && post.messages@.last() is Error && post.messages@.last()->Error_text@
        == text
}

/// Whether one note was added that reads `text`.
pub open spec fn note_added(pre: App, post: App, text: Seq<char>) -> bool {
    one_more(pre, post) && post.messages@.last() is System && post.messages@.last()->System_text@
        == text
}

/// A conversation that fails ends, and the user is told why; what was shown and
/// stored stays.
pub proof fn failure_is_told(
    pre: App,
    error: String,
    facts: EventFacts,
    post: App,
    old_fx: Seq<Effect>,
    new_fx: Seq<Effect>,
)
    requires
        event_handled(pre, AppEvent::LlmError { error }, facts, post, old_fx, new_fx),
    ensures
        error_added(pre, post, error@),
        !post.streaming_active,
        !post.is_loading,
        post.streaming_message is None,
        post.status_line_state.activity == Activity::Idle,
        post.stored_messages == pre.stored_messages,
        post.current_session == pre.current_session,
        new_fx == old_fx,
{
    reveal(stream_failed);
}

/// The user is told of each new attempt: why, which one, and of how many.
pub proof fn retry_is_told(
    pre: App,
    attempt: u32,
    max_attempts: u32,
    error: String,
    facts: EventFacts,
    post: App,
    old_fx: Seq<Effect>,
    new_fx: Seq<Effect>,
)
    requires
        event_handled(
            pre,
            AppEvent::LlmRetry { attempt, max_attempts, error },
            facts,
            post,
            old_fx,
            new_fx,
        ),
    ensures
        note_added(
            pre,
            post,
            "Connection error: "@ + error@ + "\nRetrying ("@ + decimal(attempt as nat) + "/"@
                + decimal(max_attempts as nat) + ")..."@,
        ),
        post.streaming_active == pre.streaming_active,
        post.stored_messages == pre.stored_messages,
        new_fx == old_fx,
{
    reveal(told_below);
}

/// The end of an export is told: where the scenario is, what went wrong, or what
/// to look out for.
pub proof fn export_is_told(
    pre: App,
    a: String,
    b: String,
    facts: EventFacts,
    post: App,
    old_fx: Seq<Effect>,
    new_fx: Seq<Effect>,
)
    ensures
        event_handled(
            pre,
            AppEvent::ExportScenarioFinish { path: a, name: b },
            facts,
            post,
            old_fx,
            new_fx,
        ) ==> note_added(pre, post, "Scenario '"@ + b@ + "' written to "@ + a@) && new_fx == old_fx,
        event_handled(
            pre,
            AppEvent::ExportScenarioError { error: a },
            facts,
            post,
            old_fx,
            new_fx,
        ) ==> error_added(pre, post, a@) && new_fx == old_fx,
        event_handled(
            pre,
            AppEvent::ExportScenarioWarning { warning: a },
            facts,
            post,
            old_fx,
            new_fx,
        ) ==> note_added(pre, post, a@) && new_fx == old_fx,
{
    reveal(told_below);
}

/// A notice that says something new is added as it reads; one that repeats the
/// note before it leaves the number of blocks and all other blocks as they are.
pub proof fn notice_is_told(
    pre: App,
    text: String,
    facts: EventFacts,
    post: App,
    old_fx: Seq<Effect>,
    new_fx: Seq<Effect>,
)
    requires
        event_handled(pre, AppEvent::StreamNotice { text }, facts, post, old_fx, new_fx),
    ensures
        ({
            let again = pre.messages@.len() > 0 && pre.messages@.last() is System && folded(
                pre.messages@.last()->System_text@,
                text@,
            ) is Some;
            &&& !again ==> note_added(pre, post, text@)
            &&& again ==> {
                &&& post.messages@.len() == pre.messages@.len()
                &&& post.messages@.drop_last() == pre.messages@.drop_last()
                &&& post.messages@.last() is System
                &&& post.messages@.last()->System_text@ == folded(
                    pre.messages@.last()->System_text@,
                    text@,
                )->Some_0
            }
        }),
        post.stored_messages == pre.stored_messages,
        new_fx == old_fx,
{
    reveal(notice_shown);
}

/// A request for permission waits for the user, and is shown behind all else by
/// the name of the tool, what it is to do, and the change it would make.
pub proof fn permission_is_shown(
    pre: App,
    req: PermissionRequest,
    facts: EventFacts,
    post: App,
    old_fx: Seq<Effect>,
    new_fx: Seq<Effect>,
)
    requires
        event_handled(pre, AppEvent::PermissionRequest(req), facts, post, old_fx, new_fx),
    ensures
        one_more(pre, post),
        post.messages@.last() is Permission,
        post.messages@.last()->Permission_args_summary == req.arguments_summary,
        req.display_name is Some ==> post.messages@.last()->Permission_tool_name@
            == req.display_name->Some_0@,
        req.display_name is None ==> post.messages@.last()->Permission_tool_name@
            == req.tool_name.name(),
        post.messages@.last()->Permission_diff_content is Some ==> diff_content(
            req.tool_name,
            req.tool_args,
        ) == Some(post.messages@.last()->Permission_diff_content->Some_0@),
        post.messages@.last()->Permission_diff_content is None ==> diff_content(
            req.tool_name,
            req.tool_args,
        ) is None,
        post.pending_permission is Some,
        post.pending_permission->Some_0.tool_name == req.tool_name,
        post.pending_permission->Some_0.summary == req.arguments_summary,
        post.status_line_state.activity == Activity::WaitingForPermission,
        new_fx == old_fx,
{
    reveal(permission_asked);
}

/// A question waits for the user, and is shown behind all else with its options,
/// the first of them selected.
pub proof fn question_is_shown(
    pre: App,
    req: QuestionRequest,
    facts: EventFacts,
    post: App,
    old_fx: Seq<Effect>,
    new_fx: Seq<Effect>,
)
    requires
        event_handled(pre, AppEvent::QuestionRequest(req), facts, post, old_fx, new_fx),
    ensures
        one_more(pre, post),
        post.messages@.last() is Question,
        post.messages@.last()->question == req.question,
        post.messages@.last()->options@ == req.options@,
        post.messages@.last()->answered is None,
        post.pending_question is Some,
        post.pending_question->Some_0.call_id == req.call_id,
        post.pending_question->Some_0.question == req.question,
        post.pending_question->Some_0.options == req.options,
        post.pending_question->Some_0.free_text@.len() == 0,
        req.options@.len() > 0 ==> post.pending_question->Some_0.selected == Some(0usize),
        req.options@.len() == 0 ==> post.pending_question->Some_0.selected is None,
        post.messages@.last()->selected == post.pending_question->Some_0.selected,
        post.status_line_state.activity == Activity::WaitingForQuestion,
        new_fx == old_fx,
{
    reveal(question_asked);
}

/// After a compaction the summary stands for the conversation: it is the one
/// message that is stored, and it is shown. The counts begin anew, and the old
/// messages are deleted before the summary is saved.
pub proof fn compaction_leaves_the_summary(
    pre: App,
    summary: String,
    facts: EventFacts,
    post: App,
    old_fx: Seq<Effect>,
    new_fx: Seq<Effect>,
)
    requires
        pre.compaction_count < u32::MAX,
        event_handled(pre, AppEvent::CompactFinish { summary }, facts, post, old_fx, new_fx),
    ensures
        post.stored_messages@.len() == 1,
        post.stored_messages@[0].role == Role::Assistant,
        post.stored_messages@[0].text@ == summary@,
        pre.current_session is Some ==> post.stored_messages@[0].session_id@
            == pre.current_session->Some_0.id@,
        post.messages@.len() == 2,
        post.messages@[0] is System,
        post.messages@[0]->System_text@ == "Conversation compacted."@,
        post.messages@[1] is Assistant,
        text_of(post.messages@[1]->parts@) == summary@,
        post.compaction_count == pre.compaction_count + 1,
        !post.is_loading,
        post.last_prompt_tokens == 0,
        pre.current_session is Some ==> {
            &&& post.current_session is Some
            &&& post.current_session->Some_0.id == pre.current_session->Some_0.id
            &&& post.current_session->Some_0.title == pre.current_session->Some_0.title
            &&& post.current_session->Some_0.token_usage.total_tokens == 0
            &&& post.current_session->Some_0.token_usage.prompt_tokens == 0
            &&& post.current_session->Some_0.token_usage.completion_tokens == 0
        },
        new_fx.len() >= old_fx.len() + 2,
        new_fx[old_fx.len() as int] is DeleteMessages,
        pre.current_session is Some ==> new_fx[old_fx.len() as int]->DeleteMessages_session_id@
            == pre.current_session->Some_0.id@,
        new_fx[old_fx.len() as int + 1] == Effect::SaveMessage(post.stored_messages@[0]),
{
    reveal(compaction_finished);
    only_its_kind_reads_so(post.messages@[1], summary@);
}

/// A compaction that fails is told and not tried again unasked; the conversation
/// stays as it is.
pub proof fn failed_compaction_keeps_all(
    pre: App,
    error: String,
    facts: EventFacts,
    post: App,
    old_fx: Seq<Effect>,
    new_fx: Seq<Effect>,
)
    requires
        event_handled(pre, AppEvent::CompactError { error }, facts, post, old_fx, new_fx),
    ensures
        error_added(pre, post, error@),
        post.auto_compact_failed,
        !post.is_loading,
        post.stored_messages == pre.stored_messages,
        post.current_session == pre.current_session,
        post.status_line_state.activity == Activity::Idle,
        new_fx == old_fx,
{
    reveal(compaction_failed);
}

/// A proposal for AGENTS.md that is awaited is shown and waits for the user.
pub proof fn proposal_is_shown(
    pre: App,
    proposed_content: String,
    facts: EventFacts,
    post: App,
    old_fx: Seq<Effect>,
    new_fx: Seq<Effect>,
)
    requires
        pre.is_loading,
        event_handled(
            pre,
            AppEvent::AgentsUpdateFinish { proposed_content },
            facts,
            post,
            old_fx,
            new_fx,
        ),
    ensures
        post.pending_agents_update == Some(proposed_content),
        post.messages@.len() == pre.messages@.len() + 2,
        post.messages@.subrange(0, pre.messages@.len() as int) == pre.messages@,
        post.messages@.last() is Assistant,
        text_of(post.messages@.last()->parts@) == proposed_content@,
        !post.is_loading,
        new_fx == old_fx,
{
    reveal(update_proposed);
    only_its_kind_reads_so(post.messages@.last(), proposed_content@);
    assert(post.messages@.subrange(0, pre.messages@.len() as int) =~= pre.messages@.take(
        pre.messages@.len() as int,
    )) by {
        assert(post.messages@.take(pre.messages@.len() as int) =~= pre.messages@);
    }
}

/// A failed proposal that is awaited is told.
pub proof fn failed_proposal_is_told(
    pre: App,
    error: String,
    facts: EventFacts,
    post: App,
    old_fx: Seq<Effect>,
    new_fx: Seq<Effect>,
)
    requires
        pre.is_loading,
        event_handled(pre, AppEvent::AgentsUpdateError { error }, facts, post, old_fx, new_fx),
    ensures
        error_added(pre, post, error@),
        !post.is_loading,
        post.pending_agents_update == pre.pending_agents_update,
        new_fx == old_fx,
{
    reveal(update_failed);
}

/// A title that comes for the session at hand, where that has none of its own,
/// becomes its title; one for another session, or for one with a title, is
/// dropped.
pub proof fn title_goes_to_its_session(
    pre: App,
    session_id: String,
    title: String,
    facts: EventFacts,
    post: App,
    old_fx: Seq<Effect>,
    new_fx: Seq<Effect>,
)
    requires
        event_handled(
            pre,
            AppEvent::TitleGenerated { session_id, title },
            facts,
            post,
            old_fx,
            new_fx,
        ) || event_handled(
            pre,
            AppEvent::TitleError { session_id, fallback_title: title },
            facts,
            post,
            old_fx,
            new_fx,
        ),
    ensures
        ({
            let meant = pre.current_session is Some && pre.current_session->Some_0.id@
                == session_id@ && pre.current_session->Some_0.title@ == "New session"@;
            &&& !meant ==> post == pre && new_fx == old_fx
            &&& meant && title@.len() == 0 ==> post == pre && new_fx == old_fx
            &&& meant && title@.len() > 0 ==> {
                &&& post.current_session is Some
                &&& post.current_session->Some_0.title@ == title@
                &&& post.current_session->Some_0.id == pre.current_session->Some_0.id
                &&& post.sidebar_state.session_title@ == title@
                &&& post.messages == pre.messages
                &&& post.stored_messages == pre.stored_messages
            }
        }),
{
}

/// The mouse scrolls and selects only where nothing lies over the messages.
pub proof fn mouse_is_blocked(
    pre: App,
    mouse: MouseEvent,
    facts: EventFacts,
    post: App,
    old_fx: Seq<Effect>,
    new_fx: Seq<Effect>,
)
    requires
        pre.model_picker.visible || pre.session_picker.visible || pre.diagnostics_overlay.visible
            || pre.mcp_overlay.visible || pre.pending_question is Some,
        event_handled(pre, AppEvent::Mouse(mouse), facts, post, old_fx, new_fx),
    ensures
        post == pre,
        new_fx == old_fx,
{
    reveal(mouse_handled);
}

/// What the mouse does to the messages otherwise: it scrolls by three lines,
/// begins a selection where it is pressed over them, and copies the selection
/// where it is let go.
pub proof fn mouse_scrolls_and_selects(
    pre: App,
    mouse: MouseEvent,
    facts: EventFacts,
    post: App,
    old_fx: Seq<Effect>,
    new_fx: Seq<Effect>,
)
    requires
        !(pre.model_picker.visible || pre.session_picker.visible
            || pre.diagnostics_overlay.visible || pre.mcp_overlay.visible
            || pre.pending_question is Some),
        event_handled(pre, AppEvent::Mouse(mouse), facts, post, old_fx, new_fx),
    ensures
        post.messages == pre.messages,
        post.stored_messages == pre.stored_messages,
        ({
            let a = pre.message_area_state;
            let b = post.message_area_state;
            let last = if a.content_height > a.visible_height {
                a.content_height - a.visible_height
            } else {
                0
            };
            &&& mouse.kind == MouseKind::ScrollUp ==> b.scroll_offset == (if a.scroll_offset > 3 {
                a.scroll_offset - 3
            } else {
                0
            }) && !b.auto_scroll && new_fx == old_fx
            &&& mouse.kind == MouseKind::ScrollDown && a.scroll_offset + 3 >= last
                ==> b.scroll_offset == last && b.auto_scroll && new_fx == old_fx
            &&& mouse.kind == MouseKind::ScrollDown && a.scroll_offset + 3 < last
                ==> b.scroll_offset == a.scroll_offset + 3 && b.auto_scroll == a.auto_scroll
                && new_fx == old_fx
        }),
        ({
            let area = pre.last_message_area;
            let over = area.y <= mouse.row < area.y + area.height && area.x <= mouse.column < area.x
                + area.width;
            &&& mouse.kind == MouseKind::LeftDown && over ==> post.selection_state.anchor is None
                && post.selection_state.cursor is None && new_fx == old_fx.push(
                Effect::LocateSelectionStart { row: mouse.row, column: mouse.column },
            )
            &&& mouse.kind == MouseKind::LeftDown && !over ==> post == pre && new_fx == old_fx
            &&& mouse.kind == MouseKind::LeftDrag && pre.selection_state.dragging ==> new_fx
                == old_fx.push(Effect::LocateSelectionEnd { row: mouse.row, column: mouse.column })
            &&& mouse.kind == MouseKind::LeftDrag && !pre.selection_state.dragging ==> post == pre
                && new_fx == old_fx
            &&& mouse.kind == MouseKind::LeftUp && !pre.selection_state.dragging ==> post == pre
                && new_fx == old_fx
            &&& mouse.kind == MouseKind::LeftUp && pre.selection_state.dragging
                ==> !post.selection_state.dragging && post.selection_state.anchor
                == pre.selection_state.anchor && post.selection_state.cursor
                == pre.selection_state.cursor
            &&& mouse.kind == MouseKind::LeftUp && pre.selection_state.dragging
                && pre.selection_state.anchor is Some && pre.selection_state.cursor is Some
                ==> new_fx.len() == old_fx.len() + 1 && new_fx.last() is CopySelection
            &&& mouse.kind == MouseKind::LeftUp && pre.selection_state.dragging && (
            pre.selection_state.anchor is None || pre.selection_state.cursor is None) ==> new_fx
                == old_fx
        }),
{
    reveal(mouse_handled);
}

/// What is pasted goes into the input, unless a prompt waits for an answer.
pub proof fn paste_goes_to_the_input(
    pre: App,
    text: String,
    facts: EventFacts,
    post: App,
    old_fx: Seq<Effect>,
    new_fx: Seq<Effect>,
)
    requires
        event_handled(pre, AppEvent::Paste(text), facts, post, old_fx, new_fx),
    ensures
        post == pre,
        pre.pending_permission is Some || pre.pending_question is Some ==> new_fx == old_fx,
        pre.pending_permission is None && pre.pending_question is None ==> new_fx == old_fx + seq![
            Effect::CollapsePaste(text),
            Effect::RefreshAutocomplete,
        ],
{
    reveal(pasted);
    assert(old_fx.push(Effect::CollapsePaste(text)).push(Effect::RefreshAutocomplete) =~= old_fx
        + seq![Effect::CollapsePaste(text), Effect::RefreshAutocomplete]);
}

/// The flash that says that something was copied lasts for less than a second.
pub proof fn flash_lasts_a_second(flash: u64, now: u64)
    ensures
        now < flash + 1000 ==> flash_after(Some(flash), now) == Some(flash),
        now >= flash + 1000 ==> flash_after(Some(flash), now) is None,
        flash_after(None, now) is None,
{
}

/// Time goes from its start, and never backwards.
pub proof fn time_goes_forward(start: u64, now: u64)
    ensures
        now >= start ==> elapsed(start, now) == now - start,
        now < start ==> elapsed(start, now) == 0,
{
}

/// A reply of a model is told of by the event for what it was asked for: a good
/// one with its text, a bad one with what went wrong.
pub proof fn replies_become_events(job: ChatJob, reply: Result<String, String>, event: AppEvent)
    requires
        is_reply_event(job, reply, event),
    ensures
        job.purpose == ChatPurpose::Compact && reply is Ok ==> event is CompactFinish
            && event->summary == reply->Ok_0,
        job.purpose == ChatPurpose::Compact && reply is Err ==> event is CompactError
            && event->CompactError_error@ == "Compaction failed: "@ + reply->Err_0@,
        job.purpose == ChatPurpose::AgentsUpdate && reply is Ok ==> event is AgentsUpdateFinish
            && event->proposed_content == reply->Ok_0,
        job.purpose == ChatPurpose::AgentsUpdate && reply is Err ==> event is AgentsUpdateError
            && event->AgentsUpdateError_error@ == "AGENTS.md update failed: "@ + reply->Err_0@,
        job.purpose == ChatPurpose::Title && reply is Err ==> event is TitleError
            && event->TitleError_session_id == job.session_id && event->fallback_title
            == job.fallback,
        job.purpose == ChatPurpose::Title && reply is Ok ==> event is TitleGenerated
            && event->TitleGenerated_session_id == job.session_id || event is TitleError
            && event->TitleError_session_id == job.session_id && event->fallback_title
            == job.fallback,
{
}

/// What comes from the terminal does not come from the conversation.
pub proof fn events_come_from_one_place(event: AppEvent)
    ensures
        !(from_terminal(event) && from_stream(event)),
        from_terminal(event) <==> event is Key || event is Mouse || event is Paste
            || event is Resize || event is Tick,
        event is LlmDelta || event is LlmToolCall || event is ToolResult || event is LlmFinish
            || event is LlmError || event is LlmReasoning || event is LlmRetry
            || event is LlmResponseStart || event is LlmUsageUpdate
            || event is LlmToolCallStreaming <==> from_stream(event),
{
}

/// A tick shows the language servers as they are, and touches nothing that was
/// said.
pub proof fn tick_shows_the_servers(
    pre: App,
    lsp_servers: Vec<SidebarLsp>,
    facts: EventFacts,
    post: App,
    old_fx: Seq<Effect>,
    new_fx: Seq<Effect>,
)
    requires
        event_handled(pre, AppEvent::Tick { lsp_servers }, facts, post, old_fx, new_fx),
    ensures
        post.sidebar_state.lsp_servers == lsp_servers,
        post.messages == pre.messages,
        post.stored_messages == pre.stored_messages,
        post.selection_state.anchor == pre.selection_state.anchor,
        post.selection_state.cursor == pre.selection_state.cursor,
        post.streaming_active == pre.streaming_active,
        new_fx == old_fx.push(Effect::AdvanceSpinners),
{
}

/// The state of the servers is shown as it is told; a language server that has
/// to be restarted is.
pub proof fn servers_are_shown_and_restarted(
    pre: App,
    servers: Vec<SidebarMcp>,
    lang: String,
    facts: EventFacts,
    post: App,
    old_fx: Seq<Effect>,
    new_fx: Seq<Effect>,
)
    ensures
        event_handled(pre, AppEvent::McpStatus { servers }, facts, post, old_fx, new_fx)
            ==> post.sidebar_state.mcp_servers == servers && post.messages == pre.messages
            && new_fx == old_fx,
        event_handled(pre, AppEvent::LspRestartNeeded { lang }, facts, post, old_fx, new_fx)
            ==> post == pre && new_fx == old_fx.push(Effect::RestartLsp { lang }),
        event_handled(pre, AppEvent::Resize, facts, post, old_fx, new_fx) ==> post == pre && new_fx
            == old_fx,
{
}

} // verus!
