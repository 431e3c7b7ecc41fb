//! What holds of what keys do.
use crate::block_laws::{
    answer_goes_to_its_question, only_the_prompt_is_taken, the_last_of_a_kind,
};
use crate::blocks::MessageBlock;
use crate::effects::{Effect, PermissionReply};
use crate::keys::{
    agents_at, agents_replaced, agents_update_key, answer_of, edit_effects, enter_suggestion,
    key_handled, moved_selection, open_overlay, overlay_key, permission_key, plain_key,
    question_key, submitted, tab_suggestion, typed_text, AutocompleteMode, KeyCode, KeyEvent,
    KeyFacts, KeyModifiers, OverlayKind,
};
use crate::paths::parts;
use crate::state::{Activity, AgentMode, AgentsFile, App, PendingQuestion};
use crate::text::{trim, views};
use vstd::prelude::*;

verus! {

/// A key that is released or held does nothing.
pub proof fn only_presses_count(
    pre: App,
    key: KeyEvent,
    ui: KeyFacts,
    now: u64,
    post: App,
    old_fx: Seq<Effect>,
    new_fx: Seq<Effect>,
)
    requires
        !key.pressed,
        key_handled(pre, key, ui, now, post, old_fx, new_fx),
    ensures
        post == pre,
        new_fx == old_fx,
{
}

/// What the keys of a permission prompt answer: y allows once, a allows always,
/// n and Escape deny. The prompt is taken away, all other blocks stay, and the
/// conversation goes on.
pub proof fn permission_keys_answer(
    pre: App,
    key: KeyEvent,
    ui: KeyFacts,
    now: u64,
    post: App,
    old_fx: Seq<Effect>,
    new_fx: Seq<Effect>,
    before: Seq<MessageBlock>,
    prompt: MessageBlock,
    after: Seq<MessageBlock>,
)
    requires
        key.pressed,
        pre.pending_permission is Some,
        pre.messages@ == before + seq![prompt] + after,
        prompt is Permission,
        forall|k: int| 0 <= k < after.len() ==> !(#[trigger] after[k] is Permission),
        key_handled(pre, key, ui, now, post, old_fx, new_fx),
    ensures
        ({
            let c = key.code;
            let yes = c == KeyCode::Char('y') || c == KeyCode::Char('Y');
            let no = c == KeyCode::Char('n') || c == KeyCode::Char('N') || c == KeyCode::Esc;
            let always = c == KeyCode::Char('a') || c == KeyCode::Char('A');
            let asked = pre.pending_permission->Some_0;
            let n = old_fx.len() as int;
            &&& yes || no || always ==> {
                &&& post.pending_permission is None
                &&& post.status_line_state.activity == Activity::Thinking
                &&& post.stored_messages == pre.stored_messages
                &&& new_fx.len() > n
                &&& forall|i: int| 0 <= i < n ==> #[trigger] new_fx[i] == old_fx[i]
            }
            &&& yes ==> new_fx.len() == n + 1 && new_fx[n] == Effect::ReplyPermission(
                PermissionReply::AllowOnce,
            ) && post.messages@ == before + after
            &&& always ==> new_fx[n] == Effect::ReplyPermission(PermissionReply::AllowAlways)
                && post.messages@ == before + after
            &&& no ==> {
                &&& new_fx.len() == n + 1
                &&& new_fx[n] == Effect::ReplyPermission(PermissionReply::Deny)
                &&& post.messages@.len() == before.len() + after.len() + 1
                &&& post.messages@.drop_last() == before + after
                &&& post.messages@.last() is System
                &&& post.messages@.last()->System_text@ == "\u{2717} denied: "@
                    + asked.tool_name.name()
            }
            &&& yes || no ==> post.config == pre.config
            &&& always && !"MCP: "@.is_prefix_of(asked.summary@) ==> views(
                post.config.allow_tools@,
            ).contains(asked.tool_name.name()) && new_fx.last() is PersistToolGrant
                && new_fx.last()->PersistToolGrant_tool@ == asked.tool_name.name()
            &&& always && "MCP: "@.is_prefix_of(asked.summary@) ==> post.config == pre.config
                && new_fx.len() == n + 1
            &&& !yes && !no && !always && !(c == KeyCode::Char('c') && key.modifiers.control())
                ==> post == pre && new_fx == old_fx
        }),
{
    reveal(permission_key);
    only_the_prompt_is_taken(before, prompt, after);
    let always = key.code == KeyCode::Char('a') || key.code == KeyCode::Char('A');
    let asked = pre.pending_permission->Some_0;
    let n = old_fx.len() as int;
    if always && !"MCP: "@.is_prefix_of(asked.summary@) {
        let fx = old_fx.push(Effect::ReplyPermission(PermissionReply::AllowAlways));
        let known = views(pre.config.allow_tools@).contains(asked.tool_name.name());
        let synced = if known {
            fx
        } else {
            fx.push(Effect::SyncPermissionMode)
        };
        assert(new_fx.drop_last() == synced);
        assert forall|i: int| 0 <= i <= n implies #[trigger] new_fx[i] == fx[i] by {
            assert(new_fx.drop_last()[i] == new_fx[i]);
        }
        let tools = post.config.allow_tools@;
        if known {
            assert(views(tools) =~= views(pre.config.allow_tools@));
        } else {
            assert(views(tools)[tools.len() - 1] == asked.tool_name.name());
        }
    }
}

/// A tool that is allowed always stays allowed, and no other is.
pub proof fn grants_only_grow(
    pre: App,
    key: KeyEvent,
    ui: KeyFacts,
    now: u64,
    post: App,
    old_fx: Seq<Effect>,
    new_fx: Seq<Effect>,
    i: int,
)
    requires
        pre.pending_permission is Some,
        key_handled(pre, key, ui, now, post, old_fx, new_fx),
        0 <= i < pre.config.allow_tools@.len(),
    ensures
        i < post.config.allow_tools@.len(),
        post.config.allow_tools@[i] == pre.config.allow_tools@[i],
        post.config.allow_tools@.len() <= pre.config.allow_tools@.len() + 1,
{
    reveal(permission_key);
    if post.config.allow_tools@.len() > pre.config.allow_tools@.len() {
        assert(post.config.allow_tools@.drop_last() == pre.config.allow_tools@);
        assert(post.config.allow_tools@.drop_last()[i] == post.config.allow_tools@[i]);
    }
}

/// What a question is answered with: the option that is selected, else what was
/// typed, else that the user declined.
pub proof fn the_selected_option_answers(q: PendingQuestion)
    ensures
        q.selected matches Some(i) ==> (i < q.options@.len() ==> answer_of(q)
            == q.options@[i as int]@),
        q.selected is None && q.free_text@.len() > 0 ==> answer_of(q) == q.free_text@,
        q.selected is None && q.free_text@.len() == 0 ==> answer_of(q)
            == "User declined to answer."@,
{
}

/// Enter answers a question with what is selected or typed, and shows that in
/// its block; Escape declines. Either way it no longer waits.
pub proof fn question_keys_answer(
    pre: App,
    key: KeyEvent,
    ui: KeyFacts,
    now: u64,
    post: App,
    old_fx: Seq<Effect>,
    new_fx: Seq<Effect>,
    i: int,
)
    requires
        key.pressed,
        pre.pending_permission is None,
        pre.pending_question is Some,
        key.code == KeyCode::Enter || key.code == KeyCode::Esc,
        0 <= i < pre.messages@.len(),
        pre.messages@[i] is Question,
        pre.messages@[i]->answered is None,
        forall|k: int|
            i < k < pre.messages@.len() ==> !(#[trigger] pre.messages@[k] is Question
                && pre.messages@[k]->answered is None),
        key_handled(pre, key, ui, now, post, old_fx, new_fx),
    ensures
        post.pending_question is None,
        new_fx.len() == old_fx.len() + 1,
        new_fx.drop_last() == old_fx,
        new_fx.last() is ReplyQuestion,
        post.messages@.len() == pre.messages@.len(),
        forall|k: int|
            0 <= k < pre.messages@.len() && k != i ==> #[trigger] post.messages@[k]
                == pre.messages@[k],
        post.messages@[i] is Question,
        post.messages@[i]->answered is Some,
        key.code == KeyCode::Enter ==> new_fx.last()->ReplyQuestion_0@ == answer_of(
            pre.pending_question->Some_0,
        ) && post.messages@[i]->answered->Some_0@ == answer_of(pre.pending_question->Some_0),
        key.code == KeyCode::Esc ==> new_fx.last()->ReplyQuestion_0@ == "User declined to answer."@
            && post.messages@[i]->answered->Some_0@ == "(skipped)"@,
        post.status_line_state.activity == Activity::Thinking,
{
    reveal(question_key);
    let shown = if key.code == KeyCode::Enter {
        answer_of(pre.pending_question->Some_0)
    } else {
        "(skipped)"@
    };
    answer_goes_to_its_question(pre.messages@, post.messages@, shown, i);
}

/// How the keys move the selection: a digit selects the option it counts to, Up
/// and Down go by one and stop at the ends, and Tab goes to the free text and back.
pub proof fn selection_moves(q: PendingQuestion, key: KeyEvent)
    ensures
        key.code matches KeyCode::Char(c) ==> {
            let i = c as int - 49;
            &&& 0 <= i < 9 && i < q.options@.len() ==> moved_selection(q, key) == Some(
                Some(i as usize),
            )
            &&& !(0 <= i < 9 && i < q.options@.len()) ==> moved_selection(q, key) is None
        },
        q.selected matches Some(i) ==> {
            &&& key.code == KeyCode::Up && i > 0 ==> moved_selection(q, key) == Some(
                Some((i - 1) as usize),
            )
            &&& key.code == KeyCode::Up && i == 0 ==> moved_selection(q, key) is None
            &&& key.code == KeyCode::Down && i + 1 < q.options@.len() ==> moved_selection(q, key)
                == Some(Some((i + 1) as usize))
            &&& key.code == KeyCode::Down && i + 1 >= q.options@.len() ==> moved_selection(q, key)
                is None
            &&& key.code == KeyCode::Tab && q.options@.len() > 0 ==> moved_selection(q, key) == Some(
                None::<usize>,
            )
        },
        q.selected is None && key.code == KeyCode::Tab && q.options@.len() > 0 ==> moved_selection(
            q,
            key,
        ) == Some(Some(0usize)),
{
}

/// Typing goes to the free text where no option is selected: a character comes
/// behind it, and Backspace takes the last.
pub proof fn typing_fills_the_free_text(q: PendingQuestion, c: char, key: KeyEvent)
    requires
        key.code == KeyCode::Char(c),
    ensures
        q.selected is Some ==> typed_text(q, key) is None,
        q.selected is None && !('1' <= c && c <= '9') ==> typed_text(q, key) == Some(
            q.free_text@ + seq![c],
        ),
        q.selected is None && q.free_text@.len() > 0 ==> typed_text(
            q,
            KeyEvent { code: KeyCode::Backspace, ..key },
        ) == Some(q.free_text@.subrange(0, q.free_text@.len() - 1)),
{
    assert(q.free_text@ + seq![c] =~= q.free_text@.push(c));
    if q.free_text@.len() > 0 {
        assert(q.free_text@.drop_last() =~= q.free_text@.subrange(0, q.free_text@.len() - 1));
    }
}

/// What the keys do to a proposed AGENTS.md: y has exactly what was proposed
/// written to the root of the project, n and Escape discard it, any other waits on.
pub proof fn proposal_keys_decide(
    pre: App,
    key: KeyEvent,
    ui: KeyFacts,
    now: u64,
    post: App,
    old_fx: Seq<Effect>,
    new_fx: Seq<Effect>,
)
    requires
        key.pressed,
        pre.pending_permission is None,
        pre.pending_question is None,
        pre.pending_agents_update is Some,
        key_handled(pre, key, ui, now, post, old_fx, new_fx),
    ensures
        ({
            let c = key.code;
            let yes = c == KeyCode::Char('y') || c == KeyCode::Char('Y');
            let no = c == KeyCode::Char('n') || c == KeyCode::Char('N') || c == KeyCode::Esc || (c
                == KeyCode::Char('c') && key.modifiers.control());
            &&& yes ==> {
                &&& post.pending_agents_update is None
                &&& post.messages == pre.messages
                &&& new_fx.len() == old_fx.len() + 1
                &&& new_fx.drop_last() == old_fx
                &&& new_fx.last() is WriteAgentsFile
                &&& new_fx.last()->WriteAgentsFile_content == pre.pending_agents_update->Some_0
            }
            &&& no ==> {
                &&& post.pending_agents_update is None
                &&& new_fx == old_fx
                &&& post.messages@.len() == pre.messages@.len() + 1
                &&& post.messages@.drop_last() == pre.messages@
                &&& post.messages@.last() is System
                &&& post.messages@.last()->System_text@ == "AGENTS.md update discarded."@
            }
            &&& !yes && !no ==> post == pre && new_fx == old_fx
        }),
{
    reveal(agents_update_key);
}

/// The overlay that is seen takes the keys.
pub proof fn visible_overlay_takes_keys(app: App)
    requires
        app.one_overlay(),
    ensures
        app.model_picker.visible ==> open_overlay(app) == Some(OverlayKind::Models),
        app.session_picker.visible ==> open_overlay(app) == Some(OverlayKind::Sessions),
        app.mcp_overlay.visible ==> open_overlay(app) == Some(OverlayKind::Mcp),
        app.diagnostics_overlay.visible ==> open_overlay(app) == Some(OverlayKind::Diagnostics),
        !app.model_picker.visible && !app.session_picker.visible && !app.mcp_overlay.visible
            && !app.diagnostics_overlay.visible ==> open_overlay(app) is None,
{
}

/// What the keys do to an overlay: Escape closes it, Enter takes what is picked,
/// and the arrows move in it; the messages stay.
pub proof fn overlay_keys_act(
    pre: App,
    key: KeyEvent,
    ui: KeyFacts,
    now: u64,
    post: App,
    old_fx: Seq<Effect>,
    new_fx: Seq<Effect>,
)
    requires
        key.pressed,
        pre.pending_permission is None,
        pre.pending_question is None,
        pre.pending_agents_update is None,
        pre.one_overlay(),
        pre.model_picker.visible || pre.session_picker.visible || pre.mcp_overlay.visible
            || pre.diagnostics_overlay.visible,
        key_handled(pre, key, ui, now, post, old_fx, new_fx),
    ensures
        key.code == KeyCode::Esc ==> {
            &&& !post.model_picker.visible
            &&& !post.session_picker.visible
            &&& !post.mcp_overlay.visible
            &&& !post.diagnostics_overlay.visible
            &&& post.messages == pre.messages
            &&& new_fx == old_fx
        },
        key.code == KeyCode::Enter && pre.model_picker.visible && ui.picked_model is Some ==> {
            &&& !post.model_picker.visible
            &&& new_fx.len() == old_fx.len() + 1
            &&& new_fx.last() is Submit
            &&& new_fx.last()->Submit_0@ == "/model "@ + ui.picked_model->Some_0@
        },
        key.code == KeyCode::Enter && pre.session_picker.visible && ui.session_picked
            ==> !post.session_picker.visible && new_fx == old_fx.push(Effect::SwitchSession),
        key.code == KeyCode::Up && (pre.model_picker.visible || pre.session_picker.visible)
            ==> post == pre && new_fx == old_fx.push(Effect::PickerPrev),
        key.code == KeyCode::Down && (pre.model_picker.visible || pre.session_picker.visible)
            ==> post == pre && new_fx == old_fx.push(Effect::PickerNext),
        key.code == KeyCode::Backspace && (pre.model_picker.visible || pre.session_picker.visible)
            ==> post == pre && new_fx == old_fx.push(Effect::PickerBackspace),
        key.code is Char && !(key.code == KeyCode::Char('c') && key.modifiers.control()) && (
        pre.model_picker.visible || pre.session_picker.visible) ==> post == pre && new_fx
            == old_fx.push(Effect::PickerType(key.code->Char_0)),
        key.code == KeyCode::Up && (pre.mcp_overlay.visible || pre.diagnostics_overlay.visible)
            ==> post == pre && new_fx == old_fx.push(Effect::OverlayScrollUp),
        key.code == KeyCode::Down && (pre.mcp_overlay.visible || pre.diagnostics_overlay.visible)
            ==> post == pre && new_fx == old_fx.push(Effect::OverlayScrollDown),
        (key.code == KeyCode::Tab || key.code == KeyCode::Right) && pre.mcp_overlay.visible ==> post
            == pre && new_fx == old_fx.push(Effect::OverlayNextTab),
        (key.code == KeyCode::BackTab || key.code == KeyCode::Left) && pre.mcp_overlay.visible
            ==> post == pre && new_fx == old_fx.push(Effect::OverlayPrevTab),
{
    reveal(overlay_key);
}

/// What the user typed is handed on trimmed when it is sent: as an interjection
/// while a conversation goes on, else as a message. What is blank is dropped.
pub proof fn input_is_handed_on(
    pre: App,
    text: Seq<char>,
    old_fx: Seq<Effect>,
    new_fx: Seq<Effect>,
)
    requires
        submitted(pre, text, old_fx, new_fx),
    ensures
        ({
            let n = old_fx.len() as int;
            &&& new_fx.len() > n
            &&& new_fx[n] == Effect::ClearInput
            &&& trim(text).len() == 0 ==> new_fx.len() == n + 1
            &&& trim(text).len() > 0 ==> new_fx.len() == n + 2
            &&& trim(text).len() > 0 && pre.is_loading ==> new_fx.last() is Interject
                && new_fx.last()->Interject_0@ == trim(text)
            &&& trim(text).len() > 0 && !pre.is_loading ==> new_fx.last() is Submit
                && new_fx.last()->Submit_0@ == trim(text)
        }),
{
    if trim(text).len() > 0 {
        assert(new_fx.drop_last()[old_fx.len() as int] == new_fx[old_fx.len() as int]);
    }
}

/// What the keys do where nothing else takes them: control and C quits where
/// nothing is under way, Tab changes the mode, the arrows and pages scroll, and
/// Enter sends.
pub proof fn plain_keys_act(
    pre: App,
    key: KeyEvent,
    ui: KeyFacts,
    now: u64,
    post: App,
    old_fx: Seq<Effect>,
    new_fx: Seq<Effect>,
)
    requires
        key.pressed,
        pre.pending_permission is None,
        pre.pending_question is None,
        pre.pending_agents_update is None,
        !pre.model_picker.visible && !pre.session_picker.visible && !pre.mcp_overlay.visible
            && !pre.diagnostics_overlay.visible,
        !ui.autocomplete_visible,
        key_handled(pre, key, ui, now, post, old_fx, new_fx),
    ensures
        key.code == KeyCode::Char('c') && key.modifiers == KeyModifiers::Control && !pre.is_loading
            && !pre.streaming_active ==> post == (App { should_quit: true, ..pre }) && new_fx
            == old_fx,
        key.code == KeyCode::Char('c') && key.modifiers == KeyModifiers::Control && (pre.is_loading
            || pre.streaming_active) ==> post.should_quit == pre.should_quit && !post.is_loading
            && !post.streaming_active,
        key.modifiers == KeyModifiers::Plain ==> {
            let a = pre.message_area_state;
            let b = post.message_area_state;
            let page: int = if a.visible_height > 0 {
                a.visible_height as int
            } else {
                1
            };
            let last = if a.content_height > a.visible_height {
                a.content_height - a.visible_height
            } else {
                0
            };
            &&& key.code == KeyCode::Up ==> b.scroll_offset == (if a.scroll_offset > 1 {
                a.scroll_offset - 1
            } else {
                0
            })
            &&& key.code == KeyCode::PageUp ==> b.scroll_offset == (if a.scroll_offset > page {
                a.scroll_offset - page
            } else {
                0
            })
            &&& key.code == KeyCode::Down ==> b.scroll_offset == (if a.scroll_offset + 1 >= last {
                last
            } else {
                a.scroll_offset + 1
            })
            &&& key.code == KeyCode::PageDown ==> b.scroll_offset == (if a.scroll_offset + page
                >= last {
                last
            } else {
                a.scroll_offset + page
            })
            &&& key.code == KeyCode::Enter ==> post == pre && submitted(
                pre,
                ui.full_text@,
                old_fx,
                new_fx,
            )
        },
        key.code == KeyCode::Tab && key.modifiers == KeyModifiers::Plain && (
        ui.input_text@.len() == 0 || ui.input_text@[0] != '/') ==> {
            &&& pre.mode == AgentMode::Build ==> post.mode == AgentMode::Plan
            &&& pre.mode == AgentMode::Plan ==> post.mode == AgentMode::Build
            &&& new_fx == old_fx.push(Effect::SyncPermissionMode)
            &&& post.messages == pre.messages
        },
        key.code == KeyCode::Tab && key.modifiers == KeyModifiers::Plain && ui.input_text@.len() > 0
            && ui.input_text@[0] == '/' ==> post == pre && new_fx == old_fx.push(
            Effect::UpdateAutocomplete(ui.input_text),
        ),
        key.code == KeyCode::Enter && key.modifiers == KeyModifiers::Shift ==> post == pre && new_fx
            == old_fx.push(Effect::ExpandPaste).push(Effect::InsertNewline),
        key.code is Char && key.modifiers == KeyModifiers::Plain ==> post == pre && new_fx.contains(
            Effect::EditInput,
        ),
{
    reveal(plain_key);
    if key.code is Char && key.modifiers == KeyModifiers::Plain {
        assert(new_fx[old_fx.len() as int + 1] == Effect::EditInput);
    }
}

/// What a suggestion becomes when it is taken: a command is run by Enter and
/// written out by Tab, and a file is filled in by both.
pub proof fn suggestions_are_taken(pre: App, ui: KeyFacts, old_fx: Seq<Effect>, s: String)
    requires
        ui.suggestion == Some(s),
    ensures
        ui.autocomplete_mode == AutocompleteMode::Command && !pre.is_loading ==> enter_suggestion(
            pre,
            ui,
            old_fx,
        ) == old_fx + seq![Effect::HideAutocomplete, Effect::ClearInput, Effect::Submit(s)],
        ui.autocomplete_mode == AutocompleteMode::Command && pre.is_loading ==> enter_suggestion(
            pre,
            ui,
            old_fx,
        ) == old_fx + seq![Effect::HideAutocomplete, Effect::ClearInput],
        ui.autocomplete_mode == AutocompleteMode::FileRef ==> enter_suggestion(pre, ui, old_fx)
            == old_fx + seq![Effect::CompleteFile(s), Effect::HideAutocomplete] && tab_suggestion(
            ui,
            old_fx,
        ) == enter_suggestion(pre, ui, old_fx),
        ui.autocomplete_mode == AutocompleteMode::Command ==> tab_suggestion(ui, old_fx) == old_fx
            + seq![Effect::SetInput(s), Effect::UpdateAutocomplete(s)],
{
    assert(enter_suggestion(pre, ui, old_fx) =~= match ui.autocomplete_mode {
        AutocompleteMode::Command => if pre.is_loading {
            old_fx + seq![Effect::HideAutocomplete, Effect::ClearInput]
        } else {
            old_fx + seq![Effect::HideAutocomplete, Effect::ClearInput, Effect::Submit(s)]
        },
        AutocompleteMode::FileRef => old_fx + seq![
            Effect::CompleteFile(s),
            Effect::HideAutocomplete,
        ],
    });
    assert(tab_suggestion(ui, old_fx) =~= match ui.autocomplete_mode {
        AutocompleteMode::Command => old_fx + seq![
            Effect::SetInput(s),
            Effect::UpdateAutocomplete(s),
        ],
        AutocompleteMode::FileRef => old_fx + seq![
            Effect::CompleteFile(s),
            Effect::HideAutocomplete,
        ],
    });
}

/// An edit of the input first writes out what was pasted, where it changes the
/// text, and has the files listed where they are not yet.
pub proof fn edits_keep_what_was_pasted(pre: App, key: KeyEvent, old_fx: Seq<Effect>)
    ensures
        ({
            let changes = key.code is Char || key.code is Backspace || key.code is Delete;
            let first = if changes {
                seq![Effect::ExpandPaste, Effect::EditInput]
            } else {
                seq![Effect::EditInput]
            };
            let later = if pre.file_index is None {
                seq![Effect::BuildFileIndex, Effect::UpdateAutocompleteFiles]
            } else {
                seq![Effect::UpdateAutocompleteFiles]
            };
            edit_effects(pre, key, old_fx) == old_fx + first + later
        }),
{
    let changes = key.code is Char || key.code is Backspace || key.code is Delete;
    let first = if changes {
        seq![Effect::ExpandPaste, Effect::EditInput]
    } else {
        seq![Effect::EditInput]
    };
    let later = if pre.file_index is None {
        seq![Effect::BuildFileIndex, Effect::UpdateAutocompleteFiles]
    } else {
        seq![Effect::UpdateAutocompleteFiles]
    };
    assert(edit_effects(pre, key, old_fx) =~= old_fx + first + later);
}

/// A new AGENTS.md takes the place of the one that lies at the same path, and
/// otherwise comes before all others; the others stay.
pub proof fn written_file_takes_its_place(pre: App, path: String, content: String, post: App, i: int)
    requires
        agents_replaced(pre, path, content, post),
    ensures
        agents_at(pre.agents_files@, path@, i) ==> {
            &&& post.agents_files@.len() == pre.agents_files@.len()
            &&& post.agents_files@[i].content == content
            &&& post.agents_files@[i].path == pre.agents_files@[i].path
            &&& forall|k: int|
                0 <= k < pre.agents_files@.len() && k != i ==> #[trigger] post.agents_files@[k]
                    == pre.agents_files@[k]
        },
        (forall|k: int|
            0 <= k < pre.agents_files@.len() ==> parts((#[trigger] pre.agents_files@[k]).path@)
                != parts(path@)) ==> post.agents_files@ == seq![AgentsFile { path, content }]
            + pre.agents_files@,
        post.messages == pre.messages,
{
    if agents_at(pre.agents_files@, path@, i) {
        let j = choose|j: int|
            {
                &&& #[trigger] agents_at(pre.agents_files@, path@, j)
                &&& post.agents_files@ == pre.agents_files@.update(
                    j,
                    AgentsFile { path: pre.agents_files@[j].path, content },
                )
            };
        assert(i == j) by {
            if i < j {
                assert(parts(pre.agents_files@[i].path@) != parts(path@));
            }
            if j < i {
                assert(parts(pre.agents_files@[j].path@) != parts(path@));
            }
        }
    }
}

/// While suggestions are offered, the arrows go through them, Escape hides them,
/// and Enter and Tab take the one at hand; what was said stays.
pub proof fn suggestion_keys_act(
    pre: App,
    key: KeyEvent,
    ui: KeyFacts,
    now: u64,
    post: App,
    old_fx: Seq<Effect>,
    new_fx: Seq<Effect>,
)
    requires
        key.pressed,
        pre.pending_permission is None,
        pre.pending_question is None,
        pre.pending_agents_update is None,
        !pre.model_picker.visible && !pre.session_picker.visible && !pre.mcp_overlay.visible
            && !pre.diagnostics_overlay.visible,
        ui.autocomplete_visible,
        key.modifiers == KeyModifiers::Plain,
        key.code == KeyCode::Up || key.code == KeyCode::Down || key.code == KeyCode::Esc || key.code
            == KeyCode::Enter || key.code == KeyCode::Tab,
        key_handled(pre, key, ui, now, post, old_fx, new_fx),
    ensures
        post == pre,
        key.code == KeyCode::Up ==> new_fx == old_fx.push(Effect::AutocompletePrev),
        key.code == KeyCode::Down ==> new_fx == old_fx.push(Effect::AutocompleteNext),
        key.code == KeyCode::Esc ==> new_fx == old_fx.push(Effect::HideAutocomplete),
        key.code == KeyCode::Enter ==> new_fx == enter_suggestion(pre, ui, old_fx),
        key.code == KeyCode::Tab ==> new_fx == tab_suggestion(ui, old_fx),
{
    reveal(plain_key);
}

/// A key that moves the selection of a question moves it, and one that types
/// into it changes its text; the question and its options stay, and it waits on.
pub proof fn question_follows_the_keys(
    pre: App,
    key: KeyEvent,
    ui: KeyFacts,
    now: u64,
    post: App,
    old_fx: Seq<Effect>,
    new_fx: Seq<Effect>,
)
    requires
        key.pressed,
        pre.pending_permission is None,
        pre.pending_question is Some,
        key.code != KeyCode::Enter && key.code != KeyCode::Esc,
        !(key.code == KeyCode::Char('c') && key.modifiers.control()),
        key_handled(pre, key, ui, now, post, old_fx, new_fx),
    ensures
        new_fx == old_fx,
        post.pending_question is Some,
        post.stored_messages == pre.stored_messages,
        post.messages@.len() == pre.messages@.len(),
        ({
            let q = pre.pending_question->Some_0;
            let r = post.pending_question->Some_0;
            let moved = moved_selection(q, key);
            let typed = typed_text(q, key);
            &&& r.question == q.question && r.options == q.options && r.call_id == q.call_id
            &&& moved is Some ==> r.selected == moved->Some_0 && r.free_text@ == q.free_text@
            &&& moved is None && typed is Some ==> r.selected == q.selected && r.free_text@
                == typed->Some_0
            &&& moved is None && typed is None ==> post == pre
        }),
{
    reveal(question_key);
    the_last_of_a_kind(pre.messages@);
}

/// Control and B turns the sidebar off, on, and back to what fits; control and P
/// shows and hides what was pasted.
pub proof fn control_keys_act(
    pre: App,
    key: KeyEvent,
    ui: KeyFacts,
    now: u64,
    post: App,
    old_fx: Seq<Effect>,
    new_fx: Seq<Effect>,
)
    requires
        key.pressed,
        pre.pending_permission is None,
        pre.pending_question is None,
        pre.pending_agents_update is None,
        !pre.model_picker.visible && !pre.session_picker.visible && !pre.mcp_overlay.visible
            && !pre.diagnostics_overlay.visible,
        key.modifiers == KeyModifiers::Control,
        key_handled(pre, key, ui, now, post, old_fx, new_fx),
    ensures
        key.code == KeyCode::Char('b') ==> {
            &&& new_fx == old_fx
            &&& post.messages == pre.messages
            &&& pre.sidebar_override is None ==> post.sidebar_override == Some(false)
            &&& pre.sidebar_override == Some(false) ==> post.sidebar_override == Some(true)
            &&& pre.sidebar_override == Some(true) ==> post.sidebar_override is None
        },
        key.code == KeyCode::Char('p') ==> {
            &&& post == pre
            &&& ui.paste_collapsed ==> new_fx == old_fx.push(Effect::TogglePastePreview)
            &&& !ui.paste_collapsed ==> new_fx == old_fx
        },
{
    reveal(plain_key);
}

} // verus!
