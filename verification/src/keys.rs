//! What the keys do.
use crate::blocks::pushed;
use crate::commands::{join_path, path_in, scrolled_to_bottom};
use crate::effects::{replied, Effect, PermissionReply};
use crate::helpers::{
    cancel_effects, cancelled, question_answered, question_shown, with_activity, without_permission,
};
use crate::paths::{parts, same_path};
use crate::state::{Activity, AgentsFile, App, Config, Overlay, PendingQuestion};
use crate::tasks::told;
use crate::text::{cat2, holds, starts_with, take_chars, trim, trimmed, views};
use vstd::prelude::*;
use vstd::string::*;

verus! {

/// A key of the keyboard.
#[derive(Clone, Copy, Debug, PartialEq, Eq, Structural)]
pub enum KeyCode {
    Char(char),
    Enter,
    Esc,
    Tab,
    BackTab,
    Backspace,
    Delete,
    Up,
    Down,
    Left,
    Right,
    PageUp,
    PageDown,
    Other,
}

/// The keys that were held down with it: none, control alone, shift alone, or
/// others, control among them or not.
#[derive(Clone, Copy, Debug, PartialEq, Eq, Structural)]
pub enum KeyModifiers {
    Plain,
    Control,
    Shift,
    Others { with_control: bool },
}

impl KeyModifiers {
    /// Whether control was held down.
    pub open spec fn control(self) -> bool {
        match self {
            KeyModifiers::Control => true,
            KeyModifiers::Others { with_control } => with_control,
            _ => false,
        }
    }

    /// Whether control was held down.
    pub fn has_control(&self) -> (r: bool)
        ensures
            r == self.control(),
    {
        match self {
            KeyModifiers::Control => true,
            KeyModifiers::Others { with_control } => *with_control,
            _ => false,
        }
    }
}

/// A key that was pressed, held or released.
#[derive(Clone, Copy, Debug, PartialEq, Eq, Structural)]
pub struct KeyEvent {
    pub code: KeyCode,
    pub modifiers: KeyModifiers,
    pub pressed: bool,
}

/// What is offered while the user types.
#[derive(Clone, Copy, Debug, PartialEq, Eq, Structural)]
pub enum AutocompleteMode {
    Command,
    FileRef,
}

/// What the widgets hold when a key comes: the suggestion that is selected,
/// the text of the input field as it is shown and as it would be sent, and
/// what is selected in the open picker.
#[derive(Debug, PartialEq, Eq)]
pub struct KeyFacts {
    pub autocomplete_visible: bool,
    pub autocomplete_mode: AutocompleteMode,
    pub suggestion: Option<String>,
    pub input_text: String,
    pub full_text: String,
    pub picked_model: Option<String>,
    pub session_picked: bool,
    pub paste_collapsed: bool,
}

/// An overlay that takes all keys while it is open.
#[derive(Clone, Copy, Debug, PartialEq, Eq, Structural)]
pub enum OverlayKind {
    Models,
    Sessions,
    Mcp,
    Diagnostics,
}

/// Whether control and C were pressed, whatever else was held down.
pub open spec fn is_interrupt(key: KeyEvent) -> bool {
    key.code == KeyCode::Char('c') && key.modifiers.control()
}

/// The application whose prompt was answered and that goes on thinking.
pub open spec fn going_on(pre: App) -> App {
    App {
        status_line_state: with_activity(pre.status_line_state, Activity::Thinking),
        message_area_state: pre.message_area_state.at_bottom(),
        ..pre
    }
}

/// The application with a tool allowed once and for all.
pub open spec fn grant_persisted(
    pre: App,
    tool: Seq<char>,
    post: App,
    old_fx: Seq<Effect>,
    new_fx: Seq<Effect>,
) -> bool {
    let known = views(pre.config.allow_tools@).contains(tool);
    let synced = if known {
        old_fx
    } else {
        old_fx.push(Effect::SyncPermissionMode)
    };
    &&& post == (App {
        config: Config { allow_tools: post.config.allow_tools, ..pre.config },
        ..pre
    })
    &&& if known {
        post.config.allow_tools@ == pre.config.allow_tools@
    } else {
        pushed(pre.config.allow_tools@, post.config.allow_tools@)
            && post.config.allow_tools@.last()@ == tool
    }
    &&& pushed(synced, new_fx)
    &&& new_fx.last() matches Effect::PersistToolGrant { tool: t }
    &&& t@ == tool
}

/// The application whose permission prompt is gone.
pub open spec fn prompt_closed(pre: App, post: App) -> bool {
    &&& post == (App { pending_permission: None, messages: post.messages, ..pre })
    &&& post.messages@ == without_permission(pre.messages@)
}

/// What a key does while a permission prompt waits.
#[verifier::opaque]
pub open spec fn permission_key(
    pre: App,
    key: KeyEvent,
    now: u64,
    post: App,
    old_fx: Seq<Effect>,
    new_fx: Seq<Effect>,
) -> bool {
    match pre.pending_permission {
        None => post == pre && new_fx == old_fx,
        Some(perm) => if key.code == KeyCode::Char('y') || key.code == KeyCode::Char('Y') {
            &&& exists|closed: App| #[trigger] prompt_closed(pre, closed) && post == going_on(closed)
            &&& new_fx == old_fx.push(Effect::ReplyPermission(PermissionReply::AllowOnce))
        } else if key.code == KeyCode::Char('n') || key.code == KeyCode::Char('N') || key.code
            == KeyCode::Esc {
            &&& exists|closed: App, said: App|
                {
                    &&& #[trigger] prompt_closed(pre, closed)
                    &&& #[trigger] told(
                        closed,
                        said,
                        false,
                        "\u{2717} denied: "@ + perm.tool_name.name(),
                    )
                    &&& post == going_on(said)
                }
            &&& new_fx == old_fx.push(Effect::ReplyPermission(PermissionReply::Deny))
        } else if key.code == KeyCode::Char('a') || key.code == KeyCode::Char('A') {
            let fx = old_fx.push(Effect::ReplyPermission(PermissionReply::AllowAlways));
            exists|closed: App|
                {
                    &&& #[trigger] prompt_closed(pre, closed)
                    &&& if "MCP: "@.is_prefix_of(perm.summary@) {
                        post == going_on(closed) && new_fx == fx
                    } else {
                        grant_persisted(
                            going_on(closed),
                            perm.tool_name.name(),
                            post,
                            fx,
                            new_fx,
                        )
                    }
                }
        } else if is_interrupt(key) {
            cancelled(pre, now, post) && cancel_effects(pre, old_fx, new_fx)
        } else {
            post == pre && new_fx == old_fx
        },
    }
}

/// The answer that a question gets when the user confirms it: the selected
/// option, else the free text, else that there is none.
pub open spec fn answer_of(q: PendingQuestion) -> Seq<char> {
    match q.selected {
        Some(i) => if i < q.options@.len() {
            q.options@[i as int]@
        } else {
            Seq::empty()
        },
        None => if q.free_text@.len() == 0 {
            "User declined to answer."@
        } else {
            q.free_text@
        },
    }
}

/// The application whose question was answered; the block of the question
/// shows `shown`.
pub open spec fn question_closed(pre: App, shown: Seq<char>, post: App) -> bool {
    &&& post == going_on(App { pending_question: None, messages: post.messages, ..pre })
    &&& question_answered(pre.messages@, post.messages@, shown)
}

/// The application whose pending question is now `q`, which its block shows.
pub open spec fn question_changed(pre: App, q: PendingQuestion, post: App) -> bool {
    &&& post == (App { pending_question: post.pending_question, messages: post.messages, ..pre })
    &&& post.pending_question matches Some(r)
    &&& r == (PendingQuestion { free_text: r.free_text, ..q })
    &&& r.free_text@ == q.free_text@
    &&& question_shown(pre.messages@, post.messages@, r)
}

/// The option that a digit stands for.
pub open spec fn digit_index(c: char) -> int {
    c as int - '1' as int
}

/// Which option is selected after a key that moves the selection; nothing
/// where the key does not move it.
pub open spec fn moved_selection(q: PendingQuestion, key: KeyEvent) -> Option<Option<usize>> {
    let n = q.options@.len();
    match key.code {
        KeyCode::Char(c) if '1' <= c && c <= '9' => if digit_index(c) < n {
            Some(Some(digit_index(c) as usize))
        } else {
            None
        },
        KeyCode::Up => match q.selected {
            Some(i) if i > 0 => Some(Some((i - 1) as usize)),
            _ => None,
        },
        KeyCode::Down => match q.selected {
            Some(i) if i + 1 < n => Some(Some((i + 1) as usize)),
            _ => None,
        },
        KeyCode::Tab => if n == 0 {
            None
        } else if q.selected is Some {
            Some(None)
        } else {
            Some(Some(0usize))
        },
        _ => None,
    }
}

/// The free text after a key that types or deletes; nothing where the key does neither.
pub open spec fn typed_text(q: PendingQuestion, key: KeyEvent) -> Option<Seq<char>> {
    if q.selected is Some {
        None
    } else {
        match key.code {
            KeyCode::Char(c) if !('1' <= c && c <= '9') => Some(q.free_text@.push(c)),
            KeyCode::Backspace => if q.free_text@.len() == 0 {
                Some(q.free_text@)
            } else {
                Some(q.free_text@.drop_last())
            },
            _ => None,
        }
    }
}

/// The application whose pending question has the free text `t`, which its block shows.
pub open spec fn question_typed(pre: App, t: Seq<char>, post: App) -> bool {
    &&& post == (App { pending_question: post.pending_question, messages: post.messages, ..pre })
    &&& pre.pending_question matches Some(q)
    &&& post.pending_question matches Some(r)
    &&& r == (PendingQuestion { free_text: r.free_text, ..q })
    &&& r.free_text@ == t
    &&& question_shown(pre.messages@, post.messages@, r)
}

/// What a key does while a question waits.
#[verifier::opaque]
pub open spec fn question_key(
    pre: App,
    key: KeyEvent,
    now: u64,
    post: App,
    old_fx: Seq<Effect>,
    new_fx: Seq<Effect>,
) -> bool {
    match pre.pending_question {
        None => post == pre && new_fx == old_fx,
        Some(q) => if is_interrupt(key) {
            let unasked = App { pending_question: None, ..pre };
            &&& cancelled(unasked, now, post)
            &&& exists|fx: Seq<Effect>| #[trigger]
                replied(old_fx, fx, "User cancelled."@) && cancel_effects(unasked, fx, new_fx)
        } else if key.code == KeyCode::Enter {
            &&& question_closed(pre, answer_of(q), post)
            &&& replied(old_fx, new_fx, answer_of(q))
        } else if key.code == KeyCode::Esc {
            &&& question_closed(pre, "(skipped)"@, post)
            &&& replied(old_fx, new_fx, "User declined to answer."@)
        } else {
            &&& new_fx == old_fx
            &&& match (moved_selection(q, key), typed_text(q, key)) {
                (Some(s), _) => question_changed(pre, PendingQuestion { selected: s, ..q }, post),
                (None, Some(t)) => question_typed(pre, t, post),
                (None, None) => post == pre,
            }
        },
    }
}

/// The application after a proposed AGENTS.md was turned down.
pub open spec fn update_discarded(pre: App, post: App) -> bool {
    &&& post == (App {
        pending_agents_update: None,
        messages: post.messages,
        message_area_state: pre.message_area_state.at_bottom(),
        ..pre
    })
    &&& pushed(pre.messages@, post.messages@)
    &&& post.messages@.last().is_system_text("AGENTS.md update discarded."@)
}

/// Whether a proposed AGENTS.md is to be written to the root of the project.
pub open spec fn update_written(
    root: Seq<char>,
    content: String,
    old_fx: Seq<Effect>,
    new_fx: Seq<Effect>,
) -> bool {
    &&& pushed(old_fx, new_fx)
    &&& new_fx.last() matches Effect::WriteAgentsFile { path, content: c }
    &&& path@ == path_in(root, "AGENTS.md"@)
    &&& c == content
}

/// What a key does while a proposed AGENTS.md waits for approval.
#[verifier::opaque]
pub open spec fn agents_update_key(
    pre: App,
    key: KeyEvent,
    post: App,
    old_fx: Seq<Effect>,
    new_fx: Seq<Effect>,
) -> bool {
    match pre.pending_agents_update {
        None => post == pre && new_fx == old_fx,
        Some(content) => if key.code == KeyCode::Char('y') || key.code == KeyCode::Char('Y') {
            &&& post == (App { pending_agents_update: None, ..pre })
            &&& update_written(pre.project.root@, content, old_fx, new_fx)
        } else if is_interrupt(key) || key.code == KeyCode::Char('n') || key.code == KeyCode::Char(
            'N',
        ) || key.code == KeyCode::Esc {
            update_discarded(pre, post) && new_fx == old_fx
        } else {
            post == pre && new_fx == old_fx
        },
    }
}

/// The application with one overlay closed.
pub open spec fn overlay_closed(pre: App, kind: OverlayKind) -> App {
    match kind {
        OverlayKind::Models => App { model_picker: Overlay { visible: false }, ..pre },
        OverlayKind::Sessions => App { session_picker: Overlay { visible: false }, ..pre },
        OverlayKind::Mcp => App { mcp_overlay: Overlay { visible: false }, ..pre },
        OverlayKind::Diagnostics => App { diagnostics_overlay: Overlay { visible: false }, ..pre },
    }
}

/// Whether an overlay is a picker, into which one can type.
pub open spec fn is_picker(kind: OverlayKind) -> bool {
    kind == OverlayKind::Models || kind == OverlayKind::Sessions
}

/// What a key asks of the widget of an open overlay.
pub open spec fn widget_effect(kind: OverlayKind, key: KeyEvent) -> Option<Effect> {
    if is_picker(kind) {
        match key.code {
            KeyCode::Up => Some(Effect::PickerPrev),
            KeyCode::Down => Some(Effect::PickerNext),
            KeyCode::Backspace => Some(Effect::PickerBackspace),
            KeyCode::Char(c) => Some(Effect::PickerType(c)),
            _ => None,
        }
    } else {
        match key.code {
            KeyCode::Up => Some(Effect::OverlayScrollUp),
            KeyCode::Down => Some(Effect::OverlayScrollDown),
            KeyCode::Tab | KeyCode::Right => if kind == OverlayKind::Mcp {
                Some(Effect::OverlayNextTab)
            } else {
                None
            },
            KeyCode::BackTab | KeyCode::Left => if kind == OverlayKind::Mcp {
                Some(Effect::OverlayPrevTab)
            } else {
                None
            },
            _ => None,
        }
    }
}

/// What a key does while an overlay is open.
#[verifier::opaque]
pub open spec fn overlay_key(
    pre: App,
    kind: OverlayKind,
    key: KeyEvent,
    ui: KeyFacts,
    now: u64,
    post: App,
    old_fx: Seq<Effect>,
    new_fx: Seq<Effect>,
) -> bool {
    let closed = overlay_closed(pre, kind);
    if key.code == KeyCode::Esc {
        post == closed && new_fx == old_fx
    } else if is_interrupt(key) {
        if pre.is_busy() {
            cancelled(closed, now, post) && cancel_effects(closed, old_fx, new_fx)
        } else {
            post == closed && new_fx == old_fx
        }
    } else if key.code == KeyCode::Enter && kind == OverlayKind::Models && ui.picked_model is Some {
        &&& post == closed
        &&& pushed(old_fx, new_fx)
        &&& new_fx.last() matches Effect::Submit(t)
        &&& t@ == "/model "@ + ui.picked_model->Some_0@
    } else if key.code == KeyCode::Enter && kind == OverlayKind::Sessions && ui.session_picked {
        post == closed && new_fx == old_fx.push(Effect::SwitchSession)
    } else {
        &&& post == pre
        &&& new_fx == (match widget_effect(kind, key) {
            Some(e) => old_fx.push(e),
            None => old_fx,
        })
    }
}

/// How the sidebar is forced after one more press of the key that does so.
pub open spec fn next_override(forced: Option<bool>) -> Option<bool> {
    match forced {
        None => Some(false),
        Some(false) => Some(true),
        Some(true) => None,
    }
}

/// Three presses of the key that forces the sidebar lead back to where it was.
pub proof fn override_cycles(forced: Option<bool>)
    ensures
        next_override(next_override(next_override(forced))) == forced,
        next_override(forced) != forced,
{
}

/// What is asked of the outside when a suggestion is taken over by Enter.
pub open spec fn enter_suggestion(pre: App, ui: KeyFacts, old_fx: Seq<Effect>) -> Seq<Effect> {
    match ui.suggestion {
        None => old_fx,
        Some(s) => match ui.autocomplete_mode {
            AutocompleteMode::Command => {
                let cleared = old_fx.push(Effect::HideAutocomplete).push(Effect::ClearInput);
                if pre.is_loading {
                    cleared
                } else {
                    cleared.push(Effect::Submit(s))
                }
            },
            AutocompleteMode::FileRef => old_fx.push(Effect::CompleteFile(s)).push(
                Effect::HideAutocomplete,
            ),
        },
    }
}

/// What is asked of the outside when a suggestion is taken over by Tab.
pub open spec fn tab_suggestion(ui: KeyFacts, old_fx: Seq<Effect>) -> Seq<Effect> {
    match ui.suggestion {
        None => old_fx,
        Some(s) => match ui.autocomplete_mode {
            AutocompleteMode::Command => old_fx.push(Effect::SetInput(s)).push(
                Effect::UpdateAutocomplete(s),
            ),
            AutocompleteMode::FileRef => old_fx.push(Effect::CompleteFile(s)).push(
                Effect::HideAutocomplete,
            ),
        },
    }
}

/// What submitting the input field asks of the outside.
pub open spec fn submitted(
    pre: App,
    text: Seq<char>,
    old_fx: Seq<Effect>,
    new_fx: Seq<Effect>,
) -> bool {
    let cleared = old_fx.push(Effect::ClearInput);
    if trim(text).len() == 0 {
        new_fx == cleared
    } else {
        &&& pushed(cleared, new_fx)
        &&& if pre.is_loading {
            new_fx.last() matches Effect::Interject(t) && t@ == trim(text)
        } else {
            new_fx.last() matches Effect::Submit(t) && t@ == trim(text)
        }
    }
}

/// What a key that edits the text asks of the outside.
pub open spec fn edit_effects(pre: App, key: KeyEvent, old_fx: Seq<Effect>) -> Seq<Effect> {
    let editing = key.code is Char || key.code is Backspace || key.code is Delete;
    let expanded = if editing {
        old_fx.push(Effect::ExpandPaste)
    } else {
        old_fx
    };
    let edited = expanded.push(Effect::EditInput);
    (if pre.file_index is None {
        edited.push(Effect::BuildFileIndex)
    } else {
        edited
    }).push(Effect::UpdateAutocompleteFiles)
}

/// How many lines a page is.
pub open spec fn page_of(pre: App) -> nat {
    if pre.message_area_state.visible_height > 0 {
        pre.message_area_state.visible_height as nat
    } else {
        1
    }
}

/// What a key does while a suggestion is offered: nothing where it is none of
/// the keys that deal with suggestions.
pub open spec fn suggestion_effects(pre: App, key: KeyEvent, ui: KeyFacts, old_fx: Seq<Effect>) -> Option<
    Seq<Effect>,
> {
    if !ui.autocomplete_visible || key.modifiers != KeyModifiers::Plain {
        None
    } else {
        match key.code {
            KeyCode::Enter => Some(enter_suggestion(pre, ui, old_fx)),
            KeyCode::Tab => Some(tab_suggestion(ui, old_fx)),
            KeyCode::Up => Some(old_fx.push(Effect::AutocompletePrev)),
            KeyCode::Down => Some(old_fx.push(Effect::AutocompleteNext)),
            KeyCode::Esc => Some(old_fx.push(Effect::HideAutocomplete)),
            _ => None,
        }
    }
}

/// How far a key scrolls the message area: lines and direction, up if true.
pub open spec fn scroll_of(pre: App, key: KeyEvent) -> Option<(nat, bool)> {
    if key.modifiers != KeyModifiers::Plain {
        None
    } else {
        match key.code {
            KeyCode::Up => Some((1nat, true)),
            KeyCode::Down => Some((1nat, false)),
            KeyCode::PageUp => Some((page_of(pre), true)),
            KeyCode::PageDown => Some((page_of(pre), false)),
            _ => None,
        }
    }
}

/// What a key does where no prompt and no overlay takes it.
#[verifier::opaque]
pub open spec fn plain_key(
    pre: App,
    key: KeyEvent,
    ui: KeyFacts,
    now: u64,
    post: App,
    old_fx: Seq<Effect>,
    new_fx: Seq<Effect>,
) -> bool {
    if key.code == KeyCode::Char('c') && key.modifiers == KeyModifiers::Control {
        if pre.is_busy() {
            cancelled(pre, now, post) && cancel_effects(pre, old_fx, new_fx)
        } else {
            post == (App { should_quit: true, ..pre }) && new_fx == old_fx
        }
    } else if suggestion_effects(pre, key, ui, old_fx) is Some {
        post == pre && new_fx == suggestion_effects(pre, key, ui, old_fx)->Some_0
    } else if scroll_of(pre, key) is Some {
        let (lines, up) = scroll_of(pre, key)->Some_0;
        &&& post == (App {
            message_area_state: if up {
                pre.message_area_state.scrolled_up(lines)
            } else {
                pre.message_area_state.scrolled_down(lines)
            },
            ..pre
        })
        &&& new_fx == old_fx
    } else if key.code == KeyCode::Tab && key.modifiers == KeyModifiers::Plain {
        if ui.input_text@.len() > 0 && ui.input_text@[0] == '/' {
            post == pre && new_fx == old_fx.push(Effect::UpdateAutocomplete(ui.input_text))
        } else {
            &&& post == (App { mode: pre.mode.other(), ..pre })
            &&& new_fx == old_fx.push(Effect::SyncPermissionMode)
        }
    } else if key.code == KeyCode::Char('b') && key.modifiers == KeyModifiers::Control {
        &&& post == (App { sidebar_override: next_override(pre.sidebar_override), ..pre })
        &&& new_fx == old_fx
    } else if key.code == KeyCode::Char('p') && key.modifiers == KeyModifiers::Control {
        &&& post == pre
        &&& new_fx == (if ui.paste_collapsed {
            old_fx.push(Effect::TogglePastePreview)
        } else {
            old_fx
        })
    } else if key.code == KeyCode::Enter && key.modifiers == KeyModifiers::Shift {
        post == pre && new_fx == old_fx.push(Effect::ExpandPaste).push(Effect::InsertNewline)
    } else if key.code == KeyCode::Enter && key.modifiers == KeyModifiers::Plain {
        post == pre && submitted(pre, ui.full_text@, old_fx, new_fx)
    } else {
        post == pre && new_fx == edit_effects(pre, key, old_fx)
    }
}

/// The overlay that takes the keys, if one is open.
pub open spec fn open_overlay(app: App) -> Option<OverlayKind> {
    if app.model_picker.visible {
        Some(OverlayKind::Models)
    } else if app.session_picker.visible {
        Some(OverlayKind::Sessions)
    } else if app.mcp_overlay.visible {
        Some(OverlayKind::Mcp)
    } else if app.diagnostics_overlay.visible {
        Some(OverlayKind::Diagnostics)
    } else {
        None
    }
}

/// What a key does: a prompt takes it before an overlay, and an overlay before
/// anything else. A key that is not pressed does nothing.
pub open spec fn key_handled(
    pre: App,
    key: KeyEvent,
    ui: KeyFacts,
    now: u64,
    post: App,
    old_fx: Seq<Effect>,
    new_fx: Seq<Effect>,
) -> bool {
    if !key.pressed {
        post == pre && new_fx == old_fx
    } else if pre.pending_permission is Some {
        permission_key(pre, key, now, post, old_fx, new_fx)
    } else if pre.pending_question is Some {
        question_key(pre, key, now, post, old_fx, new_fx)
    } else if pre.pending_agents_update is Some {
        agents_update_key(pre, key, post, old_fx, new_fx)
    } else {
        match open_overlay(pre) {
            Some(kind) => overlay_key(pre, kind, key, ui, now, post, old_fx, new_fx),
            None => plain_key(pre, key, ui, now, post, old_fx, new_fx),
        }
    }
}

impl App {
    /// Allows a tool once and for all.
    pub fn persist_tool_grant(&mut self, tool_name: &str, fx: &mut Vec<Effect>)
        ensures
            grant_persisted(*old(self), tool_name@, *final(self), old(fx)@, final(fx)@),
    {
        let ghost before = self.config.allow_tools@;
        if !holds(&self.config.allow_tools, tool_name) {
            self.config.allow_tools.push(tool_name.to_owned());
            proof {
                assert(self.config.allow_tools@.drop_last() =~= before);
            }
            fx.push(Effect::SyncPermissionMode);
        }
        let ghost fx1 = fx@;
        fx.push(Effect::PersistToolGrant { tool: tool_name.to_owned() });
        proof {
            assert(fx@.drop_last() =~= fx1);
        }
    }

    fn close_prompt(&mut self)
        ensures
            prompt_closed(*old(self), *final(self)),
    {
        self.pending_permission = None;
        self.remove_last_permission_block();
    }

    fn go_on(&mut self)
        ensures
            *final(self) == going_on(*old(self)),
    {
        self.status_line_state.activity = Activity::Thinking;
        self.message_area_state.scroll_to_bottom();
    }

    /// Takes a key while a permission is asked for.
    pub fn handle_permission_key(&mut self, key: KeyEvent, now: u64, fx: &mut Vec<Effect>)
        ensures
            permission_key(*old(self), key, now, *final(self), old(fx)@, final(fx)@),
    {
        proof {
            reveal(permission_key);
        }
        let (tool, is_mcp) = match &self.pending_permission {
            None => {
                return;
            },
            Some(perm) => (perm.tool_name, starts_with(perm.summary.as_str(), "MCP: ")),
        };
        if key.code == KeyCode::Char('y') || key.code == KeyCode::Char('Y') {
            fx.push(Effect::ReplyPermission(PermissionReply::AllowOnce));
            self.close_prompt();
            let ghost closed = *self;
            self.go_on();
            proof {
                assert(prompt_closed(*old(self), closed));
            }
        } else if key.code == KeyCode::Char('n') || key.code == KeyCode::Char('N') || key.code
            == KeyCode::Esc {
            fx.push(Effect::ReplyPermission(PermissionReply::Deny));
            self.close_prompt();
            let ghost closed = *self;
            self.tell(false, cat2("\u{2717} denied: ", tool.as_str()));
            let ghost said = *self;
            self.go_on();
            proof {
                assert(prompt_closed(*old(self), closed));
                assert(told(closed, said, false, "\u{2717} denied: "@ + tool.name()));
            }
        } else if key.code == KeyCode::Char('a') || key.code == KeyCode::Char('A') {
            fx.push(Effect::ReplyPermission(PermissionReply::AllowAlways));
            self.close_prompt();
            let ghost closed = *self;
            self.go_on();
            if !is_mcp {
                self.persist_tool_grant(tool.as_str(), fx);
            }
            proof {
                assert(prompt_closed(*old(self), closed));
            }
        } else if key.code == KeyCode::Char('c') && key.modifiers.has_control() {
            self.cancel_stream(now, fx);
        }
    }

    fn close_question(&mut self, shown: &str)
        ensures
            question_closed(*old(self), shown@, *final(self)),
    {
        self.pending_question = None;
        self.mark_question_answered(shown);
        self.go_on();
    }

    fn reply_question(fx: &mut Vec<Effect>, text: String)
        ensures
            replied(old(fx)@, final(fx)@, text@),
    {
        let ghost fx0 = fx@;
        fx.push(Effect::ReplyQuestion(text));
        proof {
            assert(fx@.drop_last() =~= fx0);
        }
    }

    fn select_option(&mut self, selected: Option<usize>)
        requires
            old(self).pending_question is Some,
        ensures
            question_changed(
                *old(self),
                PendingQuestion { selected, ..old(self).pending_question->Some_0 },
                *final(self),
            ),
    {
        match self.pending_question.take() {
            Some(mut q) => {
                q.selected = selected;
                self.pending_question = Some(q);
            },
            None => {},
        }
        self.sync_question_block();
    }

    fn set_free_text(&mut self, text: String)
        requires
            old(self).pending_question is Some,
        ensures
            question_typed(*old(self), text@, *final(self)),
    {
        match self.pending_question.take() {
            Some(mut q) => {
                q.free_text = text;
                self.pending_question = Some(q);
            },
            None => {},
        }
        self.sync_question_block();
    }

    fn read_answer(q: &PendingQuestion) -> (r: String)
        ensures
            r@ == answer_of(*q),
    {
        match q.selected {
            Some(i) => {
                if i < q.options.len() {
                    q.options[i].clone()
                } else {
                    String::new()
                }
            },
            None => {
                if q.free_text.as_str().is_empty() {
                    "User declined to answer.".to_owned()
                } else {
                    q.free_text.clone()
                }
            },
        }
    }

    fn read_selection(q: &PendingQuestion, key: KeyEvent) -> (r: Option<Option<usize>>)
        ensures
            r == moved_selection(*q, key),
    {
        let n: usize = q.options.len();
        match key.code {
            KeyCode::Char(c) => {
                if '1' <= c && c <= '9' {
                    let i: usize = c as usize - 49;
                    if i < n {
                        Some(Some(i))
                    } else {
                        None
                    }
                } else {
                    None
                }
            },
            KeyCode::Up => match q.selected {
                Some(i) => {
                    if i > 0 {
                        Some(Some(i - 1))
                    } else {
                        None
                    }
                },
                None => None,
            },
            KeyCode::Down => match q.selected {
                Some(i) => {
                    if i < n && i + 1 < n {
                        Some(Some(i + 1))
                    } else {
                        None
                    }
                },
                None => None,
            },
            KeyCode::Tab => {
                if n == 0 {
                    None
                } else if q.selected.is_some() {
                    Some(None)
                } else {
                    Some(Some(0))
                }
            },
            _ => None,
        }
    }

    fn read_typed(q: &PendingQuestion, key: KeyEvent) -> (r: Option<String>)
        ensures
            match r {
                Some(t) => typed_text(*q, key) == Some(t@),
                None => typed_text(*q, key) is None,
            },
    {
        if q.selected.is_some() {
            return None;
        }
        match key.code {
            KeyCode::Char(c) => {
                if '1' <= c && c <= '9' {
                    None
                } else {
                    let mut t = q.free_text.clone();
                    t.push(c);
                    Some(t)
                }
            },
            KeyCode::Backspace => {
                let n: usize = q.free_text.as_str().unicode_len();
                if n == 0 {
                    Some(q.free_text.clone())
                } else {
                    let t = take_chars(q.free_text.as_str(), n - 1);
                    proof {
                        assert(t@ =~= q.free_text@.drop_last());
                    }
                    Some(t)
                }
            },
            _ => None,
        }
    }

    /// Takes a key while a question waits.
    pub fn handle_question_key(&mut self, key: KeyEvent, now: u64, fx: &mut Vec<Effect>)
        ensures
            question_key(*old(self), key, now, *final(self), old(fx)@, final(fx)@),
    {
        proof {
            reveal(question_key);
        }
        let (answer, selection, typed) = match &self.pending_question {
            None => {
                return;
            },
            Some(q) => (
                Self::read_answer(q),
                Self::read_selection(q, key),
                Self::read_typed(q, key),
            ),
        };
        if key.code == KeyCode::Char('c') && key.modifiers.has_control() {
            Self::reply_question(fx, "User cancelled.".to_owned());
            let ghost fx1 = fx@;
            self.pending_question = None;
            self.cancel_stream(now, fx);
            proof {
                assert(replied(old(fx)@, fx1, "User cancelled."@));
            }
        } else if key.code == KeyCode::Enter {
            Self::reply_question(fx, answer.clone());
            self.close_question(answer.as_str());
        } else if key.code == KeyCode::Esc {
            Self::reply_question(fx, "User declined to answer.".to_owned());
            self.close_question("(skipped)");
        } else {
            match selection {
                Some(s) => {
                    self.select_option(s);
                },
                None => match typed {
                    Some(t) => {
                        self.set_free_text(t);
                    },
                    None => {},
                },
            }
        }
    }

    fn write_update(root: &str, content: String, fx: &mut Vec<Effect>)
        ensures
            update_written(root@, content, old(fx)@, final(fx)@),
    {
        let ghost fx0 = fx@;
        let path = join_path(root, "AGENTS.md");
        fx.push(Effect::WriteAgentsFile { path, content });
        proof {
            assert(fx@.drop_last() =~= fx0);
        }
    }

    fn accept_update(&mut self, fx: &mut Vec<Effect>)
        requires
            old(self).pending_agents_update is Some,
        ensures
            *final(self) == (App { pending_agents_update: None, ..*old(self) }),
            update_written(
                old(self).project.root@,
                old(self).pending_agents_update->Some_0,
                old(fx)@,
                final(fx)@,
            ),
    {
        match self.pending_agents_update.take() {
            Some(content) => {
                Self::write_update(self.project.root.as_str(), content, fx);
            },
            None => {},
        }
    }

    /// Takes a key while a proposed AGENTS.md waits for approval.
    pub fn handle_agents_update_key(&mut self, key: KeyEvent, fx: &mut Vec<Effect>)
        ensures
            agents_update_key(*old(self), key, *final(self), old(fx)@, final(fx)@),
    {
        proof {
            reveal(agents_update_key);
        }
        if self.pending_agents_update.is_none() {
            return;
        }
        if key.code == KeyCode::Char('y') || key.code == KeyCode::Char('Y') {
            self.accept_update(fx);
        } else if (key.code == KeyCode::Char('c') && key.modifiers.has_control()) || key.code
            == KeyCode::Char('n') || key.code == KeyCode::Char('N') || key.code == KeyCode::Esc {
            self.discard_pending_agents_update();
        }
    }

    fn close_overlay(&mut self, kind: OverlayKind)
        ensures
            *final(self) == overlay_closed(*old(self), kind),
    {
        match kind {
            OverlayKind::Models => {
                self.model_picker.visible = false;
            },
            OverlayKind::Sessions => {
                self.session_picker.visible = false;
            },
            OverlayKind::Mcp => {
                self.mcp_overlay.visible = false;
            },
            OverlayKind::Diagnostics => {
                self.diagnostics_overlay.visible = false;
            },
        }
    }

    fn ask_widget(kind: OverlayKind, key: KeyEvent) -> (r: Option<Effect>)
        ensures
            r == widget_effect(kind, key),
    {
        if kind == OverlayKind::Models || kind == OverlayKind::Sessions {
            match key.code {
                KeyCode::Up => Some(Effect::PickerPrev),
                KeyCode::Down => Some(Effect::PickerNext),
                KeyCode::Backspace => Some(Effect::PickerBackspace),
                KeyCode::Char(c) => Some(Effect::PickerType(c)),
                _ => None,
            }
        } else {
            match key.code {
                KeyCode::Up => Some(Effect::OverlayScrollUp),
                KeyCode::Down => Some(Effect::OverlayScrollDown),
                KeyCode::Tab | KeyCode::Right => {
                    if kind == OverlayKind::Mcp {
                        Some(Effect::OverlayNextTab)
                    } else {
                        None
                    }
                },
                KeyCode::BackTab | KeyCode::Left => {
                    if kind == OverlayKind::Mcp {
                        Some(Effect::OverlayPrevTab)
                    } else {
                        None
                    }
                },
                _ => None,
            }
        }
    }

    fn handle_overlay_key(
        &mut self,
        kind: OverlayKind,
        key: KeyEvent,
        ui: &KeyFacts,
        now: u64,
        fx: &mut Vec<Effect>,
    )
        ensures
            overlay_key(*old(self), kind, key, *ui, now, *final(self), old(fx)@, final(fx)@),
    {
        proof {
            reveal(overlay_key);
        }
        let ghost fx0 = fx@;
        if key.code == KeyCode::Esc {
            self.close_overlay(kind);
            return;
        }
        if key.code == KeyCode::Char('c') && key.modifiers.has_control() {
            self.close_overlay(kind);
            if self.busy() {
                self.cancel_stream(now, fx);
            }
            return;
        }
        if key.code == KeyCode::Enter && kind == OverlayKind::Models {
            match &ui.picked_model {
                Some(m) => {
                    self.close_overlay(kind);
                    fx.push(Effect::Submit(cat2("/model ", m.as_str())));
                    proof {
                        assert(fx@.drop_last() =~= fx0);
                    }
                },
                None => {},
            }
            return;
        }
        if key.code == KeyCode::Enter && kind == OverlayKind::Sessions && ui.session_picked {
            self.close_overlay(kind);
            fx.push(Effect::SwitchSession);
            return;
        }
        match Self::ask_widget(kind, key) {
            Some(e) => {
                fx.push(e);
            },
            None => {},
        }
    }

    fn take_suggestion(&self, key: KeyEvent, ui: &KeyFacts, fx: &mut Vec<Effect>) -> (r: bool)
        ensures
            match suggestion_effects(*self, key, *ui, old(fx)@) {
                Some(f) => r && final(fx)@ == f,
                None => !r && final(fx)@ == old(fx)@,
            },
    {
        if !ui.autocomplete_visible || key.modifiers != KeyModifiers::Plain {
            return false;
        }
        match key.code {
            KeyCode::Enter => {
                match &ui.suggestion {
                    Some(s) => match ui.autocomplete_mode {
                        AutocompleteMode::Command => {
                            fx.push(Effect::HideAutocomplete);
                            fx.push(Effect::ClearInput);
                            if !self.is_loading {
                                fx.push(Effect::Submit(s.clone()));
                            }
                        },
                        AutocompleteMode::FileRef => {
                            fx.push(Effect::CompleteFile(s.clone()));
                            fx.push(Effect::HideAutocomplete);
                        },
                    },
                    None => {},
                }
                true
            },
            KeyCode::Tab => {
                match &ui.suggestion {
                    Some(s) => match ui.autocomplete_mode {
                        AutocompleteMode::Command => {
                            fx.push(Effect::SetInput(s.clone()));
                            fx.push(Effect::UpdateAutocomplete(s.clone()));
                        },
                        AutocompleteMode::FileRef => {
                            fx.push(Effect::CompleteFile(s.clone()));
                            fx.push(Effect::HideAutocomplete);
                        },
                    },
                    None => {},
                }
                true
            },
            KeyCode::Up => {
                fx.push(Effect::AutocompletePrev);
                true
            },
            KeyCode::Down => {
                fx.push(Effect::AutocompleteNext);
                true
            },
            KeyCode::Esc => {
                fx.push(Effect::HideAutocomplete);
                true
            },
            _ => false,
        }
    }

    fn submit_input(&self, text: &str, fx: &mut Vec<Effect>)
        ensures
            submitted(*self, text@, old(fx)@, final(fx)@),
    {
        fx.push(Effect::ClearInput);
        let ghost cleared = fx@;
        let bare = trimmed(text);
        if bare.as_str().is_empty() {
            return;
        }
        if self.is_loading {
            fx.push(Effect::Interject(bare));
        } else {
            fx.push(Effect::Submit(bare));
        }
        proof {
            assert(fx@.drop_last() =~= cleared);
        }
    }

    fn edit_input(&self, key: KeyEvent, fx: &mut Vec<Effect>)
        ensures
            final(fx)@ == edit_effects(*self, key, old(fx)@),
    {
        let editing = match key.code {
            KeyCode::Char(_) | KeyCode::Backspace | KeyCode::Delete => true,
            _ => false,
        };
        if editing {
            fx.push(Effect::ExpandPaste);
        }
        fx.push(Effect::EditInput);
        if self.file_index.is_none() {
            fx.push(Effect::BuildFileIndex);
        }
        fx.push(Effect::UpdateAutocompleteFiles);
    }

    fn scroll_by_key(&mut self, key: KeyEvent) -> (r: bool)
        ensures
            match scroll_of(*old(self), key) {
                Some((lines, up)) => r && *final(self) == (App {
                    message_area_state: if up {
                        old(self).message_area_state.scrolled_up(lines)
                    } else {
                        old(self).message_area_state.scrolled_down(lines)
                    },
                    ..*old(self)
                }),
                None => !r && *final(self) == *old(self),
            },
    {
        if key.modifiers != KeyModifiers::Plain {
            return false;
        }
        let height: usize = self.message_area_state.visible_height();
        let page: usize = if height > 0 {
            height
        } else {
            1
        };
        match key.code {
            KeyCode::Up => {
                self.message_area_state.scroll_up(1);
                true
            },
            KeyCode::Down => {
                self.message_area_state.scroll_down(1);
                true
            },
            KeyCode::PageUp => {
                self.message_area_state.scroll_up(page);
                true
            },
            KeyCode::PageDown => {
                self.message_area_state.scroll_down(page);
                true
            },
            _ => false,
        }
    }

    fn handle_plain_key(&mut self, key: KeyEvent, ui: &KeyFacts, now: u64, fx: &mut Vec<Effect>)
        ensures
            plain_key(*old(self), key, *ui, now, *final(self), old(fx)@, final(fx)@),
    {
        proof {
            reveal(plain_key);
        }
        if key.code == KeyCode::Char('c') && key.modifiers == KeyModifiers::Control {
            if self.busy() {
                self.cancel_stream(now, fx);
            } else {
                self.should_quit = true;
            }
            return;
        }
        if self.take_suggestion(key, ui, fx) {
            return;
        }
        if self.scroll_by_key(key) {
            return;
        }
        if key.code == KeyCode::Tab && key.modifiers == KeyModifiers::Plain {
            if !ui.input_text.as_str().is_empty() && ui.input_text.as_str().get_char(0) == '/' {
                fx.push(Effect::UpdateAutocomplete(ui.input_text.clone()));
            } else {
                self.mode = self.mode.toggle();
                fx.push(Effect::SyncPermissionMode);
            }
        } else if key.code == KeyCode::Char('b') && key.modifiers == KeyModifiers::Control {
            self.sidebar_override = match self.sidebar_override {
                None => Some(false),
                Some(false) => Some(true),
                Some(true) => None,
            };
        } else if key.code == KeyCode::Char('p') && key.modifiers == KeyModifiers::Control {
            if ui.paste_collapsed {
                fx.push(Effect::TogglePastePreview);
            }
        } else if key.code == KeyCode::Enter && key.modifiers == KeyModifiers::Shift {
            fx.push(Effect::ExpandPaste);
            fx.push(Effect::InsertNewline);
        } else if key.code == KeyCode::Enter && key.modifiers == KeyModifiers::Plain {
            self.submit_input(ui.full_text.as_str(), fx);
        } else {
            self.edit_input(key, fx);
        }
    }

    fn find_open_overlay(&self) -> (r: Option<OverlayKind>)
        ensures
            r == open_overlay(*self),
    {
        if self.model_picker.visible {
            Some(OverlayKind::Models)
        } else if self.session_picker.visible {
            Some(OverlayKind::Sessions)
        } else if self.mcp_overlay.visible {
            Some(OverlayKind::Mcp)
        } else if self.diagnostics_overlay.visible {
            Some(OverlayKind::Diagnostics)
        } else {
            None
        }
    }

    /// Takes a key.
    pub fn handle_key(&mut self, key: KeyEvent, ui: &KeyFacts, now: u64, fx: &mut Vec<Effect>)
        ensures
            key_handled(*old(self), key, *ui, now, *final(self), old(fx)@, final(fx)@),
    {
        if !key.pressed {
            return;
        }
        if self.pending_permission.is_some() {
            self.handle_permission_key(key, now, fx);
        } else if self.pending_question.is_some() {
            self.handle_question_key(key, now, fx);
        } else if self.pending_agents_update.is_some() {
            self.handle_agents_update_key(key, fx);
        } else {
            match self.find_open_overlay() {
                Some(kind) => {
                    self.handle_overlay_key(kind, key, ui, now, fx);
                },
                None => {
                    self.handle_plain_key(key, ui, now, fx);
                },
            }
        }
    }

    /// Takes over an AGENTS.md that was written, or tells the user why it was not.
    pub fn agents_file_written(
        &mut self,
        path: String,
        content: String,
        result: Result<(), String>,
    )
        ensures
            match result {
                Ok(_) => exists|with: App, said: App|
                    {
                        &&& #[trigger] agents_replaced(*old(self), path, content, with)
                        &&& #[trigger] told(with, said, false, "AGENTS.md updated at "@ + path@)
                        &&& *final(self) == scrolled_to_bottom(said)
                    },
                Err(e) => exists|said: App|
                    {
                        &&& #[trigger] told(
                            *old(self),
                            said,
                            true,
                            "Failed to write AGENTS.md: "@ + e@,
                        )
                        &&& *final(self) == scrolled_to_bottom(said)
                    },
            },
    {
        match result {
            Ok(_) => {
                let text = cat2("AGENTS.md updated at ", path.as_str());
                self.replace_agents(path, content);
                let ghost with = *self;
                self.tell(false, text);
                let ghost said = *self;
                self.message_area_state.scroll_to_bottom();
                proof {
                    assert(agents_replaced(*old(self), path, content, with));
                    assert(told(with, said, false, "AGENTS.md updated at "@ + path@));
                }
            },
            Err(e) => {
                self.tell(true, cat2("Failed to write AGENTS.md: ", e.as_str()));
                let ghost said = *self;
                self.message_area_state.scroll_to_bottom();
                proof {
                    assert(told(*old(self), said, true, "Failed to write AGENTS.md: "@ + e@));
                }
            },
        }
    }

    fn replace_agents(&mut self, path: String, content: String)
        ensures
            agents_replaced(*old(self), path, content, *final(self)),
    {
        let ghost before = self.agents_files@;
        let mut i: usize = 0;
        while i < self.agents_files.len()
            invariant
                i <= before.len(),
                self.agents_files@ == before,
                *self == *old(self),
                before == old(self).agents_files@,
                forall|k: int|
                    0 <= k < i ==> parts((#[trigger] before[k]).path@) != parts(path@),
            decreases before.len() - i,
        {
            if same_path(self.agents_files[i].path.as_str(), path.as_str()) {
                self.agents_files[i].content = content;
                proof {
                    assert(self.agents_files@ =~= before.update(
                        i as int,
                        AgentsFile { path: before[i as int].path, content },
                    ));
                    assert(agents_at(before, path@, i as int));
                }
                return;
            }
            i = i + 1;
        }
        self.agents_files.insert(0, AgentsFile { path, content });
        proof {
            assert(self.agents_files@ =~= seq![AgentsFile { path, content }] + before);
            assert forall|k: int| !agents_at(before, path@, k) by {
                if 0 <= k < before.len() {
                    assert(parts(before[k].path@) != parts(path@));
                }
            }
        }
    }
}

/// Whether the first of `files` that lies at `path` stands at `i`.
pub open spec fn agents_at(files: Seq<AgentsFile>, path: Seq<char>, i: int) -> bool {
    &&& 0 <= i < files.len()
    &&& parts(files[i].path@) == parts(path)
    &&& forall|k: int| 0 <= k < i ==> parts((#[trigger] files[k]).path@) != parts(path)
}

/// The application with the content of the file at `path` replaced, or with
/// the file before all others where it is new.
pub open spec fn agents_replaced(pre: App, path: String, content: String, post: App) -> bool {
    &&& post == (App { agents_files: post.agents_files, ..pre })
    &&& if exists|i: int| agents_at(pre.agents_files@, path@, i) {
        exists|i: int|
            {
                &&& #[trigger] agents_at(pre.agents_files@, path@, i)
                &&& post.agents_files@ == pre.agents_files@.update(
                    i,
                    AgentsFile { path: pre.agents_files@[i].path, content },
                )
            }
    } else {
        post.agents_files@ == seq![AgentsFile { path, content }] + pre.agents_files@
    }
}

proof fn lemma_permission_key(
    pre: App,
    key: KeyEvent,
    now: u64,
    post: App,
    old_fx: Seq<Effect>,
    new_fx: Seq<Effect>,
)
    requires
        pre.wf(),
        permission_key(pre, key, now, post, old_fx, new_fx),
    ensures
        post.wf(),
{
    reveal(permission_key);
}

proof fn lemma_question_key(
    pre: App,
    key: KeyEvent,
    now: u64,
    post: App,
    old_fx: Seq<Effect>,
    new_fx: Seq<Effect>,
)
    requires
        pre.wf(),
        question_key(pre, key, now, post, old_fx, new_fx),
    ensures
        post.wf(),
{
    reveal(question_key);
}

proof fn lemma_agents_update_key(
    pre: App,
    key: KeyEvent,
    post: App,
    old_fx: Seq<Effect>,
    new_fx: Seq<Effect>,
)
    requires
        pre.wf(),
        agents_update_key(pre, key, post, old_fx, new_fx),
    ensures
        post.wf(),
{
    reveal(agents_update_key);
}

proof fn lemma_overlay_key(
    pre: App,
    kind: OverlayKind,
    key: KeyEvent,
    ui: KeyFacts,
    now: u64,
    post: App,
    old_fx: Seq<Effect>,
    new_fx: Seq<Effect>,
)
    requires
        pre.wf(),
        overlay_key(pre, kind, key, ui, now, post, old_fx, new_fx),
    ensures
        post.wf(),
{
    reveal(overlay_key);
}

proof fn lemma_plain_key(
    pre: App,
    key: KeyEvent,
    ui: KeyFacts,
    now: u64,
    post: App,
    old_fx: Seq<Effect>,
    new_fx: Seq<Effect>,
)
    requires
        pre.wf(),
        plain_key(pre, key, ui, now, post, old_fx, new_fx),
    ensures
        post.wf(),
{
    reveal(plain_key);
}

/// No key breaks the invariant of the application.
pub proof fn keys_keep_invariant(
    pre: App,
    key: KeyEvent,
    ui: KeyFacts,
    now: u64,
    post: App,
    old_fx: Seq<Effect>,
    new_fx: Seq<Effect>,
)
    requires
        pre.wf(),
        key_handled(pre, key, ui, now, post, old_fx, new_fx),
    ensures
        post.wf(),
{
    if !key.pressed {
    } else if pre.pending_permission is Some {
        lemma_permission_key(pre, key, now, post, old_fx, new_fx);
    } else if pre.pending_question is Some {
        lemma_question_key(pre, key, now, post, old_fx, new_fx);
    } else if pre.pending_agents_update is Some {
        lemma_agents_update_key(pre, key, post, old_fx, new_fx);
    } else {
        match open_overlay(pre) {
            Some(kind) => {
                lemma_overlay_key(pre, kind, key, ui, now, post, old_fx, new_fx);
            },
            None => {
                lemma_plain_key(pre, key, ui, now, post, old_fx, new_fx);
            },
        }
    }
}

} // verus!
