//! The small steps that the handlers of commands, keys and events are made of.
use crate::blocks::{pushed, AssistantPart, MessageBlock, ToolCall};
use crate::effects::{replied, Effect, PermissionReply};
use crate::message::{Message, Role};
use crate::providers::{after_slash, before_slash, ProviderError, ResolvedModel};
use crate::state::{Activity, App, Overlay, PendingQuestion, StatusLineState};
use crate::text::{cat2, holds, skip_chars, starts_with, views};
use crate::tool::ToolName;
use vstd::prelude::*;
use vstd::string::*;

verus! {

/// Kinds of blocks that are looked for from the end.
#[derive(Clone, Copy, Debug, PartialEq, Eq, Structural)]
pub enum BlockKind {
    Assistant,
    Permission,
    OpenQuestion,
}

/// Whether a block is of the kind.
pub open spec fn is_kind(block: MessageBlock, kind: BlockKind) -> bool {
    match kind {
        BlockKind::Assistant => block is Assistant,
        BlockKind::Permission => block is Permission,
        BlockKind::OpenQuestion => block.is_unanswered(),
    }
}

/// The index of the last block of the kind.
pub open spec fn last_of(blocks: Seq<MessageBlock>, kind: BlockKind) -> Option<int>
    decreases blocks.len(),
{
    if blocks.len() == 0 {
        None
    } else if is_kind(blocks.last(), kind) {
        Some(blocks.len() - 1)
    } else {
        last_of(blocks.drop_last(), kind)
    }
}

/// The last block of a kind is of that kind, and none after it is.
pub proof fn lemma_last_of(blocks: Seq<MessageBlock>, kind: BlockKind)
    ensures
        match last_of(blocks, kind) {
            Some(i) => 0 <= i < blocks.len() && is_kind(blocks[i], kind) && forall|k: int|
                i < k < blocks.len() ==> !is_kind(#[trigger] blocks[k], kind),
            None => forall|k: int|
                0 <= k < blocks.len() ==> !is_kind(#[trigger] blocks[k], kind),
        },
    decreases blocks.len(),
{
    if blocks.len() > 0 && !is_kind(blocks.last(), kind) {
        lemma_last_of(blocks.drop_last(), kind);
        assert forall|k: int| 0 <= k < blocks.len() - 1 implies blocks.drop_last()[k]
            == #[trigger] blocks[k] by {}
    }
}

/// The index of the last block of the kind.
pub fn find_last(blocks: &Vec<MessageBlock>, kind: BlockKind) -> (r: Option<usize>)
    ensures
        match r {
            Some(i) => last_of(blocks@, kind) == Some(i as int) && i < blocks@.len() && is_kind(
                blocks@[i as int],
                kind,
            ),
            None => last_of(blocks@, kind) is None,
        },
{
    let mut n: usize = blocks.len();
    proof {
        assert(blocks@.take(n as int) =~= blocks@);
    }
    while n > 0
        invariant
            n <= blocks@.len(),
            last_of(blocks@, kind) == last_of(blocks@.take(n as int), kind),
        decreases n,
    {
        proof {
            assert(blocks@.take(n as int).last() == blocks@[n - 1]);
            assert(blocks@.take(n as int).drop_last() =~= blocks@.take(n - 1));
        }
        let found = match kind {
            BlockKind::Assistant => blocks[n - 1].is_assistant(),
            BlockKind::Permission => match &blocks[n - 1] {
                MessageBlock::Permission { .. } => true,
                _ => false,
            },
            BlockKind::OpenQuestion => blocks[n - 1].is_unanswered_question(),
        };
        if found {
            return Some(n - 1);
        }
        n = n - 1;
    }
    None
}

/// What was found out about the files that a text refers to. `resolved` are
/// the references that name a file; the two texts are what is shown and what
/// is sent where there is at least one of them.
#[derive(Debug, PartialEq, Eq)]
pub struct FileRefs {
    pub paths: Vec<String>,
    pub resolved: Vec<String>,
    pub display_text: String,
    pub api_text: String,
}

/// Those of `paths` that are not among `resolved`.
pub open spec fn unresolved(paths: Seq<Seq<char>>, resolved: Seq<Seq<char>>) -> Seq<Seq<char>>
    decreases paths.len(),
{
    if paths.len() == 0 {
        Seq::empty()
    } else if resolved.contains(paths.last()) {
        unresolved(paths.drop_last(), resolved)
    } else {
        unresolved(paths.drop_last(), resolved).push(paths.last())
    }
}

/// Whether `new_blocks` is `old_blocks` and then one note on each of `paths`.
pub open spec fn notes_on(
    old_blocks: Seq<MessageBlock>,
    new_blocks: Seq<MessageBlock>,
    paths: Seq<Seq<char>>,
) -> bool {
    &&& new_blocks.len() == old_blocks.len() + paths.len()
    &&& new_blocks.take(old_blocks.len() as int) == old_blocks
    &&& forall|i: int|
        0 <= i < paths.len() ==> (#[trigger] new_blocks[old_blocks.len() + i]).is_system_text(
            "Could not resolve file: "@ + paths[i],
        )
}

/// `post` is `pre` with a note on each file of `refs` that was not found.
pub open spec fn refs_noted(pre: App, refs: FileRefs, post: App) -> bool {
    &&& post == (App { messages: post.messages, ..pre })
    &&& notes_on(
        pre.messages@,
        post.messages@,
        unresolved(views(refs.paths@), views(refs.resolved@)),
    )
}

/// What is shown of a text with references.
pub open spec fn shown_text(text: Seq<char>, refs: FileRefs) -> Seq<char> {
    if refs.resolved@.len() == 0 {
        text
    } else {
        refs.display_text@
    }
}

/// What is sent of a text with references.
pub open spec fn sent_text(text: Seq<char>, refs: FileRefs) -> Seq<char> {
    if refs.resolved@.len() == 0 {
        text
    } else {
        refs.api_text@
    }
}

/// The blocks without a blank assistant block at their end.
pub open spec fn without_blank_tail(blocks: Seq<MessageBlock>) -> Seq<MessageBlock> {
    if blocks.len() > 0 && blocks.last().is_blank() {
        blocks.drop_last()
    } else {
        blocks
    }
}

/// The last of `calls` of `tool` that has its result.
pub open spec fn last_done(calls: Seq<ToolCall>, tool: ToolName) -> Option<ToolCall>
    decreases calls.len(),
{
    if calls.len() == 0 {
        None
    } else if calls.last().tool_name == tool && calls.last().result_summary is Some {
        Some(calls.last())
    } else {
        last_done(calls.drop_last(), tool)
    }
}

/// The last call of `tool` in `parts` that has its result.
pub open spec fn last_done_in(parts: Seq<AssistantPart>, tool: ToolName) -> Option<ToolCall>
    decreases parts.len(),
{
    if parts.len() == 0 {
        None
    } else {
        match parts.last() {
            AssistantPart::ToolGroup(g) => match last_done(g.calls@, tool) {
                Some(c) => Some(c),
                None => last_done_in(parts.drop_last(), tool),
            },
            AssistantPart::Text(_) => last_done_in(parts.drop_last(), tool),
        }
    }
}

/// `path` without `root` and the slash behind it; `path` as it is where it
/// does not lie under `root`.
pub open spec fn relative_to(root: Seq<char>, path: Seq<char>) -> Seq<char> {
    if root.is_prefix_of(path) {
        let rest = path.skip(root.len() as int);
        if rest.len() == 0 {
            rest
        } else if rest[0] == '/' {
            rest.skip(1)
        } else {
            path
        }
    } else {
        path
    }
}

/// `path` without `root` and the slash behind it; `path` as it is where it
/// does not lie under `root`.
pub fn strip_root(root: &str, path: &str) -> (r: String)
    ensures
        r@ == relative_to(root@, path@),
{
    if starts_with(path, root) {
        let n: usize = root.unicode_len();
        let rest = skip_chars(path, n);
        if rest.as_str().is_empty() {
            rest
        } else if rest.as_str().get_char(0) == '/' {
            skip_chars(rest.as_str(), 1)
        } else {
            path.to_owned()
        }
    } else {
        path.to_owned()
    }
}

/// How long something took that began at `start`, where it is `now`.
pub open spec fn elapsed(start: u64, now: u64) -> u64 {
    if now >= start {
        (now - start) as u64
    } else {
        0
    }
}

/// The elapsed time that is kept when a conversation ends.
pub open spec fn frozen_at(app: App, now: u64) -> Option<u64> {
    match app.stream_start_time {
        Some(start) => Some(elapsed(start, now)),
        None => app.frozen_elapsed,
    }
}

/// A line of the status line with another activity.
pub open spec fn with_activity(s: StatusLineState, activity: Activity) -> StatusLineState {
    StatusLineState { activity, ..s }
}

/// What cancelling `pre` asks of the world outside: the conversation is
/// stopped, a permission prompt is denied, a question is answered as cancelled.
pub open spec fn cancel_effects(pre: App, old_fx: Seq<Effect>, new_fx: Seq<Effect>) -> bool {
    let stopped = if pre.stream_cancel {
        old_fx.push(Effect::CancelStream)
    } else {
        old_fx
    };
    let denied = if pre.pending_permission is Some {
        stopped.push(Effect::ReplyPermission(PermissionReply::Deny))
    } else {
        stopped
    };
    if pre.pending_question is Some {
        replied(denied, new_fx, "User cancelled."@)
    } else {
        new_fx == denied
    }
}

/// The application after `pre` was cancelled at `now`.
pub open spec fn cancelled(pre: App, now: u64, post: App) -> bool {
    &&& post == (App {
        stream_cancel: false,
        pending_permission: None,
        pending_question: None,
        frozen_elapsed: frozen_at(pre, now),
        is_loading: false,
        streaming_active: false,
        interjection_tx: false,
        streaming_message: None,
        messages: post.messages,
        status_line_state: with_activity(pre.status_line_state, Activity::Idle),
        message_area_state: pre.message_area_state.at_bottom(),
        ..pre
    })
    &&& pushed(without_blank_tail(pre.messages@), post.messages@)
    &&& post.messages@.last().is_system_text("cancelled"@)
}

/// Why no client could be had for `model_ref`, as the user is told.
pub open spec fn client_error(app: App, model_ref: Seq<char>) -> Option<Seq<char>> {
    match app.provider_registry {
        None => Some("No provider configured."@),
        Some(registry) => match registry.lookup(model_ref) {
            Err(e) => Some("Failed to resolve model: "@ + e.message()),
            Ok(_) => if registry.has_client(before_slash(model_ref)) {
                None
            } else {
                Some(ProviderError::NoClient.message())
            },
        },
    }
}

/// Whether `m` is what `model_ref` names.
pub open spec fn resolves_to(app: App, model_ref: Seq<char>, m: ResolvedModel) -> bool {
    &&& app.provider_registry matches Some(registry)
    &&& registry.lookup(model_ref) matches Ok(c)
    &&& m.provider_id@ == before_slash(model_ref)
    &&& m.model_id@ == after_slash(model_ref)
    &&& m.api_model_id@ == c.id@
    &&& m.context_window == c.context_window
}

/// The question block after the pending question was copied into it.
pub open spec fn block_shows(block: MessageBlock, before: MessageBlock, q: PendingQuestion) -> bool {
    &&& block is Question
    &&& before is Question
    &&& block->question == before->question
    &&& block->options == before->options
    &&& block->answered == before->answered
    &&& block->selected == q.selected
    &&& block->free_text@ == q.free_text@
}

/// The blocks after the pending question `q` was shown in the last question
/// that is not answered.
pub open spec fn question_shown(
    old_blocks: Seq<MessageBlock>,
    new_blocks: Seq<MessageBlock>,
    q: PendingQuestion,
) -> bool {
    match last_of(old_blocks, BlockKind::OpenQuestion) {
        Some(i) => {
            &&& new_blocks == old_blocks.update(i, new_blocks[i])
            &&& block_shows(new_blocks[i], old_blocks[i], q)
        },
        None => new_blocks == old_blocks,
    }
}

/// The blocks after the last question that was not answered got `answer`.
pub open spec fn question_answered(
    old_blocks: Seq<MessageBlock>,
    new_blocks: Seq<MessageBlock>,
    answer: Seq<char>,
) -> bool {
    match last_of(old_blocks, BlockKind::OpenQuestion) {
        Some(i) => {
            &&& new_blocks == old_blocks.update(i, new_blocks[i])
            &&& new_blocks[i] is Question
            &&& new_blocks[i]->question == old_blocks[i]->question
            &&& new_blocks[i]->options == old_blocks[i]->options
            &&& new_blocks[i]->selected == old_blocks[i]->selected
            &&& new_blocks[i]->free_text == old_blocks[i]->free_text
            &&& new_blocks[i]->answered matches Some(a)
            &&& a@ == answer
        },
        None => new_blocks == old_blocks,
    }
}

/// The blocks without the last permission prompt.
pub open spec fn without_permission(blocks: Seq<MessageBlock>) -> Seq<MessageBlock> {
    match last_of(blocks, BlockKind::Permission) {
        Some(i) => blocks.remove(i),
        None => blocks,
    }
}

/// What handing `api_text` to the conversation and showing `display_text` does.
pub open spec fn delivered(
    pre: App,
    display_text: Seq<char>,
    api_text: Seq<char>,
    post: App,
    old_fx: Seq<Effect>,
    new_fx: Seq<Effect>,
) -> bool {
    &&& post == (App {
        messages: post.messages,
        stored_messages: post.stored_messages,
        message_area_state: pre.message_area_state.at_bottom(),
        ..pre
    })
    &&& pushed(pre.messages@, post.messages@)
    &&& post.messages@.last().is_user_text(display_text)
    &&& match pre.current_session {
        Some(session) => {
            &&& pushed(pre.stored_messages@, post.stored_messages@)
            &&& post.stored_messages@.last().is(session.id@, Role::User, api_text)
            &&& new_fx.len() == old_fx.len() + 2
            &&& new_fx.take(old_fx.len() as int) == old_fx
            &&& new_fx[old_fx.len() as int] matches Effect::SendInterjection(t)
            &&& t@ == api_text
            &&& new_fx.last() == Effect::SaveMessage(post.stored_messages@.last())
        },
        None => {
            &&& post.stored_messages@ == pre.stored_messages@
            &&& pushed(old_fx, new_fx)
            &&& new_fx.last() matches Effect::SendInterjection(t)
            &&& t@ == api_text
        },
    }
}

/// What an interjection of `text` does. Commands and texts that nobody waits
/// for are dropped; where the conversation has just ended, only the notes on
/// files that were not found remain.
pub open spec fn interjected(
    pre: App,
    text: Seq<char>,
    refs: FileRefs,
    channel_open: bool,
    post: App,
    old_fx: Seq<Effect>,
    new_fx: Seq<Effect>,
) -> bool {
    if (text.len() > 0 && text[0] == '/') || !pre.interjection_tx {
        post == pre && new_fx == old_fx
    } else {
        exists|noted: App|
            {
                &&& #[trigger] refs_noted(pre, refs, noted)
                &&& if channel_open {
                    delivered(
                        noted,
                        shown_text(text, refs),
                        sent_text(text, refs),
                        post,
                        old_fx,
                        new_fx,
                    )
                } else {
                    post == noted && new_fx == old_fx
                }
            }
    }
}

impl App {
    /// Adds a note of the application.
    pub fn say(&mut self, text: String)
        ensures
            *final(self) == (App { messages: final(self).messages, ..*old(self) }),
            pushed(old(self).messages@, final(self).messages@),
            final(self).messages@.last().is_system_text(text@),
    {
        let ghost before = self.messages@;
        self.messages.push(MessageBlock::System { text });
        proof {
            assert(self.messages@.drop_last() =~= before);
        }
    }

    /// Adds an error.
    pub fn complain(&mut self, text: String)
        ensures
            *final(self) == (App { messages: final(self).messages, ..*old(self) }),
            pushed(old(self).messages@, final(self).messages@),
            final(self).messages@.last().is_error_text(text@),
    {
        let ghost before = self.messages@;
        self.messages.push(MessageBlock::Error { text });
        proof {
            assert(self.messages@.drop_last() =~= before);
        }
    }

    /// Closes the overlays that exclude each other.
    pub fn close_all_overlays(&mut self)
        ensures
            *final(self) == (App {
                model_picker: Overlay { visible: false },
                session_picker: Overlay { visible: false },
                diagnostics_overlay: Overlay { visible: false },
                mcp_overlay: Overlay { visible: false },
                ..*old(self)
            }),
            final(self).one_overlay(),
    {
        self.model_picker.visible = false;
        self.session_picker.visible = false;
        self.diagnostics_overlay.visible = false;
        self.mcp_overlay.visible = false;
    }

    /// The model that `model_ref` names; where it or its client cannot be had,
    /// the user is told why.
    pub fn resolve_client(&mut self, model_ref: &str) -> (r: Option<ResolvedModel>)
        ensures
            match r {
                Some(m) => {
                    &&& client_error(*old(self), model_ref@) is None
                    &&& resolves_to(*old(self), model_ref@, m)
                    &&& *final(self) == *old(self)
                },
                None => {
                    &&& client_error(*old(self), model_ref@) matches Some(e)
                    &&& *final(self) == (App { messages: final(self).messages, ..*old(self) })
                    &&& pushed(old(self).messages@, final(self).messages@)
                    &&& final(self).messages@.last().is_error_text(e)
                },
            },
    {
        let outcome = match &self.provider_registry {
            None => Err("No provider configured.".to_owned()),
            Some(registry) => match registry.resolve_model(model_ref) {
                Err(e) => Err(cat2("Failed to resolve model: ", e.text())),
                Ok(m) => match registry.client(m.provider_id.as_str()) {
                    Ok(_) => Ok(m),
                    Err(e) => Err(e.text().to_owned()),
                },
            },
        };
        match outcome {
            Ok(m) => Some(m),
            Err(text) => {
                self.complain(text);
                None
            },
        }
    }

    /// What is left to do when a conversation with the model has ended.
    pub fn finish_stream(&mut self, now: u64)
        ensures
            *final(self) == (App {
                frozen_elapsed: frozen_at(*old(self), now),
                is_loading: false,
                streaming_active: false,
                stream_cancel: false,
                interjection_tx: false,
                status_line_state: with_activity(old(self).status_line_state, Activity::Idle),
                ..*old(self)
            }),
    {
        match self.stream_start_time {
            Some(start) => {
                self.frozen_elapsed = Some(now.saturating_sub(start));
            },
            None => {},
        }
        self.is_loading = false;
        self.streaming_active = false;
        self.stream_cancel = false;
        self.interjection_tx = false;
        self.status_line_state.activity = Activity::Idle;
    }

    /// Tells the user of each file that was not found, and gives what is shown
    /// of the text and what is sent of it.
    pub fn resolve_file_refs(&mut self, text: &str, refs: &FileRefs) -> (r: (String, String))
        ensures
            refs_noted(*old(self), *refs, *final(self)),
            r.0@ == shown_text(text@, *refs),
            r.1@ == sent_text(text@, *refs),
    {
        let ghost start = *self;
        let ghost known = views(refs.resolved@);
        let mut i: usize = 0;
        proof {
            assert(self.messages@.take(self.messages@.len() as int) =~= self.messages@);
        }
        while i < refs.paths.len()
            invariant
                i <= refs.paths@.len(),
                known == views(refs.resolved@),
                *self == (App { messages: self.messages, ..start }),
                notes_on(
                    start.messages@,
                    self.messages@,
                    unresolved(views(refs.paths@).take(i as int), known),
                ),
            decreases refs.paths@.len() - i,
        {
            let ghost all = views(refs.paths@);
            let ghost said = unresolved(all.take(i as int), known);
            let ghost before = self.messages@;
            proof {
                assert(all.take(i + 1).drop_last() =~= all.take(i as int));
                assert(all.take(i + 1).last() == refs.paths@[i as int]@);
            }
            if !holds(&refs.resolved, refs.paths[i].as_str()) {
                self.say(cat2("Could not resolve file: ", refs.paths[i].as_str()));
                proof {
                    let n = start.messages@.len();
                    let now = self.messages@;
                    assert(now.take(n as int) =~= before.take(n as int)) by {
                        assert(now.drop_last() == before);
                        assert forall|k: int| 0 <= k < n implies now[k] == before[k] by {
                            assert(now.drop_last()[k] == before[k]);
                        }
                    }
                    let more = said.push(all[i as int]);
                    assert forall|k: int| 0 <= k < more.len() implies (#[trigger] now[n
                        + k]).is_system_text("Could not resolve file: "@ + more[k]) by {
                        if k < said.len() {
                            assert(now.drop_last()[n + k] == before[n + k]);
                        }
                    }
                }
            }
            i = i + 1;
        }
        proof {
            assert(views(refs.paths@).take(refs.paths@.len() as int) =~= views(refs.paths@));
        }
        if refs.resolved.len() == 0 {
            (text.to_owned(), text.to_owned())
        } else {
            (refs.display_text.clone(), refs.api_text.clone())
        }
    }

    /// The last block of the assistant.
    pub fn last_assistant_mut(&mut self) -> (r: Option<&mut MessageBlock>)
        ensures
            match r {
                Some(block) => {
                    &&& last_of(old(self).messages@, BlockKind::Assistant) matches Some(i)
                    &&& 0 <= i < old(self).messages@.len()
                    &&& *block == old(self).messages@[i]
                    &&& *block is Assistant
                    &&& *final(self) == (App { messages: final(self).messages, ..*old(self) })
                    &&& final(self).messages@ == old(self).messages@.update(i, *final(block))
                },
                None => {
                    &&& last_of(old(self).messages@, BlockKind::Assistant) is None
                    &&& *final(self) == *old(self)
                },
            },
    {
        match find_last(&self.messages, BlockKind::Assistant) {
            Some(i) => Some(&mut self.messages[i]),
            None => None,
        }
    }

    /// Removes the last permission prompt from the message area.
    pub fn remove_last_permission_block(&mut self)
        ensures
            *final(self) == (App { messages: final(self).messages, ..*old(self) }),
            final(self).messages@ == without_permission(old(self).messages@),
    {
        match find_last(&self.messages, BlockKind::Permission) {
            Some(i) => {
                self.messages.remove(i);
            },
            None => {},
        }
    }

    /// Shows the state of the pending question in its block.
    pub fn sync_question_block(&mut self)
        ensures
            *final(self) == (App { messages: final(self).messages, ..*old(self) }),
            match old(self).pending_question {
                Some(q) => question_shown(old(self).messages@, final(self).messages@, q),
                None => final(self).messages@ == old(self).messages@,
            },
    {
        match &self.pending_question {
            Some(q) => {
                match find_last(&self.messages, BlockKind::OpenQuestion) {
                    Some(i) => {
                        let ghost before = self.messages@;
                        match &mut self.messages[i] {
                            MessageBlock::Question { selected, free_text, .. } => {
                                *selected = q.selected;
                                *free_text = q.free_text.clone();
                            },
                            _ => {},
                        }
                        proof {
                            assert(self.messages@ =~= before.update(
                                i as int,
                                self.messages@[i as int],
                            ));
                        }
                    },
                    None => {},
                }
            },
            None => {},
        }
    }

    /// Marks the last question that is not answered as answered.
    pub fn mark_question_answered(&mut self, answer: &str)
        ensures
            *final(self) == (App { messages: final(self).messages, ..*old(self) }),
            question_answered(old(self).messages@, final(self).messages@, answer@),
    {
        match find_last(&self.messages, BlockKind::OpenQuestion) {
            Some(i) => {
                let ghost before = self.messages@;
                match &mut self.messages[i] {
                    MessageBlock::Question { answered, .. } => {
                        *answered = Some(answer.to_owned());
                    },
                    _ => {},
                }
                proof {
                    assert(self.messages@ =~= before.update(i as int, self.messages@[i as int]));
                }
            },
            None => {},
        }
    }

    /// Keeps the list of the project's files, unless there is one already.
    pub fn set_file_index(&mut self, files: Vec<String>)
        ensures
            *final(self) == (App {
                file_index: if old(self).file_index is Some {
                    old(self).file_index
                } else {
                    Some(files)
                },
                ..*old(self)
            }),
    {
        if self.file_index.is_none() {
            self.file_index = Some(files);
        }
    }

    /// Drops the list of the project's files.
    pub fn invalidate_file_index(&mut self)
        ensures
            *final(self) == (App { file_index: None, ..*old(self) }),
    {
        self.file_index = None;
    }

    /// Drops a proposed AGENTS.md and tells the user.
    pub fn discard_pending_agents_update(&mut self)
        ensures
            *final(self) == (App {
                pending_agents_update: None,
                messages: final(self).messages,
                message_area_state: old(self).message_area_state.at_bottom(),
                ..*old(self)
            }),
            pushed(old(self).messages@, final(self).messages@),
            final(self).messages@.last().is_system_text("AGENTS.md update discarded."@),
    {
        self.pending_agents_update = None;
        self.say("AGENTS.md update discarded.".to_owned());
        self.message_area_state.scroll_to_bottom();
    }

    fn announce_cancel(&self, fx: &mut Vec<Effect>)
        ensures
            cancel_effects(*self, old(fx)@, final(fx)@),
    {
        if self.stream_cancel {
            fx.push(Effect::CancelStream);
        }
        if self.pending_permission.is_some() {
            fx.push(Effect::ReplyPermission(PermissionReply::Deny));
        }
        if self.pending_question.is_some() {
            let ghost before = fx@;
            fx.push(Effect::ReplyQuestion("User cancelled.".to_owned()));
            proof {
                assert(fx@.drop_last() =~= before);
            }
        }
    }

    /// Cancels what is under way.
    pub fn cancel_stream(&mut self, now: u64, fx: &mut Vec<Effect>)
        ensures
            cancelled(*old(self), now, *final(self)),
            cancel_effects(*old(self), old(fx)@, final(fx)@),
            old(self).wf() ==> final(self).wf(),
    {
        self.announce_cancel(fx);
        self.stream_cancel = false;
        self.pending_permission = None;
        self.pending_question = None;
        match self.stream_start_time {
            Some(start) => {
                self.frozen_elapsed = Some(now.saturating_sub(start));
            },
            None => {},
        }
        self.is_loading = false;
        self.streaming_active = false;
        self.interjection_tx = false;
        self.streaming_message = None;
        self.drop_blank_tail();
        self.say("cancelled".to_owned());
        self.status_line_state.activity = Activity::Idle;
        self.message_area_state.scroll_to_bottom();
    }

    /// Removes a blank block of the assistant from the end.
    pub fn drop_blank_tail(&mut self)
        ensures
            *final(self) == (App { messages: final(self).messages, ..*old(self) }),
            final(self).messages@ == without_blank_tail(old(self).messages@),
    {
        let n: usize = self.messages.len();
        if n > 0 && self.messages[n - 1].is_empty_assistant() {
            self.messages.pop();
            proof {
                assert(self.messages@ =~= old(self).messages@.drop_last());
            }
        }
    }

    fn deliver(&mut self, display_text: String, api_text: String, fx: &mut Vec<Effect>)
        ensures
            delivered(
                *old(self),
                display_text@,
                api_text@,
                *final(self),
                old(fx)@,
                final(fx)@,
            ),
    {
        let ghost fx0 = fx@;
        let ghost noted = self.messages@;
        let ghost stored = self.stored_messages@;
        fx.push(Effect::SendInterjection(api_text.clone()));
        match &self.current_session {
            Some(session) => {
                let user_msg = Message::user(session.id.as_str(), api_text.as_str());
                fx.push(Effect::SaveMessage(user_msg.clone()));
                self.stored_messages.push(user_msg);
                proof {
                    assert(self.stored_messages@.drop_last() =~= stored);
                    assert(fx@.take(fx0.len() as int) =~= fx0);
                }
            },
            None => {
                proof {
                    assert(fx@.drop_last() =~= fx0);
                }
            },
        }
        self.messages.push(MessageBlock::User { text: display_text });
        proof {
            assert(self.messages@.drop_last() =~= noted);
        }
        self.message_area_state.scroll_to_bottom();
    }

    /// Hands a text of the user to the conversation that is under way.
    pub fn handle_interjection(
        &mut self,
        text: &str,
        refs: &FileRefs,
        channel_open: bool,
        fx: &mut Vec<Effect>,
    )
        ensures
            interjected(
                *old(self),
                text@,
                *refs,
                channel_open,
                *final(self),
                old(fx)@,
                final(fx)@,
            ),
            old(self).wf() ==> final(self).wf(),
    {
        if !text.is_empty() && text.get_char(0) == '/' {
            return;
        }
        if !self.interjection_tx {
            return;
        }
        let (display_text, api_text) = self.resolve_file_refs(text, refs);
        let ghost noted = *self;
        if !channel_open {
            proof {
                assert(refs_noted(*old(self), *refs, noted));
            }
            return;
        }
        self.deliver(display_text, api_text, fx);
        proof {
            assert(refs_noted(*old(self), *refs, noted));
        }
    }

    /// Whether the sidebar is shown in a terminal of this width.
    pub fn should_show_sidebar(&self, terminal_width: u16) -> (r: bool)
        ensures
            r == (match self.sidebar_override {
                Some(forced) => forced,
                None => terminal_width >= 120,
            }),
    {
        match self.sidebar_override {
            Some(forced) => forced,
            None => terminal_width >= 120,
        }
    }

    /// The last call of a tool that has its result, within the last block of
    /// the assistant.
    pub open spec fn last_completed(self, tool: ToolName) -> Option<ToolCall> {
        match last_of(self.messages@, BlockKind::Assistant) {
            Some(i) => last_done_in(self.messages@[i]->parts@, tool),
            None => None,
        }
    }

    /// The last call of a tool that has its result, within the last block of
    /// the assistant.
    pub fn find_last_completed_call(&self, tool_name: ToolName) -> (r: Option<&ToolCall>)
        ensures
            match r {
                Some(c) => self.last_completed(tool_name) == Some(*c),
                None => self.last_completed(tool_name) is None,
            },
    {
        match find_last(&self.messages, BlockKind::Assistant) {
            Some(i) => {
                match &self.messages[i] {
                    MessageBlock::Assistant { parts, .. } => find_done(parts, tool_name),
                    _ => None,
                }
            },
            None => None,
        }
    }

    /// `path` without the project's root and the slash behind it; `path` as it
    /// is where it does not lie under the root.
    pub fn strip_project_root(&self, path: &str) -> (r: String)
        ensures
            r@ == relative_to(self.project.root@, path@),
    {
        strip_root(self.project.root.as_str(), path)
    }
}

fn find_done(parts: &Vec<AssistantPart>, tool: ToolName) -> (r: Option<&ToolCall>)
    ensures
        match r {
            Some(c) => last_done_in(parts@, tool) == Some(*c),
            None => last_done_in(parts@, tool) is None,
        },
{
    let mut n: usize = parts.len();
    proof {
        assert(parts@.take(n as int) =~= parts@);
    }
    while n > 0
        invariant
            n <= parts@.len(),
            last_done_in(parts@, tool) == last_done_in(parts@.take(n as int), tool),
        decreases n,
    {
        proof {
            assert(parts@.take(n as int).last() == parts@[n - 1]);
            assert(parts@.take(n as int).drop_last() =~= parts@.take(n - 1));
        }
        match &parts[n - 1] {
            AssistantPart::ToolGroup(g) => {
                let mut m: usize = g.calls.len();
                proof {
                    assert(g.calls@.take(m as int) =~= g.calls@);
                }
                while m > 0
                    invariant
                        m <= g.calls@.len(),
                        last_done(g.calls@, tool) == last_done(g.calls@.take(m as int), tool),
                        last_done(g.calls@, tool) matches Some(c) ==> last_done_in(parts@, tool)
                            == Some(c),
                    decreases m,
                {
                    proof {
                        assert(g.calls@.take(m as int).last() == g.calls@[m - 1]);
                        assert(g.calls@.take(m as int).drop_last() =~= g.calls@.take(m - 1));
                    }
                    let call = &g.calls[m - 1];
                    if call.tool_name == tool && call.result_summary.is_some() {
                        return Some(call);
                    }
                    m = m - 1;
                }
            },
            AssistantPart::Text(_) => {},
        }
        n = n - 1;
    }
    None
}

/// A path is shortened only where it is the root itself or lies under it: what
/// merely starts with the same characters is left alone.
pub proof fn only_boundaries_are_stripped(root: Seq<char>, path: Seq<char>)
    ensures
        ({
            ||| relative_to(root, path) == path
            ||| path == root && relative_to(root, path).len() == 0
            ||| path == root + seq!['/'] + relative_to(root, path)
        }),
{
    if root.is_prefix_of(path) {
        let rest = path.skip(root.len() as int);
        assert(path =~= root + rest);
        if rest.len() > 0 && rest[0] == '/' {
            assert(rest =~= seq!['/'] + rest.skip(1));
            assert(path =~= root + seq!['/'] + rest.skip(1));
        }
    }
}

} // verus!
