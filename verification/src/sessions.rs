//! Sessions: resuming one, switching to one, making one, and their titles.
use crate::blocks::{pushed, MessageBlock};
use crate::effects::{ChatJob, ChatPurpose, Effect, SessionRecord};
use crate::helpers::{client_error, resolves_to};
use crate::message::{Message, Role};
use crate::prompts::TITLE_SYSTEM_PROMPT;
use crate::providers::ResolvedModel;
use crate::sidebar::{sidebar_updated, tokens_synced, window_synced};
use crate::state::{App, Overlay, ProjectInfo, SessionInfo, SidebarState};
use crate::text::{cat2, same_text};
use crate::titles::{clean_title, sanitize_title, short_title, title_fallback, title_line, DEFAULT_TITLE};
use vstd::prelude::*;
use vstd::string::*;

verus! {

/// Whether `blocks` show the messages of the user and of the assistant among
/// `messages`, in order, each by a block of its own.
pub open spec fn shows(blocks: Seq<MessageBlock>, messages: Seq<Message>) -> bool
    decreases messages.len(),
{
    if messages.len() == 0 {
        blocks.len() == 0
    } else {
        let m = messages.last();
        match m.role {
            Role::System => shows(blocks, messages.drop_last()),
            Role::User => {
                &&& blocks.len() > 0
                &&& blocks.last().is_user_text(m.text@)
                &&& shows(blocks.drop_last(), messages.drop_last())
            },
            Role::Assistant => {
                &&& blocks.len() > 0
                &&& blocks.last().is_assistant_text(m.text@)
                &&& shows(blocks.drop_last(), messages.drop_last())
            },
        }
    }
}

/// How many of `messages` are of the user.
pub open spec fn count_user(messages: Seq<Message>) -> nat
    decreases messages.len(),
{
    if messages.len() == 0 {
        0
    } else {
        count_user(messages.drop_last()) + if messages.last().role == Role::User {
            1nat
        } else {
            0nat
        }
    }
}

/// The blocks that show stored messages, and how many are of the user.
pub fn display_messages(messages: &Vec<Message>) -> (r: (Vec<MessageBlock>, usize))
    ensures
        shows(r.0@, messages@),
        r.1 as nat == count_user(messages@),
{
    let mut out: Vec<MessageBlock> = Vec::new();
    let mut users: usize = 0;
    let mut i: usize = 0;
    while i < messages.len()
        invariant
            i <= messages@.len(),
            users <= i,
            users as nat == count_user(messages@.take(i as int)),
            shows(out@, messages@.take(i as int)),
        decreases messages@.len() - i,
    {
        let ghost before = out@;
        proof {
            assert(messages@.take(i + 1).drop_last() =~= messages@.take(i as int));
            assert(messages@.take(i + 1).last() == messages@[i as int]);
        }
        let m = &messages[i];
        match m.role {
            Role::User => {
                users = users + 1;
                out.push(MessageBlock::User { text: m.text_content() });
                proof {
                    assert(out@.drop_last() =~= before);
                }
            },
            Role::Assistant => {
                out.push(MessageBlock::assistant_text(m.text_content()));
                proof {
                    assert(out@.drop_last() =~= before);
                }
            },
            Role::System => {},
        }
        i = i + 1;
    }
    proof {
        assert(messages@.take(messages@.len() as int) =~= messages@);
    }
    (out, users)
}

/// A session as the usage records keep it.
pub open spec fn record_of(project: ProjectInfo, s: SessionInfo) -> SessionRecord {
    SessionRecord {
        session_id: s.id,
        project_id: project.id,
        title: s.title,
        model_ref: s.model_ref,
        created_at: s.created_at,
    }
}

fn make_record(project: &ProjectInfo, s: &SessionInfo) -> (r: SessionRecord)
    ensures
        r == record_of(*project, *s),
{
    SessionRecord {
        session_id: s.id.clone(),
        project_id: project.id.clone(),
        title: s.title.clone(),
        model_ref: s.model_ref.clone(),
        created_at: s.created_at,
    }
}

/// A session that was stored, and its messages where they could be read.
#[derive(Debug, PartialEq, Eq)]
pub struct StoredSession {
    pub session: SessionInfo,
    pub messages: Option<Vec<Message>>,
}

/// The application with the messages of a stored session in it, if they could be read.
pub open spec fn messages_loaded(pre: App, loaded: Option<Vec<Message>>, post: App) -> bool {
    match loaded {
        Some(stored) => {
            &&& post == (App {
                messages: post.messages,
                exchange_count: count_user(stored@) as usize,
                stored_messages: stored,
                ..pre
            })
            &&& post.messages@.len() >= pre.messages@.len()
            &&& post.messages@.take(pre.messages@.len() as int) == pre.messages@
            &&& shows(post.messages@.skip(pre.messages@.len() as int), stored@)
        },
        None => post == pre,
    }
}

/// What resuming a stored session makes of the application, before the sidebar
/// is brought up to date.
pub open spec fn resumed(pre: App, stored: StoredSession, post: App) -> bool {
    exists|loaded: App|
        {
            &&& #[trigger] messages_loaded(pre, stored.messages, loaded)
            &&& post == (App {
                current_model: post.current_model,
                current_session: Some(stored.session),
                message_area_state: if stored.messages is Some
                    && loaded.stored_messages@.len() > 0 {
                    pre.message_area_state.at_bottom()
                } else {
                    pre.message_area_state
                },
                ..loaded
            })
            &&& post.current_model matches Some(m)
            &&& m@ == pre.valid_model(stored.session.model_ref@)
        }
}

/// The application cleared for another session.
pub open spec fn cleared(pre: App) -> App {
    App {
        streaming_message: None,
        streaming_active: false,
        stream_start_time: None,
        frozen_elapsed: None,
        is_loading: false,
        auto_compact_failed: false,
        context_warned: false,
        last_prompt_tokens: 0,
        exchange_count: 0,
        pending_permission: None,
        pending_question: None,
        pending_agents_update: None,
        stream_cancel: false,
        model_picker: Overlay { visible: false },
        ..pre
    }
}

/// Whether the user said any of the messages.
pub open spec fn user_spoke(messages: Seq<Message>) -> bool {
    exists|i: int| 0 <= i < messages.len() && (#[trigger] messages[i]).role == Role::User
}

/// What the outside does about a session with no message of the user in it: it
/// is deleted.
pub open spec fn prune_effects(app: App, old_fx: Seq<Effect>) -> Seq<Effect> {
    match app.current_session {
        Some(s) if app.exchange_count == 0 && !user_spoke(app.stored_messages@) => old_fx.push(
            Effect::DeleteSession { session_id: s.id },
        ),
        _ => old_fx,
    }
}

/// What switching from `pre` to a session asks of the world outside.
pub open spec fn switch_effects(pre: App, session: SessionInfo, old_fx: Seq<Effect>) -> Seq<
    Effect,
> {
    let stopped = if pre.stream_cancel {
        old_fx.push(Effect::CancelStream)
    } else {
        old_fx
    };
    prune_effects(pre, stopped).push(Effect::ResetToolCache).push(
        Effect::RememberSession { session_id: session.id, model_ref: session.model_ref },
    ).push(Effect::RecordSession(record_of(pre.project, session))).push(Effect::RefreshGit).push(
        Effect::RefreshDiagnostics,
    ).push(Effect::RefreshSidebar)
}

/// The application with the session that was just loaded into `loaded` made
/// current and its model chosen.
pub open spec fn session_entered(loaded: App, session: SessionInfo, post: App) -> bool {
    &&& post == (App {
        current_model: post.current_model,
        current_session: Some(session),
        ..loaded
    })
    &&& post.current_model matches Some(m)
    &&& m@ == loaded.valid_model(session.model_ref@)
}

/// The application with the traces of the last session removed from the
/// sidebar and every overlay closed.
pub open spec fn traces_removed(pre: App, post: App) -> bool {
    &&& post == (App {
        sidebar_state: SidebarState {
            changes: post.sidebar_state.changes,
            session_closed_task_ids: post.sidebar_state.session_closed_task_ids,
            ..pre.sidebar_state
        },
        model_picker: Overlay { visible: false },
        session_picker: Overlay { visible: false },
        diagnostics_overlay: Overlay { visible: false },
        mcp_overlay: Overlay { visible: false },
        compaction_count: 0,
        ..pre
    })
    &&& post.sidebar_state.changes@.len() == 0
    &&& post.sidebar_state.session_closed_task_ids@.len() == 0
}

/// The application that says last that it switched to a session.
pub open spec fn switch_announced(pre: App, title: Seq<char>, post: App) -> bool {
    &&& post == (App {
        messages: post.messages,
        message_area_state: pre.message_area_state.at_bottom(),
        ..pre
    })
    &&& pushed(pre.messages@, post.messages@)
    &&& post.messages@.last().is_system_text("Switched to: "@ + title)
}

/// The application cleared of messages.
pub open spec fn emptied(pre: App, post: App) -> bool {
    &&& post == (App {
        messages: post.messages,
        stored_messages: post.stored_messages,
        ..cleared(pre)
    })
    &&& post.messages@.len() == 0
    &&& post.stored_messages@.len() == 0
}

/// What switching from `pre` to a stored session makes of the application.
pub open spec fn switched(pre: App, stored: StoredSession, post: App) -> bool {
    exists|empty: App, loaded: App, entered: App, bare: App, announced: App|
        {
            &&& #[trigger] emptied(pre, empty)
            &&& #[trigger] messages_loaded(empty, stored.messages, loaded)
            &&& #[trigger] session_entered(loaded, stored.session, entered)
            &&& #[trigger] traces_removed(window_synced(entered), bare)
            &&& #[trigger] switch_announced(tokens_synced(bare), stored.session.title@, announced)
            &&& post == sidebar_updated(announced)
        }
}

/// The application after it was made sure that there is a session; `created`
/// is the one that was made, if one could be.
pub open spec fn session_ensured(pre: App, created: Option<SessionInfo>) -> App {
    if pre.current_session is Some {
        pre
    } else {
        App { current_session: created, ..pre }
    }
}

/// What is recorded when it is made sure that there is a session.
pub open spec fn ensure_effects(pre: App, created: Option<SessionInfo>, old_fx: Seq<Effect>) -> Seq<
    Effect,
> {
    match created {
        Some(s) if pre.current_session is None => old_fx.push(
            Effect::RecordSession(record_of(pre.project, s)),
        ),
        _ => old_fx,
    }
}

/// What giving the current session a title does. An empty title is no title.
pub open spec fn titled(
    pre: App,
    title: Seq<char>,
    post: App,
    old_fx: Seq<Effect>,
    new_fx: Seq<Effect>,
) -> bool {
    match pre.current_session {
        Some(session) if title.len() > 0 => exists|renamed: SessionInfo|
            {
                &&& renamed == (SessionInfo { title: renamed.title, ..session })
                &&& renamed.title@ == title
                &&& post == #[trigger] sidebar_updated(
                    App { current_session: Some(renamed), ..pre },
                )
                &&& renaming_announced(old_fx, new_fx, session.id@, title)
            },
        _ => post == pre && new_fx == old_fx,
    }
}

/// Whether the outside is told of a new title of the session `id`.
pub open spec fn renaming_announced(
    old_fx: Seq<Effect>,
    new_fx: Seq<Effect>,
    id: Seq<char>,
    title: Seq<char>,
) -> bool {
    let n = old_fx.len() as int;
    &&& new_fx.len() == n + 3
    &&& new_fx.take(n) == old_fx
    &&& new_fx[n] matches Effect::RenameSession { session_id: a, title: t }
    &&& a@ == id && t@ == title
    &&& new_fx[n + 1] matches Effect::RecordTitle { session_id: b, title: u }
    &&& b@ == id && u@ == title
    &&& new_fx[n + 2] == Effect::RefreshSidebar
}

/// Whether the current session still has no title of its own.
pub open spec fn is_untitled(app: App) -> bool {
    app.current_session matches Some(s) && s.title@ == DEFAULT_TITLE@
}

/// The first text of the user in the message area.
pub open spec fn first_user_text(blocks: Seq<MessageBlock>) -> Option<Seq<char>>
    decreases blocks.len(),
{
    if blocks.len() == 0 {
        None
    } else {
        match blocks[0] {
            MessageBlock::User { text } => Some(text@),
            _ => first_user_text(blocks.skip(1)),
        }
    }
}

/// The model that titles are asked from, if there is one that can be used.
/// Only a small model is: a title is not worth a call of the one in use.
pub open spec fn title_model(app: App) -> Option<Seq<char>> {
    match app.config.small_model {
        Some(m) if client_error(app, m@) is None => Some(m@),
        _ => None,
    }
}

/// Whether `job` asks for a title for the session `id` whose first text is `text`.
pub open spec fn asks_title(app: App, job: ChatJob, model: Seq<char>, text: Seq<char>) -> bool {
    &&& job.purpose == ChatPurpose::Title
    &&& job.system_prompt@ == TITLE_SYSTEM_PROMPT@
    &&& job.user_text@ == text
    &&& job.fallback@ == short_title(title_line(text))
    &&& app.current_session matches Some(s)
    &&& job.session_id@ == s.id@
    &&& resolves_to(app, model, job.resolved)
}

/// What is done about the title after the first exchange: a session that has
/// one keeps it; else a small model is asked for one, or the first text of the
/// user becomes it.
pub open spec fn title_sought(
    pre: App,
    post: App,
    old_fx: Seq<Effect>,
    new_fx: Seq<Effect>,
) -> bool {
    match first_user_text(pre.messages@) {
        Some(text) if is_untitled(pre) => match title_model(pre) {
            Some(model) => {
                &&& post == pre
                &&& pushed(old_fx, new_fx)
                &&& new_fx.last() matches Effect::Chat(job)
                &&& asks_title(pre, job, model, text)
            },
            None => titled(pre, short_title(title_line(text)), post, old_fx, new_fx),
        },
        _ => post == pre && new_fx == old_fx,
    }
}

/// The title in the reply of a model, if there is one.
pub fn title_of_reply(raw: &str) -> (r: Option<String>)
    ensures
        match r {
            Some(t) => clean_title(raw@).len() > 0 && t@ == clean_title(raw@),
            None => clean_title(raw@).len() == 0,
        },
{
    let title = sanitize_title(raw);
    if title.as_str().is_empty() {
        None
    } else {
        Some(title)
    }
}

impl App {
    fn load_messages(&mut self, loaded: Option<Vec<Message>>)
        ensures
            messages_loaded(*old(self), loaded, *final(self)),
    {
        match loaded {
            Some(stored) => {
                let ghost before = self.messages@;
                let (mut blocks, users) = display_messages(&stored);
                let ghost shown = blocks@;
                self.messages.append(&mut blocks);
                proof {
                    assert(self.messages@ =~= before + shown);
                    assert(self.messages@.take(before.len() as int) =~= before);
                    assert(self.messages@.skip(before.len() as int) =~= shown);
                }
                self.exchange_count = users;
                self.stored_messages = stored;
            },
            None => {},
        }
    }

    fn resume(&mut self, stored: StoredSession)
        ensures
            resumed(*old(self), stored, *final(self)),
    {
        let StoredSession { session, messages } = stored;
        let ghost stored_messages = messages;
        let has_messages = messages.is_some();
        self.load_messages(messages);
        let ghost loaded = *self;
        if has_messages && self.stored_messages.len() > 0 {
            self.message_area_state.scroll_to_bottom();
        }
        self.current_model = Some(self.validated_model_ref(session.model_ref.as_str()));
        self.current_session = Some(session);
        proof {
            assert(messages_loaded(*old(self), stored_messages, loaded));
        }
    }

    /// Resumes the last session, if there is one.
    pub fn resume_or_new_session(&mut self, last: Option<StoredSession>, fx: &mut Vec<Effect>)
        ensures
            match last {
                Some(stored) => {
                    &&& exists|mid: App|
                        {
                            &&& #[trigger] resumed(*old(self), stored, mid)
                            &&& *final(self) == sidebar_updated(tokens_synced(mid))
                        }
                    &&& final(fx)@ == old(fx)@.push(
                        Effect::RecordSession(record_of(old(self).project, stored.session)),
                    ).push(Effect::RefreshGit).push(Effect::RefreshDiagnostics).push(
                        Effect::RefreshSidebar,
                    )
                },
                None => {
                    &&& *final(self) == sidebar_updated(tokens_synced(*old(self)))
                    &&& final(fx)@ == old(fx)@.push(Effect::RefreshGit).push(
                        Effect::RefreshDiagnostics,
                    ).push(Effect::RefreshSidebar)
                },
            },
            old(self).wf() ==> final(self).wf(),
    {
        match last {
            Some(stored) => {
                fx.push(Effect::RecordSession(make_record(&self.project, &stored.session)));
                self.resume(stored);
                proof {
                    assert(resumed(*old(self), stored, *self));
                }
            },
            None => {},
        }
        fx.push(Effect::RefreshGit);
        self.sync_sidebar_tokens();
        fx.push(Effect::RefreshDiagnostics);
        self.update_sidebar(fx);
    }

    fn has_user_message(&self) -> (r: bool)
        ensures
            r == user_spoke(self.stored_messages@),
    {
        let mut i: usize = 0;
        while i < self.stored_messages.len()
            invariant
                i <= self.stored_messages@.len(),
                forall|j: int|
                    0 <= j < i ==> (#[trigger] self.stored_messages@[j]).role != Role::User,
            decreases self.stored_messages@.len() - i,
        {
            if self.stored_messages[i].role == Role::User {
                proof {
                    assert(self.stored_messages@[i as int].role == Role::User);
                }
                return true;
            }
            i = i + 1;
        }
        false
    }

    /// A session with no message of the user in it is deleted, whatever else
    /// it holds.
    pub fn prune_empty_session(&self, fx: &mut Vec<Effect>)
        ensures
            final(fx)@ == prune_effects(*self, old(fx)@),
    {
        if self.exchange_count == 0 && !self.has_user_message() {
            match &self.current_session {
                Some(s) => {
                    fx.push(Effect::DeleteSession { session_id: s.id.clone() });
                },
                None => {},
            }
        }
    }

    fn clear_for_switch(&mut self)
        ensures
            emptied(*old(self), *final(self)),
    {
        self.messages.clear();
        self.stored_messages.clear();
        self.streaming_message = None;
        self.streaming_active = false;
        self.stream_start_time = None;
        self.frozen_elapsed = None;
        self.is_loading = false;
        self.auto_compact_failed = false;
        self.context_warned = false;
        self.last_prompt_tokens = 0;
        self.exchange_count = 0;
        self.pending_permission = None;
        self.pending_question = None;
        self.pending_agents_update = None;
        self.stream_cancel = false;
        self.model_picker.visible = false;
    }

    fn remove_traces(&mut self)
        ensures
            traces_removed(*old(self), *final(self)),
    {
        self.sidebar_state.changes.clear();
        self.sidebar_state.session_closed_task_ids.clear();
        self.close_all_overlays();
        self.compaction_count = 0;
    }

    fn announce_switch(&mut self, title: &str)
        ensures
            switch_announced(*old(self), title@, *final(self)),
    {
        self.say(cat2("Switched to: ", title));
        self.message_area_state.scroll_to_bottom();
    }

    /// Switches to another session.
    pub fn switch_to_session(&mut self, stored: StoredSession, fx: &mut Vec<Effect>)
        ensures
            switched(*old(self), stored, *final(self)),
            final(fx)@ == switch_effects(*old(self), stored.session, old(fx)@),
    {
        if self.stream_cancel {
            fx.push(Effect::CancelStream);
        }
        self.prune_empty_session(fx);
        self.clear_for_switch();
        let ghost empty = *self;
        fx.push(Effect::ResetToolCache);
        let StoredSession { session, messages } = stored;
        let ghost stored_messages = messages;
        let title = session.title.clone();
        self.load_messages(messages);
        let ghost loaded = *self;
        fx.push(
            Effect::RememberSession {
                session_id: session.id.clone(),
                model_ref: session.model_ref.clone(),
            },
        );
        fx.push(Effect::RecordSession(make_record(&self.project, &session)));
        let ghost target = session;
        self.current_model = Some(self.validated_model_ref(session.model_ref.as_str()));
        self.current_session = Some(session);
        let ghost entered = *self;
        self.sync_context_window();
        self.remove_traces();
        let ghost bare = *self;
        fx.push(Effect::RefreshGit);
        self.sync_sidebar_tokens();
        fx.push(Effect::RefreshDiagnostics);
        self.announce_switch(title.as_str());
        let ghost announced = *self;
        self.update_sidebar(fx);
        proof {
            assert(emptied(*old(self), empty));
            assert(messages_loaded(empty, stored_messages, loaded));
            assert(session_entered(loaded, target, entered));
            assert(traces_removed(window_synced(entered), bare));
            assert(switch_announced(tokens_synced(bare), target.title@, announced));
        }
    }

    /// The model that a new session is made with.
    pub fn new_session_model(&self) -> (r: String)
        ensures
            r@ == (match self.current_model {
                Some(m) => m@,
                None => "unknown/unknown"@,
            }),
    {
        match &self.current_model {
            Some(m) => m.clone(),
            None => "unknown/unknown".to_owned(),
        }
    }

    /// Makes sure that there is a session; `created` is the one that was made,
    /// if one could be.
    pub fn ensure_session(&mut self, created: Option<SessionInfo>, fx: &mut Vec<Effect>)
        ensures
            *final(self) == session_ensured(*old(self), created),
            final(fx)@ == ensure_effects(*old(self), created, old(fx)@),
    {
        if self.current_session.is_some() {
            return;
        }
        match created {
            Some(session) => {
                fx.push(Effect::RecordSession(make_record(&self.project, &session)));
                self.current_session = Some(session);
            },
            None => {},
        }
    }

    /// Gives the current session a title. An empty title is no title.
    pub fn apply_session_title(&mut self, title: &str, fx: &mut Vec<Effect>)
        ensures
            titled(*old(self), title@, *final(self), old(fx)@, final(fx)@),
    {
        if title.is_empty() {
            return;
        }
        let ghost fx0 = fx@;
        match &self.current_session {
            Some(session) => {
                let mut renamed = session.clone();
                renamed.title = title.to_owned();
                fx.push(
                    Effect::RenameSession {
                        session_id: renamed.id.clone(),
                        title: title.to_owned(),
                    },
                );
                fx.push(
                    Effect::RecordTitle { session_id: renamed.id.clone(), title: title.to_owned() },
                );
                self.current_session = Some(renamed);
                let ghost mid = *self;
                self.update_sidebar(fx);
                proof {
                    assert(fx@.take(fx0.len() as int) =~= fx0);
                    assert(*self == sidebar_updated(
                        App { current_session: mid.current_session, ..*old(self) },
                    ));
                }
            },
            None => {},
        }
    }

    /// Gives a session a title that was asked for, if it is still the current
    /// one and has none of its own.
    pub fn apply_title_if_current(&mut self, session_id: &str, title: &str, fx: &mut Vec<Effect>)
        ensures
            if is_untitled(*old(self)) && (old(self).current_session matches Some(s) && s.id@
                == session_id@) {
                titled(*old(self), title@, *final(self), old(fx)@, final(fx)@)
            } else {
                *final(self) == *old(self) && final(fx)@ == old(fx)@
            },
    {
        let should_apply = match &self.current_session {
            Some(s) => same_text(s.id.as_str(), session_id) && same_text(
                s.title.as_str(),
                DEFAULT_TITLE,
            ),
            None => false,
        };
        if should_apply {
            self.apply_session_title(title, fx);
        }
    }

    fn find_first_user_text(&self) -> (r: Option<String>)
        ensures
            match r {
                Some(t) => first_user_text(self.messages@) == Some(t@),
                None => first_user_text(self.messages@) is None,
            },
    {
        let mut i: usize = 0;
        proof {
            assert(self.messages@.skip(0) =~= self.messages@);
        }
        while i < self.messages.len()
            invariant
                i <= self.messages@.len(),
                first_user_text(self.messages@) == first_user_text(self.messages@.skip(i as int)),
            decreases self.messages@.len() - i,
        {
            proof {
                assert(self.messages@.skip(i as int).skip(1) =~= self.messages@.skip(i + 1));
            }
            match &self.messages[i] {
                MessageBlock::User { text } => {
                    return Some(text.clone());
                },
                _ => {},
            }
            i = i + 1;
        }
        None
    }

    fn find_title_model(&self) -> (r: Option<ResolvedModel>)
        ensures
            match r {
                Some(resolved) => {
                    &&& title_model(*self) matches Some(m)
                    &&& resolves_to(*self, m, resolved)
                },
                None => title_model(*self) is None,
            },
    {
        match (&self.config.small_model, &self.provider_registry) {
            (Some(model), Some(registry)) => match registry.resolve_model(model.as_str()) {
                Ok(m) => match registry.client(m.provider_id.as_str()) {
                    Ok(_) => Some(m),
                    Err(_) => None,
                },
                Err(_) => None,
            },
            _ => None,
        }
    }

    /// Sees to a title for the session after its first exchange.
    pub fn maybe_generate_title(&mut self, fx: &mut Vec<Effect>)
        ensures
            title_sought(*old(self), *final(self), old(fx)@, final(fx)@),
    {
        let ghost fx0 = fx@;
        let session_id = match &self.current_session {
            Some(s) => {
                if !same_text(s.title.as_str(), DEFAULT_TITLE) {
                    return;
                }
                s.id.clone()
            },
            None => {
                return;
            },
        };
        let first_text = match self.find_first_user_text() {
            Some(t) => t,
            None => {
                return;
            },
        };
        let fallback = title_fallback(first_text.as_str());
        match self.find_title_model() {
            Some(resolved) => {
                fx.push(
                    Effect::Chat(
                        ChatJob {
                            purpose: ChatPurpose::Title,
                            resolved,
                            system_prompt: TITLE_SYSTEM_PROMPT,
                            user_text: first_text,
                            session_id,
                            fallback,
                        },
                    ),
                );
                proof {
                    assert(fx@.drop_last() =~= fx0);
                }
            },
            None => {
                self.apply_session_title(fallback.as_str(), fx);
            },
        }
    }
}

/// A session that has a title of its own keeps it, whichever answer to the
/// question for a title comes late.
pub proof fn own_title_is_kept(pre: App, post: App, old_fx: Seq<Effect>, new_fx: Seq<Effect>)
    requires
        !is_untitled(pre),
        title_sought(pre, post, old_fx, new_fx),
    ensures
        post == pre,
        new_fx == old_fx,
{
}

} // verus!
