//! What happens when the user sends a message.
use crate::blocks::{pushed, MessageBlock};
use crate::effects::{Effect, StreamStart};
use crate::helpers::{client_error, refs_noted, resolves_to, sent_text, shown_text, FileRefs};
use crate::message::{Message, Role};
use crate::prompt::{chat_views, prompt_at, sent_history, LocalTime, PromptFacts, ReadFile};
use crate::providers::ResolvedModel;
use crate::sessions::{ensure_effects, session_ensured};
use crate::state::{Activity, AgentMode, App, SessionInfo, StatusLineState};
use crate::text::opt_text;
use vstd::prelude::*;
use vstd::string::*;

verus! {

/// What is known outside when the user submits a text. `created` is a new
/// session, where one was needed and could be made.
#[derive(Debug, PartialEq, Eq)]
pub struct World {
    pub now: u64,
    pub at: LocalTime,
    pub prompt: PromptFacts,
    pub created: Option<SessionInfo>,
    pub refs: FileRefs,
    pub tree: Vec<String>,
    pub files: Vec<ReadFile>,
}

/// The id of the current session; empty where there is none.
pub open spec fn session_id(app: App) -> Seq<char> {
    match app.current_session {
        Some(s) => s.id@,
        None => ""@,
    }
}

/// The application without the time of the last conversation.
pub open spec fn clock_reset(pre: App) -> App {
    App { stream_start_time: None, frozen_elapsed: None, ..pre }
}

/// The application with a message of the user stored and shown.
pub open spec fn user_message_added(
    pre: App,
    shown: Seq<char>,
    sent: Seq<char>,
    post: App,
    old_fx: Seq<Effect>,
    new_fx: Seq<Effect>,
) -> bool {
    &&& post == (App {
        messages: post.messages,
        stored_messages: post.stored_messages,
        message_area_state: pre.message_area_state.at_bottom(),
        ..pre
    })
    &&& pushed(pre.messages@, post.messages@)
    &&& post.messages@.last().is_user_text(shown)
    &&& pushed(pre.stored_messages@, post.stored_messages@)
    &&& post.stored_messages@.last().is(session_id(pre), Role::User, sent)
    &&& new_fx == old_fx.push(Effect::SaveMessage(post.stored_messages@.last()))
}

/// The model that sub-agents with a small task use, as its provider calls it.
pub open spec fn small_model_id(app: App) -> Option<Seq<char>> {
    match (app.config.small_model, app.provider_registry) {
        (Some(m), Some(registry)) => match registry.lookup(m@) {
            Ok(c) => Some(c.id@),
            Err(_) => None,
        },
        _ => None,
    }
}

/// Whether `start` begins the conversation in which `sent` is said to the
/// model `model_ref`.
pub open spec fn begins_stream(
    app: App,
    model_ref: Seq<char>,
    sent: Seq<char>,
    world: World,
    start: StreamStart,
) -> bool {
    &&& resolves_to(app, model_ref, start.resolved)
    &&& opt_text(start.system_prompt) == prompt_at(app, world.at, world.prompt)
    &&& chat_views(start.history@) == sent_history(app.stored_messages@)
    &&& start.user_message@ == sent
    &&& start.context_window == (if start.resolved.context_window > 0 {
        Some(start.resolved.context_window as u64)
    } else {
        None
    })
    &&& start.session_id@ == session_id(app)
    &&& start.is_plan_mode == (app.mode == AgentMode::Plan)
    &&& opt_text(start.small_model) == small_model_id(app)
}

/// The application in a conversation that begins at `now`.
pub open spec fn streaming(pre: App, now: u64, window: u32, post: App) -> bool {
    &&& post == (App {
        streaming_message: post.streaming_message,
        messages: post.messages,
        is_loading: true,
        streaming_active: true,
        frozen_elapsed: None,
        stream_start_time: Some(now),
        status_line_state: StatusLineState {
            activity: Activity::Thinking,
            context_window: window as u64,
            ..pre.status_line_state
        },
        stream_cancel: true,
        interjection_tx: true,
        ..pre
    })
    &&& post.streaming_message matches Some(m)
    &&& m.is(session_id(pre), Role::Assistant, ""@)
    &&& pushed(pre.messages@, post.messages@)
    &&& post.messages@.last().is_blank()
}

pub const NO_MODEL: &'static str =
    "No model selected. Set 'model' in .steve.jsonc or ~/.config/steve/config.jsonc.";

/// What is done once the message `sent` is stored: a conversation begins, or
/// the user is told why none can.
pub open spec fn answered(
    pre: App,
    sent: Seq<char>,
    world: World,
    post: App,
    old_fx: Seq<Effect>,
    new_fx: Seq<Effect>,
) -> bool {
    let problem = match pre.current_model {
        None => Some(NO_MODEL@),
        Some(m) => client_error(pre, m@),
    };
    match problem {
        Some(e) => {
            &&& post == (App { messages: post.messages, ..pre })
            &&& pushed(pre.messages@, post.messages@)
            &&& post.messages@.last().is_error_text(e)
            &&& new_fx == old_fx
        },
        None => {
            &&& new_fx.len() == old_fx.len() + 2
            &&& new_fx.take(old_fx.len() as int) == old_fx
            &&& new_fx[old_fx.len() as int] == Effect::BumpToolCache
            &&& new_fx.last() matches Effect::StartStream(start)
            &&& pre.current_model matches Some(m)
            &&& begins_stream(pre, m@, sent, world, start)
            &&& streaming(pre, world.now, start.resolved.context_window, post)
        },
    }
}

/// What sending `text` does.
pub open spec fn message_sent(
    pre: App,
    text: Seq<char>,
    world: World,
    post: App,
    old_fx: Seq<Effect>,
    new_fx: Seq<Effect>,
) -> bool {
    let ready = clock_reset(session_ensured(pre, world.created));
    let fx = ensure_effects(pre, world.created, old_fx);
    exists|noted: App, added: App, fx2: Seq<Effect>|
        {
            &&& #[trigger] refs_noted(ready, world.refs, noted)
            &&& #[trigger] user_message_added(
                noted,
                shown_text(text, world.refs),
                sent_text(text, world.refs),
                added,
                fx,
                fx2,
            )
            &&& #[trigger] answered(
                added,
                sent_text(text, world.refs),
                world,
                post,
                fx2,
                new_fx,
            )
        }
}

impl App {
    /// The id of the current session; empty where there is none.
    pub fn current_session_id(&self) -> (r: String)
        ensures
            r@ == session_id(*self),
    {
        match &self.current_session {
            Some(s) => s.id.clone(),
            None => "".to_owned(),
        }
    }

    fn add_user_message(&mut self, shown: String, sent: &str, fx: &mut Vec<Effect>)
        ensures
            user_message_added(*old(self), shown@, sent@, *final(self), old(fx)@, final(fx)@),
    {
        let ghost shown_before = self.messages@;
        let ghost stored_before = self.stored_messages@;
        let id = self.current_session_id();
        let user_msg = Message::user(id.as_str(), sent);
        fx.push(Effect::SaveMessage(user_msg.clone()));
        self.stored_messages.push(user_msg);
        self.messages.push(MessageBlock::User { text: shown });
        self.message_area_state.scroll_to_bottom();
        proof {
            assert(self.messages@.drop_last() =~= shown_before);
            assert(self.stored_messages@.drop_last() =~= stored_before);
        }
    }

    fn find_small_model(&self) -> (r: Option<String>)
        ensures
            opt_text(r) == small_model_id(*self),
    {
        match (&self.config.small_model, &self.provider_registry) {
            (Some(m), Some(registry)) => match registry.resolve_model(m.as_str()) {
                Ok(found) => Some(found.api_model_id),
                Err(_) => None,
            },
            _ => None,
        }
    }

    fn enter_stream(&mut self, now: u64, window: u32)
        ensures
            streaming(*old(self), now, window, *final(self)),
    {
        let ghost before = self.messages@;
        let id = self.current_session_id();
        self.streaming_message = Some(Message::assistant(id.as_str(), ""));
        self.messages.push(MessageBlock::blank());
        proof {
            assert(self.messages@.drop_last() =~= before);
        }
        self.is_loading = true;
        self.streaming_active = true;
        self.frozen_elapsed = None;
        self.stream_start_time = Some(now);
        self.status_line_state.activity = Activity::Thinking;
        self.status_line_state.context_window = window as u64;
        self.stream_cancel = true;
        self.interjection_tx = true;
    }

    fn make_stream_start(
        &self,
        resolved: ResolvedModel,
        sent: String,
        world: &World,
        Ghost(model_ref): Ghost<Seq<char>>,
    ) -> (r: StreamStart)
        requires
            resolves_to(*self, model_ref, resolved),
        ensures
            begins_stream(*self, model_ref, sent@, *world, r),
            r.resolved == resolved,
    {
        let context_window = if resolved.context_window > 0 {
            Some(resolved.context_window as u64)
        } else {
            None
        };
        StreamStart {
            resolved,
            system_prompt: self.build_system_prompt(world.at, &world.prompt),
            history: self.build_api_history(),
            user_message: sent,
            context_window,
            session_id: self.current_session_id(),
            is_plan_mode: self.mode == AgentMode::Plan,
            small_model: self.find_small_model(),
        }
    }

    fn answer(&mut self, sent: String, world: &World, fx: &mut Vec<Effect>)
        ensures
            answered(*old(self), sent@, *world, *final(self), old(fx)@, final(fx)@),
    {
        let ghost fx0 = fx@;
        let model_ref = match &self.current_model {
            Some(m) => m.clone(),
            None => {
                self.complain(NO_MODEL.to_owned());
                return;
            },
        };
        match self.resolve_client(model_ref.as_str()) {
            Some(resolved) => {
                let window: u32 = resolved.context_window;
                let start = self.make_stream_start(resolved, sent, world, Ghost(model_ref@));
                self.enter_stream(world.now, window);
                fx.push(Effect::BumpToolCache);
                fx.push(Effect::StartStream(start));
                proof {
                    assert(fx@.take(fx0.len() as int) =~= fx0);
                }
            },
            None => {},
        }
    }

    /// Sends a message of the user to the model.
    pub fn send_message(&mut self, text: &str, world: World, fx: &mut Vec<Effect>)
        ensures
            message_sent(*old(self), text@, world, *final(self), old(fx)@, final(fx)@),
    {
        let ghost whole = world;
        let mut world = world;
        let created = world.created.take();
        self.ensure_session(created, fx);
        self.stream_start_time = None;
        self.frozen_elapsed = None;
        let (shown, sent) = self.resolve_file_refs(text, &world.refs);
        let ghost noted = *self;
        let ghost fx1 = fx@;
        self.add_user_message(shown, sent.as_str(), fx);
        let ghost added = *self;
        let ghost fx2 = fx@;
        self.answer(sent, &world, fx);
        proof {
            let ready = clock_reset(session_ensured(*old(self), whole.created));
            assert(refs_noted(ready, whole.refs, noted));
            assert(user_message_added(
                noted,
                shown_text(text@, whole.refs),
                sent_text(text@, whole.refs),
                added,
                fx1,
                fx2,
            ));
            assert(answered(
                added,
                sent_text(text@, whole.refs),
                whole,
                *self,
                fx2,
                fx@,
            ));
        }
    }
}

/// After a message was sent the application is in a conversation or the last
/// block says why it is not; either way the message is stored and shown.
pub proof fn sent_message_is_kept(
    pre: App,
    text: Seq<char>,
    world: World,
    post: App,
    old_fx: Seq<Effect>,
    new_fx: Seq<Effect>,
)
    requires
        message_sent(pre, text, world, post, old_fx, new_fx),
    ensures
        pushed(pre.stored_messages@, post.stored_messages@),
        post.stored_messages@.last().role == Role::User,
        post.stored_messages@.last().text@ == sent_text(text, world.refs),
        post.messages@.len() >= 2,
        post.messages@[post.messages@.len() - 2].is_user_text(shown_text(text, world.refs)),
        post.streaming_active && post.stream_cancel && post.messages@.last().is_blank()
            || post.messages@.last() is Error,
{
    let ready = clock_reset(session_ensured(pre, world.created));
    let fx = ensure_effects(pre, world.created, old_fx);
    let (noted, added, fx2) = choose|noted: App, added: App, fx2: Seq<Effect>|
        {
            &&& #[trigger] refs_noted(ready, world.refs, noted)
            &&& #[trigger] user_message_added(
                noted,
                shown_text(text, world.refs),
                sent_text(text, world.refs),
                added,
                fx,
                fx2,
            )
            &&& #[trigger] answered(
                added,
                sent_text(text, world.refs),
                world,
                post,
                fx2,
                new_fx,
            )
        };
    assert(post.messages@.drop_last() == added.messages@);
    assert(post.messages@[post.messages@.len() - 2] == post.messages@.drop_last()[
        post.messages@.len() - 2]);
}

} // verus!
