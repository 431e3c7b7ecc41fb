//! What holds of what the user says: messages, interjections, and cancelling.
use crate::effects::{ChatMessage, Effect, PermissionReply};
use crate::helpers::{
    cancel_effects, cancelled, client_error, delivered, interjected, refs_noted, relative_to,
    resolves_to, sent_text, shown_text, unresolved, FileRefs,
};
use crate::input::{answered, clock_reset, message_sent, user_message_added, World};
use crate::message::{Message, Role};
use crate::prompt::{chat_views, prompt_at};
use crate::prompt_laws::{as_said, history_is_what_was_said, was_said};
use crate::providers::{after_slash, before_slash, ProviderError, ResolvedModel};
use crate::sessions::{ensure_effects, session_ensured};
use crate::state::{Activity, AgentMode, App, SessionInfo};
use crate::text::views;
use vstd::prelude::*;

verus! {

/// The files that were not found are those that were asked for and are not among
/// the ones that were, in order.
pub proof fn missing_files_are_all_named(paths: Seq<Seq<char>>, resolved: Seq<Seq<char>>)
    ensures
        unresolved(paths, resolved) == paths.filter(|p: Seq<char>| !resolved.contains(p)),
    decreases paths.len(),
{
    reveal(Seq::filter);
    if paths.len() > 0 {
        missing_files_are_all_named(paths.drop_last(), resolved);
    }
    assert(unresolved(paths, resolved) =~= paths.filter(|p: Seq<char>| !resolved.contains(p)));
}

/// A message without files that were found is shown and sent as it was typed,
/// any other as its references were filled in.
pub proof fn references_are_filled_in(text: Seq<char>, refs: FileRefs)
    ensures
        refs.resolved@.len() == 0 ==> shown_text(text, refs) == text && sent_text(text, refs)
            == text,
        refs.resolved@.len() > 0 ==> shown_text(text, refs) == refs.display_text@ && sent_text(
            text,
            refs,
        ) == refs.api_text@,
{
}

/// The user is told of each file that was not found, and everything else stays.
pub proof fn missing_files_are_told(pre: App, refs: FileRefs, post: App, i: int)
    requires
        refs_noted(pre, refs, post),
    ensures
        ({
            let found = views(refs.resolved@);
            let missing = views(refs.paths@).filter(|p: Seq<char>| !found.contains(p));
            let n = pre.messages@.len();
            &&& post.messages@.len() == n + missing.len()
            &&& post.messages@.subrange(0, n as int) == pre.messages@
            &&& 0 <= i < missing.len() ==> {
                &&& post.messages@[n + i] is System
                &&& post.messages@[n + i]->System_text@ == "Could not resolve file: "@ + missing[i]
            }
        }),
        post.stored_messages == pre.stored_messages,
        post.current_session == pre.current_session,
{
    let found = views(refs.resolved@);
    missing_files_are_all_named(views(refs.paths@), found);
    let n = pre.messages@.len();
    assert(post.messages@.subrange(0, n as int) =~= pre.messages@) by {
        assert(post.messages@.take(n as int) =~= pre.messages@);
    }
    let missing = unresolved(views(refs.paths@), found);
    if 0 <= i < missing.len() {
        assert(post.messages@[n + i].is_system_text("Could not resolve file: "@ + missing[i]));
    }
}

proof fn lemma_sent(
    pre: App,
    text: Seq<char>,
    world: World,
    post: App,
    old_fx: Seq<Effect>,
    new_fx: Seq<Effect>,
) -> (r: (App, App, Seq<Effect>))
    requires
        message_sent(pre, text, world, post, old_fx, new_fx),
    ensures
        refs_noted(clock_reset(session_ensured(pre, world.created)), world.refs, r.0),
        user_message_added(
            r.0,
            shown_text(text, world.refs),
            sent_text(text, world.refs),
            r.1,
            ensure_effects(pre, world.created, old_fx),
            r.2,
        ),
        answered(r.1, sent_text(text, world.refs), world, post, r.2, new_fx),
{
    let ready = clock_reset(session_ensured(pre, world.created));
    let fx = ensure_effects(pre, world.created, old_fx);
    let (noted, added, fx2) = choose|noted: App, added: App, fx2: Seq<Effect>|
        {
            &&& #[trigger] refs_noted(ready, world.refs, noted)
            &&& #[trigger] user_message_added(
                noted,
                shown_text(text, world.refs),
                sent_text(text, world.refs),
                added,
                fx,
                fx2,
            )
            &&& #[trigger] answered(
                added,
                sent_text(text, world.refs),
                world,
                post,
                fx2,
                new_fx,
            )
        };
    (noted, added, fx2)
}

/// A message that is sent is stored behind all that was stored, under the
/// session; all blocks stay, and it is shown behind them.
pub proof fn message_is_stored_and_shown(
    pre: App,
    text: Seq<char>,
    world: World,
    post: App,
    old_fx: Seq<Effect>,
    new_fx: Seq<Effect>,
)
    requires
        message_sent(pre, text, world, post, old_fx, new_fx),
        world.refs.paths@.len() == 0,
        world.refs.resolved@.len() == 0,
    ensures
        post.stored_messages@.len() == pre.stored_messages@.len() + 1,
        post.stored_messages@.drop_last() == pre.stored_messages@,
        post.stored_messages@.last().role == Role::User,
        post.stored_messages@.last().text@ == text,
        pre.current_session matches Some(s) ==> post.stored_messages@.last().session_id@ == s.id@,
        pre.current_session is None && world.created is Some
            ==> post.stored_messages@.last().session_id@ == world.created->Some_0.id@,
        post.messages@.len() == pre.messages@.len() + 2,
        post.messages@.subrange(0, pre.messages@.len() as int) == pre.messages@,
        post.messages@[pre.messages@.len() as int] is User,
        post.messages@[pre.messages@.len() as int]->User_text@ == text,
        pre.current_session is Some ==> post.current_session == pre.current_session,
        pre.current_session is None ==> post.current_session == world.created,
{
    let (noted, added, fx2) = lemma_sent(pre, text, world, post, old_fx, new_fx);
    let ready = clock_reset(session_ensured(pre, world.created));
    let n = pre.messages@.len() as int;
    missing_files_are_told(ready, world.refs, noted, 0);
    assert(views(world.refs.paths@) =~= Seq::<Seq<char>>::empty());
    reveal(Seq::filter);
    assert(noted.messages@ =~= pre.messages@);
    assert(post.messages@.drop_last() == added.messages@);
    assert(added.messages@.drop_last() == noted.messages@);
    assert(post.messages@[n] == post.messages@.drop_last()[n]);
    assert forall|k: int| 0 <= k < n implies #[trigger] post.messages@[k] == pre.messages@[k] by {
        assert(post.messages@[k] == post.messages@.drop_last()[k]);
        assert(added.messages@[k] == added.messages@.drop_last()[k]);
    }
    assert(post.messages@.subrange(0, n) =~= pre.messages@);
}

/// Where a conversation can begin, it begins with all that was said before, each
/// under its role, and with what the user says now; the model, the session and
/// the mode are those at hand.
pub proof fn conversation_is_sent_whole(
    pre: App,
    text: Seq<char>,
    world: World,
    post: App,
    old_fx: Seq<Effect>,
    new_fx: Seq<Effect>,
)
    requires
        message_sent(pre, text, world, post, old_fx, new_fx),
        post.messages@.last() is Assistant,
    ensures
        new_fx.len() > 0,
        new_fx.last() is StartStream,
        ({
            let start = new_fx.last()->StartStream_0;
            &&& start.history@.len() == pre.stored_messages@.filter(|m: Message| was_said(m)).len()
            &&& forall|i: int|
                0 <= i < start.history@.len() ==> {
                    let m = pre.stored_messages@.filter(|m: Message| was_said(m))[i];
                    match #[trigger] start.history@[i] {
                        ChatMessage::User(t) => m.role == Role::User && t@ == m.text@,
                        ChatMessage::Assistant(t) => m.role == Role::Assistant && t@ == m.text@,
                    }
                }
            &&& start.user_message@ == sent_text(text, world.refs)
            &&& post.current_session is Some ==> start.session_id@ == post.current_session->Some_0.id@
            &&& start.is_plan_mode == (pre.mode == AgentMode::Plan)
            &&& pre.current_model is Some
            &&& start.resolved.provider_id@ == before_slash(pre.current_model->Some_0@)
            &&& start.resolved.model_id@ == after_slash(pre.current_model->Some_0@)
            &&& start.resolved.context_window > 0 ==> start.context_window == Some(
                start.resolved.context_window as u64,
            )
            &&& start.resolved.context_window == 0 ==> start.context_window is None
            &&& pre.config.small_model is None ==> start.small_model is None
            &&& pre.config.small_model is Some && pre.provider_registry->Some_0.lookup(
                pre.config.small_model->Some_0@,
            ) is Ok ==> start.small_model is Some && start.small_model->Some_0@
                == pre.provider_registry->Some_0.lookup(pre.config.small_model->Some_0@)->Ok_0.id@
            &&& start.system_prompt is Some <==> prompt_at(
                App {
                    current_session: post.current_session,
                    stored_messages: post.stored_messages,
                    ..pre
                },
                world.at,
                world.prompt,
            ) is Some
        }),
        post.streaming_active,
        post.is_loading,
        post.stream_start_time == Some(world.now),
        post.streaming_message is Some,
        post.streaming_message->Some_0.role == Role::Assistant,
        post.streaming_message->Some_0.text@ == ""@,
        post.status_line_state.activity == Activity::Thinking,
{
    let (noted, added, fx2) = lemma_sent(pre, text, world, post, old_fx, new_fx);
    let earlier = pre.stored_messages@;
    assert(added.stored_messages@ =~= earlier.push(added.stored_messages@.last()));
    history_is_what_was_said(earlier, added.stored_messages@.last());
    let start = new_fx.last()->StartStream_0;
    let said = earlier.filter(|m: Message| was_said(m));
    let told = said.map_values(|m: Message| as_said(m));
    assert(chat_views(start.history@) == told);
    assert(chat_views(start.history@).len() == start.history@.len());
    assert forall|i: int| 0 <= i < start.history@.len() implies match #[trigger] start.history@[i] {
        ChatMessage::User(t) => said[i].role == Role::User && t@ == said[i].text@,
        ChatMessage::Assistant(t) => said[i].role == Role::Assistant && t@ == said[i].text@,
    } by {
        assert(chat_views(start.history@)[i] == told[i]);
    }
}

/// Where no conversation can begin, the user is told why, and nothing is under
/// way that was not.
pub proof fn refusal_is_told(
    pre: App,
    text: Seq<char>,
    world: World,
    post: App,
    old_fx: Seq<Effect>,
    new_fx: Seq<Effect>,
)
    requires
        message_sent(pre, text, world, post, old_fx, new_fx),
        post.messages@.last() is Error,
    ensures
        post.streaming_active == pre.streaming_active,
        post.is_loading == pre.is_loading,
        pre.current_model is None ==> post.messages@.last()->Error_text@
            == "No model selected. Set 'model' in .steve.jsonc or ~/.config/steve/config.jsonc."@,
        pre.current_model is Some && pre.provider_registry is None
            ==> post.messages@.last()->Error_text@ == "No provider configured."@,
        pre.current_model is Some && pre.provider_registry is Some
            ==> client_error(pre, pre.current_model->Some_0@) is Some,
{
    let (noted, added, fx2) = lemma_sent(pre, text, world, post, old_fx, new_fx);
}

/// Without a model or a provider no conversation begins; with a model that can
/// be had, it does.
pub proof fn conversation_begins_where_it_can(
    pre: App,
    text: Seq<char>,
    world: World,
    post: App,
    old_fx: Seq<Effect>,
    new_fx: Seq<Effect>,
)
    requires
        message_sent(pre, text, world, post, old_fx, new_fx),
    ensures
        ({
            let can = pre.current_model is Some && pre.provider_registry is Some
                && pre.provider_registry->Some_0.lookup(pre.current_model->Some_0@) is Ok
                && pre.provider_registry->Some_0.has_client(
                before_slash(pre.current_model->Some_0@),
            );
            &&& can ==> post.messages@.last() is Assistant
            &&& !can ==> post.messages@.last() is Error
        }),
{
    let (noted, added, fx2) = lemma_sent(pre, text, world, post, old_fx, new_fx);
}

/// Why no client can be had: there are no providers, the model is not known, or
/// its provider is not connected.
pub proof fn reasons_are_told(app: App, model_ref: Seq<char>)
    ensures
        app.provider_registry is None ==> client_error(app, model_ref) == Some(
            "No provider configured."@,
        ),
        app.provider_registry matches Some(registry) ==> match registry.lookup(model_ref) {
            Err(ProviderError::MalformedReference) => client_error(app, model_ref) == Some(
                "Failed to resolve model: "@ + "model reference is not of the form provider/model"@,
            ),
            Err(ProviderError::UnknownProvider) => client_error(app, model_ref) == Some(
                "Failed to resolve model: "@ + "provider not found"@,
            ),
            Err(ProviderError::UnknownModel) => client_error(app, model_ref) == Some(
                "Failed to resolve model: "@ + "model not found"@,
            ),
            Err(ProviderError::NoClient) => true,
            Ok(_) => client_error(app, model_ref) == (if registry.has_client(
                before_slash(model_ref),
            ) {
                None
            } else {
                Some("no client for provider"@)
            }),
        },
{
}

/// An interjection into a conversation is handed to it, stored behind all that
/// was stored, and shown; what it said before stays.
pub proof fn interjection_is_delivered(
    pre: App,
    text: Seq<char>,
    refs: FileRefs,
    post: App,
    old_fx: Seq<Effect>,
    new_fx: Seq<Effect>,
)
    requires
        pre.interjection_tx,
        text.len() == 0 || text[0] != '/',
        interjected(pre, text, refs, true, post, old_fx, new_fx),
    ensures
        post.messages@.len() > pre.messages@.len(),
        post.messages@.subrange(0, pre.messages@.len() as int) == pre.messages@,
        post.messages@.last() is User,
        refs.resolved@.len() == 0 ==> post.messages@.last()->User_text@ == text,
        refs.resolved@.len() > 0 ==> post.messages@.last()->User_text@ == refs.display_text@,
        new_fx.len() > old_fx.len(),
        new_fx[old_fx.len() as int] is SendInterjection,
        refs.resolved@.len() == 0 ==> new_fx[old_fx.len() as int]->SendInterjection_0@ == text,
        refs.resolved@.len() > 0 ==> new_fx[old_fx.len() as int]->SendInterjection_0@
            == refs.api_text@,
        pre.current_session is None ==> post.stored_messages@ == pre.stored_messages@,
        pre.current_session matches Some(s) ==> {
            &&& post.stored_messages@.len() == pre.stored_messages@.len() + 1
            &&& post.stored_messages@.drop_last() == pre.stored_messages@
            &&& post.stored_messages@.last().role == Role::User
            &&& post.stored_messages@.last().session_id@ == s.id@
            &&& new_fx.last() == Effect::SaveMessage(post.stored_messages@.last())
        },
        post.streaming_active == pre.streaming_active,
{
    let noted = choose|noted: App|
        {
            &&& #[trigger] refs_noted(pre, refs, noted)
            &&& delivered(
                noted,
                shown_text(text, refs),
                sent_text(text, refs),
                post,
                old_fx,
                new_fx,
            )
        };
    missing_files_are_told(pre, refs, noted, 0);
    let n = pre.messages@.len() as int;
    assert(post.messages@.drop_last() == noted.messages@);
    assert forall|k: int| 0 <= k < n implies #[trigger] post.messages@[k] == pre.messages@[k] by {
        assert(post.messages@[k] == post.messages@.drop_last()[k]);
        assert(noted.messages@.subrange(0, n)[k] == noted.messages@[k]);
    }
    assert(post.messages@.subrange(0, n) =~= pre.messages@);
}

/// Cancelling adds a note and takes only a blank answer away; what was stored
/// stays, and the time it took is kept.
pub proof fn cancelling_keeps_what_was_said(pre: App, now: u64, post: App, k: int)
    requires
        cancelled(pre, now, post),
        0 <= k < pre.messages@.len(),
        k < pre.messages@.len() - 1 || !(pre.messages@[k] is Assistant)
            || pre.messages@[k]->parts@.len() > 0 || pre.messages@[k]->thinking is Some,
    ensures
        k < post.messages@.len() - 1,
        post.messages@[k] == pre.messages@[k],
        post.messages@.last() is System,
        post.messages@.last()->System_text@ == "cancelled"@,
        post.stored_messages == pre.stored_messages,
        post.current_session == pre.current_session,
        pre.stream_start_time matches Some(start) ==> (now >= start ==> post.frozen_elapsed == Some(
            (now - start) as u64,
        )),
        !post.is_loading,
        !post.streaming_active,
        post.pending_permission is None,
        post.pending_question is None,
{
    assert(post.messages@[k] == post.messages@.drop_last()[k]);
}

/// Cancelling stops the conversation, denies what waits for permission, and
/// answers a question that waits; it asks for nothing else.
pub proof fn cancelling_answers_what_waits(pre: App, old_fx: Seq<Effect>, new_fx: Seq<Effect>)
    requires
        cancel_effects(pre, old_fx, new_fx),
    ensures
        ({
            let n = old_fx.len() as int;
            let s: int = if pre.stream_cancel {
                1
            } else {
                0
            };
            let p: int = if pre.pending_permission is Some {
                1
            } else {
                0
            };
            let q: int = if pre.pending_question is Some {
                1
            } else {
                0
            };
            &&& new_fx.len() == n + s + p + q
            &&& forall|i: int| 0 <= i < n ==> #[trigger] new_fx[i] == old_fx[i]
            &&& pre.stream_cancel ==> new_fx[n] == Effect::CancelStream
            &&& pre.pending_permission is Some ==> new_fx[n + s] == Effect::ReplyPermission(
                PermissionReply::Deny,
            )
            &&& pre.pending_question is Some ==> new_fx[n + s + p] is ReplyQuestion && new_fx[n + s
                + p]->ReplyQuestion_0@ == "User cancelled."@
        }),
{
    if pre.pending_question is Some {
        assert forall|i: int| 0 <= i < new_fx.len() - 1 implies #[trigger] new_fx[i]
            == new_fx.drop_last()[i] by {}
    }
}

/// A path under the root is shown from there on; any other is shown as it is.
pub proof fn paths_are_shown_from_the_root(root: Seq<char>, rest: Seq<char>, other: Seq<char>)
    ensures
        relative_to(root, root + seq!['/'] + rest) == rest,
        relative_to(root, root).len() == 0,
        !root.is_prefix_of(other) ==> relative_to(root, other) == other,
        root.is_prefix_of(other) && other.len() > root.len() && other[root.len() as int] != '/'
            ==> relative_to(root, other) == other,
{
    let path = root + seq!['/'] + rest;
    assert(path.subrange(0, root.len() as int) =~= root);
    assert(root.subrange(0, root.len() as int) =~= root);
    assert(path.skip(root.len() as int) =~= seq!['/'] + rest);
    assert((seq!['/'] + rest).skip(1) =~= rest);
}

/// A session that is at hand is kept; only without one a new one is taken, and
/// then it is recorded.
pub proof fn session_at_hand_is_kept(pre: App, created: Option<SessionInfo>, old_fx: Seq<Effect>)
    ensures
        pre.current_session is Some ==> session_ensured(pre, created) == pre && ensure_effects(
            pre,
            created,
            old_fx,
        ) == old_fx,
        pre.current_session is None ==> session_ensured(pre, created).current_session == created
            && session_ensured(pre, created).messages == pre.messages && session_ensured(
            pre,
            created,
        ).stored_messages == pre.stored_messages,
        pre.current_session is None && created is Some ==> {
            let fx = ensure_effects(pre, created, old_fx);
            &&& fx.len() == old_fx.len() + 1
            &&& fx.drop_last() == old_fx
            &&& fx.last() is RecordSession
        },
{
    if pre.current_session is None && created is Some {
        assert(ensure_effects(pre, created, old_fx).drop_last() =~= old_fx);
    }
}

/// A model is resolved to what the registry holds of it.
pub proof fn model_is_resolved(app: App, model_ref: Seq<char>, m: ResolvedModel)
    requires
        resolves_to(app, model_ref, m),
    ensures
        app.provider_registry is Some,
        app.provider_registry->Some_0.lookup(model_ref) is Ok,
        m.api_model_id@ == app.provider_registry->Some_0.lookup(model_ref)->Ok_0.id@,
        m.context_window == app.provider_registry->Some_0.lookup(model_ref)->Ok_0.context_window,
        m.provider_id@ == before_slash(model_ref),
        m.model_id@ == after_slash(model_ref),
{
}

} // verus!
