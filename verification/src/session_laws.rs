//! What holds of sessions that are resumed, switched to and named.
use crate::blocks::{AssistantPart, MessageBlock};
use crate::effects::Effect;
use crate::message::{Message, Role};
use crate::sessions::{
    count_user, ensure_effects, first_user_text, is_untitled, messages_loaded, prune_effects,
    record_of, resumed, session_ensured, shows, switch_effects, switched, titled, StoredSession,
};
use crate::state::{App, ProjectInfo, SessionInfo};
use vstd::prelude::*;

verus! {

/// Whether a block shows a message: one of the user as what the user said, one
/// of the assistant as its one text.
pub open spec fn block_is(block: MessageBlock, m: Message) -> bool {
    match m.role {
        Role::User => block matches MessageBlock::User { text } && text@ == m.text@,
        Role::Assistant => {
            &&& block matches MessageBlock::Assistant { thinking, parts }
            &&& thinking is None
            &&& parts@.len() == 1
            &&& parts@[0] matches AssistantPart::Text(t)
            &&& t@ == m.text@
        },
        Role::System => false,
    }
}

/// The blocks that show stored messages show each message of the user and of
/// the assistant, in order and as whose it is, and nothing else.
pub proof fn each_message_is_shown(blocks: Seq<MessageBlock>, messages: Seq<Message>)
    requires
        shows(blocks, messages),
    ensures
        ({
            let spoken = messages.filter(|m: Message| m.role != Role::System);
            &&& blocks.len() == spoken.len()
            &&& forall|i: int| 0 <= i < blocks.len() ==> block_is(#[trigger] blocks[i], spoken[i])
        }),
    decreases messages.len(),
{
    reveal(Seq::filter);
    let pred = |m: Message| m.role != Role::System;
    if messages.len() > 0 {
        let m = messages.last();
        let front = messages.drop_last();
        if m.role == Role::System {
            each_message_is_shown(blocks, front);
        } else {
            each_message_is_shown(blocks.drop_last(), front);
            let spoken = messages.filter(pred);
            let before = front.filter(pred);
            assert(spoken == before.push(m));
            assert forall|i: int| 0 <= i < blocks.len() implies block_is(
                #[trigger] blocks[i],
                spoken[i],
            ) by {
                if i < blocks.len() - 1 {
                    assert(blocks.drop_last()[i] == blocks[i]);
                    assert(spoken[i] == before[i]);
                }
            }
        }
    }
}

/// A block of the user is shown for each stored message of the user and for no
/// other; and so many exchanges are counted.
pub proof fn user_blocks_are_user_messages(blocks: Seq<MessageBlock>, messages: Seq<Message>)
    requires
        shows(blocks, messages),
    ensures
        count_user(messages) == messages.filter(|m: Message| m.role == Role::User).len(),
        blocks.filter(|b: MessageBlock| b is User).len() == messages.filter(
            |m: Message| m.role == Role::User,
        ).len(),
        blocks.filter(|b: MessageBlock| b is Assistant).len() == messages.filter(
            |m: Message| m.role == Role::Assistant,
        ).len(),
    decreases messages.len(),
{
    reveal(Seq::filter);
    if messages.len() > 0 {
        let front = messages.drop_last();
        if messages.last().role == Role::System {
            user_blocks_are_user_messages(blocks, front);
        } else {
            user_blocks_are_user_messages(blocks.drop_last(), front);
        }
    }
}

/// A session that is resumed is shown and kept as it was stored, behind what is
/// shown already.
pub proof fn resumed_session_is_shown(pre: App, stored: StoredSession, post: App)
    requires
        resumed(pre, stored, post),
        stored.messages is Some,
    ensures
        ({
            let kept = stored.messages->Some_0@;
            let spoken = kept.filter(|m: Message| m.role != Role::System);
            let n = pre.messages@.len() as int;
            &&& post.current_session == Some(stored.session)
            &&& post.stored_messages@ == kept
            &&& post.messages@.len() == n + spoken.len()
            &&& forall|i: int| 0 <= i < n ==> #[trigger] post.messages@[i] == pre.messages@[i]
            &&& forall|i: int|
                0 <= i < spoken.len() ==> block_is(#[trigger] post.messages@[n + i], spoken[i])
            &&& kept.len() <= usize::MAX ==> post.exchange_count == kept.filter(
                |m: Message| m.role == Role::User,
            ).len()
        }),
{
    let loaded = choose|loaded: App|
        {
            &&& #[trigger] messages_loaded(pre, stored.messages, loaded)
            &&& post.messages == loaded.messages
            &&& post.stored_messages == loaded.stored_messages
            &&& post.exchange_count == loaded.exchange_count
        };
    let kept = stored.messages->Some_0@;
    let n = pre.messages@.len() as int;
    let shown = loaded.messages@.skip(n);
    each_message_is_shown(shown, kept);
    user_blocks_are_user_messages(shown, kept);
    kept.lemma_filter_len(|m: Message| m.role == Role::User);
    let spoken = kept.filter(|m: Message| m.role != Role::System);
    assert forall|i: int| 0 <= i < n implies #[trigger] post.messages@[i] == pre.messages@[i] by {
        assert(post.messages@.take(n)[i] == post.messages@[i]);
    }
    assert forall|i: int| 0 <= i < spoken.len() implies block_is(
        #[trigger] post.messages@[n + i],
        spoken[i],
    ) by {
        assert(shown[i] == post.messages@[n + i]);
    }
}

/// A session that is switched to is shown as it was stored, and then the user
/// is told of the switch.
pub proof fn switched_session_is_shown(pre: App, stored: StoredSession, post: App)
    requires
        switched(pre, stored, post),
        stored.messages is Some,
    ensures
        ({
            let kept = stored.messages->Some_0@;
            let spoken = kept.filter(|m: Message| m.role != Role::System);
            let n = spoken.len() as int;
            &&& post.current_session == Some(stored.session)
            &&& post.stored_messages@ == kept
            &&& post.messages@.len() == n + 1
            &&& forall|i: int| 0 <= i < n ==> block_is(#[trigger] post.messages@[i], spoken[i])
            &&& post.messages@[n] matches MessageBlock::System { text }
            &&& text@ == "Switched to: "@ + stored.session.title@
            &&& kept.len() <= usize::MAX ==> post.exchange_count == kept.filter(
                |m: Message| m.role == Role::User,
            ).len()
            &&& post.sidebar_state.session_title == stored.session.title
            &&& post.sidebar_state.prompt_tokens == stored.session.token_usage.prompt_tokens
            &&& post.sidebar_state.completion_tokens == stored.session.token_usage.completion_tokens
            &&& post.sidebar_state.total_tokens == stored.session.token_usage.total_tokens
            &&& post.sidebar_state.changes@.len() == 0
            &&& post.agents_files == pre.agents_files
            &&& post.config == pre.config
            &&& post.mode == pre.mode
        }),
{
    let kept = stored.messages->Some_0@;
    let (empty, loaded) = choose|empty: App, loaded: App|
        {
            &&& #[trigger] messages_loaded(empty, stored.messages, loaded)
            &&& empty.messages@.len() == 0
            &&& post.messages@.drop_last() == loaded.messages@
            &&& post.exchange_count == loaded.exchange_count
        };
    let shown = loaded.messages@.skip(0);
    assert(shown =~= loaded.messages@);
    each_message_is_shown(shown, kept);
    user_blocks_are_user_messages(shown, kept);
    kept.lemma_filter_len(|m: Message| m.role == Role::User);
    let spoken = kept.filter(|m: Message| m.role != Role::System);
    assert forall|i: int| 0 <= i < spoken.len() implies block_is(
        #[trigger] post.messages@[i],
        spoken[i],
    ) by {
        assert(shown[i] == post.messages@.drop_last()[i]);
    }
}

/// What is deleted where a session is left is that session, and only where the
/// user said nothing in it.
pub proof fn only_silent_sessions_are_deleted(app: App, fx: Seq<Effect>)
    ensures
        ({
            let spoke = exists|i: int|
                0 <= i < app.stored_messages@.len() && (#[trigger] app.stored_messages@[i]).role
                    == Role::User;
            &&& (app.current_session is None || app.exchange_count > 0 || spoke) ==> prune_effects(
                app,
                fx,
            ) == fx
            &&& app.current_session is Some && app.exchange_count == 0 && !spoke ==> prune_effects(app, fx) == fx.push(
                Effect::DeleteSession { session_id: app.current_session->Some_0.id },
            )
        }),
{
}

/// What switching asks of the outside: the conversation is stopped, a session
/// in which the user said nothing is deleted, and the new one is remembered.
pub proof fn switching_asks_in_order(pre: App, session: SessionInfo, fx: Seq<Effect>)
    ensures
        ({
            let new_fx = switch_effects(pre, session, fx);
            let n = new_fx.len() as int;
            &&& fx.is_prefix_of(new_fx)
            &&& pre.stream_cancel ==> new_fx[fx.len() as int] == Effect::CancelStream
            &&& !pre.stream_cancel ==> !(new_fx[fx.len() as int] is CancelStream)
            &&& new_fx[n - 6] == Effect::ResetToolCache
            &&& new_fx[n - 5] == (Effect::RememberSession {
                session_id: session.id,
                model_ref: session.model_ref,
            })
            &&& new_fx[n - 4] matches Effect::RecordSession(r)
            &&& r.session_id == session.id && r.title == session.title && r.model_ref
                == session.model_ref && r.project_id == pre.project.id && r.created_at
                == session.created_at
            &&& new_fx[n - 1] == Effect::RefreshSidebar
        }),
{
    let new_fx = switch_effects(pre, session, fx);
    assert(new_fx.subrange(0, fx.len() as int) =~= fx);
}

/// A session is made only where there is none, and then it is recorded.
pub proof fn session_is_made_once(pre: App, created: Option<SessionInfo>, fx: Seq<Effect>)
    ensures
        pre.current_session is Some ==> session_ensured(pre, created) == pre && ensure_effects(
            pre,
            created,
            fx,
        ) == fx,
        pre.current_session is None ==> session_ensured(pre, created).current_session == created,
        pre.current_session is None ==> session_ensured(pre, created) == (App {
            current_session: created,
            ..pre
        }),
        pre.current_session is None && created is None ==> ensure_effects(pre, created, fx) == fx,
        pre.current_session is None && created is Some ==> {
            &&& ensure_effects(pre, created, fx).len() == fx.len() + 1
            &&& ensure_effects(pre, created, fx).last() matches Effect::RecordSession(r)
            &&& r.session_id == created->Some_0.id
            &&& r.title == created->Some_0.title
            &&& r.project_id == pre.project.id
        },
{
}

/// The text that a title is taken from is the first that the user said.
pub proof fn first_text_is_the_first(blocks: Seq<MessageBlock>)
    ensures
        first_user_text(blocks) is None <==> forall|i: int|
            0 <= i < blocks.len() ==> !(#[trigger] blocks[i] is User),
        first_user_text(blocks) matches Some(t) ==> exists|i: int|
            {
                &&& 0 <= i < blocks.len()
                &&& #[trigger] blocks[i] matches MessageBlock::User { text }
                &&& text@ == t
                &&& forall|j: int| 0 <= j < i ==> !(#[trigger] blocks[j] is User)
            },
    decreases blocks.len(),
{
    if blocks.len() > 0 {
        if blocks[0] is User {
        } else {
            let rest = blocks.skip(1);
            first_text_is_the_first(rest);
            if first_user_text(rest) is None {
                assert forall|i: int| 0 <= i < blocks.len() implies !(#[trigger] blocks[i] is User) by {
                    if i > 0 {
                        assert(rest[i - 1] == blocks[i]);
                    }
                }
            } else {
                let t = first_user_text(rest)->Some_0;
                let i = choose|i: int|
                    {
                        &&& 0 <= i < rest.len()
                        &&& #[trigger] rest[i] matches MessageBlock::User { text }
                        &&& text@ == t
                        &&& forall|j: int| 0 <= j < i ==> !(#[trigger] rest[j] is User)
                    };
                assert(blocks[i + 1] == rest[i]);
                assert forall|j: int| 0 <= j < i + 1 implies !(#[trigger] blocks[j] is User) by {
                    if j > 0 {
                        assert(rest[j - 1] == blocks[j]);
                    }
                }
            }
        }
    }
}

/// A title goes to the session, to the sidebar and to what is stored, and
/// changes nothing else of the session.
pub proof fn title_is_given(
    pre: App,
    title: Seq<char>,
    post: App,
    old_fx: Seq<Effect>,
    new_fx: Seq<Effect>,
)
    requires
        pre.current_session is Some,
        title.len() > 0,
        titled(pre, title, post, old_fx, new_fx),
    ensures
        post.current_session matches Some(s) && {
            &&& s.title@ == title
            &&& s.id == pre.current_session->Some_0.id
            &&& s.model_ref == pre.current_session->Some_0.model_ref
            &&& s.token_usage == pre.current_session->Some_0.token_usage
        },
        post.sidebar_state.session_title@ == title,
        post.messages == pre.messages,
        post.stored_messages == pre.stored_messages,
        new_fx.len() == old_fx.len() + 3,
        new_fx[old_fx.len() as int] matches Effect::RenameSession { session_id, title: t }
            && session_id@ == pre.current_session->Some_0.id@ && t@ == title,
        new_fx[old_fx.len() as int + 1] matches Effect::RecordTitle { session_id, title: t } && session_id@
            == pre.current_session->Some_0.id@ && t@ == title,
{
}

/// Only the default title makes way for another.
pub proof fn untitled_means_default(app: App)
    ensures
        is_untitled(app) <==> app.current_session is Some && app.current_session->Some_0.title@
            == "New session"@,
{
}

/// What is recorded of a session is what it is, under its project.
pub proof fn record_says_what_the_session_is(project: ProjectInfo, s: SessionInfo)
    ensures
        record_of(project, s).session_id == s.id,
        record_of(project, s).project_id == project.id,
        record_of(project, s).title == s.title,
        record_of(project, s).model_ref == s.model_ref,
        record_of(project, s).created_at == s.created_at,
{
}

/// A session is gone on with by its own model where that is known, else by the
/// configured one.
pub proof fn session_keeps_its_model(pre: App, stored: StoredSession, post: App)
    requires
        resumed(pre, stored, post) || switched(pre, stored, post),
    ensures
        post.current_model is Some,
        ({
            let own = stored.session.model_ref@;
            let known = pre.provider_registry is None || pre.provider_registry->Some_0.lookup(own)
                is Ok;
            &&& known ==> post.current_model->Some_0@ == own
            &&& !known && pre.config.model is Some ==> post.current_model->Some_0@
                == pre.config.model->Some_0@
            &&& !known && pre.config.model is None ==> post.current_model->Some_0@ == own
        }),
{
}

} // verus!
