use vstd::prelude::*;
use crate::next_connection::message_handled;
use crate::next_connection::payload;
use crate::next_connection::resumed;
use crate::next_connection::stepped;
use crate::next_connection::with_pending;
use crate::next_connection::NextActionView;
use crate::next_connection::NextEventView;
use crate::next_connection::NextView;
use crate::next_connection::Purpose;
use crate::next_connection::RingEnv;
use crate::next_connection::StageView;
use crate::previous_connection::receives;
use crate::previous_connection::PrevActionView;
use crate::previous_connection::PrevState;
use crate::ring_order::credits_of;
use crate::server_messages::actions_of;
use crate::server_messages::AccountAction;
use crate::server_messages::MessageKind;
use crate::server_messages::MessageView;
use crate::server_messages::UpdatedAccount;

verus! {

/// A sender that resumes keeps what it knows of the token: whether the site
/// holds it, the token it passed on last, and the credits that wait. It
/// leaves the store, the queue and the inbound link alone.
pub proof fn lemma_resumed_keeps_the_token(state: NextView, env: RingEnv)
    ensures
        resumed(state, env).env.have_token == env.have_token,
        resumed(state, env).env.prev_up == env.prev_up,
        resumed(state, env).env.store == env.store,
        resumed(state, env).env.queue == env.queue,
        resumed(state, env).state.last_token == state.last_token,
        resumed(state, env).state.pending_sums == state.pending_sums,
        resumed(state, env).state.id == state.id,
        resumed(state, env).state.next_id == state.next_id,
{
}

/// No step of the sender makes its site the holder of the token: a site
/// that holds the token after a step held it before.
pub proof fn lemma_sender_never_takes_the_token(
    state: NextView,
    env: RingEnv,
    event: NextEventView,
    snapshot: Seq<UpdatedAccount>,
)
    ensures
        stepped(state, env, event, snapshot).env.have_token ==> env.have_token,
{
}

/// A site becomes the holder of the token only by a token that comes in on
/// its inbound link, and no message on that link takes the token away.
pub proof fn lemma_only_a_token_makes_a_holder(
    my_id: usize,
    pre: PrevState,
    message: MessageView,
    post: PrevState,
    action: PrevActionView,
)
    requires
        receives(my_id, pre, message, post, action),
    ensures
        pre.have_token ==> post.have_token,
        post.have_token && !pre.have_token ==> message.kind is Token,
        action is ToOrdersManager <==> message.kind is Token,
{
}

/// The holder of the token answers no probe for a lost token: its receiver
/// drops the probe, and so does its sender.
pub proof fn lemma_holder_drops_probe(
    my_id: usize,
    pre: PrevState,
    message: MessageView,
    post: PrevState,
    action: PrevActionView,
    state: NextView,
    env: RingEnv,
    snapshot: Seq<UpdatedAccount>,
)
    requires
        message.kind is MaybeWeLostTheTokenTo,
        pre.have_token,
        env.have_token,
        receives(my_id, pre, message, post, action),
    ensures
        action == PrevActionView::Continue,
        message_handled(state, env, message, snapshot) == resumed(state, env),
{
}

/// Once the token has gone out on the link, the site holds it no longer,
/// remembers it as the token it passed on last, and has no credits waiting.
pub proof fn lemma_token_passed_on(
    state: NextView,
    env: RingEnv,
    token: MessageView,
    snapshot: Seq<UpdatedAccount>,
)
    requires
        state.stage == (StageView::ForwardingToken { token }),
    ensures
        !stepped(state, env, NextEventView::Sent, snapshot).env.have_token,
        stepped(state, env, NextEventView::Sent, snapshot).state.last_token == Some(token),
        stepped(state, env, NextEventView::Sent, snapshot).state.pending_sums
            == Seq::<AccountAction>::empty(),
{
}

/// When the last peer that could take the token has failed to, the site
/// holds the token no longer and its outbound link is down; the token it
/// passed on last stays the same; and the credits, and only the credits,
/// that stood on the token under this site wait for the next token.
pub proof fn lemma_token_stranded(
    state: NextView,
    env: RingEnv,
    candidates: Seq<usize>,
    position: nat,
    token: MessageView,
    snapshot: Seq<UpdatedAccount>,
)
    requires
        state.stage == (StageView::Scan {
            purpose: Purpose::Token,
            candidates,
            position,
            message: token,
        }),
        position + 1 == candidates.len(),
    ensures
        !stepped(state, env, NextEventView::ConnectFailed, snapshot).env.have_token,
        stepped(state, env, NextEventView::ConnectFailed, snapshot).state.last_token
            == state.last_token,
        stepped(state, env, NextEventView::ConnectFailed, snapshot).state.pending_sums
            == credits_of(actions_of(payload(token), state.id)),
        stepped(state, env, NextEventView::SendFailed, snapshot).state.pending_sums == credits_of(
            actions_of(payload(token), state.id),
        ),
        !stepped(state, env, NextEventView::SendFailed, snapshot).env.have_token,
{
}

/// The credits that wait at a site ride on the next token that the site
/// sends: they stand behind what the token carries for the site already,
/// and what the token carries for other sites stays as it is. They wait on
/// until the token has gone out.
pub proof fn lemma_pending_credits_ride(
    state: NextView,
    env: RingEnv,
    message: MessageView,
    token: Map<usize, Seq<AccountAction>>,
    snapshot: Seq<UpdatedAccount>,
)
    requires
        state.stage == StageView::Idle,
        state.connected,
        state.pending_sums.len() > 0,
        message.kind == MessageKind::Token(token),
    ensures
        stepped(state, env, NextEventView::Message(message), snapshot).action
            matches NextActionView::Send { message: sent } && sent.sender_id == message.sender_id
            && payload(sent) == with_pending(token, state.id, state.pending_sums) && payload(
            sent,
        )[state.id] == actions_of(token, state.id) + state.pending_sums && (forall|site: usize|
            site != state.id ==> (#[trigger] payload(sent).contains_key(site)) == token.contains_key(
                site,
            ) && (token.contains_key(site) ==> payload(sent)[site] == token[site])),
        stepped(state, env, NextEventView::Message(message), snapshot).state.pending_sums
            == state.pending_sums,
        stepped(state, env, NextEventView::Message(message), snapshot).env.have_token
            == env.have_token,
{
}

} // verus!
