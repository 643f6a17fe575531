use vstd::prelude::*;
use crate::accounts_manager::is_snapshot_since;
use crate::accounts_manager::latest_update;
use crate::accounts_manager::lemma_latest_update;
use crate::accounts_manager::AccountsManager;
use crate::accounts_manager::StoreView;
use crate::connection_status::ConnectionStatus;
use crate::constants::CLEAN_ORDERS_TIME_IN_MS;
use crate::constants::INITIAL_WAIT_IN_MS_FOR_CONNECTION_ATTEMPT;
use crate::constants::TO_NEXT_CONN_CHANNEL_TIMEOUT_IN_MS;
use crate::errors::ServerError;
use crate::local_connection_messages::CoffeeMakerResponse;
use crate::memory_accounts_manager::MemoryAccountsManager;
use crate::offline_substract_orders_cleaner::all_failed;
use crate::offline_substract_orders_cleaner::SubstractOrdersCleaner;
use crate::orders_queue::OrdersQueue;
use crate::orders_queue::QueueView;
use crate::previous_connection::passed_on_by;
use crate::ring_order::backoff;
use crate::ring_order::connect_candidates;
use crate::ring_order::connect_order;
use crate::ring_order::credits_of;
use crate::ring_order::credits_only;
use crate::ring_order::in_between;
use crate::ring_order::is_in_between;
use crate::ring_order::next_wait;
use crate::ring_order::probe_candidates;
use crate::ring_order::probe_order;
use crate::ring_order::should_clean;
use crate::server_messages::actions_for;
use crate::server_messages::actions_of;
use crate::server_messages::append_actions;
use crate::server_messages::create_close_connection_message;
use crate::server_messages::create_new_connection_message;
use crate::server_messages::create_token_message;
use crate::server_messages::fresh_message;
use crate::server_messages::AccountAction;
use crate::server_messages::Diff;
use crate::server_messages::MessageKind;
use crate::server_messages::MessageView;
use crate::server_messages::ServerMessage;
use crate::server_messages::ServerMessageType;
use crate::server_messages::UpdatedAccount;

verus! {

/// What the sender of the outbound link is told: how the thing that it
/// asked for last has ended.
#[derive(Debug)]
pub enum NextEvent {
    /// The sender starts.
    Started,
    /// After `Receive`: a message for the next site.
    Message(ServerMessage),
    /// After `Receive`: no message came in time.
    Timeout,
    /// After `Receive`: no message will ever come again.
    Disconnected,
    /// After `Send` or `Connect`: the message went out.
    Sent,
    /// After `Send` or `Connect`: there is a link, but the message did not
    /// go out on it. The link is dropped.
    SendFailed,
    /// After `Connect` or `Open`: no link could be opened.
    ConnectFailed,
    /// After `Open`: the link is open and set aside.
    Opened,
    /// After `Replace`, `Sleep` or `Respond`: done.
    Done,
}

/// An event as a plain value.
pub enum NextEventView {
    Started,
    Message(MessageView),
    Timeout,
    Disconnected,
    Sent,
    SendFailed,
    ConnectFailed,
    Opened,
    Done,
}

impl View for NextEvent {
    type V = NextEventView;

    open spec fn view(&self) -> NextEventView {
        match *self {
            NextEvent::Started => NextEventView::Started,
            NextEvent::Message(message) => NextEventView::Message(message@),
            NextEvent::Timeout => NextEventView::Timeout,
            NextEvent::Disconnected => NextEventView::Disconnected,
            NextEvent::Sent => NextEventView::Sent,
            NextEvent::SendFailed => NextEventView::SendFailed,
            NextEvent::ConnectFailed => NextEventView::ConnectFailed,
            NextEvent::Opened => NextEventView::Opened,
            NextEvent::Done => NextEventView::Done,
        }
    }
}

/// What the sender of the outbound link asks for. Whoever drives the sender
/// does it and reports how it ended, with one of the events named here.
#[derive(Debug)]
pub enum NextAction {
    /// Wait for a message for the next site, this long at most: `Message`,
    /// `Timeout` or `Disconnected`.
    Receive { timeout_ms: u64 },
    /// Send the message on the link: `Sent` or `SendFailed`.
    Send { message: ServerMessage },
    /// Open a link to the peer, make it the link in place of the one there
    /// is, and send the message on it: `Sent`, `SendFailed` or
    /// `ConnectFailed`.
    Connect { peer: usize, message: ServerMessage },
    /// Open a link to the peer and set it aside: `Opened` or
    /// `ConnectFailed`.
    Open { peer: usize },
    /// Send the farewell on the link, however that ends, and make the link
    /// that was set aside the link: `Done`.
    Replace { farewell: ServerMessage },
    /// Sleep this long: `Done`.
    Sleep { ms: u64 },
    /// Hand each answer to its coffee maker: `Done`.
    Respond { responses: Vec<(CoffeeMakerResponse, usize)> },
    /// The sender has ended, and how.
    Stop { outcome: Result<(), ServerError> },
}

/// An action as a plain value.
pub enum NextActionView {
    Receive { timeout_ms: u64 },
    Send { message: MessageView },
    Connect { peer: usize, message: MessageView },
    Open { peer: usize },
    Replace { farewell: MessageView },
    Sleep { ms: u64 },
    Respond { responses: Seq<(CoffeeMakerResponse, usize)> },
    Stop { outcome: Result<(), ServerError> },
}

impl View for NextAction {
    type V = NextActionView;

    open spec fn view(&self) -> NextActionView {
        match *self {
            NextAction::Receive { timeout_ms } => NextActionView::Receive { timeout_ms },
            NextAction::Send { message } => NextActionView::Send { message: message@ },
            NextAction::Connect { peer, message } => NextActionView::Connect {
                peer,
                message: message@,
            },
            NextAction::Open { peer } => NextActionView::Open { peer },
            NextAction::Replace { farewell } => NextActionView::Replace { farewell: farewell@ },
            NextAction::Sleep { ms } => NextActionView::Sleep { ms },
            NextAction::Respond { responses } => NextActionView::Respond { responses: responses@ },
            NextAction::Stop { outcome } => NextActionView::Stop { outcome },
        }
    }
}

/// What a site looks for a peer for.
#[derive(Debug, Clone, Copy, PartialEq, Eq, Structural)]
pub enum Purpose {
    /// To join the ring, after a wait of `wait` milliseconds where nobody
    /// answers.
    Join { wait: u64 },
    /// To pass on the token that the next site did not take.
    Token,
    /// To send the token that it passed on last once more, in place of one
    /// that was lost.
    Reinject,
    /// To pass on a probe for a lost token that the next site did not take.
    Probe,
}

/// Where the sender stands: what it asked for last, and what it needs to
/// remember to go on.
#[derive(Debug)]
pub enum Stage {
    /// Not started yet.
    Boot,
    /// Waiting for a message.
    Idle,
    /// Trying the peer at `position` of `candidates` with the message.
    Scan { purpose: Purpose, candidates: Vec<usize>, position: usize, message: ServerMessage },
    /// Asleep between two attempts to join.
    Sleeping { wait: u64 },
    /// Handing out the answers to the reservations that were given up.
    Cleaning { wait: u64 },
    /// Sending the first token of the ring.
    SendingFirstToken,
    /// Sending the token on the link.
    ForwardingToken { token: ServerMessage },
    /// Sending a probe for a lost token on the link.
    ForwardingProbe { probe: ServerMessage, lost_id: usize },
    /// Sending a join announcement on the link.
    ForwardingJoin,
    /// Opening a link to a site that joins just after this one.
    OpeningJoiner { joiner: usize, message: ServerMessage },
    /// Leaving the old next site for the one that joined.
    ReplacingLink { joiner: usize, message: ServerMessage },
    /// Ended.
    Stopped,
}

/// A stage as a plain value.
pub enum StageView {
    Boot,
    Idle,
    Scan { purpose: Purpose, candidates: Seq<usize>, position: nat, message: MessageView },
    Sleeping { wait: u64 },
    Cleaning { wait: u64 },
    SendingFirstToken,
    ForwardingToken { token: MessageView },
    ForwardingProbe { probe: MessageView, lost_id: usize },
    ForwardingJoin,
    OpeningJoiner { joiner: usize, message: MessageView },
    ReplacingLink { joiner: usize, message: MessageView },
    Stopped,
}

impl View for Stage {
    type V = StageView;

    open spec fn view(&self) -> StageView {
        match *self {
            Stage::Boot => StageView::Boot,
            Stage::Idle => StageView::Idle,
            Stage::Scan { purpose, candidates, position, message } => StageView::Scan {
                purpose,
                candidates: candidates@,
                position: position as nat,
                message: message@,
            },
            Stage::Sleeping { wait } => StageView::Sleeping { wait },
            Stage::Cleaning { wait } => StageView::Cleaning { wait },
            Stage::SendingFirstToken => StageView::SendingFirstToken,
            Stage::ForwardingToken { token } => StageView::ForwardingToken { token: token@ },
            Stage::ForwardingProbe { probe, lost_id } => StageView::ForwardingProbe {
                probe: probe@,
                lost_id,
            },
            Stage::ForwardingJoin => StageView::ForwardingJoin,
            Stage::OpeningJoiner { joiner, message } => StageView::OpeningJoiner {
                joiner,
                message: message@,
            },
            Stage::ReplacingLink { joiner, message } => StageView::ReplacingLink {
                joiner,
                message: message@,
            },
            Stage::Stopped => StageView::Stopped,
        }
    }
}

/// The sender of the outbound link as a plain value.
pub struct NextView {
    /// This site.
    pub id: usize,
    /// The number of sites of the ring.
    pub peer_count: usize,
    /// Site 0 may still link to itself, to start a ring of one.
    pub initial_connection: bool,
    /// Site 0 has yet to send out the first token.
    pub first_token_due: bool,
    /// The site that the link leads to, or led to last.
    pub next_id: usize,
    /// There is a link.
    pub connected: bool,
    /// The token as this site passed it on last.
    pub last_token: Option<MessageView>,
    /// The credits of this site that were on a token that got no further.
    pub pending_sums: Seq<AccountAction>,
    pub stage: StageView,
}

/// What the sender shares with the rest of the site: the state of the two
/// links, whether the site holds the token, the account store, and the
/// queue of orders.
pub struct RingEnv {
    pub prev_up: bool,
    pub next_up: bool,
    pub have_token: bool,
    pub store: StoreView,
    pub queue: QueueView,
}

/// Where a step leads: the sender after it, what it shares after it, and
/// what it asks for.
pub struct Outcome {
    pub state: NextView,
    pub env: RingEnv,
    pub action: NextActionView,
}

/// The payload of a token message: nothing for other messages.
pub open spec fn payload(message: MessageView) -> Map<usize, Seq<AccountAction>> {
    match message.kind {
        MessageKind::Token(token) => token,
        _ => Map::empty(),
    }
}

/// A token's payload with the credits that wait at a site added under it.
pub open spec fn with_pending(
    token: Map<usize, Seq<AccountAction>>,
    site: usize,
    pending: Seq<AccountAction>,
) -> Map<usize, Seq<AccountAction>> {
    if pending.len() == 0 {
        token
    } else {
        token.insert(site, actions_of(token, site) + pending)
    }
}

/// The sender stops for good, with an error.
pub open spec fn stopped(state: NextView, env: RingEnv, error: ServerError) -> Outcome {
    Outcome {
        state: NextView { stage: StageView::Stopped, ..state },
        env,
        action: NextActionView::Stop { outcome: Err(error) },
    }
}

/// The sender asks for the message to be tried on the candidate at
/// `position`. Site 0 uses up its one link to itself when it tries itself.
pub open spec fn attempted(
    state: NextView,
    env: RingEnv,
    purpose: Purpose,
    candidates: Seq<usize>,
    position: nat,
    message: MessageView,
) -> Outcome {
    let peer = candidates[position as int];
    Outcome {
        state: NextView {
            initial_connection: state.initial_connection && (purpose == Purpose::Probe || peer
                != state.id),
            stage: StageView::Scan { purpose, candidates, position, message },
            ..state
        },
        env,
        action: NextActionView::Connect { peer, message },
    }
}

/// The peers that a site tries when it looks for a next site.
pub open spec fn peers_to_try(state: NextView) -> Seq<usize> {
    connect_order(state.id, state.peer_count, state.id == 0 && state.initial_connection)
}

/// The sender sets out to join the ring: it announces itself, with the time
/// of the latest update that its store knows of, to the first peer that
/// takes the announcement. With no peer to try, it goes to sleep.
pub open spec fn join_begun(state: NextView, env: RingEnv, wait: u64) -> Outcome {
    let message = fresh_message(
        state.id,
        MessageKind::NewConnection { last_update: latest_update(env.store), changes: Seq::empty() },
    );
    if peers_to_try(state).len() == 0 {
        asleep(state, env, wait)
    } else {
        attempted(state, env, Purpose::Join { wait }, peers_to_try(state), 0, message)
    }
}

/// Nobody took the announcement: the outbound link is down, and the sender
/// sleeps before it tries again.
pub open spec fn asleep(state: NextView, env: RingEnv, wait: u64) -> Outcome {
    Outcome {
        state: NextView { stage: StageView::Sleeping { wait }, ..state },
        env: RingEnv { next_up: false, ..env },
        action: NextActionView::Sleep { ms: wait },
    }
}

/// The sender is done with what it was at. With the outbound link down it
/// sets out to join the ring; with the link up it waits for a message.
pub open spec fn resumed(state: NextView, env: RingEnv) -> Outcome {
    if !env.next_up {
        join_begun(state, env, INITIAL_WAIT_IN_MS_FOR_CONNECTION_ATTEMPT)
    } else {
        Outcome {
            state: NextView { stage: StageView::Idle, ..state },
            env,
            action: NextActionView::Receive { timeout_ms: TO_NEXT_CONN_CHANNEL_TIMEOUT_IN_MS },
        }
    }
}

/// The token went out: the site holds it no longer, remembers it as the
/// token it passed on last, and has no credits waiting any more.
pub open spec fn forwarded(state: NextView, env: RingEnv, token: MessageView) -> Outcome {
    resumed(
        NextView { last_token: Some(token), pending_sums: Seq::empty(), ..state },
        RingEnv { have_token: false, ..env },
    )
}

/// No peer took the token: it ends here. The site holds it no longer; the
/// credits that stood on it under this site wait for the next token, the
/// spends are given up; the outbound link is down.
pub open spec fn stranded(state: NextView, env: RingEnv, token: MessageView) -> Outcome {
    resumed(
        NextView { pending_sums: credits_of(actions_of(payload(token), state.id)), ..state },
        RingEnv { have_token: false, next_up: false, ..env },
    )
}

/// The sender sets out to send the token it passed on last once more.
pub open spec fn reinject_begun(state: NextView, env: RingEnv, token: MessageView) -> Outcome {
    if peers_to_try(state).len() == 0 {
        resumed(state, RingEnv { next_up: false, ..env })
    } else {
        attempted(state, env, Purpose::Reinject, peers_to_try(state), 0, token)
    }
}

/// The sender sets out to find a peer for the token that the next site did
/// not take.
pub open spec fn token_scan_begun(state: NextView, env: RingEnv, token: MessageView) -> Outcome {
    if peers_to_try(state).len() == 0 {
        stranded(state, env, token)
    } else {
        attempted(state, env, Purpose::Token, peers_to_try(state), 0, token)
    }
}

/// No site between the next one and the lost one took the probe. A site
/// whose inbound link is down has lost its connection and leaves it at
/// that. Any other takes the token for lost between itself and the lost
/// site, and sends the token it passed on last once more, if it has one.
pub open spec fn probe_exhausted(state: NextView, env: RingEnv) -> Outcome {
    let env = RingEnv { next_up: false, ..env };
    if env.prev_up && state.last_token is Some {
        reinject_begun(state, env, state.last_token->0)
    } else {
        resumed(state, env)
    }
}

/// The sender sets out to find a site for a probe that the next site did
/// not take.
pub open spec fn probe_scan_begun(
    state: NextView,
    env: RingEnv,
    probe: MessageView,
    lost_id: usize,
) -> Outcome {
    let candidates = probe_order(state.next_id, lost_id, state.peer_count);
    if candidates.len() == 0 {
        probe_exhausted(state, env)
    } else {
        attempted(state, env, Purpose::Probe, candidates, 0, probe)
    }
}

/// The candidate at `position` did not take the message: the next one is
/// tried; after the last one the search has failed.
pub open spec fn scan_advanced(
    state: NextView,
    env: RingEnv,
    purpose: Purpose,
    candidates: Seq<usize>,
    position: nat,
    message: MessageView,
) -> Outcome {
    if position + 1 < candidates.len() {
        attempted(state, env, purpose, candidates, position + 1, message)
    } else {
        match purpose {
            Purpose::Join { wait } => asleep(state, env, wait),
            Purpose::Token => stranded(state, env, message),
            Purpose::Reinject => resumed(state, RingEnv { next_up: false, ..env }),
            Purpose::Probe => probe_exhausted(state, env),
        }
    }
}

/// A candidate took the message: it is the next site now. A site that has
/// joined goes on; site 0 sends out the first token after its first join. A
/// token that found a peer has been passed on.
pub open spec fn scan_succeeded(
    state: NextView,
    env: RingEnv,
    purpose: Purpose,
    peer: usize,
    message: MessageView,
) -> Outcome {
    let state = NextView { next_id: peer, connected: true, ..state };
    let env = RingEnv { next_up: true, ..env };
    match purpose {
        Purpose::Join { wait } => {
            if state.first_token_due {
                Outcome {
                    state: NextView {
                        first_token_due: false,
                        stage: StageView::SendingFirstToken,
                        ..state
                    },
                    env,
                    action: NextActionView::Send {
                        message: fresh_message(state.id, MessageKind::Token(Map::empty())),
                    },
                }
            } else {
                resumed(state, env)
            }
        },
        Purpose::Token => forwarded(state, env, message),
        _ => resumed(state, env),
    }
}

/// The link failed while a message was sent on it: it is dropped, and the
/// outbound link is down.
pub open spec fn link_dropped(state: NextView) -> NextView {
    NextView { connected: false, ..state }
}

/// The sender asks for a message to be sent on the link.
pub open spec fn sending(state: NextView, env: RingEnv, stage: StageView, message: MessageView) -> Outcome {
    Outcome {
        state: NextView { stage, ..state },
        env,
        action: NextActionView::Send { message },
    }
}

/// How the sender deals with a message for the next site.
///
/// - A join announcement of a site that belongs between this site and its
///   next one: the announcement is filled with the accounts updated after
///   the time it names (`snapshot`), and a link to the joining site is
///   opened. Any other announcement is passed on. Either way this site is
///   added to those that passed it on.
/// - A token: the credits that wait at this site are added to it, and it is
///   sent on the link, or, without a link, to the first peer that takes it.
/// - A probe for a lost token: the holder of the token drops it. The site
///   whose next site is the lost one was the last to pass the token on: it
///   sends it once more, if it has it. Any other site passes the probe on.
/// - Anything else is dropped.
pub open spec fn message_handled(
    state: NextView,
    env: RingEnv,
    message: MessageView,
    snapshot: Seq<UpdatedAccount>,
) -> Outcome {
    match message.kind {
        MessageKind::NewConnection { last_update, changes } => {
            if in_between(state.id, message.sender_id, state.next_id) {
                let filled = MessageView {
                    kind: MessageKind::NewConnection { last_update, changes: snapshot },
                    ..message
                };
                Outcome {
                    state: NextView {
                        stage: StageView::OpeningJoiner {
                            joiner: message.sender_id,
                            message: passed_on_by(filled, state.id),
                        },
                        ..state
                    },
                    env,
                    action: NextActionView::Open { peer: message.sender_id },
                }
            } else if state.connected {
                sending(state, env, StageView::ForwardingJoin, passed_on_by(message, state.id))
            } else {
                resumed(state, env)
            }
        },
        MessageKind::Token(token) => {
            let outgoing = MessageView {
                kind: MessageKind::Token(with_pending(token, state.id, state.pending_sums)),
                ..message
            };
            if state.connected {
                sending(state, env, StageView::ForwardingToken { token: outgoing }, outgoing)
            } else {
                token_scan_begun(state, env, outgoing)
            }
        },
        MessageKind::MaybeWeLostTheTokenTo(lost_id) => {
            if env.have_token {
                resumed(state, env)
            } else if state.next_id == lost_id && state.last_token is Some {
                reinject_begun(state, env, state.last_token->0)
            } else if state.connected {
                sending(
                    state,
                    env,
                    StageView::ForwardingProbe { probe: passed_on_by(message, state.id), lost_id },
                    passed_on_by(message, state.id),
                )
            } else {
                probe_scan_begun(state, env, passed_on_by(message, state.id), lost_id)
            }
        },
        MessageKind::CloseConnection => resumed(state, env),
    }
}

/// The sender has slept through a wait: the next wait is twice as long.
/// Once that exceeds the time a site may be offline before its coffee
/// makers are told, the reservations in the queue are given up, and the
/// answers are handed out before the sender tries to join again.
pub open spec fn woken(state: NextView, env: RingEnv, wait: u64) -> Outcome {
    if backoff(wait) > CLEAN_ORDERS_TIME_IN_MS {
        Outcome {
            state: NextView { stage: StageView::Cleaning { wait: backoff(wait) }, ..state },
            env: RingEnv { queue: QueueView { reservations: Seq::empty(), ..env.queue }, ..env },
            action: NextActionView::Respond { responses: all_failed(env.queue.reservations) },
        }
    } else {
        join_begun(state, env, backoff(wait))
    }
}

/// One step of the sender: what `event` leads to, for a sender in `state`
/// that shares `env` with its site. The sender leaves the stage it was at
/// (`at` is the sender without it) and goes where the event leads. An event
/// that does not answer what the sender asked for last stops the sender for
/// good.
///
/// `snapshot` stands for the accounts that the store names when a joining
/// site is taken in: `is_snapshot_since` says which they are, in no fixed
/// order.
pub open spec fn stepped(
    state: NextView,
    env: RingEnv,
    event: NextEventView,
    snapshot: Seq<UpdatedAccount>,
) -> Outcome {
    let at = NextView { stage: StageView::Stopped, ..state };
    match (state.stage, event) {
        (StageView::Boot, NextEventView::Started) => resumed(at, env),
        (StageView::Idle, NextEventView::Message(message)) => message_handled(
            at,
            env,
            message,
            snapshot,
        ),
        (StageView::Idle, NextEventView::Timeout) => resumed(
            at,
            RingEnv { next_up: env.next_up && env.prev_up, ..env },
        ),
        (StageView::Idle, NextEventView::Disconnected) => stopped(
            at,
            env,
            ServerError::ChannelError,
        ),
        (StageView::Scan { purpose, candidates, position, message }, NextEventView::Sent) => {
            if position < candidates.len() {
                scan_succeeded(at, env, purpose, candidates[position as int], message)
            } else {
                stopped(at, env, ServerError::ChannelError)
            }
        },
        (
            StageView::Scan { purpose, candidates, position, message },
            NextEventView::SendFailed,
        ) => {
            if position < candidates.len() {
                scan_advanced(
                    NextView { next_id: candidates[position as int], connected: false, ..at },
                    RingEnv { next_up: false, ..env },
                    purpose,
                    candidates,
                    position,
                    message,
                )
            } else {
                stopped(at, env, ServerError::ChannelError)
            }
        },
        (
            StageView::Scan { purpose, candidates, position, message },
            NextEventView::ConnectFailed,
        ) => scan_advanced(at, env, purpose, candidates, position, message),
        (StageView::Sleeping { wait }, NextEventView::Done) => woken(at, env, wait),
        (StageView::Cleaning { wait }, NextEventView::Done) => join_begun(at, env, wait),
        (StageView::SendingFirstToken, NextEventView::Sent) => resumed(at, env),
        (StageView::SendingFirstToken, NextEventView::SendFailed) => stopped(
            link_dropped(at),
            RingEnv { next_up: false, ..env },
            ServerError::ConnectionLost,
        ),
        (StageView::ForwardingToken { token }, NextEventView::Sent) => forwarded(at, env, token),
        (StageView::ForwardingToken { token }, NextEventView::SendFailed) => token_scan_begun(
            link_dropped(at),
            RingEnv { next_up: false, ..env },
            token,
        ),
        (StageView::ForwardingProbe { probe, lost_id }, NextEventView::Sent) => resumed(at, env),
        (StageView::ForwardingProbe { probe, lost_id }, NextEventView::SendFailed) => {
            probe_scan_begun(link_dropped(at), RingEnv { next_up: false, ..env }, probe, lost_id)
        },
        (StageView::ForwardingJoin, NextEventView::Sent) => resumed(at, env),
        (StageView::ForwardingJoin, NextEventView::SendFailed) => resumed(
            link_dropped(at),
            RingEnv { next_up: false, ..env },
        ),
        (StageView::OpeningJoiner { joiner, message }, NextEventView::Opened) => Outcome {
            state: NextView { stage: StageView::ReplacingLink { joiner, message }, ..at },
            env,
            action: NextActionView::Replace {
                farewell: fresh_message(at.id, MessageKind::CloseConnection),
            },
        },
        (StageView::OpeningJoiner { joiner, message }, NextEventView::ConnectFailed) => resumed(
            at,
            env,
        ),
        (StageView::ReplacingLink { joiner, message }, NextEventView::Done) => sending(
            NextView { next_id: joiner, connected: true, ..at },
            RingEnv { next_up: true, ..env },
            StageView::ForwardingJoin,
            message,
        ),
        _ => stopped(at, env, ServerError::ChannelError),
    }
}

/// What the sender shares with its site, put together.
pub open spec fn env_of(
    status: ConnectionStatus,
    have_token: bool,
    store: StoreView,
    queue: QueueView,
) -> RingEnv {
    RingEnv { prev_up: status.prev_up(), next_up: status.next_up(), have_token, store, queue }
}

/// Where a step has led, put together.
pub open spec fn outcome_of(state: NextView, env: RingEnv, action: NextActionView) -> Outcome {
    Outcome { state, env, action }
}

/// `snapshot` is what the store names for a joining site that the sender
/// takes in; any list will do for a message that is no such announcement.
pub open spec fn names_joiner(
    state: NextView,
    store: StoreView,
    message: MessageView,
    snapshot: Seq<UpdatedAccount>,
) -> bool {
    match message.kind {
        MessageKind::NewConnection { last_update, changes } => in_between(
            state.id,
            message.sender_id,
            state.next_id,
        ) ==> is_snapshot_since(store, last_update, snapshot),
        _ => true,
    }
}

/// `snapshot` is what the store names for the event, where the event has
/// the sender take a joining site in; any list will do otherwise.
pub open spec fn snapshot_fits(
    state: NextView,
    env: RingEnv,
    event: NextEventView,
    snapshot: Seq<UpdatedAccount>,
) -> bool {
    match (state.stage, event) {
        (StageView::Idle, NextEventView::Message(message)) => names_joiner(
            state,
            env.store,
            message,
            snapshot,
        ),
        _ => true,
    }
}

/// The sender of the outbound link of a site. It owns the link to the next
/// site: it joins the ring, passes on what the site has for the ring, and
/// finds a new next site, and the token, when they are lost.
#[derive(Debug)]
pub struct NextConnection {
    id: usize,
    peer_count: usize,
    initial_connection: bool,
    first_token_due: bool,
    next_id: usize,
    connected: bool,
    last_token: Option<ServerMessage>,
    pending_sums: Vec<AccountAction>,
    stage: Stage,
}

impl View for NextConnection {
    type V = NextView;

    closed spec fn view(&self) -> NextView {
        NextView {
            id: self.id,
            peer_count: self.peer_count,
            initial_connection: self.initial_connection,
            first_token_due: self.first_token_due,
            next_id: self.next_id,
            connected: self.connected,
            last_token: match self.last_token {
                Some(token) => Some(token@),
                None => None,
            },
            pending_sums: self.pending_sums@,
            stage: self.stage@,
        }
    }
}

/// The sender of a site before it starts. Site 0 starts the ring: it may
/// link to itself once, and sends out the first token.
pub open spec fn at_boot(id: usize, peer_count: usize) -> NextView {
    NextView {
        id,
        peer_count,
        initial_connection: id == 0,
        first_token_due: id == 0,
        next_id: id,
        connected: false,
        last_token: None,
        pending_sums: Seq::empty(),
        stage: StageView::Boot,
    }
}

impl NextConnection {
    /// The sender of site `id` in a ring of `peer_count` sites.
    pub fn new(id: usize, peer_count: usize) -> (sender: NextConnection)
        ensures
            sender@ == at_boot(id, peer_count),
    {
        NextConnection {
            id,
            peer_count,
            initial_connection: id == 0,
            first_token_due: id == 0,
            next_id: id,
            connected: false,
            last_token: None,
            pending_sums: Vec::new(),
            stage: Stage::Boot,
        }
    }

    /// The site that the link leads to, or led to last.
    pub fn next_id(&self) -> (next_id: usize)
        ensures
            next_id == self@.next_id,
    {
        self.next_id
    }

    /// Whether there is a link.
    pub fn is_connected(&self) -> (connected: bool)
        ensures
            connected == self@.connected,
    {
        self.connected
    }

    /// The credits of this site that wait for the next token.
    pub fn pending_credits(&self) -> (pending: Vec<AccountAction>)
        ensures
            pending@ == self@.pending_sums,
    {
        crate::server_messages::copy_list(&self.pending_sums)
    }

    /// A copy of the token as this site passed it on last.
    pub fn last_token(&self) -> (token: Option<ServerMessage>)
        ensures
            token is Some == self@.last_token is Some,
            token matches Some(copy) ==> copy@ == self@.last_token->0,
    {
        match &self.last_token {
            Some(token) => Some(token.clone()),
            None => None,
        }
    }

    fn stop(
        &mut self,
        error: ServerError,
        status: &mut ConnectionStatus,
        have_token: &mut bool,
        accounts: &MemoryAccountsManager,
        orders: &mut OrdersQueue,
    ) -> (action: NextAction)
        ensures
            outcome_of(
                final(self)@,
                env_of(*final(status), *final(have_token), accounts@, final(orders)@),
                action@,
            ) == stopped(
                old(self)@,
                env_of(*old(status), *old(have_token), accounts@, old(orders)@),
                error,
            ),
    {
        self.stage = Stage::Stopped;
        NextAction::Stop { outcome: Err(error) }
    }

    fn attempt(
        &mut self,
        purpose: Purpose,
        candidates: Vec<usize>,
        position: usize,
        message: ServerMessage,
        status: &mut ConnectionStatus,
        have_token: &mut bool,
        accounts: &MemoryAccountsManager,
        orders: &mut OrdersQueue,
    ) -> (action: NextAction)
        requires
            position < candidates@.len(),
        ensures
            outcome_of(
                final(self)@,
                env_of(*final(status), *final(have_token), accounts@, final(orders)@),
                action@,
            ) == attempted(
                old(self)@,
                env_of(*old(status), *old(have_token), accounts@, old(orders)@),
                purpose,
                candidates@,
                position as nat,
                message@,
            ),
    {
        let peer = candidates[position];
        let probing = match purpose {
            Purpose::Probe => true,
            _ => false,
        };
        if !probing && peer == self.id {
            self.initial_connection = false;
        }
        let copy = message.clone();
        self.stage = Stage::Scan { purpose, candidates, position, message };
        NextAction::Connect { peer, message: copy }
    }

    fn sleep(
        &mut self,
        wait: u64,
        status: &mut ConnectionStatus,
        have_token: &mut bool,
        accounts: &MemoryAccountsManager,
        orders: &mut OrdersQueue,
    ) -> (action: NextAction)
        ensures
            outcome_of(
                final(self)@,
                env_of(*final(status), *final(have_token), accounts@, final(orders)@),
                action@,
            ) == asleep(
                old(self)@,
                env_of(*old(status), *old(have_token), accounts@, old(orders)@),
                wait,
            ),
    {
        status.set_next_offline();
        self.stage = Stage::Sleeping { wait };
        NextAction::Sleep { ms: wait }
    }

    fn begin_join(
        &mut self,
        wait: u64,
        status: &mut ConnectionStatus,
        have_token: &mut bool,
        accounts: &MemoryAccountsManager,
        orders: &mut OrdersQueue,
    ) -> (action: NextAction)
        ensures
            outcome_of(
                final(self)@,
                env_of(*final(status), *final(have_token), accounts@, final(orders)@),
                action@,
            ) == join_begun(
                old(self)@,
                env_of(*old(status), *old(have_token), accounts@, old(orders)@),
                wait,
            ),
    {
        let latest = accounts.get_most_recent_update();
        proof {
            lemma_latest_update(accounts@, latest);
        }
        let message = create_new_connection_message(self.id, latest);
        let candidates = connect_candidates(
            self.id,
            self.peer_count,
            self.id == 0 && self.initial_connection,
        );
        if candidates.len() == 0 {
            self.sleep(wait, status, have_token, accounts, orders)
        } else {
            self.attempt(
                Purpose::Join { wait },
                candidates,
                0,
                message,
                status,
                have_token,
                accounts,
                orders,
            )
        }
    }

    fn resume(
        &mut self,
        status: &mut ConnectionStatus,
        have_token: &mut bool,
        accounts: &MemoryAccountsManager,
        orders: &mut OrdersQueue,
    ) -> (action: NextAction)
        ensures
            outcome_of(
                final(self)@,
                env_of(*final(status), *final(have_token), accounts@, final(orders)@),
                action@,
            ) == resumed(
                old(self)@,
                env_of(*old(status), *old(have_token), accounts@, old(orders)@),
            ),
    {
        if !status.is_next_online() {
            self.begin_join(
                INITIAL_WAIT_IN_MS_FOR_CONNECTION_ATTEMPT,
                status,
                have_token,
                accounts,
                orders,
            )
        } else {
            self.stage = Stage::Idle;
            NextAction::Receive { timeout_ms: TO_NEXT_CONN_CHANNEL_TIMEOUT_IN_MS }
        }
    }

    fn token_forwarded(
        &mut self,
        token: ServerMessage,
        status: &mut ConnectionStatus,
        have_token: &mut bool,
        accounts: &MemoryAccountsManager,
        orders: &mut OrdersQueue,
    ) -> (action: NextAction)
        ensures
            outcome_of(
                final(self)@,
                env_of(*final(status), *final(have_token), accounts@, final(orders)@),
                action@,
            ) == forwarded(
                old(self)@,
                env_of(*old(status), *old(have_token), accounts@, old(orders)@),
                token@,
            ),
    {
        self.last_token = Some(token);
        self.pending_sums = Vec::new();
        *have_token = false;
        self.resume(status, have_token, accounts, orders)
    }

    fn token_stranded(
        &mut self,
        token: ServerMessage,
        status: &mut ConnectionStatus,
        have_token: &mut bool,
        accounts: &MemoryAccountsManager,
        orders: &mut OrdersQueue,
    ) -> (action: NextAction)
        ensures
            outcome_of(
                final(self)@,
                env_of(*final(status), *final(have_token), accounts@, final(orders)@),
                action@,
            ) == stranded(
                old(self)@,
                env_of(*old(status), *old(have_token), accounts@, old(orders)@),
                token@,
            ),
    {
        let mine = match &token.message_type {
            ServerMessageType::Token(data) => actions_for(data, self.id),
            _ => Vec::new(),
        };
        self.pending_sums = credits_only(&mine);
        *have_token = false;
        status.set_next_offline();
        self.resume(status, have_token, accounts, orders)
    }

    fn begin_reinject(
        &mut self,
        token: ServerMessage,
        status: &mut ConnectionStatus,
        have_token: &mut bool,
        accounts: &MemoryAccountsManager,
        orders: &mut OrdersQueue,
    ) -> (action: NextAction)
        ensures
            outcome_of(
                final(self)@,
                env_of(*final(status), *final(have_token), accounts@, final(orders)@),
                action@,
            ) == reinject_begun(
                old(self)@,
                env_of(*old(status), *old(have_token), accounts@, old(orders)@),
                token@,
            ),
    {
        let candidates = connect_candidates(
            self.id,
            self.peer_count,
            self.id == 0 && self.initial_connection,
        );
        if candidates.len() == 0 {
            status.set_next_offline();
            self.resume(status, have_token, accounts, orders)
        } else {
            self.attempt(
                Purpose::Reinject,
                candidates,
                0,
                token,
                status,
                have_token,
                accounts,
                orders,
            )
        }
    }

    fn begin_token_scan(
        &mut self,
        token: ServerMessage,
        status: &mut ConnectionStatus,
        have_token: &mut bool,
        accounts: &MemoryAccountsManager,
        orders: &mut OrdersQueue,
    ) -> (action: NextAction)
        ensures
            outcome_of(
                final(self)@,
                env_of(*final(status), *final(have_token), accounts@, final(orders)@),
                action@,
            ) == token_scan_begun(
                old(self)@,
                env_of(*old(status), *old(have_token), accounts@, old(orders)@),
                token@,
            ),
    {
        let candidates = connect_candidates(
            self.id,
            self.peer_count,
            self.id == 0 && self.initial_connection,
        );
        if candidates.len() == 0 {
            self.token_stranded(token, status, have_token, accounts, orders)
        } else {
            self.attempt(Purpose::Token, candidates, 0, token, status, have_token, accounts, orders)
        }
    }

    fn probe_exhausted(
        &mut self,
        status: &mut ConnectionStatus,
        have_token: &mut bool,
        accounts: &MemoryAccountsManager,
        orders: &mut OrdersQueue,
    ) -> (action: NextAction)
        ensures
            outcome_of(
                final(self)@,
                env_of(*final(status), *final(have_token), accounts@, final(orders)@),
                action@,
            ) == probe_exhausted(
                old(self)@,
                env_of(*old(status), *old(have_token), accounts@, old(orders)@),
            ),
    {
        status.set_next_offline();
        if status.is_prev_online() {
            if let Some(token) = self.last_token() {
                return self.begin_reinject(token, status, have_token, accounts, orders);
            }
        }
        self.resume(status, have_token, accounts, orders)
    }

    fn begin_probe_scan(
        &mut self,
        probe: ServerMessage,
        lost_id: usize,
        status: &mut ConnectionStatus,
        have_token: &mut bool,
        accounts: &MemoryAccountsManager,
        orders: &mut OrdersQueue,
    ) -> (action: NextAction)
        ensures
            outcome_of(
                final(self)@,
                env_of(*final(status), *final(have_token), accounts@, final(orders)@),
                action@,
            ) == probe_scan_begun(
                old(self)@,
                env_of(*old(status), *old(have_token), accounts@, old(orders)@),
                probe@,
                lost_id,
            ),
    {
        let candidates = probe_candidates(self.next_id, lost_id, self.peer_count);
        if candidates.len() == 0 {
            self.probe_exhausted(status, have_token, accounts, orders)
        } else {
            self.attempt(Purpose::Probe, candidates, 0, probe, status, have_token, accounts, orders)
        }
    }

    fn advance_scan(
        &mut self,
        purpose: Purpose,
        candidates: Vec<usize>,
        position: usize,
        message: ServerMessage,
        status: &mut ConnectionStatus,
        have_token: &mut bool,
        accounts: &MemoryAccountsManager,
        orders: &mut OrdersQueue,
    ) -> (action: NextAction)
        ensures
            outcome_of(
                final(self)@,
                env_of(*final(status), *final(have_token), accounts@, final(orders)@),
                action@,
            ) == scan_advanced(
                old(self)@,
                env_of(*old(status), *old(have_token), accounts@, old(orders)@),
                purpose,
                candidates@,
                position as nat,
                message@,
            ),
    {
        if position < candidates.len() && position + 1 < candidates.len() {
            return self.attempt(
                purpose,
                candidates,
                position + 1,
                message,
                status,
                have_token,
                accounts,
                orders,
            );
        }
        match purpose {
            Purpose::Join { wait } => self.sleep(wait, status, have_token, accounts, orders),
            Purpose::Token => self.token_stranded(message, status, have_token, accounts, orders),
            Purpose::Reinject => {
                status.set_next_offline();
                self.resume(status, have_token, accounts, orders)
            },
            Purpose::Probe => self.probe_exhausted(status, have_token, accounts, orders),
        }
    }

    fn scan_succeeded(
        &mut self,
        purpose: Purpose,
        peer: usize,
        message: ServerMessage,
        status: &mut ConnectionStatus,
        have_token: &mut bool,
        accounts: &MemoryAccountsManager,
        orders: &mut OrdersQueue,
    ) -> (action: NextAction)
        ensures
            outcome_of(
                final(self)@,
                env_of(*final(status), *final(have_token), accounts@, final(orders)@),
                action@,
            ) == scan_succeeded(
                old(self)@,
                env_of(*old(status), *old(have_token), accounts@, old(orders)@),
                purpose,
                peer,
                message@,
            ),
    {
        self.next_id = peer;
        self.connected = true;
        status.set_next_online();
        match purpose {
            Purpose::Join { wait } => {
                if self.first_token_due {
                    self.first_token_due = false;
                    self.stage = Stage::SendingFirstToken;
                    NextAction::Send { message: create_token_message(self.id) }
                } else {
                    self.resume(status, have_token, accounts, orders)
                }
            },
            Purpose::Token => self.token_forwarded(message, status, have_token, accounts, orders),
            _ => self.resume(status, have_token, accounts, orders),
        }
    }

    fn drop_link(&mut self, status: &mut ConnectionStatus)
        ensures
            final(self)@ == link_dropped(old(self)@),
            !final(status).next_up(),
            final(status).prev_up() == old(status).prev_up(),
    {
        self.connected = false;
        status.set_next_offline();
    }

    fn send(
        &mut self,
        stage: Stage,
        message: ServerMessage,
        status: &mut ConnectionStatus,
        have_token: &mut bool,
        accounts: &MemoryAccountsManager,
        orders: &mut OrdersQueue,
    ) -> (action: NextAction)
        ensures
            outcome_of(
                final(self)@,
                env_of(*final(status), *final(have_token), accounts@, final(orders)@),
                action@,
            ) == sending(
                old(self)@,
                env_of(*old(status), *old(have_token), accounts@, old(orders)@),
                stage@,
                message@,
            ),
    {
        self.stage = stage;
        NextAction::Send { message }
    }

    fn handle_message(
        &mut self,
        message: ServerMessage,
        status: &mut ConnectionStatus,
        have_token: &mut bool,
        accounts: &MemoryAccountsManager,
        orders: &mut OrdersQueue,
    ) -> (action: NextAction)
        ensures
            exists|snapshot: Seq<UpdatedAccount>|
                names_joiner(old(self)@, accounts@, message@, snapshot) && outcome_of(
                    final(self)@,
                    env_of(*final(status), *final(have_token), accounts@, final(orders)@),
                    action@,
                ) == #[trigger] message_handled(
                    old(self)@,
                    env_of(*old(status), *old(have_token), accounts@, old(orders)@),
                    message@,
                    snapshot,
                ),
    {
        broadcast use vstd::std_specs::hash::group_hash_axioms;

        let ghost env = env_of(*status, *have_token, accounts@, orders@);
        let ghost unused = Seq::<UpdatedAccount>::empty();
        let sender_id = message.sender_id;
        let mut passed_by = message.passed_by;
        match message.message_type {
            ServerMessageType::NewConnection(diff) => {
                if is_in_between(self.id, sender_id, self.next_id) {
                    let changes = accounts.get_accounts_updated_after(diff.last_update);
                    let ghost snapshot = changes@;
                    passed_by.insert(self.id);
                    let filled = ServerMessage {
                        message_type: ServerMessageType::NewConnection(
                            Diff { last_update: diff.last_update, changes },
                        ),
                        sender_id,
                        passed_by,
                    };
                    self.stage = Stage::OpeningJoiner { joiner: sender_id, message: filled };
                    let action = NextAction::Open { peer: sender_id };
                    proof {
                        assert(outcome_of(
                            self@,
                            env_of(*status, *have_token, accounts@, orders@),
                            action@,
                        ) == message_handled(old(self)@, env, message@, snapshot));
                    }
                    action
                } else if self.connected {
                    passed_by.insert(self.id);
                    let passed_on = ServerMessage {
                        message_type: ServerMessageType::NewConnection(diff),
                        sender_id,
                        passed_by,
                    };
                    let action = self.send(
                        Stage::ForwardingJoin,
                        passed_on,
                        status,
                        have_token,
                        accounts,
                        orders,
                    );
                    proof {
                        assert(outcome_of(
                            self@,
                            env_of(*status, *have_token, accounts@, orders@),
                            action@,
                        ) == message_handled(old(self)@, env, message@, unused));
                    }
                    action
                } else {
                    let action = self.resume(status, have_token, accounts, orders);
                    proof {
                        assert(outcome_of(
                            self@,
                            env_of(*status, *have_token, accounts@, orders@),
                            action@,
                        ) == message_handled(old(self)@, env, message@, unused));
                    }
                    action
                }
            },
            ServerMessageType::Token(data) => {
                let mut data = data;
                if self.pending_sums.len() > 0 {
                    append_actions(&mut data, self.id, &self.pending_sums);
                }
                let outgoing = ServerMessage {
                    message_type: ServerMessageType::Token(data),
                    sender_id,
                    passed_by,
                };
                let action = if self.connected {
                    let copy = outgoing.clone();
                    self.send(
                        Stage::ForwardingToken { token: outgoing },
                        copy,
                        status,
                        have_token,
                        accounts,
                        orders,
                    )
                } else {
                    self.begin_token_scan(outgoing, status, have_token, accounts, orders)
                };
                proof {
                    assert(outcome_of(
                        self@,
                        env_of(*status, *have_token, accounts@, orders@),
                        action@,
                    ) == message_handled(old(self)@, env, message@, unused));
                }
                action
            },
            ServerMessageType::MaybeWeLostTheTokenTo(lost_id) => {
                let action = if *have_token {
                    self.resume(status, have_token, accounts, orders)
                } else {
                    let reinject = if self.next_id == lost_id {
                        self.last_token()
                    } else {
                        None
                    };
                    match reinject {
                        Some(token) => self.begin_reinject(
                            token,
                            status,
                            have_token,
                            accounts,
                            orders,
                        ),
                        None => {
                            passed_by.insert(self.id);
                            let probe = ServerMessage {
                                message_type: ServerMessageType::MaybeWeLostTheTokenTo(lost_id),
                                sender_id,
                                passed_by,
                            };
                            if self.connected {
                                let copy = probe.clone();
                                self.send(
                                    Stage::ForwardingProbe { probe, lost_id },
                                    copy,
                                    status,
                                    have_token,
                                    accounts,
                                    orders,
                                )
                            } else {
                                self.begin_probe_scan(
                                    probe,
                                    lost_id,
                                    status,
                                    have_token,
                                    accounts,
                                    orders,
                                )
                            }
                        },
                    }
                };
                proof {
                    assert(outcome_of(
                        self@,
                        env_of(*status, *have_token, accounts@, orders@),
                        action@,
                    ) == message_handled(old(self)@, env, message@, unused));
                }
                action
            },
            ServerMessageType::CloseConnection => {
                let action = self.resume(status, have_token, accounts, orders);
                proof {
                    assert(outcome_of(
                        self@,
                        env_of(*status, *have_token, accounts@, orders@),
                        action@,
                    ) == message_handled(old(self)@, env, message@, unused));
                }
                action
            },
        }
    }

    fn wake(
        &mut self,
        wait: u64,
        status: &mut ConnectionStatus,
        have_token: &mut bool,
        accounts: &MemoryAccountsManager,
        orders: &mut OrdersQueue,
    ) -> (action: NextAction)
        ensures
            outcome_of(
                final(self)@,
                env_of(*final(status), *final(have_token), accounts@, final(orders)@),
                action@,
            ) == woken(
                old(self)@,
                env_of(*old(status), *old(have_token), accounts@, old(orders)@),
                wait,
            ),
    {
        let wait = next_wait(wait);
        if should_clean(wait) {
            let cleaner = SubstractOrdersCleaner::new();
            let responses = cleaner.clean_substract_orders_if_offline(orders);
            self.stage = Stage::Cleaning { wait };
            assert(orders@ == (QueueView { reservations: Seq::empty(), ..old(orders)@ })) by {
                assert(orders@.reservations =~= Seq::empty());
            }
            NextAction::Respond { responses }
        } else {
            self.begin_join(wait, status, have_token, accounts, orders)
        }
    }

    /// One step of the sender: takes the event that answers what the sender
    /// asked for last, and gives what the sender asks for next. See
    /// `stepped` for where each event leads. The first event is `Started`.
    pub fn handle_message_to_next(
        &mut self,
        event: NextEvent,
        status: &mut ConnectionStatus,
        have_token: &mut bool,
        accounts: &MemoryAccountsManager,
        orders: &mut OrdersQueue,
    ) -> (action: NextAction)
        ensures
            exists|snapshot: Seq<UpdatedAccount>|
                snapshot_fits(
                    old(self)@,
                    env_of(*old(status), *old(have_token), accounts@, old(orders)@),
                    event@,
                    snapshot,
                ) && outcome_of(
                    final(self)@,
                    env_of(*final(status), *final(have_token), accounts@, final(orders)@),
                    action@,
                ) == #[trigger] stepped(
                    old(self)@,
                    env_of(*old(status), *old(have_token), accounts@, old(orders)@),
                    event@,
                    snapshot,
                ),
    {
        let ghost env = env_of(*status, *have_token, accounts@, orders@);
        let ghost unused = Seq::<UpdatedAccount>::empty();
        let mut stage = Stage::Stopped;
        std::mem::swap(&mut self.stage, &mut stage);
        let ghost lifted = self@;
        assert(lifted == (NextView { stage: StageView::Stopped, ..old(self)@ }));
        if let (Stage::Idle, NextEvent::Message(_)) = (&stage, &event) {
            if let NextEvent::Message(message) = event {
                let action = self.handle_message(message, status, have_token, accounts, orders);
                proof {
                    let snapshot = choose|snapshot: Seq<UpdatedAccount>|
                        names_joiner(lifted, accounts@, message@, snapshot) && outcome_of(
                            self@,
                            env_of(*status, *have_token, accounts@, orders@),
                            action@,
                        ) == #[trigger] message_handled(lifted, env, message@, snapshot);
                    assert(names_joiner(old(self)@, accounts@, message@, snapshot));
                    assert(snapshot_fits(old(self)@, env, event@, snapshot));
                    assert(outcome_of(
                        self@,
                        env_of(*status, *have_token, accounts@, orders@),
                        action@,
                    ) == stepped(old(self)@, env, event@, snapshot));
                }
                return action;
            }
        }
        let action = match (stage, event) {
            (Stage::Boot, NextEvent::Started) => self.resume(status, have_token, accounts, orders),
            (Stage::Idle, NextEvent::Timeout) => {
                if !status.is_prev_online() {
                    status.set_next_offline();
                }
                self.resume(status, have_token, accounts, orders)
            },
            (Stage::Scan { purpose, candidates, position, message }, NextEvent::Sent) => {
                if position < candidates.len() {
                    let peer = candidates[position];
                    self.scan_succeeded(purpose, peer, message, status, have_token, accounts, orders)
                } else {
                    self.stop(ServerError::ChannelError, status, have_token, accounts, orders)
                }
            },
            (Stage::Scan { purpose, candidates, position, message }, NextEvent::SendFailed) => {
                if position < candidates.len() {
                    self.next_id = candidates[position];
                    self.drop_link(status);
                    self.advance_scan(
                        purpose,
                        candidates,
                        position,
                        message,
                        status,
                        have_token,
                        accounts,
                        orders,
                    )
                } else {
                    self.stop(ServerError::ChannelError, status, have_token, accounts, orders)
                }
            },
            (Stage::Scan { purpose, candidates, position, message }, NextEvent::ConnectFailed) => {
                self.advance_scan(
                    purpose,
                    candidates,
                    position,
                    message,
                    status,
                    have_token,
                    accounts,
                    orders,
                )
            },
            (Stage::Sleeping { wait }, NextEvent::Done) => self.wake(
                wait,
                status,
                have_token,
                accounts,
                orders,
            ),
            (Stage::Cleaning { wait }, NextEvent::Done) => self.begin_join(
                wait,
                status,
                have_token,
                accounts,
                orders,
            ),
            (Stage::SendingFirstToken, NextEvent::Sent) => self.resume(
                status,
                have_token,
                accounts,
                orders,
            ),
            (Stage::SendingFirstToken, NextEvent::SendFailed) => {
                self.drop_link(status);
                self.stop(ServerError::ConnectionLost, status, have_token, accounts, orders)
            },
            (Stage::ForwardingToken { token }, NextEvent::Sent) => self.token_forwarded(
                token,
                status,
                have_token,
                accounts,
                orders,
            ),
            (Stage::ForwardingToken { token }, NextEvent::SendFailed) => {
                self.drop_link(status);
                self.begin_token_scan(token, status, have_token, accounts, orders)
            },
            (Stage::ForwardingProbe { probe, lost_id }, NextEvent::Sent) => self.resume(
                status,
                have_token,
                accounts,
                orders,
            ),
            (Stage::ForwardingProbe { probe, lost_id }, NextEvent::SendFailed) => {
                self.drop_link(status);
                self.begin_probe_scan(probe, lost_id, status, have_token, accounts, orders)
            },
            (Stage::ForwardingJoin, NextEvent::Sent) => self.resume(
                status,
                have_token,
                accounts,
                orders,
            ),
            (Stage::ForwardingJoin, NextEvent::SendFailed) => {
                self.drop_link(status);
                self.resume(status, have_token, accounts, orders)
            },
            (Stage::OpeningJoiner { joiner, message }, NextEvent::Opened) => {
                self.stage = Stage::ReplacingLink { joiner, message };
                NextAction::Replace { farewell: create_close_connection_message(self.id) }
            },
            (Stage::OpeningJoiner { joiner, message }, NextEvent::ConnectFailed) => self.resume(
                status,
                have_token,
                accounts,
                orders,
            ),
            (Stage::ReplacingLink { joiner, message }, NextEvent::Done) => {
                self.next_id = joiner;
                self.connected = true;
                status.set_next_online();
                self.send(Stage::ForwardingJoin, message, status, have_token, accounts, orders)
            },
            (Stage::Idle, NextEvent::Disconnected) => self.stop(
                ServerError::ChannelError,
                status,
                have_token,
                accounts,
                orders,
            ),
            _ => self.stop(ServerError::ChannelError, status, have_token, accounts, orders),
        };
        proof {
            assert(snapshot_fits(old(self)@, env, event@, unused));
            assert(outcome_of(
                self@,
                env_of(*status, *have_token, accounts@, orders@),
                action@,
            ) == stepped(old(self)@, env, event@, unused));
        }
        action
    }
}

} // verus!
