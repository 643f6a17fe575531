use vstd::prelude::*;
use crate::accounts_manager::replay;
use crate::accounts_manager::replay_all;
use crate::accounts_manager::take_over_all;
use crate::accounts_manager::AccountsManager;
use crate::accounts_manager::StoreView;
use crate::connection_status::ConnectionStatus;
use crate::keys::is_walk_of;
use crate::keys::keys_of;
use crate::local_connection_messages::MessageType;
use crate::memory_accounts_manager::MemoryAccountsManager;
use crate::server_messages::create_maybe_we_lost_the_token_message;
use crate::server_messages::fresh_message;
use crate::server_messages::token_view;
use crate::server_messages::AccountAction;
use crate::server_messages::Diff;
use crate::server_messages::MessageKind;
use crate::server_messages::MessageView;
use crate::server_messages::ServerMessage;
use crate::server_messages::ServerMessageType;
use crate::server_messages::TokenData;

verus! {

/// What the receiver of the inbound link does with a message once it has
/// looked at it.
#[derive(Debug)]
pub enum PrevAction {
    /// Nothing is passed on: read the next message.
    Continue,
    /// Hand the message to the sender of the outbound link.
    ToNext(ServerMessage),
    /// This site holds the token now: hand its payload to the orders manager.
    ToOrdersManager(TokenData),
    /// The previous site closed the link in good order: the receiver ends.
    Closed,
}

/// A receiver's action as a plain value.
pub enum PrevActionView {
    Continue,
    ToNext(MessageView),
    ToOrdersManager(Map<usize, Seq<AccountAction>>),
    Closed,
}

impl View for PrevAction {
    type V = PrevActionView;

    open spec fn view(&self) -> PrevActionView {
        match *self {
            PrevAction::Continue => PrevActionView::Continue,
            PrevAction::ToNext(message) => PrevActionView::ToNext(message@),
            PrevAction::ToOrdersManager(data) => PrevActionView::ToOrdersManager(token_view(data)),
            PrevAction::Closed => PrevActionView::Closed,
        }
    }
}

/// All that the receiver reads and writes when a message comes in: the site
/// it believes to be its previous one, whether the inbound link is up,
/// whether this site holds the token, and the account store.
pub struct PrevState {
    pub listening_to_id: Option<usize>,
    pub prev_up: bool,
    pub have_token: bool,
    pub store: StoreView,
}

/// The previous site after a message of `sender` that `passed_by` have
/// passed on: a receiver that knows none yet takes the sender of a message
/// that nobody passed on.
pub open spec fn heard_from(
    listening_to_id: Option<usize>,
    passed_by: Set<usize>,
    sender: usize,
) -> Option<usize> {
    if listening_to_id is None && passed_by.is_empty() {
        Some(sender)
    } else {
        listening_to_id
    }
}

/// The store after the actions of the sites in `walk` are replayed, site
/// after site, each site's actions in their order.
pub open spec fn replay_sites(
    store: StoreView,
    token: Map<usize, Seq<AccountAction>>,
    walk: Seq<usize>,
) -> StoreView
    decreases walk.len(),
{
    if walk.len() == 0 {
        store
    } else {
        replay_all(replay_sites(store, token, walk.drop_last()), token[walk.last()])
    }
}

/// `after` is `before` with all actions of the token replayed, the sites
/// taken in some order. The order is that in which the token's map hands out
/// its sites, which nothing fixes.
pub open spec fn replays_token(
    before: StoreView,
    token: Map<usize, Seq<AccountAction>>,
    after: StoreView,
) -> bool {
    exists|walk: Seq<usize>|
        is_walk_of(walk, token.dom()) && after == #[trigger] replay_sites(before, token, walk)
}

/// What a message with `my_id` added to those that passed it on looks like.
pub open spec fn passed_on_by(message: MessageView, my_id: usize) -> MessageView {
    MessageView { passed_by: message.passed_by.insert(my_id), ..message }
}

/// How the receiver of site `my_id` deals with a message: from `pre` it goes
/// to `post` and takes `action`.
///
/// - A join announcement of this site itself has come full circle: the
///   changes it gathered are taken over by the store. One that this site has
///   passed on before is dropped. Any other is handed on, this site added to
///   those that passed it on.
/// - A close notice takes the inbound link down and ends the receiver.
/// - A token makes this site the holder. Its own entry has gone round and is
///   removed; what the other sites committed is replayed on the store; the
///   rest of the payload goes to the orders manager.
/// - A probe for a lost token is dropped by the holder of the token and by a
///   site that passed it on before, and handed on by any other.
pub open spec fn receives(
    my_id: usize,
    pre: PrevState,
    message: MessageView,
    post: PrevState,
    action: PrevActionView,
) -> bool {
    let heard = heard_from(pre.listening_to_id, message.passed_by, message.sender_id);
    match message.kind {
        MessageKind::NewConnection { last_update, changes } => {
            if message.sender_id == my_id {
                &&& post == (PrevState { store: take_over_all(pre.store, changes), ..pre })
                &&& action == PrevActionView::Continue
            } else if message.passed_by.contains(my_id) {
                &&& post == pre
                &&& action == PrevActionView::Continue
            } else {
                &&& post == (PrevState { listening_to_id: heard, ..pre })
                &&& action == PrevActionView::ToNext(passed_on_by(message, my_id))
            }
        },
        MessageKind::CloseConnection => {
            &&& post == (PrevState { prev_up: false, ..pre })
            &&& action == PrevActionView::Closed
        },
        MessageKind::Token(token) => {
            &&& post.listening_to_id == heard
            &&& post.prev_up == pre.prev_up
            &&& post.have_token
            &&& replays_token(pre.store, token.remove(my_id), post.store)
            &&& action == PrevActionView::ToOrdersManager(token.remove(my_id))
        },
        MessageKind::MaybeWeLostTheTokenTo(lost) => {
            &&& post == (PrevState { listening_to_id: heard, ..pre })
            &&& action == if pre.have_token || message.passed_by.contains(my_id) {
                PrevActionView::Continue
            } else {
                PrevActionView::ToNext(message)
            }
        },
    }
}

/// A receiver's own state as a plain value.
pub struct PrevView {
    pub my_id: usize,
    pub listening_to_id: Option<usize>,
}

/// The receiver of the inbound link of a site: it looks at every message
/// that the previous site sends.
#[derive(Debug)]
pub struct PrevConnection {
    listening_to_id: Option<usize>,
    my_id: usize,
}

impl View for PrevConnection {
    type V = PrevView;

    closed spec fn view(&self) -> PrevView {
        PrevView { my_id: self.my_id, listening_to_id: self.listening_to_id }
    }
}

/// Replays one mutation that came with a token: see `replay`.
pub fn update_account_with_change(update: &AccountAction, accounts: &mut MemoryAccountsManager)
    ensures
        final(accounts)@ == replay(old(accounts)@, *update),
{
    match update.message_type {
        MessageType::AddPoints => {
            if accounts.has_room_for(update.account_id, update.points) {
                let _ = accounts.add_points(
                    update.account_id,
                    update.points,
                    Some(update.last_updated_on),
                );
            }
        },
        MessageType::TakePoints => {
            let _ = accounts.substract_points(
                update.account_id,
                update.points,
                Some(update.last_updated_on),
            );
        },
        _ => {},
    }
}

/// Replays a list of mutations in order.
pub fn update_accounts_with_changes(changes: &Vec<AccountAction>, accounts: &mut MemoryAccountsManager)
    ensures
        final(accounts)@ == replay_all(old(accounts)@, changes@),
{
    let mut i: usize = 0;
    assert(changes@.subrange(0, 0) =~= Seq::<AccountAction>::empty());
    while i < changes.len()
        invariant
            i <= changes.len(),
            accounts@ == replay_all(old(accounts)@, changes@.subrange(0, i as int)),
        decreases changes.len() - i,
    {
        update_account_with_change(&changes[i], accounts);
        assert(changes@.subrange(0, i + 1).drop_last() =~= changes@.subrange(0, i as int));
        i = i + 1;
    }
    assert(changes@.subrange(0, i as int) =~= changes@);
}

impl PrevConnection {
    /// The receiver of site `my_id`. It does not know yet which site sends
    /// to it.
    pub fn new(my_id: usize) -> (receiver: PrevConnection)
        ensures
            receiver@ == (PrevView { my_id, listening_to_id: None }),
    {
        PrevConnection { listening_to_id: None, my_id }
    }

    /// The site that this receiver believes to be the previous one.
    pub fn listening_to_id(&self) -> (id: Option<usize>)
        ensures
            id == self@.listening_to_id,
    {
        self.listening_to_id
    }

    /// Takes the sender of a message for the previous site, where none is
    /// known yet and nobody passed the message on.
    pub fn set_listening_to_id(&mut self, passed_by: &std::collections::HashSet<usize>, sender: usize)
        ensures
            final(self)@.my_id == old(self)@.my_id,
            final(self)@.listening_to_id == heard_from(
                old(self)@.listening_to_id,
                passed_by@,
                sender,
            ),
    {
        if self.listening_to_id.is_none() && passed_by.is_empty() {
            self.listening_to_id = Some(sender);
        }
    }

    /// Brings the store up to date with what a join announcement gathered
    /// on its way round the ring.
    pub fn update_myself_by_diff(&self, diff: &Diff, accounts: &mut MemoryAccountsManager)
        ensures
            final(accounts)@ == take_over_all(old(accounts)@, diff.changes@),
    {
        let mut i: usize = 0;
        assert(diff.changes@.subrange(0, 0) =~= Seq::empty());
        while i < diff.changes.len()
            invariant
                i <= diff.changes.len(),
                accounts@ == take_over_all(old(accounts)@, diff.changes@.subrange(0, i as int)),
            decreases diff.changes.len() - i,
        {
            let change = diff.changes[i];
            accounts.update(change.id, change.amount, change.last_updated_on);
            assert(diff.changes@.subrange(0, i + 1).drop_last() =~= diff.changes@.subrange(
                0,
                i as int,
            ));
            i = i + 1;
        }
        assert(diff.changes@.subrange(0, i as int) =~= diff.changes@);
    }

    /// Deals with the payload of a token that has come in: the entry of
    /// this site has gone round and is removed, and what the other sites
    /// committed is replayed on the store.
    pub fn receive_update_of_other_nodes_and_clean_my_updates(
        &self,
        data: &mut TokenData,
        accounts: &mut MemoryAccountsManager,
    )
        ensures
            token_view(*final(data)) == token_view(*old(data)).remove(self@.my_id),
            replays_token(old(accounts)@, token_view(*final(data)), final(accounts)@),
    {
        broadcast use vstd::std_specs::hash::group_hash_axioms;

        data.remove(&self.my_id);
        assert(token_view(*data) =~= token_view(*old(data)).remove(self.my_id));
        let ghost token = token_view(*data);
        let sites = keys_of(data);
        let mut i: usize = 0;
        assert(sites@.subrange(0, 0) =~= Seq::<usize>::empty());
        while i < sites.len()
            invariant
                i <= sites.len(),
                token == token_view(*data),
                is_walk_of(sites@, data@.dom()),
                accounts@ == replay_sites(old(accounts)@, token, sites@.subrange(0, i as int)),
            decreases sites.len() - i,
        {
            let site = sites[i];
            assert(sites@.contains(sites@[i as int]));
            if let Some(changes) = data.get(&site) {
                update_accounts_with_changes(changes, accounts);
            }
            assert(sites@.subrange(0, i + 1).drop_last() =~= sites@.subrange(0, i as int));
            i = i + 1;
        }
        assert(sites@.subrange(0, i as int) =~= sites@);
        assert(is_walk_of(sites@, token.dom())) by {
            assert(token.dom() =~= data@.dom());
        }
    }

    /// Deals with one message of the previous site: see `receives`.
    pub fn handle_message(
        &mut self,
        message: ServerMessage,
        status: &mut ConnectionStatus,
        have_token: &mut bool,
        accounts: &mut MemoryAccountsManager,
    ) -> (action: PrevAction)
        ensures
            final(self)@.my_id == old(self)@.my_id,
            final(status).next_up() == old(status).next_up(),
            receives(
                old(self)@.my_id,
                prev_state(old(self)@.listening_to_id, old(status).prev_up(), *old(have_token), old(accounts)@),
                message@,
                prev_state(final(self)@.listening_to_id, final(status).prev_up(), *final(have_token), final(accounts)@),
                action@,
            ),
    {
        broadcast use vstd::std_specs::hash::group_hash_axioms;

        let mut message = message;
        match message.message_type {
            ServerMessageType::NewConnection(diff) => {
                if message.sender_id == self.my_id {
                    self.update_myself_by_diff(&diff, accounts);
                    return PrevAction::Continue;
                }
                if message.passed_by.contains(&self.my_id) {
                    return PrevAction::Continue;
                }
                self.set_listening_to_id(&message.passed_by, message.sender_id);
                let mut passed_by = message.passed_by;
                passed_by.insert(self.my_id);
                PrevAction::ToNext(
                    ServerMessage {
                        message_type: ServerMessageType::NewConnection(diff),
                        sender_id: message.sender_id,
                        passed_by,
                    },
                )
            },
            ServerMessageType::CloseConnection => {
                status.set_prev_offline();
                PrevAction::Closed
            },
            ServerMessageType::Token(data) => {
                self.set_listening_to_id(&message.passed_by, message.sender_id);
                *have_token = true;
                let mut data = data;
                self.receive_update_of_other_nodes_and_clean_my_updates(&mut data, accounts);
                PrevAction::ToOrdersManager(data)
            },
            ServerMessageType::MaybeWeLostTheTokenTo(lost_id) => {
                self.set_listening_to_id(&message.passed_by, message.sender_id);
                if *have_token {
                    return PrevAction::Continue;
                }
                if message.passed_by.contains(&self.my_id) {
                    return PrevAction::Continue;
                }
                PrevAction::ToNext(
                    ServerMessage {
                        message_type: ServerMessageType::MaybeWeLostTheTokenTo(lost_id),
                        sender_id: message.sender_id,
                        passed_by: message.passed_by,
                    },
                )
            },
        }
    }

    /// Deals with the loss of the inbound link. The link is down; a site
    /// that does not hold the token asks the ring whether the token was lost
    /// on its way here, naming the previous site, or itself where it knows
    /// none. The receiver ends after this.
    pub fn connection_lost(&self, status: &mut ConnectionStatus, have_token: bool) -> (probe: Option<
        ServerMessage,
    >)
        ensures
            !final(status).prev_up(),
            final(status).next_up() == old(status).next_up(),
            have_token ==> probe is None,
            !have_token ==> probe is Some && probe->0@ == fresh_message(
                self@.my_id,
                MessageKind::MaybeWeLostTheTokenTo(
                    match self@.listening_to_id {
                        Some(previous) => previous,
                        None => self@.my_id,
                    },
                ),
            ),
    {
        status.set_prev_offline();
        if have_token {
            return None;
        }
        let to_id = match self.listening_to_id {
            Some(previous) => previous,
            None => self.my_id,
        };
        Some(create_maybe_we_lost_the_token_message(self.my_id, to_id))
    }
}

/// The state that a receiver works on, put together.
pub open spec fn prev_state(
    listening_to_id: Option<usize>,
    prev_up: bool,
    have_token: bool,
    store: StoreView,
) -> PrevState {
    PrevState { listening_to_id, prev_up, have_token, store }
}

} // verus!
