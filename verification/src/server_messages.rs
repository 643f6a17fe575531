use vstd::prelude::*;
use std::collections::HashMap;
use std::collections::HashSet;
use vstd::std_specs::iter::IteratorSpec;
use crate::local_connection_messages::MessageType;

verus! {

pub type ServerId = usize;

/// What a token carries: for each site, the mutations it committed while it
/// held the token, in the order in which it committed them.
pub type TokenData = HashMap<usize, Vec<AccountAction>>;

/// One committed mutation of an account: a credit (`AddPoints`) or a
/// committed spend (`TakePoints`), with the timestamp it was committed at.
#[derive(Debug, Clone, Copy, PartialEq, Eq, Structural)]
pub struct AccountAction {
    pub message_type: MessageType,
    pub account_id: u64,
    pub points: u64,
    pub last_updated_on: u128,
}

/// The whole state of one account, as a site that joins is told of it.
#[derive(Debug, Clone, Copy, PartialEq, Eq, Structural)]
pub struct UpdatedAccount {
    pub id: u64,
    pub amount: u64,
    pub last_updated_on: u128,
}

/// What a joining site is missing. It sends out the time of its latest
/// update; the peer that takes it into the ring fills in every account
/// updated after that time.
#[derive(Debug, PartialEq, Eq)]
pub struct Diff {
    pub last_update: u128,
    pub changes: Vec<UpdatedAccount>,
}

/// The kinds of message that the sites of a ring send each other.
#[derive(Debug, PartialEq, Eq)]
pub enum ServerMessageType {
    /// A site joins, or joins again.
    NewConnection(Diff),
    /// The sender is about to drop its link to the receiver.
    CloseConnection,
    /// The token, with what it carries.
    Token(TokenData),
    /// The token may have been lost on its way to the named site.
    MaybeWeLostTheTokenTo(ServerId),
}

/// A message between two sites: its kind, the site that first sent it, and
/// the sites that have passed it on.
#[derive(Debug)]
pub struct ServerMessage {
    pub message_type: ServerMessageType,
    pub sender_id: usize,
    pub passed_by: HashSet<usize>,
}

/// A token's payload as a plain value.
pub open spec fn token_view(data: TokenData) -> Map<usize, Seq<AccountAction>> {
    data@.map_values(|actions: Vec<AccountAction>| actions@)
}

/// The actions that a token carries for a site: none where it has no entry.
pub open spec fn actions_of(token: Map<usize, Seq<AccountAction>>, site: usize) -> Seq<
    AccountAction,
> {
    if token.contains_key(site) {
        token[site]
    } else {
        Seq::empty()
    }
}

/// A message kind as a plain value.
pub enum MessageKind {
    NewConnection { last_update: u128, changes: Seq<UpdatedAccount> },
    CloseConnection,
    Token(Map<usize, Seq<AccountAction>>),
    MaybeWeLostTheTokenTo(usize),
}

/// A message as a plain value.
pub struct MessageView {
    pub kind: MessageKind,
    pub sender_id: usize,
    pub passed_by: Set<usize>,
}

impl View for ServerMessageType {
    type V = MessageKind;

    open spec fn view(&self) -> MessageKind {
        match *self {
            ServerMessageType::NewConnection(diff) => MessageKind::NewConnection {
                last_update: diff.last_update,
                changes: diff.changes@,
            },
            ServerMessageType::CloseConnection => MessageKind::CloseConnection,
            ServerMessageType::Token(data) => MessageKind::Token(token_view(data)),
            ServerMessageType::MaybeWeLostTheTokenTo(lost) => MessageKind::MaybeWeLostTheTokenTo(
                lost,
            ),
        }
    }
}

impl View for ServerMessage {
    type V = MessageView;

    open spec fn view(&self) -> MessageView {
        MessageView {
            kind: self.message_type@,
            sender_id: self.sender_id,
            passed_by: self.passed_by@,
        }
    }
}

/// A message that no site has passed on yet.
pub open spec fn fresh_message(sender_id: usize, kind: MessageKind) -> MessageView {
    MessageView { kind, sender_id, passed_by: Set::empty() }
}

/// The announcement of a site that joins: its diff is still empty.
pub fn create_new_connection_message(sender_id: usize, most_recent_update: u128) -> (message:
    ServerMessage)
    ensures
        message@ == fresh_message(
            sender_id,
            MessageKind::NewConnection { last_update: most_recent_update, changes: Seq::empty() },
        ),
{
    let diff = Diff { last_update: most_recent_update, changes: Vec::new() };
    create_server_message(sender_id, ServerMessageType::NewConnection(diff))
}

/// A token that carries nothing.
pub fn create_token_message(sender_id: usize) -> (message: ServerMessage)
    ensures
        message@ == fresh_message(sender_id, MessageKind::Token(Map::empty())),
{
    let data: TokenData = HashMap::new();
    assert(token_view(data) =~= Map::empty());
    create_server_message(sender_id, ServerMessageType::Token(data))
}

/// The probe that asks whether the token was lost on its way to `to_id`.
pub fn create_maybe_we_lost_the_token_message(sender_id: usize, to_id: usize) -> (message:
    ServerMessage)
    ensures
        message@ == fresh_message(sender_id, MessageKind::MaybeWeLostTheTokenTo(to_id)),
{
    create_server_message(sender_id, ServerMessageType::MaybeWeLostTheTokenTo(to_id))
}

/// The notice that the sender drops its link.
pub fn create_close_connection_message(sender_id: usize) -> (message: ServerMessage)
    ensures
        message@ == fresh_message(sender_id, MessageKind::CloseConnection),
{
    create_server_message(sender_id, ServerMessageType::CloseConnection)
}

/// A token with the given payload, sent anew by `sender_id`.
pub fn recreate_token(sender_id: usize, token_data: TokenData) -> (message: ServerMessage)
    ensures
        message@ == fresh_message(sender_id, MessageKind::Token(token_view(token_data))),
{
    create_server_message(sender_id, ServerMessageType::Token(token_data))
}

/// A message of the given kind that no site has passed on yet.
pub fn create_server_message(sender_id: usize, message_type: ServerMessageType) -> (message:
    ServerMessage)
    ensures
        message@ == fresh_message(sender_id, message_type@),
{
    ServerMessage { message_type, sender_id, passed_by: HashSet::new() }
}

/// A copy of a list of plain values.
pub fn copy_list<T: Copy>(list: &Vec<T>) -> (copy: Vec<T>)
    ensures
        copy@ == list@,
{
    let mut copy: Vec<T> = Vec::new();
    let mut i: usize = 0;
    while i < list.len()
        invariant
            i <= list.len(),
            copy@ == list@.subrange(0, i as int),
        decreases list.len() - i,
    {
        copy.push(list[i]);
        i = i + 1;
        assert(copy@ =~= list@.subrange(0, i as int));
    }
    assert(list@.subrange(0, list.len() as int) =~= list@);
    copy
}

/// A copy of a set of site ids.
pub fn copy_path(path: &HashSet<usize>) -> (copy: HashSet<usize>)
    ensures
        copy@ == path@,
{
    broadcast use vstd::std_specs::hash::group_hash_axioms;

    let mut copy: HashSet<usize> = HashSet::new();
    for site in iter: path.iter()
        invariant
            iter.seq() == path.iter().remaining(),
            forall|i: int| 0 <= i < iter.index() ==> copy@.contains(*iter.seq()[i]),
            forall|x: usize|
                copy@.contains(x) ==> exists|i: int| 0 <= i < iter.index() && *iter.seq()[i] == x,
    {
        copy.insert(*site);
    }
    proof {
        let walked = path.iter().remaining();
        assert forall|x: usize| copy@.contains(x) <==> path@.contains(x) by {
            if copy@.contains(x) {
                let i = choose|i: int| 0 <= i < walked.len() && *walked[i] == x;
                assert(walked.unref()[i] == x);
                assert(walked.unref().to_set().contains(x));
            }
            if path@.contains(x) {
                assert(walked.unref().to_set().contains(x));
                let i = choose|i: int| 0 <= i < walked.unref().len() && walked.unref()[i] == x;
                assert(*walked[i] == x);
            }
        }
        assert(copy@ =~= path@);
    }
    copy
}

/// The actions that a token carries for a site, copied out.
pub fn actions_for(data: &TokenData, site: usize) -> (actions: Vec<AccountAction>)
    ensures
        actions@ == actions_of(token_view(*data), site),
{
    broadcast use vstd::std_specs::hash::group_hash_axioms;

    match data.get(&site) {
        Some(list) => copy_list(list),
        None => Vec::new(),
    }
}

/// Appends actions to the entry of a site in a token, making the entry
/// where the token has none for that site.
pub fn append_actions(data: &mut TokenData, site: usize, actions: &Vec<AccountAction>)
    ensures
        token_view(*final(data)) == token_view(*old(data)).insert(
            site,
            actions_of(token_view(*old(data)), site) + actions@,
        ),
{
    broadcast use vstd::std_specs::hash::group_hash_axioms;

    let ghost before = token_view(*data);
    let mut list = match data.remove(&site) {
        Some(list) => list,
        None => Vec::new(),
    };
    assert(list@ == actions_of(before, site));
    let mut i: usize = 0;
    while i < actions.len()
        invariant
            i <= actions.len(),
            list@ == actions_of(before, site) + actions@.subrange(0, i as int),
        decreases actions.len() - i,
    {
        list.push(actions[i]);
        i = i + 1;
        assert(list@ =~= actions_of(before, site) + actions@.subrange(0, i as int));
    }
    assert(actions@.subrange(0, actions.len() as int) =~= actions@);
    data.insert(site, list);
    assert(token_view(*data) =~= before.insert(site, actions_of(before, site) + actions@));
}

/// Appends one action to the entry of a site in a token.
pub fn append_action(data: &mut TokenData, site: usize, action: AccountAction)
    ensures
        token_view(*final(data)) == token_view(*old(data)).insert(
            site,
            actions_of(token_view(*old(data)), site).push(action),
        ),
{
    let mut one: Vec<AccountAction> = Vec::new();
    one.push(action);
    assert(one@ =~= seq![action]);
    assert(actions_of(token_view(*data), site) + one@ =~= actions_of(token_view(*data), site).push(
        action,
    ));
    append_actions(data, site, &one);
}

impl Clone for Diff {
    fn clone(&self) -> (copy: Diff)
        ensures
            copy.last_update == self.last_update,
            copy.changes@ == self.changes@,
    {
        Diff { last_update: self.last_update, changes: copy_list(&self.changes) }
    }
}

impl Clone for ServerMessageType {
    fn clone(&self) -> (copy: ServerMessageType)
        ensures
            copy@ == self@,
    {
        match self {
            ServerMessageType::NewConnection(diff) => ServerMessageType::NewConnection(diff.clone()),
            ServerMessageType::CloseConnection => ServerMessageType::CloseConnection,
            ServerMessageType::Token(data) => {
                let copy = data.clone();
                ServerMessageType::Token(copy)
            },
            ServerMessageType::MaybeWeLostTheTokenTo(lost) => {
                ServerMessageType::MaybeWeLostTheTokenTo(*lost)
            },
        }
    }
}

impl Clone for ServerMessage {
    fn clone(&self) -> (copy: ServerMessage)
        ensures
            copy@ == self@,
    {
        ServerMessage {
            message_type: self.message_type.clone(),
            sender_id: self.sender_id,
            passed_by: copy_path(&self.passed_by),
        }
    }
}

} // verus!
