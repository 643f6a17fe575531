use std::collections::HashSet;

use coffee_loyalty::accounts_manager::AccountsManager;
use coffee_loyalty::connection_status::ConnectionStatus;
use coffee_loyalty::errors::CoffeeSystemError;
use coffee_loyalty::errors::ServerError;
use coffee_loyalty::local_connection_messages::CoffeeMakerRequest;
use coffee_loyalty::local_connection_messages::CoffeeMakerResponse;
use coffee_loyalty::local_connection_messages::MessageType;
use coffee_loyalty::local_connection_messages::ResponseStatus;
use coffee_loyalty::memory_accounts_manager::MemoryAccountsManager;
use coffee_loyalty::next_connection::NextAction;
use coffee_loyalty::next_connection::NextConnection;
use coffee_loyalty::next_connection::NextEvent;
use coffee_loyalty::orders_queue::OrdersQueue;
use coffee_loyalty::server_messages::create_close_connection_message;
use coffee_loyalty::server_messages::create_maybe_we_lost_the_token_message;
use coffee_loyalty::server_messages::create_new_connection_message;
use coffee_loyalty::server_messages::recreate_token;
use coffee_loyalty::server_messages::AccountAction;
use coffee_loyalty::server_messages::Diff;
use coffee_loyalty::server_messages::ServerMessage;
use coffee_loyalty::server_messages::ServerMessageType;
use coffee_loyalty::server_messages::TokenData;
use coffee_loyalty::server_messages::UpdatedAccount;

struct Site {
    sender: NextConnection,
    status: ConnectionStatus,
    have_token: bool,
    accounts: MemoryAccountsManager,
    orders: OrdersQueue,
}

impl Site {
    fn new(id: usize, peer_count: usize) -> Site {
        Site {
            sender: NextConnection::new(id, peer_count),
            status: ConnectionStatus::new(),
            have_token: false,
            accounts: MemoryAccountsManager::new(),
            orders: OrdersQueue::new(),
        }
    }

    fn step(&mut self, event: NextEvent) -> NextAction {
        self.sender.handle_message_to_next(
            event,
            &mut self.status,
            &mut self.have_token,
            &self.accounts,
            &mut self.orders,
        )
    }

    /// A site of a ring of `peer_count` that has joined: its link leads to
    /// `next`, and it waits for a message.
    fn joined(id: usize, peer_count: usize, next: usize) -> Site {
        let mut site = Site::new(id, peer_count);
        site.status.set_prev_online();
        let mut action = site.step(NextEvent::Started);
        loop {
            match action {
                NextAction::Connect { peer, .. } if peer == next => {
                    action = site.step(NextEvent::Sent);
                },
                NextAction::Connect { .. } => {
                    action = site.step(NextEvent::ConnectFailed);
                },
                NextAction::Send { .. } => {
                    action = site.step(NextEvent::Sent);
                },
                NextAction::Receive { .. } => break,
                other => panic!("{:?}", other),
            }
        }
        assert_eq!(site.sender.next_id(), next);
        assert!(site.sender.is_connected());
        assert!(site.status.is_next_online());
        site
    }
}

fn credit(account_id: u64, points: u64, last_updated_on: u128) -> AccountAction {
    AccountAction { message_type: MessageType::AddPoints, account_id, points, last_updated_on }
}

fn spend(account_id: u64, points: u64, last_updated_on: u128) -> AccountAction {
    AccountAction { message_type: MessageType::TakePoints, account_id, points, last_updated_on }
}

fn token(sender: usize, entries: &[(usize, Vec<AccountAction>)]) -> ServerMessage {
    let data: TokenData = entries.iter().cloned().collect();
    recreate_token(sender, data)
}

fn payload(message: &ServerMessage) -> TokenData {
    match &message.message_type {
        ServerMessageType::Token(data) => data.clone(),
        other => panic!("not a token: {:?}", other),
    }
}

fn path(sites: &[usize]) -> HashSet<usize> {
    sites.iter().copied().collect()
}

fn connect(action: NextAction) -> (usize, ServerMessage) {
    match action {
        NextAction::Connect { peer, message } => (peer, message),
        other => panic!("not a connect: {:?}", other),
    }
}

fn send(action: NextAction) -> ServerMessage {
    match action {
        NextAction::Send { message } => message,
        other => panic!("not a send: {:?}", other),
    }
}

fn receive(action: NextAction) {
    match action {
        NextAction::Receive { timeout_ms } => assert_eq!(timeout_ms, 22_000),
        other => panic!("not a receive: {:?}", other),
    }
}

fn sleep(action: NextAction) -> u64 {
    match action {
        NextAction::Sleep { ms } => ms,
        other => panic!("not a sleep: {:?}", other),
    }
}

#[test]
fn site_0_starts_a_ring_of_one_and_sends_out_the_first_token() {
    let mut site = Site::new(0, 1);
    let (peer, join) = connect(site.step(NextEvent::Started));
    assert_eq!(peer, 0);
    assert_eq!(join.sender_id, 0);
    assert!(join.passed_by.is_empty());
    assert_eq!(
        join.message_type,
        ServerMessageType::NewConnection(Diff { last_update: 0, changes: vec![] })
    );
    let first = send(site.step(NextEvent::Sent));
    assert_eq!(first.sender_id, 0);
    assert!(payload(&first).is_empty());
    assert!(site.status.is_next_online());
    assert_eq!(site.sender.next_id(), 0);
    receive(site.step(NextEvent::Sent));
    assert!(site.sender.last_token().is_none());
}

#[test]
fn site_0_stops_if_the_first_token_does_not_go_out() {
    let mut site = Site::new(0, 1);
    connect(site.step(NextEvent::Started));
    send(site.step(NextEvent::Sent));
    match site.step(NextEvent::SendFailed) {
        NextAction::Stop { outcome } => assert_eq!(outcome, Err(ServerError::ConnectionLost)),
        other => panic!("{:?}", other),
    }
    assert!(!site.status.is_next_online());
    assert!(!site.sender.is_connected());
    match site.step(NextEvent::Started) {
        NextAction::Stop { outcome } => assert_eq!(outcome, Err(ServerError::ChannelError)),
        other => panic!("{:?}", other),
    }
}

#[test]
fn site_0_links_to_itself_only_once() {
    let mut site = Site::new(0, 3);
    assert_eq!(connect(site.step(NextEvent::Started)).0, 1);
    assert_eq!(connect(site.step(NextEvent::ConnectFailed)).0, 2);
    assert_eq!(connect(site.step(NextEvent::ConnectFailed)).0, 0);
    assert_eq!(sleep(site.step(NextEvent::ConnectFailed)), 500);
    assert_eq!(connect(site.step(NextEvent::Done)).0, 1);
    assert_eq!(connect(site.step(NextEvent::ConnectFailed)).0, 2);
    assert_eq!(sleep(site.step(NextEvent::ConnectFailed)), 1000);
}

#[test]
fn a_site_joins_with_the_latest_update_it_knows_of() {
    let mut site = Site::new(1, 3);
    site.accounts.update(4, 10, 1234);
    site.accounts.update(5, 10, 99);
    let (peer, join) = connect(site.step(NextEvent::Started));
    assert_eq!(peer, 2);
    assert_eq!(join.sender_id, 1);
    assert_eq!(
        join.message_type,
        ServerMessageType::NewConnection(Diff { last_update: 1234, changes: vec![] })
    );
    let (peer, _) = connect(site.step(NextEvent::ConnectFailed));
    assert_eq!(peer, 0);
    receive(site.step(NextEvent::Sent));
    assert_eq!(site.sender.next_id(), 0);
    assert!(site.status.is_next_online());
}

#[test]
fn a_site_that_finds_no_peer_backs_off_and_gives_up_its_reservations() {
    let mut site = Site::new(1, 2);
    site.orders.add(
        CoffeeMakerRequest { message_type: MessageType::RequestPoints, account_id: 1, points: 1 },
        9,
    );
    site.orders.add(
        CoffeeMakerRequest { message_type: MessageType::AddPoints, account_id: 1, points: 1 },
        9,
    );
    let mut action = site.step(NextEvent::Started);
    for wait in [500, 1000, 2000, 4000] {
        assert_eq!(connect(action).0, 0);
        assert_eq!(sleep(site.step(NextEvent::ConnectFailed)), wait);
        assert!(!site.status.is_next_online());
        action = site.step(NextEvent::Done);
    }
    match action {
        NextAction::Respond { responses } => assert_eq!(
            responses,
            vec![(
                CoffeeMakerResponse {
                    message_type: MessageType::RequestPoints,
                    status: ResponseStatus::Failure(CoffeeSystemError::ConnectionLost)
                },
                9
            )]
        ),
        other => panic!("{:?}", other),
    }
    assert_eq!(site.orders.reservations_len(), 0);
    assert_eq!(site.orders.credits_len(), 1);
    assert_eq!(connect(site.step(NextEvent::Done)).0, 0);
    assert_eq!(sleep(site.step(NextEvent::ConnectFailed)), 8000);
    match site.step(NextEvent::Done) {
        NextAction::Respond { responses } => assert!(responses.is_empty()),
        other => panic!("{:?}", other),
    }
}

#[test]
fn a_peer_that_takes_the_link_but_not_the_message_is_passed_over() {
    let mut site = Site::new(1, 3);
    assert_eq!(connect(site.step(NextEvent::Started)).0, 2);
    assert_eq!(connect(site.step(NextEvent::SendFailed)).0, 0);
    assert_eq!(site.sender.next_id(), 2);
    assert!(!site.sender.is_connected());
    assert!(!site.status.is_next_online());
    receive(site.step(NextEvent::Sent));
    assert_eq!(site.sender.next_id(), 0);
    assert!(site.sender.is_connected());
}

#[test]
fn a_token_is_sent_on_the_link_and_remembered() {
    let mut site = Site::joined(1, 3, 2);
    site.have_token = true;
    let out = send(site.step(NextEvent::Message(token(1, &[(1, vec![credit(7, 10, 5)])]))));
    assert_eq!(out.sender_id, 1);
    assert_eq!(payload(&out)[&1], vec![credit(7, 10, 5)]);
    assert!(site.have_token);
    receive(site.step(NextEvent::Sent));
    assert!(!site.have_token);
    let last = site.sender.last_token().expect("the token is remembered");
    assert_eq!(payload(&last)[&1], vec![credit(7, 10, 5)]);
    assert!(site.sender.pending_credits().is_empty());
}

#[test]
fn a_token_that_the_next_site_does_not_take_goes_to_the_next_but_one() {
    let mut site = Site::joined(1, 3, 2);
    site.have_token = true;
    send(site.step(NextEvent::Message(token(1, &[(1, vec![credit(7, 10, 5)])]))));
    let (peer, out) = connect(site.step(NextEvent::SendFailed));
    assert_eq!(peer, 2);
    assert_eq!(payload(&out)[&1], vec![credit(7, 10, 5)]);
    assert!(!site.status.is_next_online());
    let (peer, _) = connect(site.step(NextEvent::ConnectFailed));
    assert_eq!(peer, 0);
    receive(site.step(NextEvent::Sent));
    assert_eq!(site.sender.next_id(), 0);
    assert!(site.status.is_next_online());
    assert!(!site.have_token);
    assert!(site.sender.last_token().is_some());
}

#[test]
fn the_credits_of_a_stranded_token_ride_on_the_next_token() {
    let mut site = Site::joined(1, 3, 2);
    site.have_token = true;
    let mine = vec![credit(7, 10, 5), spend(7, 3, 6), credit(8, 1, 7)];
    send(site.step(NextEvent::Message(token(1, &[(1, mine), (0, vec![credit(9, 9, 9)])]))));
    connect(site.step(NextEvent::SendFailed));
    connect(site.step(NextEvent::ConnectFailed));
    let (peer, join) = connect(site.step(NextEvent::ConnectFailed));
    assert!(!site.have_token);
    assert!(site.sender.last_token().is_none());
    assert_eq!(site.sender.pending_credits(), vec![credit(7, 10, 5), credit(8, 1, 7)]);
    assert_eq!(peer, 2);
    assert!(matches!(join.message_type, ServerMessageType::NewConnection(_)));
    receive(site.step(NextEvent::Sent));

    site.have_token = true;
    let out = send(site.step(NextEvent::Message(token(1, &[(1, vec![credit(7, 2, 20)])]))));
    assert_eq!(payload(&out)[&1], vec![credit(7, 2, 20), credit(7, 10, 5), credit(8, 1, 7)]);
    receive(site.step(NextEvent::Sent));
    assert!(site.sender.pending_credits().is_empty());
    assert_eq!(
        payload(&site.sender.last_token().unwrap())[&1],
        vec![credit(7, 2, 20), credit(7, 10, 5), credit(8, 1, 7)]
    );

    site.have_token = true;
    let out = send(site.step(NextEvent::Message(token(1, &[]))));
    assert!(payload(&out).is_empty());
}

#[test]
fn credits_that_wait_survive_a_second_stranding() {
    let mut site = Site::joined(1, 2, 0);
    site.have_token = true;
    send(site.step(NextEvent::Message(token(1, &[(1, vec![credit(7, 10, 5)])]))));
    connect(site.step(NextEvent::SendFailed));
    connect(site.step(NextEvent::ConnectFailed));
    receive(site.step(NextEvent::Sent));
    assert_eq!(site.sender.pending_credits(), vec![credit(7, 10, 5)]);
    site.have_token = true;
    send(site.step(NextEvent::Message(token(1, &[(1, vec![spend(7, 1, 8), credit(7, 1, 9)])]))));
    connect(site.step(NextEvent::SendFailed));
    connect(site.step(NextEvent::ConnectFailed));
    assert_eq!(site.sender.pending_credits(), vec![credit(7, 1, 9), credit(7, 10, 5)]);
}

#[test]
fn a_timeout_with_the_inbound_link_down_makes_the_site_join_again() {
    let mut site = Site::joined(1, 3, 2);
    receive(site.step(NextEvent::Timeout));
    assert!(site.status.is_next_online());
    site.status.set_prev_offline();
    let (peer, join) = connect(site.step(NextEvent::Timeout));
    assert_eq!(peer, 2);
    assert!(matches!(join.message_type, ServerMessageType::NewConnection(_)));
    assert!(!site.status.is_next_online());
}

#[test]
fn the_sender_stops_when_its_queue_is_closed() {
    let mut site = Site::joined(1, 3, 2);
    match site.step(NextEvent::Disconnected) {
        NextAction::Stop { outcome } => assert_eq!(outcome, Err(ServerError::ChannelError)),
        other => panic!("{:?}", other),
    }
}

#[test]
fn an_event_that_answers_nothing_stops_the_sender() {
    let mut site = Site::joined(1, 3, 2);
    match site.step(NextEvent::Opened) {
        NextAction::Stop { outcome } => assert_eq!(outcome, Err(ServerError::ChannelError)),
        other => panic!("{:?}", other),
    }
    let mut site = Site::new(1, 3);
    match site.step(NextEvent::Sent) {
        NextAction::Stop { outcome } => assert_eq!(outcome, Err(ServerError::ChannelError)),
        other => panic!("{:?}", other),
    }
}

#[test]
fn a_join_that_belongs_elsewhere_is_passed_on() {
    let mut site = Site::joined(0, 4, 1);
    site.accounts.update(1, 10, 10);
    let mut join = create_new_connection_message(2, 0);
    join.passed_by = path(&[3]);
    let out = send(site.step(NextEvent::Message(join)));
    assert_eq!(out.sender_id, 2);
    assert_eq!(out.passed_by, path(&[3, 0]));
    assert_eq!(
        out.message_type,
        ServerMessageType::NewConnection(Diff { last_update: 0, changes: vec![] })
    );
    let (peer, join) = connect(site.step(NextEvent::SendFailed));
    assert!(!site.sender.is_connected());
    assert!(!site.status.is_next_online());
    assert_eq!(peer, 1);
    assert_eq!(
        join.message_type,
        ServerMessageType::NewConnection(Diff { last_update: 10, changes: vec![] })
    );
}

#[test]
fn a_site_that_joins_between_is_taken_in_and_told_what_it_missed() {
    let mut site = Site::joined(1, 4, 3);
    site.accounts.update(1, 10, 10);
    site.accounts.update(2, 20, 20);
    site.accounts.update(3, 30, 30);
    let mut join = create_new_connection_message(2, 10);
    join.passed_by = path(&[3, 0]);
    match site.step(NextEvent::Message(join)) {
        NextAction::Open { peer } => assert_eq!(peer, 2),
        other => panic!("{:?}", other),
    }
    match site.step(NextEvent::Opened) {
        NextAction::Replace { farewell } => {
            assert_eq!(farewell.sender_id, 1);
            assert_eq!(farewell.message_type, ServerMessageType::CloseConnection);
        },
        other => panic!("{:?}", other),
    }
    assert_eq!(site.sender.next_id(), 3);
    let out = send(site.step(NextEvent::Done));
    assert_eq!(site.sender.next_id(), 2);
    assert_eq!(out.sender_id, 2);
    assert_eq!(out.passed_by, path(&[3, 0, 1]));
    match out.message_type {
        ServerMessageType::NewConnection(mut diff) => {
            diff.changes.sort_by_key(|change| change.id);
            assert_eq!(diff.last_update, 10);
            assert_eq!(
                diff.changes,
                vec![
                    UpdatedAccount { id: 2, amount: 20, last_updated_on: 20 },
                    UpdatedAccount { id: 3, amount: 30, last_updated_on: 30 },
                ]
            );
        },
        other => panic!("{:?}", other),
    }
    receive(site.step(NextEvent::Sent));
}

#[test]
fn a_joining_site_that_cannot_be_reached_is_left_out() {
    let mut site = Site::joined(1, 4, 3);
    match site.step(NextEvent::Message(create_new_connection_message(2, 0))) {
        NextAction::Open { peer } => assert_eq!(peer, 2),
        other => panic!("{:?}", other),
    }
    receive(site.step(NextEvent::ConnectFailed));
    assert_eq!(site.sender.next_id(), 3);
    assert!(site.sender.is_connected());
}

#[test]
fn the_last_site_takes_in_a_site_that_joins_below_the_first() {
    let mut site = Site::joined(3, 4, 1);
    match site.step(NextEvent::Message(create_new_connection_message(0, 0))) {
        NextAction::Open { peer } => assert_eq!(peer, 0),
        other => panic!("{:?}", other),
    }
}

#[test]
fn the_sender_of_the_holder_of_the_token_drops_a_probe() {
    let mut site = Site::joined(1, 3, 2);
    site.have_token = true;
    receive(site.step(NextEvent::Message(create_maybe_we_lost_the_token_message(0, 2))));
}

#[test]
fn a_probe_is_passed_on_with_this_site_added() {
    let mut site = Site::joined(1, 4, 2);
    let out = send(site.step(NextEvent::Message(create_maybe_we_lost_the_token_message(0, 3))));
    assert_eq!(out.sender_id, 0);
    assert_eq!(out.passed_by, path(&[1]));
    assert_eq!(out.message_type, ServerMessageType::MaybeWeLostTheTokenTo(3));
    receive(site.step(NextEvent::Sent));
}

#[test]
fn the_site_before_the_lost_one_sends_its_last_token_once_more() {
    let mut site = Site::joined(1, 3, 2);
    site.have_token = true;
    send(site.step(NextEvent::Message(token(1, &[(1, vec![credit(7, 10, 5)])]))));
    receive(site.step(NextEvent::Sent));
    let (peer, again) =
        connect(site.step(NextEvent::Message(create_maybe_we_lost_the_token_message(0, 2))));
    assert_eq!(peer, 2);
    assert_eq!(payload(&again)[&1], vec![credit(7, 10, 5)]);
    let (peer, _) = connect(site.step(NextEvent::ConnectFailed));
    assert_eq!(peer, 0);
    receive(site.step(NextEvent::Sent));
    assert_eq!(site.sender.next_id(), 0);
}

#[test]
fn the_site_before_the_lost_one_passes_the_probe_on_if_it_has_no_token_to_send() {
    let mut site = Site::joined(1, 3, 2);
    let out = send(site.step(NextEvent::Message(create_maybe_we_lost_the_token_message(0, 2))));
    assert_eq!(out.passed_by, path(&[1]));
}

#[test]
fn a_probe_that_the_next_site_does_not_take_is_tried_up_to_the_lost_site() {
    let mut site = Site::joined(1, 5, 2);
    send(site.step(NextEvent::Message(create_maybe_we_lost_the_token_message(0, 4))));
    let (peer, probe) = connect(site.step(NextEvent::SendFailed));
    assert_eq!(peer, 2);
    assert_eq!(probe.passed_by, path(&[1]));
    assert_eq!(connect(site.step(NextEvent::ConnectFailed)).0, 3);
    receive(site.step(NextEvent::Sent));
    assert_eq!(site.sender.next_id(), 3);
    assert!(site.status.is_next_online());
}

#[test]
fn a_probe_that_nobody_takes_makes_the_site_send_its_last_token_once_more() {
    let mut site = Site::joined(1, 5, 2);
    site.have_token = true;
    send(site.step(NextEvent::Message(token(1, &[(1, vec![credit(7, 10, 5)])]))));
    receive(site.step(NextEvent::Sent));
    send(site.step(NextEvent::Message(create_maybe_we_lost_the_token_message(0, 4))));
    assert_eq!(connect(site.step(NextEvent::SendFailed)).0, 2);
    assert_eq!(connect(site.step(NextEvent::ConnectFailed)).0, 3);
    let (peer, again) = connect(site.step(NextEvent::ConnectFailed));
    assert_eq!(peer, 2);
    assert_eq!(payload(&again)[&1], vec![credit(7, 10, 5)]);
}

#[test]
fn a_probe_that_nobody_takes_is_left_at_that_by_a_site_without_an_inbound_link() {
    let mut site = Site::joined(1, 5, 2);
    site.have_token = true;
    send(site.step(NextEvent::Message(token(1, &[]))));
    receive(site.step(NextEvent::Sent));
    site.status.set_prev_offline();
    send(site.step(NextEvent::Message(create_maybe_we_lost_the_token_message(0, 3))));
    assert_eq!(connect(site.step(NextEvent::SendFailed)).0, 2);
    let (peer, join) = connect(site.step(NextEvent::ConnectFailed));
    assert_eq!(peer, 2);
    assert!(matches!(join.message_type, ServerMessageType::NewConnection(_)));
}

#[test]
fn a_close_notice_for_the_next_site_is_dropped() {
    let mut site = Site::joined(1, 3, 2);
    receive(site.step(NextEvent::Message(create_close_connection_message(0))));
}

#[test]
fn token_loss_recovery() {
    // Three sites; the link from 1 to 2 dies while 1 passes the token on.
    let mut site_1 = Site::joined(1, 3, 2);
    site_1.have_token = true;
    let carried = token(1, &[(1, vec![credit(7, 10, 5)])]);
    send(site_1.step(NextEvent::Message(carried)));
    // Site 1 sees the failure and tries the ring: 2 is out of reach, 0 takes
    // the token.
    assert_eq!(connect(site_1.step(NextEvent::SendFailed)).0, 2);
    let (peer, reinjected) = connect(site_1.step(NextEvent::ConnectFailed));
    assert_eq!(peer, 0);
    receive(site_1.step(NextEvent::Sent));
    assert!(!site_1.have_token);

    // Site 0 holds the token now.
    let mut receiver_0 = coffee_loyalty::previous_connection::PrevConnection::new(0);
    let mut site_0 = Site::joined(0, 3, 1);
    let action = receiver_0.handle_message(
        reinjected,
        &mut site_0.status,
        &mut site_0.have_token,
        &mut site_0.accounts,
    );
    assert!(matches!(
        action,
        coffee_loyalty::previous_connection::PrevAction::ToOrdersManager(_)
    ));
    assert!(site_0.have_token);
    assert_eq!(site_0.accounts.account(7).unwrap().points(), 10);

    // Site 2 sees its inbound link die and asks the ring about the token.
    let mut receiver_2 = coffee_loyalty::previous_connection::PrevConnection::new(2);
    receiver_2.set_listening_to_id(&HashSet::new(), 1);
    let mut site_2 = Site::joined(2, 3, 0);
    let probe = receiver_2
        .connection_lost(&mut site_2.status, site_2.have_token)
        .expect("site 2 does not hold the token");
    assert_eq!(probe.message_type, ServerMessageType::MaybeWeLostTheTokenTo(1));
    let probe = send(site_2.step(NextEvent::Message(probe)));

    // The probe reaches the holder, which drops it: one token is left.
    let action = receiver_0.handle_message(
        probe,
        &mut site_0.status,
        &mut site_0.have_token,
        &mut site_0.accounts,
    );
    assert!(matches!(action, coffee_loyalty::previous_connection::PrevAction::Continue));
    let holders =
        [&site_0, &site_1, &site_2].iter().filter(|site| site.have_token).count();
    assert_eq!(holders, 1);
}

#[test]
fn a_new_sender_knows_nothing_yet() {
    let site = Site::new(2, 5);
    assert_eq!(site.sender.next_id(), 2);
    assert!(!site.sender.is_connected());
    assert!(site.sender.last_token().is_none());
    assert!(site.sender.pending_credits().is_empty());
}
