use std::collections::HashMap;
use std::collections::HashSet;

use coffee_loyalty::accounts_manager::AccountsManager;
use coffee_loyalty::coffee_message_dispatcher::CoffeeMessageDispatcher;
use coffee_loyalty::connection_status::ConnectionStatus;
use coffee_loyalty::local_connection_messages::CoffeeMakerRequest;
use coffee_loyalty::local_connection_messages::CoffeeMakerResponse;
use coffee_loyalty::local_connection_messages::MessageType;
use coffee_loyalty::local_connection_messages::ResponseStatus;
use coffee_loyalty::memory_accounts_manager::MemoryAccountsManager;
use coffee_loyalty::next_connection::NextAction;
use coffee_loyalty::next_connection::NextConnection;
use coffee_loyalty::next_connection::NextEvent;
use coffee_loyalty::orders_manager::ManagerAction;
use coffee_loyalty::orders_manager::OrdersManager;
use coffee_loyalty::orders_manager::TokenPhase;
use coffee_loyalty::orders_queue::OrdersQueue;
use coffee_loyalty::previous_connection::PrevAction;
use coffee_loyalty::previous_connection::PrevConnection;
use coffee_loyalty::server_messages::create_token_message;
use coffee_loyalty::server_messages::ServerMessage;
use coffee_loyalty::server_messages::ServerMessageType;
use coffee_loyalty::server_messages::TokenData;
use coffee_loyalty::server_messages::UpdatedAccount;

/// One site: its parts, and what they share.
struct Site {
    id: usize,
    receiver: PrevConnection,
    manager: OrdersManager,
    sender: NextConnection,
    dispatcher: CoffeeMessageDispatcher,
    status: ConnectionStatus,
    have_token: bool,
    accounts: MemoryAccountsManager,
    orders: OrdersQueue,
}

impl Site {
    /// A site of a ring of `peer_count` whose link leads to `next`.
    fn joined(id: usize, peer_count: usize, next: usize) -> Site {
        let mut site = Site {
            id,
            receiver: PrevConnection::new(id),
            manager: OrdersManager::new(id),
            sender: NextConnection::new(id, peer_count),
            dispatcher: CoffeeMessageDispatcher::new(),
            status: ConnectionStatus::new(),
            have_token: false,
            accounts: MemoryAccountsManager::new(),
            orders: OrdersQueue::new(),
        };
        site.status.set_prev_online();
        let mut action = site.step(NextEvent::Started);
        loop {
            action = match action {
                NextAction::Connect { peer, .. } if peer == next => site.step(NextEvent::Sent),
                NextAction::Connect { .. } => site.step(NextEvent::ConnectFailed),
                NextAction::Send { .. } => site.step(NextEvent::Sent),
                NextAction::Receive { .. } => break,
                other => panic!("{:?}", other),
            };
        }
        assert!(site.status.is_online());
        site
    }

    fn step(&mut self, event: NextEvent) -> NextAction {
        self.sender.handle_message_to_next(
            event,
            &mut self.status,
            &mut self.have_token,
            &self.accounts,
            &mut self.orders,
        )
    }

    fn receive(&mut self, message: ServerMessage) -> PrevAction {
        self.receiver.handle_message(
            message,
            &mut self.status,
            &mut self.have_token,
            &mut self.accounts,
        )
    }

    /// A request of a coffee maker comes in.
    fn ask(&mut self, message_type: MessageType, account_id: u64, points: u64) -> Option<CoffeeMakerResponse> {
        let dispatch = self.dispatcher.dispatch_coffee_request(
            CoffeeMakerRequest { message_type, account_id, points },
            0,
            &self.status,
            &mut self.orders,
        );
        assert!(dispatch.to_orders_manager.is_none());
        dispatch.reply
    }

    /// The token comes in: the token phase starts.
    fn take(&mut self, token: ServerMessage) -> TokenPhase {
        let data = match self.receive(token) {
            PrevAction::ToOrdersManager(data) => data,
            other => panic!("{:?}", other),
        };
        assert!(self.have_token);
        self.manager.handle_orders(data, &mut self.orders, &mut self.accounts)
    }

    /// The token phase is over: the token goes out on the link.
    fn pass_on(&mut self, next: ManagerAction) -> ServerMessage {
        let message = match next {
            ManagerAction::Forward(message) => message,
            other => panic!("{:?}", other),
        };
        let out = match self.step(NextEvent::Message(message)) {
            NextAction::Send { message } => message,
            other => panic!("{:?}", other),
        };
        assert!(matches!(self.step(NextEvent::Sent), NextAction::Receive { .. }));
        assert!(!self.have_token);
        out
    }

    /// The token comes in, what waits is committed, and the token goes out.
    fn hold(&mut self, token: ServerMessage) -> ServerMessage {
        let phase = self.take(token);
        assert!(phase.responses.is_empty());
        self.pass_on(phase.next)
    }

    fn snapshot(&self) -> Vec<UpdatedAccount> {
        let mut accounts = self.accounts.get_accounts_updated_after(0);
        accounts.sort_by_key(|account| account.id);
        accounts
    }
}

fn payload(message: &ServerMessage) -> &TokenData {
    match &message.message_type {
        ServerMessageType::Token(data) => data,
        other => panic!("not a token: {:?}", other),
    }
}

#[test]
fn three_sites_credit_at_a_reads_at_c() {
    let mut a = Site::joined(0, 3, 1);
    let mut b = Site::joined(1, 3, 2);
    let mut c = Site::joined(2, 3, 0);

    let reply = a.ask(MessageType::AddPoints, 7, 40);
    assert_eq!(reply.unwrap().status, ResponseStatus::Success);
    assert_eq!(c.ask(MessageType::RequestPoints, 7, 40), None);

    let token = a.hold(create_token_message(0));
    assert_eq!(payload(&token)[&0].len(), 1);
    assert_eq!(a.accounts.account(7).unwrap().points(), 40);
    let token = b.hold(token);
    assert_eq!(b.accounts.account(7).unwrap().points(), 40);

    let phase = c.take(token);
    assert_eq!(c.accounts.account(7).unwrap().points(), 40);
    assert_eq!(phase.responses.len(), 1);
    assert_eq!(phase.responses[0].0.status, ResponseStatus::Success);
    assert!(c.accounts.account(7).unwrap().is_reserved());
    let cancel = CoffeeMakerRequest {
        message_type: MessageType::CancelPointsRequest,
        account_id: 7,
        points: 0,
    };
    let dispatch = c.dispatcher.dispatch_coffee_request(cancel, 0, &c.status, &mut c.orders);
    assert_eq!(dispatch.reply.unwrap().status, ResponseStatus::Success);
    let next = c
        .manager
        .handle_result_of_substract_order(dispatch.to_orders_manager.unwrap(), &mut c.accounts);
    let token = c.pass_on(next);
    assert!(!c.accounts.account(7).unwrap().is_reserved());
    assert_eq!(c.accounts.account(7).unwrap().points(), 40);
    assert_eq!(payload(&token).len(), 1);

    // Back at A the entry of A has gone round and leaves the token.
    let token = a.hold(token);
    assert!(payload(&token).is_empty());
    assert_eq!(a.accounts.account(7).unwrap().points(), 40);
    assert_eq!(a.snapshot(), b.snapshot());
    assert_eq!(b.snapshot(), c.snapshot());
}

#[test]
fn at_most_one_site_holds_the_token_as_it_goes_round() {
    let mut sites = vec![Site::joined(0, 3, 1), Site::joined(1, 3, 2), Site::joined(2, 3, 0)];
    let mut token = create_token_message(0);
    for lap in 0..4 {
        for at in 0..3 {
            sites[at].ask(MessageType::AddPoints, (lap + at) as u64, 1);
            let phase = sites[at].take(token);
            assert_eq!(sites.iter().filter(|site| site.have_token).count(), 1);
            assert!(sites[at].have_token);
            token = sites[at].pass_on(phase.next);
            assert_eq!(sites.iter().filter(|site| site.have_token).count(), 0);
        }
    }
}

#[test]
fn join_with_catch_up() {
    let mut site_0 = Site::joined(0, 3, 1);
    let mut site_1 = Site::joined(1, 3, 0);
    let mut expected: HashMap<u64, u64> = HashMap::new();
    let mut token = create_token_message(0);
    for round in 0..50u64 {
        for (site, account, points) in
            [(&mut site_0, round % 7, round + 1), (&mut site_1, round % 5 + 3, 2 * round + 1)]
        {
            let reply = site.ask(MessageType::AddPoints, account, points);
            assert_eq!(reply.unwrap().status, ResponseStatus::Success);
            *expected.entry(account).or_insert(0) += points;
            token = site.hold(token);
        }
    }
    token = site_0.hold(token);
    site_1.hold(token);
    assert_eq!(site_0.snapshot(), site_1.snapshot());
    assert_eq!(site_0.snapshot().len(), expected.len());
    for account in site_0.snapshot() {
        assert_eq!(account.amount, expected[&account.id]);
    }

    // Site 2 comes back and announces itself to the first site that answers.
    let mut site_2 = Site {
        id: 2,
        receiver: PrevConnection::new(2),
        manager: OrdersManager::new(2),
        sender: NextConnection::new(2, 3),
        dispatcher: CoffeeMessageDispatcher::new(),
        status: ConnectionStatus::new(),
        have_token: false,
        accounts: MemoryAccountsManager::new(),
        orders: OrdersQueue::new(),
    };
    let join = match site_2.step(NextEvent::Started) {
        NextAction::Connect { peer, message } => {
            assert_eq!(peer, 0);
            message
        },
        other => panic!("{:?}", other),
    };
    assert!(matches!(site_2.step(NextEvent::Sent), NextAction::Receive { .. }));
    assert_eq!(site_2.sender.next_id(), 0);

    // Site 0 passes the announcement on: site 2 does not belong after it.
    let join = match site_0.receive(join) {
        PrevAction::ToNext(message) => message,
        other => panic!("{:?}", other),
    };
    let join = match site_0.step(NextEvent::Message(join)) {
        NextAction::Send { message } => message,
        other => panic!("{:?}", other),
    };
    assert!(matches!(site_0.step(NextEvent::Sent), NextAction::Receive { .. }));

    // Site 1 takes site 2 in, and tells it what it missed.
    let join = match site_1.receive(join) {
        PrevAction::ToNext(message) => message,
        other => panic!("{:?}", other),
    };
    match site_1.step(NextEvent::Message(join)) {
        NextAction::Open { peer } => assert_eq!(peer, 2),
        other => panic!("{:?}", other),
    }
    let farewell = match site_1.step(NextEvent::Opened) {
        NextAction::Replace { farewell } => farewell,
        other => panic!("{:?}", other),
    };
    assert_eq!(farewell.message_type, ServerMessageType::CloseConnection);
    let join = match site_1.step(NextEvent::Done) {
        NextAction::Send { message } => message,
        other => panic!("{:?}", other),
    };
    assert!(matches!(site_1.step(NextEvent::Sent), NextAction::Receive { .. }));
    assert_eq!(site_1.sender.next_id(), 2);
    assert_eq!(join.passed_by, [0usize, 1].into_iter().collect::<HashSet<usize>>());

    // The announcement has come full circle.
    assert!(matches!(site_2.receive(join), PrevAction::Continue));
    assert_eq!(site_2.snapshot(), site_0.snapshot());
    assert_eq!(site_2.snapshot(), site_1.snapshot());
    assert_eq!(site_2.accounts.get_most_recent_update(), site_1.accounts.get_most_recent_update());
    assert_eq!(site_2.id, 2);
}
