use vstd::prelude::*;
use std::collections::HashMap;
use crate::keys::keys_of;
use crate::local_connection_messages::CoffeeMakerRequest;
use crate::local_connection_messages::MessageType;

verus! {

/// The queue as a plain value: the credits and the reservations that wait
/// for the token, each with the coffee maker that sent it, oldest first.
pub struct QueueView {
    pub credits: Seq<(CoffeeMakerRequest, usize)>,
    pub reservations: Seq<(CoffeeMakerRequest, usize)>,
}

/// The requests of a list of queued orders, without their coffee makers.
pub open spec fn requests_of(queued: Seq<(CoffeeMakerRequest, usize)>) -> Seq<CoffeeMakerRequest> {
    queued.map_values(|order: (CoffeeMakerRequest, usize)| order.0)
}

/// The points that a list of requests holds for one account, all told.
pub open spec fn points_for(orders: Seq<CoffeeMakerRequest>, id: u64) -> nat
    decreases orders.len(),
{
    if orders.len() == 0 {
        0
    } else {
        points_for(orders.drop_last(), id) + if orders.last().account_id == id {
            orders.last().points as nat
        } else {
            0
        }
    }
}

/// Some request of the list is for the account.
pub open spec fn mentions(orders: Seq<CoffeeMakerRequest>, id: u64) -> bool {
    exists|i: int| 0 <= i < orders.len() && (#[trigger] orders[i]).account_id == id
}

/// `orders` is `queued`, reduced by account: credits only, for the same
/// accounts, with the same points for each account. Where the points of each
/// account fit a `u64`, each account has one order; where they do not, the
/// account has as many as it takes to hold them.
pub open spec fn coalesces(queued: Seq<CoffeeMakerRequest>, orders: Seq<CoffeeMakerRequest>) -> bool {
    &&& forall|i: int|
        0 <= i < orders.len() ==> (#[trigger] orders[i]).message_type == MessageType::AddPoints
    &&& forall|id: u64| #[trigger] mentions(orders, id) <==> mentions(queued, id)
    &&& forall|id: u64| #[trigger] points_for(orders, id) == points_for(queued, id)
    &&& (forall|id: u64| #[trigger] points_for(queued, id) <= u64::MAX) ==> forall|i: int, j: int|
        0 <= i < j < orders.len() ==> (#[trigger] orders[i]).account_id != (
        #[trigger] orders[j]).account_id
}

/// One more request adds its points to the account it is for.
pub proof fn lemma_points_for_push(orders: Seq<CoffeeMakerRequest>, order: CoffeeMakerRequest, id: u64)
    ensures
        points_for(orders.push(order), id) == points_for(orders, id) + if order.account_id == id {
            order.points as nat
        } else {
            0
        },
{
    assert(orders.push(order).drop_last() =~= orders);
}

/// The points of an account in the first `n` requests are no more than in
/// the whole list.
pub proof fn lemma_points_for_prefix(orders: Seq<CoffeeMakerRequest>, n: int, id: u64)
    requires
        0 <= n <= orders.len(),
    ensures
        points_for(orders.subrange(0, n), id) <= points_for(orders, id),
    decreases orders.len() - n,
{
    if n == orders.len() {
        assert(orders.subrange(0, n) =~= orders);
    } else {
        lemma_points_for_prefix(orders, n + 1, id);
        assert(orders.subrange(0, n + 1).drop_last() =~= orders.subrange(0, n));
    }
}

/// The orders of the coffee makers that wait for the token.
pub struct OrdersQueue {
    adding_orders: Vec<(CoffeeMakerRequest, usize)>,
    request_points_orders: Vec<(CoffeeMakerRequest, usize)>,
}

impl View for OrdersQueue {
    type V = QueueView;

    closed spec fn view(&self) -> QueueView {
        QueueView { credits: self.adding_orders@, reservations: self.request_points_orders@ }
    }
}

/// The sums that stand for `id` while orders are reduced: what was set
/// aside plus what the running sum holds.
spec fn held(spilled: Seq<CoffeeMakerRequest>, sums: Map<u64, u64>, id: u64) -> nat {
    points_for(spilled, id) + if sums.contains_key(id) {
        sums[id] as nat
    } else {
        0
    }
}

impl OrdersQueue {
    /// An empty queue.
    pub fn new() -> (queue: OrdersQueue)
        ensures
            queue@.credits.len() == 0,
            queue@.reservations.len() == 0,
    {
        OrdersQueue { adding_orders: Vec::new(), request_points_orders: Vec::new() }
    }

    /// Queues a credit or a reservation behind those that wait. Requests of
    /// other kinds are not queued.
    pub fn add(&mut self, order: CoffeeMakerRequest, coffee_maker_id: usize)
        ensures
            final(self)@.credits == if order.message_type == MessageType::AddPoints {
                old(self)@.credits.push((order, coffee_maker_id))
            } else {
                old(self)@.credits
            },
            final(self)@.reservations == if order.message_type == MessageType::RequestPoints {
                old(self)@.reservations.push((order, coffee_maker_id))
            } else {
                old(self)@.reservations
            },
    {
        match order.message_type {
            MessageType::AddPoints => self.adding_orders.push((order, coffee_maker_id)),
            MessageType::RequestPoints => self.request_points_orders.push((order, coffee_maker_id)),
            _ => {},
        }
    }

    /// How many credits wait in the queue.
    pub fn credits_len(&self) -> (len: usize)
        ensures
            len == self@.credits.len(),
    {
        self.adding_orders.len()
    }

    /// How many reservations wait in the queue.
    pub fn reservations_len(&self) -> (len: usize)
        ensures
            len == self@.reservations.len(),
    {
        self.request_points_orders.len()
    }

    /// Nothing waits in the queue.
    pub fn is_empty(&self) -> (empty: bool)
        ensures
            empty == (self@.credits.len() == 0 && self@.reservations.len() == 0),
    {
        self.adding_orders.len() == 0 && self.request_points_orders.len() == 0
    }

    /// Takes the credits out of the queue, reduced by account: see
    /// `coalesces`. The order of the accounts is not fixed.
    pub fn get_and_clear_adding_orders(&mut self) -> (orders: Vec<CoffeeMakerRequest>)
        ensures
            final(self)@.credits.len() == 0,
            final(self)@.reservations == old(self)@.reservations,
            coalesces(requests_of(old(self)@.credits), orders@),
    {
        broadcast use vstd::std_specs::hash::group_hash_axioms;

        let ghost queued = requests_of(self@.credits);
        let mut sums: HashMap<u64, u64> = HashMap::new();
        let mut orders: Vec<CoffeeMakerRequest> = Vec::new();
        let mut i: usize = 0;
        assert(queued.subrange(0, 0) =~= Seq::<CoffeeMakerRequest>::empty());
        while i < self.adding_orders.len()
            invariant
                i <= self.adding_orders.len(),
                *self == *old(self),
                queued == requests_of(self@.credits),
                queued.len() == self.adding_orders.len(),
                forall|id: u64| #[trigger]
                    held(orders@, sums@, id) == points_for(queued.subrange(0, i as int), id),
                forall|id: u64|
                    sums@.contains_key(id) <==> #[trigger] mentions(queued.subrange(0, i as int), id),
                forall|k: int|
                    0 <= k < orders@.len() ==> (#[trigger] orders@[k]).message_type
                        == MessageType::AddPoints && sums@.contains_key(orders@[k].account_id),
                (forall|id: u64| #[trigger] points_for(queued, id) <= u64::MAX) ==> orders@.len() == 0,
            decreases self.adding_orders.len() - i,
        {
            let order = self.adding_orders[i].0;
            let id = order.account_id;
            let ghost before = queued.subrange(0, i as int);
            let ghost after = queued.subrange(0, i + 1);
            let ghost old_sums = sums@;
            let ghost old_orders = orders@;
            proof {
                assert(queued[i as int] == order);
                assert(after =~= before.push(order));
                assert forall|other: u64| points_for(after, other) == points_for(before, other)
                    + if order.account_id == other {
                    order.points as nat
                } else {
                    0
                } by {
                    lemma_points_for_push(before, order, other);
                }
                assert forall|other: u64| mentions(after, other) <==> (mentions(before, other)
                    || other == id) by {
                    if mentions(before, other) {
                        let k = choose|k: int|
                            0 <= k < before.len() && (#[trigger] before[k]).account_id == other;
                        assert(after[k].account_id == other);
                    }
                    if other == id {
                        assert(after[i as int].account_id == other);
                    }
                    if mentions(after, other) {
                        let k = choose|k: int|
                            0 <= k < after.len() && (#[trigger] after[k]).account_id == other;
                        if k < i {
                            assert(before[k].account_id == other);
                        }
                    }
                }
                assert(held(old_orders, old_sums, id) == points_for(before, id));
            }
            let sum = match sums.get(&id) {
                Some(sum) => *sum,
                None => 0,
            };
            if sum > u64::MAX - order.points {
                let spill = CoffeeMakerRequest {
                    message_type: MessageType::AddPoints,
                    account_id: id,
                    points: sum,
                };
                orders.push(spill);
                sums.insert(id, order.points);
                proof {
                    assert(sums@.contains_key(id));
                    assert forall|other: u64| #[trigger]
                        held(orders@, sums@, other) == points_for(after, other) by {
                        lemma_points_for_push(old_orders, spill, other);
                        assert(held(old_orders, old_sums, other) == points_for(before, other));
                    }
                    lemma_points_for_prefix(queued, i + 1, id);
                    assert(points_for(queued, id) > u64::MAX);
                }
            } else {
                sums.insert(id, sum + order.points);
                proof {
                    assert forall|other: u64| #[trigger]
                        held(orders@, sums@, other) == points_for(after, other) by {
                        assert(held(old_orders, old_sums, other) == points_for(before, other));
                    }
                }
            }
            i = i + 1;
        }
        assert(queued.subrange(0, i as int) =~= queued);
        let ghost spilled = orders@;
        let ghost spilled_len = orders@.len();
        let ids = keys_of(&sums);
        let mut k: usize = 0;
        while k < ids.len()
            invariant
                k <= ids.len(),
                ids@.no_duplicates(),
                forall|id: u64| ids@.contains(id) <==> sums@.contains_key(id),
                orders@.len() == spilled_len + k,
                orders@.subrange(0, spilled_len as int) == spilled,
                forall|j: int|
                    0 <= j < k ==> (#[trigger] orders@[spilled_len + j]) == (CoffeeMakerRequest {
                        message_type: MessageType::AddPoints,
                        account_id: ids@[j],
                        points: sums@[ids@[j]],
                    }),
                forall|id: u64| #[trigger]
                    points_for(orders@, id) == points_for(spilled, id) + if exists|j: int|
                        0 <= j < k && ids@[j] == id {
                        sums@[id] as nat
                    } else {
                        0
                    },
            decreases ids.len() - k,
        {
            let id = ids[k];
            assert(ids@.contains(ids@[k as int]));
            let points = match sums.get(&id) {
                Some(sum) => *sum,
                None => 0,
            };
            let order = CoffeeMakerRequest { message_type: MessageType::AddPoints, account_id: id, points };
            let ghost old_orders = orders@;
            orders.push(order);
            proof {
                assert(orders@.subrange(0, spilled_len as int) =~= old_orders.subrange(
                    0,
                    spilled_len as int,
                ));
                assert forall|other: u64| #[trigger]
                    points_for(orders@, other) == points_for(spilled, other) + if exists|j: int|
                        0 <= j < k + 1 && ids@[j] == other {
                        sums@[other] as nat
                    } else {
                        0
                    } by {
                    lemma_points_for_push(old_orders, order, other);
                    if other == id {
                        assert(ids@[k as int] == other);
                        if exists|j: int| 0 <= j < k && ids@[j] == other {
                            let j = choose|j: int| 0 <= j < k && ids@[j] == other;
                            assert(ids@[j] == ids@[k as int]);
                        }
                    } else {
                        if exists|j: int| 0 <= j < k + 1 && ids@[j] == other {
                            let j = choose|j: int| 0 <= j < k + 1 && ids@[j] == other;
                            assert(j < k);
                        }
                    }
                }
            }
            k = k + 1;
        }
        proof {
            assert forall|id: u64| #[trigger] points_for(orders@, id) == points_for(queued, id) by {
                assert(held(spilled, sums@, id) == points_for(queued, id));
                if sums@.contains_key(id) {
                    assert(ids@.contains(id));
                    let j = choose|j: int| 0 <= j < ids@.len() && ids@[j] == id;
                    assert(0 <= j < k && ids@[j] == id);
                } else {
                    if exists|j: int| 0 <= j < k && ids@[j] == id {
                        let j = choose|j: int| 0 <= j < k && ids@[j] == id;
                        assert(ids@.contains(ids@[j]));
                    }
                }
            }
            assert forall|n: int| 0 <= n < orders@.len() implies (#[trigger] orders@[n]).message_type
                == MessageType::AddPoints && sums@.contains_key(orders@[n].account_id) by {
                if n < spilled_len {
                    assert(orders@[n] == orders@.subrange(0, spilled_len as int)[n]);
                } else {
                    let j = n - spilled_len;
                    assert(orders@[spilled_len + j].account_id == ids@[j]);
                    assert(ids@.contains(ids@[j]));
                }
            }
            assert forall|id: u64| #[trigger] mentions(orders@, id) <==> mentions(queued, id) by {
                if mentions(orders@, id) {
                    let n = choose|n: int|
                        0 <= n < orders@.len() && (#[trigger] orders@[n]).account_id == id;
                    assert(sums@.contains_key(orders@[n].account_id));
                }
                if mentions(queued, id) {
                    assert(ids@.contains(id));
                    let j = choose|j: int| 0 <= j < ids@.len() && ids@[j] == id;
                    assert(orders@[spilled_len + j].account_id == id);
                }
            }
            if forall|id: u64| #[trigger] points_for(queued, id) <= u64::MAX {
                assert(spilled_len == 0);
                assert forall|a: int, b: int| 0 <= a < b < orders@.len() implies (
                #[trigger] orders@[a]).account_id != (#[trigger] orders@[b]).account_id by {
                    assert(orders@[spilled_len + a].account_id == ids@[a]);
                    assert(orders@[spilled_len + b].account_id == ids@[b]);
                }
            }
        }
        self.adding_orders.clear();
        orders
    }

    /// Takes the reservations out of the queue, oldest first, each with the
    /// coffee maker that waits for the answer.
    pub fn get_and_clear_request_points_orders(&mut self) -> (orders: Vec<
        (CoffeeMakerRequest, usize),
    >)
        ensures
            orders@ == old(self)@.reservations,
            final(self)@.reservations.len() == 0,
            final(self)@.credits == old(self)@.credits,
    {
        let mut orders: Vec<(CoffeeMakerRequest, usize)> = Vec::new();
        let mut i: usize = 0;
        while i < self.request_points_orders.len()
            invariant
                i <= self.request_points_orders.len(),
                *self == *old(self),
                orders@ == self.request_points_orders@.subrange(0, i as int),
            decreases self.request_points_orders.len() - i,
        {
            orders.push(self.request_points_orders[i]);
            i = i + 1;
            assert(orders@ =~= self.request_points_orders@.subrange(0, i as int));
        }
        assert(self.request_points_orders@.subrange(0, i as int) =~= self.request_points_orders@);
        self.request_points_orders.clear();
        orders
    }
}

impl Default for OrdersQueue {
    fn default() -> (queue: OrdersQueue)
        ensures
            queue@.credits.len() == 0,
            queue@.reservations.len() == 0,
    {
        OrdersQueue::new()
    }
}

/// Draining, queueing the drained credits again and draining once more
/// gives each account the points that the first draining gave it.
pub proof fn lemma_drain_again(
    queued: Seq<CoffeeMakerRequest>,
    drained: Seq<CoffeeMakerRequest>,
    drained_again: Seq<CoffeeMakerRequest>,
    id: u64,
)
    requires
        coalesces(queued, drained),
        coalesces(drained, drained_again),
    ensures
        points_for(drained_again, id) == points_for(drained, id),
        points_for(drained_again, id) == points_for(queued, id),
        mentions(drained_again, id) <==> mentions(drained, id),
{
}

} // verus!
