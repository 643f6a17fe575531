use vstd::prelude::*;
use crate::constants::CLEAN_ORDERS_TIME_IN_MS;
use crate::constants::INITIAL_WAIT_IN_MS_FOR_CONNECTION_ATTEMPT;
use crate::constants::MAX_WAIT_IN_MS_FOR_CONNECTION_ATTEMPT;
use crate::local_connection_messages::MessageType;
use crate::server_messages::AccountAction;

verus! {

/// `sender_id` lies strictly between `my_id` and `next_id` on the way round
/// the ring, which goes up through the ids and from the highest back to the
/// lowest. A site whose next site is itself, or comes before it, has every
/// other site on that way.
pub open spec fn in_between(my_id: usize, sender_id: usize, next_id: usize) -> bool {
    if my_id < next_id {
        my_id < sender_id && sender_id < next_id
    } else {
        my_id < sender_id || sender_id < next_id
    }
}

/// Whether a site that joins belongs between this site and its next one:
/// see `in_between`.
pub fn is_in_between(my_id: usize, sender_id: usize, next_id: usize) -> (between: bool)
    ensures
        between == in_between(my_id, sender_id, next_id),
{
    if my_id < next_id {
        my_id < sender_id && sender_id < next_id
    } else {
        my_id < sender_id || sender_id < next_id
    }
}

/// The number of steps up the ring from `from` to `to`, for ids of a ring of
/// `peer_count` sites.
pub open spec fn steps_up(from: int, to: int, peer_count: int) -> int {
    if to >= from {
        to - from
    } else {
        to - from + peer_count
    }
}

/// Between, in steps: the joining site is fewer steps up the ring than the
/// next site, which is a whole lap away where it is this site itself.
pub proof fn lemma_in_between_is_nearer(my_id: usize, sender_id: usize, next_id: usize, peer_count: usize)
    requires
        my_id < peer_count,
        sender_id < peer_count,
        next_id < peer_count,
    ensures
        in_between(my_id, sender_id, next_id) <==> {
            let to_next = if next_id == my_id {
                peer_count as int
            } else {
                steps_up(my_id as int, next_id as int, peer_count as int)
            };
            0 < steps_up(my_id as int, sender_id as int, peer_count as int) < to_next
        },
{
}

/// The ids from `from` up to, but not including, `to`.
pub open spec fn span(from: int, to: int) -> Seq<usize> {
    Seq::new(
        (if to > from {
            to - from
        } else {
            0
        }) as nat,
        |i: int| (from + i) as usize,
    )
}

/// The order in which a site tries its peers when it looks for a next site:
/// up the ring from the site after it to the last one, then from the first
/// one to the site before it; and last, where `with_self` says so, itself.
pub open spec fn connect_order(id: usize, peer_count: usize, with_self: bool) -> Seq<usize> {
    span(id + 1, peer_count as int) + span(0, id as int) + if with_self {
        seq![id]
    } else {
        Seq::empty()
    }
}

/// The order in which a site that cannot pass a probe on tries the sites
/// between its next site and the site that the token may have been lost to:
/// up the ring from the one to the other, which is not tried itself.
pub open spec fn probe_order(next_id: usize, lost_id: usize, peer_count: usize) -> Seq<usize> {
    if lost_id < next_id {
        span(next_id as int, peer_count as int) + span(0, lost_id as int)
    } else {
        span(next_id as int, lost_id as int)
    }
}

/// Appends the ids from `from` up to, but not including, `to`.
fn push_span(list: &mut Vec<usize>, from: usize, to: usize)
    ensures
        final(list)@ == old(list)@ + span(from as int, to as int),
{
    let mut id = from;
    assert(list@ =~= old(list)@ + span(from as int, from as int));
    while id < to
        invariant
            from <= id,
            id <= to || id == from,
            list@ == old(list)@ + span(from as int, id as int),
        decreases to - id,
    {
        list.push(id);
        assert(list@ =~= old(list)@ + span(from as int, id + 1));
        id = id + 1;
    }
    assert(span(from as int, id as int) =~= span(from as int, to as int));
}

/// Computes `connect_order`.
pub fn connect_candidates(id: usize, peer_count: usize, with_self: bool) -> (candidates: Vec<usize>)
    ensures
        candidates@ == connect_order(id, peer_count, with_self),
{
    let mut candidates: Vec<usize> = Vec::new();
    if id < peer_count {
        push_span(&mut candidates, id + 1, peer_count);
    }
    assert(candidates@ =~= span(id + 1, peer_count as int));
    push_span(&mut candidates, 0, id);
    if with_self {
        candidates.push(id);
    }
    assert(candidates@ =~= connect_order(id, peer_count, with_self));
    candidates
}

/// Computes `probe_order`.
pub fn probe_candidates(next_id: usize, lost_id: usize, peer_count: usize) -> (candidates: Vec<usize>)
    ensures
        candidates@ == probe_order(next_id, lost_id, peer_count),
{
    let mut candidates: Vec<usize> = Vec::new();
    if lost_id < next_id {
        push_span(&mut candidates, next_id, peer_count);
        push_span(&mut candidates, 0, lost_id);
    } else {
        push_span(&mut candidates, next_id, lost_id);
    }
    assert(candidates@ =~= probe_order(next_id, lost_id, peer_count));
    candidates
}

/// The wait before the next attempt to join, after a wait of `wait`
/// milliseconds: twice as long, and the first wait again once that would
/// reach the longest wait.
pub open spec fn backoff(wait: u64) -> u64 {
    if 2 * wait >= MAX_WAIT_IN_MS_FOR_CONNECTION_ATTEMPT {
        INITIAL_WAIT_IN_MS_FOR_CONNECTION_ATTEMPT
    } else {
        (2 * wait) as u64
    }
}

/// Computes `backoff`.
pub fn next_wait(wait: u64) -> (next: u64)
    ensures
        next == backoff(wait),
{
    if wait >= MAX_WAIT_IN_MS_FOR_CONNECTION_ATTEMPT / 2 {
        INITIAL_WAIT_IN_MS_FOR_CONNECTION_ATTEMPT
    } else {
        wait * 2
    }
}

/// Whether a site that waits this long between two attempts to join gives up
/// the reservations in its queue: once the wait exceeds
/// `CLEAN_ORDERS_TIME_IN_MS`.
pub fn should_clean(wait: u64) -> (clean: bool)
    ensures
        clean == (wait > CLEAN_ORDERS_TIME_IN_MS),
{
    wait > CLEAN_ORDERS_TIME_IN_MS
}

/// The credits among a list of actions, in their order.
pub open spec fn credits_of(actions: Seq<AccountAction>) -> Seq<AccountAction>
    decreases actions.len(),
{
    if actions.len() == 0 {
        Seq::empty()
    } else if actions.last().message_type == MessageType::AddPoints {
        credits_of(actions.drop_last()).push(actions.last())
    } else {
        credits_of(actions.drop_last())
    }
}

/// Computes `credits_of`.
pub fn credits_only(actions: &Vec<AccountAction>) -> (credits: Vec<AccountAction>)
    ensures
        credits@ == credits_of(actions@),
{
    let mut credits: Vec<AccountAction> = Vec::new();
    let mut i: usize = 0;
    assert(actions@.subrange(0, 0) =~= Seq::<AccountAction>::empty());
    while i < actions.len()
        invariant
            i <= actions.len(),
            credits@ == credits_of(actions@.subrange(0, i as int)),
        decreases actions.len() - i,
    {
        let action = actions[i];
        assert(actions@.subrange(0, i + 1).drop_last() =~= actions@.subrange(0, i as int));
        match action.message_type {
            MessageType::AddPoints => {
                credits.push(action);
            },
            _ => {},
        }
        i = i + 1;
    }
    assert(actions@.subrange(0, i as int) =~= actions@);
    credits
}

/// Only credits are among the credits of a list, and all of them, each as
/// often as in the list.
pub proof fn lemma_credits_of(actions: Seq<AccountAction>)
    ensures
        credits_of(actions).len() <= actions.len(),
        forall|i: int|
            0 <= i < credits_of(actions).len() ==> (#[trigger] credits_of(actions)[i]).message_type
                == MessageType::AddPoints && actions.contains(credits_of(actions)[i]),
        forall|i: int|
            0 <= i < actions.len() && (#[trigger] actions[i]).message_type == MessageType::AddPoints
                ==> credits_of(actions).contains(actions[i]),
    decreases actions.len(),
{
    if actions.len() > 0 {
        let rest = actions.drop_last();
        lemma_credits_of(rest);
        let credits = credits_of(actions);
        assert forall|i: int| 0 <= i < credits.len() implies (#[trigger] credits[i]).message_type
            == MessageType::AddPoints && actions.contains(credits[i]) by {
            if i < credits_of(rest).len() {
                assert(credits[i] == credits_of(rest)[i]);
                let j = choose|j: int| 0 <= j < rest.len() && rest[j] == credits_of(rest)[i];
                assert(actions[j] == credits[i]);
            } else {
                assert(credits[i] == actions.last());
                assert(actions[actions.len() - 1] == credits[i]);
            }
        }
        assert forall|i: int|
            0 <= i < actions.len() && (#[trigger] actions[i]).message_type
                == MessageType::AddPoints implies credits.contains(actions[i]) by {
            if i < rest.len() {
                assert(rest[i] == actions[i]);
                let j = choose|j: int|
                    0 <= j < credits_of(rest).len() && credits_of(rest)[j] == rest[i];
                assert(credits[j] == actions[i]);
            } else {
                assert(credits[credits.len() - 1] == actions[i]);
            }
        }
    }
}

} // verus!
