use vstd::prelude::*;

verus! {

/// Whether the link to one ring neighbour is up.
#[derive(Debug, Clone, Copy, PartialEq, Eq, Structural)]
pub enum Status {
    Connected,
    Disconnected,
}

/// The state of the two ring links of a site: the inbound link from the
/// previous peer and the outbound link to the next peer.
#[derive(Debug, Clone, Copy)]
pub struct ConnectionStatus {
    next: Status,
    prev: Status,
}

impl ConnectionStatus {
    /// The inbound link is up.
    pub closed spec fn prev_up(&self) -> bool {
        self.prev == Status::Connected
    }

    /// The outbound link is up.
    pub closed spec fn next_up(&self) -> bool {
        self.next == Status::Connected
    }

    /// A site is online when both of its links are up.
    pub open spec fn online(&self) -> bool {
        self.prev_up() && self.next_up()
    }

    /// A site starts with both links down.
    pub fn new() -> (status: ConnectionStatus)
        ensures
            !status.prev_up(),
            !status.next_up(),
    {
        ConnectionStatus { next: Status::Disconnected, prev: Status::Disconnected }
    }

    pub fn is_online(&self) -> (online: bool)
        ensures
            online == self.online(),
    {
        self.next == Status::Connected && self.prev == Status::Connected
    }

    pub fn is_prev_online(&self) -> (up: bool)
        ensures
            up == self.prev_up(),
    {
        self.prev == Status::Connected
    }

    pub fn is_next_online(&self) -> (up: bool)
        ensures
            up == self.next_up(),
    {
        self.next == Status::Connected
    }

    pub fn set_prev_online(&mut self)
        ensures
            final(self).prev_up(),
            final(self).next_up() == old(self).next_up(),
    {
        self.prev = Status::Connected;
    }

    pub fn set_next_online(&mut self)
        ensures
            final(self).next_up(),
            final(self).prev_up() == old(self).prev_up(),
    {
        self.next = Status::Connected;
    }

    pub fn set_prev_offline(&mut self)
        ensures
            !final(self).prev_up(),
            final(self).next_up() == old(self).next_up(),
    {
        self.prev = Status::Disconnected;
    }

    pub fn set_next_offline(&mut self)
        ensures
            !final(self).next_up(),
            final(self).prev_up() == old(self).prev_up(),
    {
        self.next = Status::Disconnected;
    }
}

} // verus!
