//! The endpoint of an in-process service: any number of clients, one server.

use vstd::prelude::*;

verus! {

/// Owns both ends of a request channel. `Tx` is the sending end, of which
/// every client gets a copy; `Rx` is the receiving end, which moves to the
/// server.
pub struct LocalService<Tx, Rx> {
    tx: Tx,
    rx: Option<Rx>,
}

impl<Tx, Rx> LocalService<Tx, Rx> {
    /// The sending end.
    pub closed spec fn sender(&self) -> Tx {
        self.tx
    }

    /// The receiving end until the server has taken it.
    pub closed spec fn receiver(&self) -> Option<Rx> {
        self.rx
    }

    /// A service over the two ends of a channel.
    pub fn new(tx: Tx, rx: Rx) -> (service: Self)
        ensures
            service.sender() == tx,
            service.receiver() == Some(rx),
    {
        LocalService { tx, rx: Some(rx) }
    }

    /// The sending end, for a client to copy.
    pub fn client(&self) -> (tx: &Tx)
        ensures
            *tx == self.sender(),
    {
        &self.tx
    }

    /// Whether the server has taken the receiving end.
    pub fn is_served(&self) -> (served: bool)
        ensures
            served == (self.receiver() is None),
    {
        self.rx.is_none()
    }

    /// The receiving end, for the server. It can be taken once.
    pub fn server(&mut self) -> (rx: Rx)
        requires
            old(self).receiver() is Some,
        ensures
            Some(rx) == old(self).receiver(),
            final(self).receiver() is None,
            final(self).sender() == old(self).sender(),
    {
        self.rx.take().unwrap()
    }
}

} // verus!
