//! Single-slot, single-use rendezvous between a waiting backend and the user's
//! answer (a PIN, or the choice among several accounts).
use vstd::prelude::*;

verus! {

/// Holds at most one responder, together with the transaction it belongs to.
pub struct ResponseBridge<R> {
    slot: Option<(u64, R)>,
}

impl<R> View for ResponseBridge<R> {
    type V = Option<(u64, R)>;

    closed spec fn view(&self) -> Option<(u64, R)> {
        self.slot
    }
}

impl<R> ResponseBridge<R> {
    /// An empty bridge.
    pub fn new() -> (r: Self)
        ensures
            r@ is None,
    {
        ResponseBridge { slot: None }
    }

    /// Stores the responder of a new request, dropping any older one: only the
    /// most recent request can be answered.
    pub fn offer(&mut self, tid: u64, responder: R)
        ensures
            final(self)@ == Some((tid, responder)),
    {
        self.slot = Some((tid, responder));
    }

    /// Takes the stored responder out. It is handed back only when it belongs
    /// to `tid`; otherwise it is dropped, since a confused pairing of caller
    /// and backend cannot be recovered.
    pub fn deliver(&mut self, tid: u64) -> (r: Option<R>)
        ensures
            final(self)@ is None,
            r == (match old(self)@ {
                Some((t, resp)) => if t == tid { Some(resp) } else { None },
                None => None,
            }),
    {
        match self.slot.take() {
            Some((t, resp)) => {
                if t == tid {
                    Some(resp)
                } else {
                    None
                }
            },
            None => None,
        }
    }

    /// Drops any stored responder without answering it.
    pub fn clear(&mut self)
        ensures
            final(self)@ is None,
    {
        self.slot = None;
    }
}

} // verus!
