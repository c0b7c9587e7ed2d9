//! Sessions as the peer manager sees them.
//!
//! An established session belongs to the router. The peer manager only keeps
//! a reference to it, by which it can ask whether the session is still alive.

use vstd::prelude::*;

verus! {

/// A non-owning reference to a session, used to check liveness. Sessions are
/// told apart by a number that whoever creates them hands out once.
#[derive(Clone, Copy, Debug, PartialEq, Eq)]
pub struct PeerRef {
    /// The session referred to; `None` for an entry that never had one.
    pub session: Option<u64>,
}

impl PeerRef {
    /// Whether the referenced session is among the live ones. A reference to
    /// no session is never alive.
    pub open spec fn spec_alive(&self, live: Set<u64>) -> bool {
        match self.session {
            Some(session) => live.contains(session),
            None => false,
        }
    }

    /// A reference to no session.
    pub fn new() -> (pr: PeerRef)
        ensures
            pr.session is None,
    {
        PeerRef { session: None }
    }

    /// A reference to the given session.
    pub fn refer(session: u64) -> (pr: PeerRef)
        ensures
            pr.session == Some(session),
    {
        PeerRef { session: Some(session) }
    }

    /// Checks the reference against the sessions that are alive right now.
    pub fn alive(&self, live: &Vec<u64>) -> (alive: bool)
        ensures
            alive == self.spec_alive(live@.to_set()),
    {
        match self.session {
            None => false,
            Some(session) => {
                let mut i: usize = 0;
                while i < live.len()
                    invariant
                        i <= live.len(),
                        self.session == Some(session),
                        forall|j: int| 0 <= j < i ==> live@[j] != session,
                    decreases live.len() - i,
                {
                    if live[i] == session {
                        assert(live@[i as int] == session);
                        return true;
                    }
                    i += 1;
                }
                false
            },
        }
    }
}

} // verus!
