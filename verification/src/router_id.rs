//! Node identifiers.

use vstd::prelude::*;

verus! {

/// Number of bytes in a node identifier.
pub const ROUTER_ID_SIZE: usize = 40;

/// The identifier a node announces itself with.
#[derive(Clone, Copy, Debug)]
pub struct RouterId {
    bytes: [u8; 40],
}

impl View for RouterId {
    type V = Seq<u8>;

    closed spec fn view(&self) -> Seq<u8> {
        self.bytes@
    }
}

impl RouterId {
    pub fn new(bytes: [u8; 40]) -> (id: RouterId)
        ensures
            id@ == bytes@,
    {
        RouterId { bytes }
    }

    pub fn as_bytes(&self) -> (bytes: [u8; 40])
        ensures
            bytes@ == self@,
    {
        self.bytes
    }

    /// An identifier is always `ROUTER_ID_SIZE` bytes long.
    pub proof fn lemma_len(self)
        ensures
            self@.len() == ROUTER_ID_SIZE,
    {
    }

    /// Identifiers with the same bytes are the same identifier.
    pub proof fn lemma_eq(self, other: RouterId)
        ensures
            self == other <==> self@ == other@,
    {
        if self@ == other@ {
            assert(self.bytes =~= other.bytes);
        }
    }
}

impl PartialEq for RouterId {
    fn eq(&self, other: &RouterId) -> (same: bool) {
        let mut i: usize = 0;
        while i < 40
            invariant
                i <= 40,
                forall|j: int| 0 <= j < i ==> self.bytes@[j] == other.bytes@[j],
            decreases 40 - i,
        {
            if self.bytes[i] != other.bytes[i] {
                return false;
            }
            i += 1;
        }
        assert(self.bytes@ =~= other.bytes@);
        true
    }
}

impl Eq for RouterId {}

impl vstd::std_specs::cmp::PartialEqSpecImpl for RouterId {
    open spec fn obeys_eq_spec() -> bool {
        true
    }

    open spec fn eq_spec(&self, other: &RouterId) -> bool {
        self@ == other@
    }
}

} // verus!
