//! The collection of known peers, keyed by endpoint and kept in the order in
//! which the endpoints were first registered.

use vstd::prelude::*;
use crate::endpoint::Endpoint;
use crate::peer_manager::PeerInfo;

verus! {

/// Known peers by endpoint. Every endpoint has at most one entry.
pub struct Registry {
    keys: Vec<Endpoint>,
    infos: Vec<PeerInfo>,
}

impl View for Registry {
    type V = Map<Endpoint, PeerInfo>;

    closed spec fn view(&self) -> Map<Endpoint, PeerInfo> {
        Map::new(
            |e: Endpoint| self.keys@.contains(e),
            |e: Endpoint| self.infos@[self.keys@.index_of(e)],
        )
    }
}

impl Registry {
    /// The registered endpoints, oldest first.
    pub closed spec fn endpoints(&self) -> Seq<Endpoint> {
        self.keys@
    }

    /// No endpoint is registered twice, and each has its entry.
    pub closed spec fn wf(&self) -> bool {
        &&& self.keys@.len() == self.infos@.len()
        &&& self.keys@.no_duplicates()
    }

    /// The registered endpoints are listed once each, and they are the keys
    /// of the view.
    pub proof fn lemma_endpoints(&self)
        requires
            self.wf(),
        ensures
            self.endpoints().no_duplicates(),
            self@.dom() == self.endpoints().to_set(),
            self@.dom().finite(),
            self@.dom().len() == self.endpoints().len(),
    {
        assert(self@.dom() =~= self.keys@.to_set());
        self.keys@.unique_seq_to_set();
        vstd::seq_lib::seq_to_set_is_finite(self.keys@);
    }

    proof fn lemma_entry(&self, i: int)
        requires
            self.wf(),
            0 <= i < self.keys@.len(),
        ensures
            self@.contains_key(self.keys@[i]),
            self@[self.keys@[i]] == self.infos@[i],
            self.keys@.index_of(self.keys@[i]) == i,
    {
        let e = self.keys@[i];
        assert(self.keys@.contains(e));
        let k = self.keys@.index_of(e);
        assert(0 <= k < self.keys@.len() && self.keys@[k] == e);
    }

    pub fn new() -> (registry: Registry)
        ensures
            registry.wf(),
            registry@ == Map::<Endpoint, PeerInfo>::empty(),
            registry.endpoints() == Seq::<Endpoint>::empty(),
    {
        let registry = Registry { keys: Vec::new(), infos: Vec::new() };
        assert(registry@ =~= Map::<Endpoint, PeerInfo>::empty());
        registry
    }

    /// Number of known peers.
    pub fn len(&self) -> (n: usize)
        requires
            self.wf(),
        ensures
            n == self.endpoints().len(),
            n == self@.dom().len(),
    {
        proof {
            self.lemma_endpoints();
        }
        self.keys.len()
    }

    /// The endpoint registered at position `i`.
    pub fn endpoint_at(&self, i: usize) -> (endpoint: Endpoint)
        requires
            self.wf(),
            i < self.endpoints().len(),
        ensures
            endpoint == self.endpoints()[i as int],
            self@.contains_key(endpoint),
    {
        proof {
            self.lemma_entry(i as int);
        }
        self.keys[i]
    }

    /// The entry of the endpoint registered at position `i`.
    pub fn info_at(&self, i: usize) -> (info: PeerInfo)
        requires
            self.wf(),
            i < self.endpoints().len(),
        ensures
            self@.contains_key(self.endpoints()[i as int]),
            info == self@[self.endpoints()[i as int]],
    {
        proof {
            self.lemma_entry(i as int);
        }
        self.infos[i]
    }

    /// Where an endpoint is registered, if it is.
    pub fn position(&self, endpoint: &Endpoint) -> (found: Option<usize>)
        requires
            self.wf(),
        ensures
            match found {
                Some(i) => i < self.endpoints().len() && self.endpoints()[i as int] == *endpoint
                    && self@.contains_key(*endpoint),
                None => !self@.contains_key(*endpoint),
            },
    {
        let mut i: usize = 0;
        while i < self.keys.len()
            invariant
                i <= self.keys.len(),
                forall|j: int| 0 <= j < i ==> self.keys@[j] != *endpoint,
            decreases self.keys.len() - i,
        {
            if self.keys[i] == *endpoint {
                assert(self.keys@.contains(*endpoint));
                return Some(i);
            }
            i += 1;
        }
        None
    }

    /// The entry of an endpoint, if it is known.
    pub fn get(&self, endpoint: &Endpoint) -> (info: Option<PeerInfo>)
        requires
            self.wf(),
        ensures
            info == if self@.contains_key(*endpoint) {
                Some(self@[*endpoint])
            } else {
                None
            },
    {
        match self.position(endpoint) {
            Some(i) => Some(self.info_at(i)),
            None => None,
        }
    }

    /// Replaces the entry of the endpoint registered at position `i`.
    pub fn set_info_at(&mut self, i: usize, info: PeerInfo)
        requires
            old(self).wf(),
            i < old(self).endpoints().len(),
        ensures
            final(self).wf(),
            final(self).endpoints() == old(self).endpoints(),
            final(self)@ == old(self)@.insert(old(self).endpoints()[i as int], info),
    {
        self.infos[i] = info;
        proof {
            let e = self.keys@[i as int];
            self.lemma_entry(i as int);
            assert forall|k: Endpoint| self@.contains_key(k) implies #[trigger] self@[k] == old(
                self,
            )@.insert(e, info)[k] by {
                let j = self.keys@.index_of(k);
                assert(0 <= j < self.keys@.len() && self.keys@[j] == k);
                old(self).lemma_entry(j);
            }
            assert(self@ =~= old(self)@.insert(e, info));
        }
    }

    /// Registers an endpoint that is not known yet.
    pub fn push(&mut self, endpoint: Endpoint, info: PeerInfo)
        requires
            old(self).wf(),
            !old(self)@.contains_key(endpoint),
        ensures
            final(self).wf(),
            final(self).endpoints() == old(self).endpoints().push(endpoint),
            final(self)@ == old(self)@.insert(endpoint, info),
    {
        self.keys.push(endpoint);
        self.infos.push(info);
        proof {
            assert(!old(self).keys@.contains(endpoint));
            assert(self.keys@.no_duplicates());
            let last = self.keys@.len() - 1;
            assert(self.keys@[last] == endpoint);
            assert forall|k: Endpoint|
                self@.contains_key(k) <==> old(self)@.insert(endpoint, info).contains_key(k) by {
                if self.keys@.contains(k) {
                    let j = self.keys@.index_of(k);
                    assert(0 <= j < self.keys@.len() && self.keys@[j] == k);
                    if j < last {
                        assert(old(self).keys@[j] == k);
                    }
                }
                if old(self).keys@.contains(k) {
                    let j = old(self).keys@.index_of(k);
                    assert(self.keys@[j] == k);
                }
            }
            assert forall|k: Endpoint| self@.contains_key(k) implies #[trigger] self@[k] == old(
                self,
            )@.insert(endpoint, info)[k] by {
                let j = self.keys@.index_of(k);
                assert(0 <= j < self.keys@.len() && self.keys@[j] == k);
                self.lemma_entry(j);
                if j < last {
                    old(self).lemma_entry(j);
                }
            }
            assert(self@ =~= old(self)@.insert(endpoint, info));
        }
    }

    /// Forgets the endpoint registered at position `i`.
    pub fn remove_at(&mut self, i: usize) -> (info: PeerInfo)
        requires
            old(self).wf(),
            i < old(self).endpoints().len(),
        ensures
            final(self).wf(),
            final(self).endpoints() == old(self).endpoints().remove(i as int),
            info == old(self)@[old(self).endpoints()[i as int]],
            final(self)@ == old(self)@.remove(old(self).endpoints()[i as int]),
    {
        proof {
            old(self).lemma_entry(i as int);
        }
        self.keys.remove(i);
        let info = self.infos.remove(i);
        proof {
            let e = old(self).keys@[i as int];
            let olds = old(self).keys@;
            let news = self.keys@;
            assert(news.len() == olds.len() - 1);
            assert forall|j: int| 0 <= j < news.len() implies news[j] == olds[if j < i {
                j
            } else {
                j + 1
            }] by {}
            assert(news.no_duplicates());
            assert forall|k: Endpoint|
                self@.contains_key(k) <==> old(self)@.remove(e).contains_key(k) by {
                if news.contains(k) {
                    let j = news.index_of(k);
                    assert(0 <= j < news.len() && news[j] == k);
                    let oj = if j < i { j } else { j + 1 };
                    assert(olds[oj] == k);
                }
                if olds.contains(k) && k != e {
                    let oj = olds.index_of(k);
                    assert(0 <= oj < olds.len() && olds[oj] == k);
                    let j = if oj < i { oj } else { oj - 1 };
                    assert(news[j] == k);
                }
            }
            assert forall|k: Endpoint| self@.contains_key(k) implies #[trigger] self@[k] == old(
                self,
            )@.remove(e)[k] by {
                let j = news.index_of(k);
                assert(0 <= j < news.len() && news[j] == k);
                self.lemma_entry(j);
                let oj = if j < i { j } else { j + 1 };
                old(self).lemma_entry(oj);
            }
            assert(self@ =~= old(self)@.remove(e));
        }
        info
    }
}

} // verus!
