use vstd::prelude::*;

use crate::addr::NodeAddr;

verus! {

/// The set of peer addresses known to this node.
///
/// Held as a vector without duplicates; its view is the set of its entries.
/// Entries are only ever added.
pub struct Registry {
    nodes: Vec<NodeAddr>,
}

impl View for Registry {
    type V = Set<NodeAddr>;

    closed spec fn view(&self) -> Set<NodeAddr> {
        self.nodes@.to_set()
    }
}

impl Registry {
    /// The entries in storage order.
    pub closed spec fn entries(&self) -> Seq<NodeAddr> {
        self.nodes@
    }

    /// Each address is held once.
    pub closed spec fn wf(&self) -> bool {
        self.nodes@.no_duplicates()
    }

    /// An empty registry.
    pub fn new() -> (r: Registry)
        ensures
            r.wf(),
            r@ == Set::<NodeAddr>::empty(),
    {
        let r = Registry { nodes: Vec::new() };
        assert(r@ =~= Set::<NodeAddr>::empty());
        r
    }

    /// Whether `addr` is known.
    pub fn contains(&self, addr: &NodeAddr) -> (r: bool)
        requires
            self.wf(),
        ensures
            r == self@.contains(*addr),
    {
        let mut i: usize = 0;
        while i < self.nodes.len()
            invariant
                i <= self.nodes@.len(),
                forall|j: int| 0 <= j < i ==> self.nodes@[j] != *addr,
            decreases self.nodes@.len() - i,
        {
            if self.nodes[i] == *addr {
                assert(self.nodes@.contains(*addr));
                return true;
            }
            i += 1;
        }
        false
    }

    /// Adds `addr`; adding an address that is already known changes nothing.
    pub fn insert(&mut self, addr: NodeAddr)
        requires
            old(self).wf(),
        ensures
            final(self).wf(),
            final(self)@ == old(self)@.insert(addr),
            old(self)@.contains(addr) ==> final(self).entries() == old(self).entries(),
    {
        if !self.contains(&addr) {
            proof {
                assert(!self.nodes@.contains(addr));
            }
            self.nodes.push(addr);
            assert(self.nodes@.to_set() =~= old(self).nodes@.to_set().insert(addr)) by {
                assert forall|a: NodeAddr| #![auto] self.nodes@.contains(a) <==> (old(
                    self,
                ).nodes@.contains(a) || a == addr) by {
                    if a == addr {
                        assert(self.nodes@[self.nodes@.len() - 1] == a);
                    }
                    if old(self).nodes@.contains(a) {
                        let j = choose|j: int|
                            0 <= j < old(self).nodes@.len() && old(self).nodes@[j] == a;
                        assert(self.nodes@[j] == a);
                    }
                }
            }
        } else {
            assert(self.nodes@.to_set() =~= old(self).nodes@.to_set().insert(addr));
        }
    }

    /// Adds every address of `addrs`.
    pub fn merge(&mut self, addrs: &Vec<NodeAddr>)
        requires
            old(self).wf(),
        ensures
            final(self).wf(),
            final(self)@ == old(self)@.union(addrs@.to_set()),
    {
        let mut i: usize = 0;
        while i < addrs.len()
            invariant
                i <= addrs@.len(),
                self.wf(),
                self@ == old(self)@.union(addrs@.subrange(0, i as int).to_set()),
            decreases addrs@.len() - i,
        {
            proof {
                let pre = addrs@.subrange(0, i as int);
                let post = addrs@.subrange(0, i + 1);
                assert(post =~= pre.push(addrs@[i as int]));
                pre.lemma_push_to_set_commute(addrs@[i as int]);
            }
            self.insert(addrs[i]);
            proof {
                assert(self@ =~= old(self)@.union(addrs@.subrange(0, i + 1).to_set()));
            }
            i += 1;
        }
        assert(addrs@.subrange(0, addrs@.len() as int) =~= addrs@);
    }

    /// A copy of every known address, each once.
    pub fn snapshot(&self) -> (r: Vec<NodeAddr>)
        requires
            self.wf(),
        ensures
            r@.to_set() == self@,
            r@.no_duplicates(),
            r@ == self.entries(),
    {
        self.nodes.clone()
    }

    /// Every known address other than `own`, each once.
    pub fn others(&self, own: NodeAddr) -> (r: Vec<NodeAddr>)
        requires
            self.wf(),
        ensures
            r@.to_set() == self@.remove(own),
            r@.no_duplicates(),
    {
        let mut out: Vec<NodeAddr> = Vec::new();
        let mut i: usize = 0;
        while i < self.nodes.len()
            invariant
                i <= self.nodes@.len(),
                self.wf(),
                out@.no_duplicates(),
                forall|x: NodeAddr| #[trigger] out@.contains(x) <==> (self.nodes@.subrange(0, i as int).contains(x) && x != own),
            decreases self.nodes@.len() - i,
        {
            let a = self.nodes[i];
            proof {
                let pre = self.nodes@.subrange(0, i as int);
                let post = self.nodes@.subrange(0, i + 1);
                assert(post =~= pre.push(a));
                assert forall|x: NodeAddr| #[trigger] post.contains(x) <==> (pre.contains(x) || x == a) by {
                    if pre.contains(x) {
                        let j = choose|j: int| 0 <= j < pre.len() && pre[j] == x;
                        assert(post[j] == x);
                    }
                    if x == a {
                        assert(post[i as int] == x);
                    }
                    if post.contains(x) {
                        let j = choose|j: int| 0 <= j < post.len() && post[j] == x;
                        if j < i {
                            assert(pre[j] == x);
                        }
                    }
                }
                assert(!pre.contains(a)) by {
                    if pre.contains(a) {
                        let j = choose|j: int| 0 <= j < pre.len() && pre[j] == a;
                        assert(self.nodes@[j] == self.nodes@[i as int]);
                    }
                }
            }
            if a != own {
                proof {
                    assert forall|x: NodeAddr| #[trigger] out@.push(a).contains(x) <==> (out@.contains(x) || x == a) by {
                        if out@.contains(x) {
                            let j = choose|j: int| 0 <= j < out@.len() && out@[j] == x;
                            assert(out@.push(a)[j] == x);
                        }
                        if x == a {
                            assert(out@.push(a)[out@.len() as int] == x);
                        }
                        if out@.push(a).contains(x) {
                            let j = choose|j: int| 0 <= j < out@.len() + 1 && out@.push(a)[j] == x;
                            if j < out@.len() {
                                assert(out@[j] == x);
                            }
                        }
                    }
                }
                let ghost prev = out@;
                assert(!prev.contains(a));
                out.push(a);
                proof {
                    assert forall|j: int, k: int| 0 <= j < out@.len() && 0 <= k < out@.len() && j != k
                        implies out@[j] != out@[k] by {
                        if k == prev.len() {
                            assert(prev[j] == out@[j]);
                        } else if j == prev.len() {
                            assert(prev[k] == out@[k]);
                        }
                    }
                }
            }
            i += 1;
        }
        proof {
            assert(self.nodes@.subrange(0, self.nodes@.len() as int) =~= self.nodes@);
            assert(out@.to_set() =~= self@.remove(own));
        }
        out
    }
}

} // verus!
