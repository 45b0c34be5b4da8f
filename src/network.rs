use vstd::prelude::*;

use crate::addr::NodeAddr;
use crate::protocol::{NetError, Packet, Request, Response};
use crate::registry::Registry;

verus! {

/// A node's view of the overlay: the peers it knows and the address it
/// listens on.
///
/// The exchanges themselves (dialling, sending, receiving) are done by the
/// caller; these methods decide what each received message does to the node
/// and what, if anything, is answered.
pub struct Network {
    nodes: Registry,
    addr: NodeAddr,
}

impl View for Network {
    type V = Set<NodeAddr>;

    /// The known peers.
    closed spec fn view(&self) -> Set<NodeAddr> {
        self.nodes@
    }
}

/// What handling one received message does to the set of known peers.
pub open spec fn after_message(known: Set<NodeAddr>, peer: NodeAddr, p: Packet) -> Set<NodeAddr> {
    match p {
        Packet::Request(Request::Connect) => known.insert(peer),
        _ => known,
    }
}

/// What handling the outcome of reading one inbound connection does to the
/// set of known peers: a failed read changes nothing.
pub open spec fn after_received(
    known: Set<NodeAddr>,
    peer: NodeAddr,
    received: Result<Packet, NetError>,
) -> Set<NodeAddr> {
    match received {
        Err(_) => known,
        Ok(p) => after_message(known, peer, p),
    }
}

/// Connections are isolated: a message that fails to arrive on one
/// connection, malformed or cut short, leaves the known peers as they were,
/// so a message on any other connection is handled as if the failed one had
/// never been accepted.
pub proof fn lemma_connection_isolation(
    known: Set<NodeAddr>,
    failed_peer: NodeAddr,
    failure: NetError,
    peer: NodeAddr,
    p: Packet,
)
    ensures
        after_received(known, failed_peer, Err(failure)) == known,
        after_received(after_received(known, failed_peer, Err(failure)), peer, Ok(p))
            == after_message(known, peer, p),
{
}

/// The peers known after `Connect` requests from each of `peers` in turn.
pub open spec fn after_connects(known: Set<NodeAddr>, peers: Seq<NodeAddr>) -> Set<NodeAddr>
    decreases peers.len(),
{
    if peers.len() == 0 {
        known
    } else {
        after_message(
            after_connects(known, peers.drop_last()),
            peers.last(),
            Packet::Request(Request::Connect),
        )
    }
}

/// Announcements are idempotent: after `Connect` requests from any sequence
/// of peers, repeats included, the node knows what it knew before and each
/// distinct announcing peer, and nothing else.
pub proof fn lemma_connects_idempotent(known: Set<NodeAddr>, peers: Seq<NodeAddr>)
    ensures
        after_connects(known, peers) == known.union(peers.to_set()),
        after_connects(known, peers + peers) == after_connects(known, peers),
    decreases peers.len(),
{
    lemma_connects_union(known, peers);
    lemma_connects_union(known, peers + peers);
    assert((peers + peers).to_set() =~= peers.to_set()) by {
        assert forall|a: NodeAddr| #[trigger] (peers + peers).contains(a) implies peers.contains(a) by {
            let j = choose|j: int| 0 <= j < (peers + peers).len() && (peers + peers)[j] == a;
            if j < peers.len() {
                assert(peers[j] == a);
            } else {
                assert(peers[j - peers.len()] == a);
            }
        }
        assert forall|a: NodeAddr| #[trigger] peers.contains(a) implies (peers + peers).contains(a) by {
            let j = choose|j: int| 0 <= j < peers.len() && peers[j] == a;
            assert((peers + peers)[j] == a);
        }
    }
}

proof fn lemma_connects_union(known: Set<NodeAddr>, peers: Seq<NodeAddr>)
    ensures
        after_connects(known, peers) == known.union(peers.to_set()),
    decreases peers.len(),
{
    if peers.len() == 0 {
        assert(peers.to_set() =~= Set::<NodeAddr>::empty());
        assert(known.union(peers.to_set()) =~= known);
    } else {
        let d = peers.drop_last();
        lemma_connects_union(known, d);
        assert(peers =~= d.push(peers.last()));
        d.lemma_push_to_set_commute(peers.last());
        assert(known.union(d.to_set()).insert(peers.last()) =~= known.union(peers.to_set()));
    }
}

impl Network {
    pub closed spec fn wf(&self) -> bool {
        self.nodes.wf()
    }

    /// The address this node listens on.
    pub closed spec fn spec_addr(&self) -> NodeAddr {
        self.addr
    }

    /// A node bound to `addr` that knows no peer yet.
    pub fn new(addr: NodeAddr) -> (r: Network)
        ensures
            r.wf(),
            r@ == Set::<NodeAddr>::empty(),
            r.spec_addr() == addr,
    {
        Network { nodes: Registry::new(), addr }
    }

    /// The address this node listens on.
    pub fn addr(&self) -> (r: NodeAddr)
        ensures
            r == self.spec_addr(),
    {
        self.addr
    }

    /// Every known peer, each once.
    pub fn nodes(&self) -> (r: Vec<NodeAddr>)
        requires
            self.wf(),
        ensures
            r@.to_set() == self@,
            r@.no_duplicates(),
    {
        self.nodes.snapshot()
    }

    /// Records the address that the listening socket was bound to.
    pub fn register_self(&mut self, local: NodeAddr)
        requires
            old(self).wf(),
        ensures
            final(self).wf(),
            final(self)@ == old(self)@.insert(local),
            final(self).spec_addr() == old(self).spec_addr(),
    {
        self.nodes.insert(local);
    }

    /// Takes the outcome of asking a bootstrap peer for its nodes. A failed
    /// exchange is returned as it came and leaves the known peers as they
    /// were; a `Nodes` response adds every node it lists; any other message
    /// is ignored.
    pub fn connect(&mut self, reply: Result<Packet, NetError>) -> (r: Result<(), NetError>)
        requires
            old(self).wf(),
        ensures
            final(self).wf(),
            final(self).spec_addr() == old(self).spec_addr(),
            match reply {
                Err(e) => r == Err::<(), NetError>(e) && final(self)@ == old(self)@,
                Ok(Packet::Response(Response::Nodes { nodes })) => r is Ok && final(self)@ == old(
                    self,
                )@.union(nodes@.to_set()),
                Ok(Packet::Request(_)) => r is Ok && final(self)@ == old(self)@,
            },
    {
        match reply {
            Err(e) => Err(e),
            Ok(Packet::Response(Response::Nodes { nodes })) => {
                self.nodes.merge(&nodes);
                Ok(())
            },
            Ok(Packet::Request(_)) => Ok(()),
        }
    }

    /// The peers to announce this node to: every known peer but this node's
    /// own address, each once.
    pub fn ready(&self) -> (r: Vec<NodeAddr>)
        requires
            self.wf(),
        ensures
            r@.to_set() == self@.remove(self.spec_addr()),
            r@.no_duplicates(),
    {
        self.nodes.others(self.addr)
    }

    /// Handles the message received on one inbound connection from `peer`.
    ///
    /// A failed read or decode is returned as it came and touches nothing
    /// else. `Nodes` is answered with every known peer; `Connect` records
    /// `peer`; `Block` and any response are ignored. `Ok(Some(p))` is the
    /// reply to send back.
    pub fn handle_incoming(&mut self, peer: NodeAddr, received: Result<Packet, NetError>) -> (r:
        Result<Option<Packet>, NetError>)
        requires
            old(self).wf(),
        ensures
            final(self).wf(),
            final(self).spec_addr() == old(self).spec_addr(),
            final(self)@ == after_received(old(self)@, peer, received),
            match received {
                Err(e) => r == Err::<Option<Packet>, NetError>(e),
                Ok(p) => match p {
                    Packet::Request(Request::Nodes) => r matches Ok(
                        Some(Packet::Response(Response::Nodes { nodes })),
                    ) && nodes@.to_set() == old(self)@ && nodes@.no_duplicates(),
                    _ => r matches Ok(None),
                },
            },
    {
        match received {
            Err(e) => Err(e),
            Ok(Packet::Request(Request::Nodes)) => {
                let nodes = self.nodes.snapshot();
                Ok(Some(Packet::Response(Response::Nodes { nodes })))
            },
            Ok(Packet::Request(Request::Connect)) => {
                self.nodes.insert(peer);
                Ok(None)
            },
            Ok(Packet::Request(Request::Block {  })) => Ok(None),
            Ok(Packet::Response(_)) => Ok(None),
        }
    }
}

} // verus!
