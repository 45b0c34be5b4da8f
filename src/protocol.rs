use vstd::prelude::*;

use crate::addr::NodeAddr;

verus! {

/// What one node asks of another.
#[derive(Clone, Copy, Debug, PartialEq, Eq, Structural)]
pub enum Request {
    /// Announces the sender's presence; the receiver records the sender.
    Connect,
    /// Asks for the receiver's current list of known nodes.
    Nodes,
    /// Placeholder for submitting a block; nothing is done on receipt.
    Block {},
}

/// What a node answers.
#[derive(Debug)]
pub enum Response {
    /// The answer to [`Request::Nodes`]: every node the sender knows.
    Nodes { nodes: Vec<NodeAddr> },
}

/// One message on the wire.
#[derive(Debug)]
pub enum Packet {
    Request(Request),
    Response(Response),
}

/// Why an exchange with a peer failed.
#[derive(Clone, Copy, Debug, PartialEq, Eq, Structural)]
pub enum NetError {
    /// Dialling, reading or writing failed.
    Transport,
    /// The bytes received do not form a message.
    Protocol,
}

} // verus!
