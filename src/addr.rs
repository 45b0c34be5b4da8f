use vstd::prelude::*;

verus! {

/// An endpoint that identifies a peer: an IP address and a port.
///
/// Equality is exact: two addresses are the same peer only when every field
/// agrees, with no normalisation.
#[derive(Clone, Copy, Debug, PartialEq, Eq, Hash, Structural)]
pub enum NodeAddr {
    /// An IPv4 address, its four octets in network order packed into the integer.
    V4 { ip4: u32, port: u16 },
    /// An IPv6 address, its sixteen octets in network order packed into the integer.
    V6 { ip6: u128, port: u16, flowinfo: u32, scope_id: u32 },
}

impl NodeAddr {
    /// The port of the endpoint.
    pub fn port(&self) -> (r: u16)
        ensures
            r == match *self {
                NodeAddr::V4 { port, .. } => port,
                NodeAddr::V6 { port, .. } => port,
            },
    {
        match *self {
            NodeAddr::V4 { port, .. } => port,
            NodeAddr::V6 { port, .. } => port,
        }
    }
}

} // verus!
