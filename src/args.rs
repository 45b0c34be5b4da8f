use vstd::prelude::*;

verus! {

/// What the node is started with.
#[derive(Debug)]
pub struct Args {
    /// The address to listen on, as `host:port`.
    pub host: String,
    /// A node of a running network to join, written as `host` is.
    pub connect: Option<String>,
}

} // verus!
