//! Verified core of a small peer-to-peer overlay: node addresses, the node
//! registry, message framing, the handling of received messages, the
//! listener's state machine and the command line of the terminal front end.
//!
//! Sockets, threads, locks, JSON encoding and the terminal itself are left
//! to the caller, which hands these modules plain values.

pub mod addr;
pub mod args;
pub mod console;
pub mod frame;
pub mod listener;
pub mod network;
pub mod protocol;
pub mod registry;

pub use addr::NodeAddr;
pub use args::Args;
pub use console::{Command, Console, KeyCode, KeyKind, Windows};
pub use frame::{encode_frame, Feed, FrameReader, SENTINEL};
pub use listener::{listener_step, ListenerAction, ListenerEvent, ListenerState};
pub use network::Network;
pub use protocol::{NetError, Packet, Request, Response};
pub use registry::Registry;
