use vstd::prelude::*;

verus! {

/// Where a listener is in its life.
#[derive(Clone, Copy, Debug, PartialEq, Eq, Structural)]
pub enum ListenerState {
    /// Not bound yet.
    Created,
    /// Bound to its address; its own address is being recorded.
    Bound,
    /// Taking connections.
    Accepting,
    /// Done, cleanly or on a fatal error.
    Stopped,
}

/// What the listener's driver observed.
#[derive(Clone, Copy, Debug, PartialEq, Eq, Structural)]
pub enum ListenerEvent {
    /// The listening socket was bound.
    BindSucceeded,
    /// The listening socket could not be bound.
    BindFailed,
    /// The node's own address has been recorded among the known peers.
    SelfRegistered,
    /// A connection was accepted.
    Accepted,
    /// No connection is waiting at the moment.
    NothingToAccept,
    /// Accepting failed for another reason.
    AcceptFailed,
    /// Handling one accepted connection failed.
    ConnectionFailed,
    /// Shutdown was requested.
    ShutdownRequested,
}

/// What the driver is to do next.
#[derive(Clone, Copy, Debug, PartialEq, Eq, Structural)]
pub enum ListenerAction {
    /// Record the bound address among the known peers.
    RegisterSelf,
    /// Hand the accepted connection to a handler of its own.
    Dispatch,
    /// Try to accept again.
    Poll,
    /// Close the socket and end without error.
    Close,
    /// Close the socket and end with the error observed.
    Fail,
    /// Nothing: the event has no meaning in this state.
    Ignore,
}

/// One step of the listener: from its state and what was observed, the next
/// state and what to do.
///
/// Binding leads to recording the node's own address, then to accepting.
/// Each accepted connection is dispatched and the listener keeps accepting;
/// a failure on one connection does not stop it. Failing to bind, or an
/// accept error other than "nothing to accept", stops it with that error;
/// a shutdown request stops it cleanly. A stopped listener stays stopped.
pub fn listener_step(state: ListenerState, event: ListenerEvent) -> (r: (
    ListenerState,
    ListenerAction,
))
    ensures
        state == ListenerState::Stopped ==> r == (ListenerState::Stopped, ListenerAction::Ignore),
        state != ListenerState::Stopped && event == ListenerEvent::ShutdownRequested ==> r == (
            ListenerState::Stopped,
            ListenerAction::Close,
        ),
        state == ListenerState::Created ==> match event {
            ListenerEvent::BindSucceeded => r == (ListenerState::Bound, ListenerAction::RegisterSelf),
            ListenerEvent::BindFailed => r == (ListenerState::Stopped, ListenerAction::Fail),
            ListenerEvent::ShutdownRequested => true,
            _ => r == (state, ListenerAction::Ignore),
        },
        state == ListenerState::Bound ==> match event {
            ListenerEvent::SelfRegistered => r == (ListenerState::Accepting, ListenerAction::Poll),
            ListenerEvent::ShutdownRequested => true,
            _ => r == (state, ListenerAction::Ignore),
        },
        state == ListenerState::Accepting ==> match event {
            ListenerEvent::Accepted => r == (ListenerState::Accepting, ListenerAction::Dispatch),
            ListenerEvent::NothingToAccept => r == (ListenerState::Accepting, ListenerAction::Poll),
            ListenerEvent::ConnectionFailed => r == (ListenerState::Accepting, ListenerAction::Poll),
            ListenerEvent::AcceptFailed => r == (ListenerState::Stopped, ListenerAction::Fail),
            ListenerEvent::ShutdownRequested => true,
            _ => r == (state, ListenerAction::Ignore),
        },
{
    match state {
        ListenerState::Stopped => (ListenerState::Stopped, ListenerAction::Ignore),
        _ => match event {
            ListenerEvent::ShutdownRequested => (ListenerState::Stopped, ListenerAction::Close),
            _ => match state {
                ListenerState::Created => match event {
                    ListenerEvent::BindSucceeded => (ListenerState::Bound, ListenerAction::RegisterSelf),
                    ListenerEvent::BindFailed => (ListenerState::Stopped, ListenerAction::Fail),
                    _ => (state, ListenerAction::Ignore),
                },
                ListenerState::Bound => match event {
                    ListenerEvent::SelfRegistered => (ListenerState::Accepting, ListenerAction::Poll),
                    _ => (state, ListenerAction::Ignore),
                },
                _ => match event {
                    ListenerEvent::Accepted => (ListenerState::Accepting, ListenerAction::Dispatch),
                    ListenerEvent::NothingToAccept => (ListenerState::Accepting, ListenerAction::Poll),
                    ListenerEvent::ConnectionFailed => (
                        ListenerState::Accepting,
                        ListenerAction::Poll,
                    ),
                    ListenerEvent::AcceptFailed => (ListenerState::Stopped, ListenerAction::Fail),
                    _ => (state, ListenerAction::Ignore),
                },
            },
        },
    }
}

} // verus!
