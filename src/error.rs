use vstd::prelude::*;

verus! {

/// Every way an operation of the connection core can fail.
#[derive(Debug, Clone, Copy, PartialEq, Eq, Structural)]
pub enum AttError {
    /// The lower layer refused the connection.
    ConnectFailed,
    /// The socket connect or the readiness poll ran out of time.
    ConnectTimeout,
    /// The peer reported "not connected" while the channel was set up.
    PeerDisconnected,
    /// No outbound path is installed.
    NotConnected,
    /// The outbound queue was closed while a frame was handed to it.
    SendFailed,
    /// No response arrived in time.
    ResponseTimeout,
    /// The response relay was torn down while a response was awaited.
    ChannelClosed,
}

} // verus!
