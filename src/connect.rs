use vstd::prelude::*;
use crate::error::AttError;

verus! {

/// Protocol/service multiplexer of the attribute channel.
pub const PSM_ATT: u16 = 0x001F;
/// Overall bound on connection setup, in milliseconds.
pub const CONNECT_TIMEOUT_MS: u64 = 10000;
/// Interval between two readiness polls, in milliseconds.
pub const POLL_INTERVAL_MS: u64 = 200;
/// Capacity of the outbound frame queue.
pub const SEND_QUEUE_CAPACITY: usize = 128;

/// How the socket-level connect ended.
#[derive(Debug, Clone, Copy, PartialEq, Eq, Structural)]
pub enum SocketConnect {
    Connected,
    Failed,
    TimedOut,
}

/// What one readiness poll of the channel reported.
#[derive(Debug, Clone, Copy, PartialEq, Eq, Structural)]
pub enum PeerPoll {
    /// The peer address, with the channel identifier it carries.
    Channel(u16),
    /// The channel reported "not connected".
    NotConnected,
    /// Any other failure of the poll; it is retried.
    OtherError,
}

/// What to do after a readiness poll.
#[derive(Debug, Clone, Copy, PartialEq, Eq, Structural)]
pub enum PollStep {
    /// The channel is fully established.
    Ready,
    /// Setup failed with the given error.
    Failed(AttError),
    /// Sleep for the poll interval, then poll again.
    Wait,
}

/// The result of the socket-level connect.
pub fn socket_connect_result(outcome: SocketConnect) -> (r: Result<(), AttError>)
    ensures
        r == match outcome {
            SocketConnect::Connected => Ok::<(), AttError>(()),
            SocketConnect::Failed => Err(AttError::ConnectFailed),
            SocketConnect::TimedOut => Err(AttError::ConnectTimeout),
        },
{
    match outcome {
        SocketConnect::Connected => Ok(()),
        SocketConnect::Failed => Err(AttError::ConnectFailed),
        SocketConnect::TimedOut => Err(AttError::ConnectTimeout),
    }
}

/// The decision after a readiness poll made `elapsed_ms` after the poll
/// loop began, under an overall bound of `timeout_ms`.
pub open spec fn poll_step_spec(poll: PeerPoll, elapsed_ms: u64, timeout_ms: u64) -> PollStep {
    match poll {
        PeerPoll::Channel(cid) if cid != 0 => PollStep::Ready,
        PeerPoll::NotConnected => PollStep::Failed(AttError::PeerDisconnected),
        _ => if elapsed_ms >= timeout_ms {
            PollStep::Failed(AttError::ConnectTimeout)
        } else {
            PollStep::Wait
        },
    }
}

/// Decides what follows a readiness poll: a non-zero channel identifier
/// means the channel is ready, "not connected" fails at once, and anything
/// else waits for the next poll until the bound is reached.
pub fn poll_step(poll: PeerPoll, elapsed_ms: u64, timeout_ms: u64) -> (r: PollStep)
    ensures
        r == poll_step_spec(poll, elapsed_ms, timeout_ms),
{
    match poll {
        PeerPoll::Channel(cid) => {
            if cid != 0 {
                return PollStep::Ready;
            }
        },
        PeerPoll::NotConnected => {
            return PollStep::Failed(AttError::PeerDisconnected);
        },
        PeerPoll::OtherError => {},
    }
    if elapsed_ms >= timeout_ms {
        PollStep::Failed(AttError::ConnectTimeout)
    } else {
        PollStep::Wait
    }
}

/// A channel that never reports a ready identifier keeps the poll loop
/// waiting while time is left, and fails it with `ConnectTimeout` once the
/// bound is reached; it never reports success.
pub proof fn lemma_never_ready_times_out(poll: PeerPoll, elapsed_ms: u64, timeout_ms: u64)
    requires
        poll == PeerPoll::Channel(0) || poll == PeerPoll::OtherError,
    ensures
        elapsed_ms >= timeout_ms ==> poll_step_spec(poll, elapsed_ms, timeout_ms)
            == PollStep::Failed(AttError::ConnectTimeout),
        elapsed_ms < timeout_ms ==> poll_step_spec(poll, elapsed_ms, timeout_ms) == PollStep::Wait,
{
}

} // verus!
