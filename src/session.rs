use vstd::prelude::*;
use crate::error::AttError;
use crate::handles::{handle_of, ATTHandles, ATTCCCDHandles};
use crate::pdu::{
    inbound_spec, parse_inbound, read_request, read_request_frame, write_request,
    write_request_frame, enable_notification_value, Inbound,
};

verus! {

/// How long a response is awaited, in milliseconds.
pub const RESPONSE_TIMEOUT_MS: u64 = 2000;

/// The model of a connection's state.
pub struct SessionView {
    /// Whether an outbound path is installed.
    pub connected: bool,
    /// Registered subscribers as `(handle, subscriber)`, in registration order.
    pub listeners: Seq<(u16, u64)>,
    /// Response payloads not yet taken by a waiter, oldest first.
    pub responses: Seq<Seq<u8>>,
    /// Which connection this state belongs to; changes on every connect.
    pub generation: u64,
}

/// The state of one connection: whether frames can be sent, the subscriber
/// table, and the response relay.
pub struct Session {
    connected: bool,
    listeners: Vec<(u16, u64)>,
    responses: Vec<Vec<u8>>,
    generation: u64,
}

/// What became of an inbound frame.
#[derive(Debug, Clone, PartialEq, Eq)]
pub enum Dispatch {
    /// The peer closed the channel; the outbound path is gone.
    Disconnected,
    /// The frame carried nothing to deliver.
    Dropped,
    /// Deliver `value` to each subscriber in `targets`, in that order.
    Notify { targets: Vec<u64>, value: Vec<u8> },
    /// The payload was queued for the next response waiter.
    Queued,
}

/// The outcome of looking for a response.
#[derive(Debug, Clone, PartialEq, Eq)]
pub enum WaitStep {
    /// The next response payload.
    Ready(Vec<u8>),
    /// The wait is over without a response.
    Failed(AttError),
    /// Nothing yet; wait for the next frame or for the deadline.
    Pending,
}

/// The subscribers registered for `h`, in registration order, duplicates kept.
pub open spec fn targets_of(ls: Seq<(u16, u64)>, h: u16) -> Seq<u64>
    decreases ls.len(),
{
    if ls.len() == 0 {
        Seq::empty()
    } else {
        let rest = targets_of(ls.drop_last(), h);
        if ls.last().0 == h {
            rest.push(ls.last().1)
        } else {
            rest
        }
    }
}

/// The state after the frame `f` was received in state `s`.
pub open spec fn after_frame(s: SessionView, f: Seq<u8>) -> SessionView {
    if f.len() == 0 {
        SessionView { connected: false, ..s }
    } else if f[0] == 0x1Bu8 {
        s
    } else {
        SessionView { responses: s.responses.push(f.subrange(1, f.len() as int)), ..s }
    }
}

/// What is to be delivered for the frame `f` received in state `s`.
pub open spec fn dispatch_spec(s: SessionView, f: Seq<u8>, d: Dispatch) -> bool {
    exists|i: Inbound|
        inbound_spec(f, i) && match i {
            Inbound::Closed => d is Disconnected,
            Inbound::Truncated => d is Dropped,
            Inbound::Notification { handle, value } => d matches Dispatch::Notify { targets, value: v }
                && targets@ == targets_of(s.listeners, handle) && v@ == value@,
            Inbound::Response { .. } => d is Queued,
        }
}

/// A request either goes out as `frame` or fails because nothing is connected.
pub open spec fn gated(s: SessionView, frame: Seq<u8>, r: Result<Vec<u8>, AttError>) -> bool {
    if s.connected {
        r matches Ok(f) && f@ == frame
    } else {
        r == Err::<Vec<u8>, AttError>(AttError::NotConnected)
    }
}

/// The state of a manager that never connected.
pub open spec fn initial_view() -> SessionView {
    SessionView { connected: false, listeners: Seq::empty(), responses: Seq::empty(), generation: 0 }
}

/// The generation that follows `g`.
pub open spec fn next_generation(g: u64) -> u64 {
    if g < u64::MAX { (g + 1) as u64 } else { 0 }
}

impl View for Session {
    type V = SessionView;

    closed spec fn view(&self) -> SessionView {
        SessionView {
            connected: self.connected,
            listeners: self.listeners@,
            responses: self.responses@.map_values(|r: Vec<u8>| r@),
            generation: self.generation,
        }
    }
}

impl Session {
    /// The state of a manager before any connect.
    pub fn new() -> (r: Session)
        ensures
            r@ == initial_view(),
    {
        let r = Session { connected: false, listeners: Vec::new(), responses: Vec::new(), generation: 0 };
        assert(r@.responses =~= Seq::<Seq<u8>>::empty());
        r
    }

    /// Replaces the whole state after a successful connect: the outbound
    /// path is installed, subscribers and pending responses are dropped.
    pub fn on_connected(&mut self)
        ensures
            final(self)@ == (SessionView {
                connected: true,
                listeners: Seq::empty(),
                responses: Seq::empty(),
                generation: next_generation(old(self)@.generation),
            }),
    {
        let g: u64 = if self.generation < u64::MAX { self.generation + 1 } else { 0 };
        *self = Session { connected: true, listeners: Vec::new(), responses: Vec::new(), generation: g };
        assert(self@.responses =~= Seq::<Seq<u8>>::empty());
    }

    /// Whether an outbound path is installed.
    pub fn is_connected(&self) -> (r: bool)
        ensures
            r == self@.connected,
    {
        self.connected
    }

    /// Which connection this state belongs to.
    pub fn generation(&self) -> (r: u64)
        ensures
            r == self@.generation,
    {
        self.generation
    }

    /// Drops the outbound path after the channel failed or closed.
    pub fn on_disconnected(&mut self)
        ensures
            final(self)@ == (SessionView { connected: false, ..old(self)@ }),
    {
        self.connected = false;
    }

    /// Adds `subscriber` to those of `handle`; repeated registrations are kept.
    pub fn register_listener(&mut self, handle: ATTHandles, subscriber: u64)
        ensures
            final(self)@ == (SessionView {
                listeners: old(self)@.listeners.push((handle_of(handle), subscriber)),
                ..old(self)@
            }),
    {
        self.listeners.push((handle.value(), subscriber));
    }

    /// The subscribers registered for `handle`, in registration order.
    pub fn listeners_for(&self, handle: u16) -> (r: Vec<u64>)
        ensures
            r@ == targets_of(self@.listeners, handle),
    {
        let mut r: Vec<u64> = Vec::new();
        let mut i: usize = 0;
        while i < self.listeners.len()
            invariant
                i <= self.listeners@.len(),
                r@ == targets_of(self.listeners@.subrange(0, i as int), handle),
            decreases self.listeners@.len() - i,
        {
            let (h, id) = self.listeners[i];
            proof {
                let pre = self.listeners@.subrange(0, i + 1);
                assert(pre.drop_last() =~= self.listeners@.subrange(0, i as int));
            }
            if h == handle {
                r.push(id);
            }
            i = i + 1;
        }
        assert(self.listeners@.subrange(0, self.listeners@.len() as int) =~= self.listeners@);
        r
    }

    /// The frame of a Read Request for `handle`.
    pub fn read_frame(&self, handle: ATTHandles) -> (r: Result<Vec<u8>, AttError>)
        ensures
            gated(self@, read_request_frame(handle_of(handle)), r),
    {
        if !self.connected {
            return Err(AttError::NotConnected);
        }
        Ok(read_request(handle.value()))
    }

    /// The frame of a Write Request that writes `value` to `handle`.
    pub fn write_frame(&self, handle: ATTHandles, value: &[u8]) -> (r: Result<Vec<u8>, AttError>)
        ensures
            gated(self@, write_request_frame(handle_of(handle), value@), r),
    {
        if !self.connected {
            return Err(AttError::NotConnected);
        }
        Ok(write_request(handle.value(), value))
    }

    /// The frame that turns notifications of `handle` on: a Write Request
    /// of `[0x01, 0x00]` to its configuration descriptor.
    pub fn enable_notifications_frame(&self, handle: ATTHandles) -> (r: Result<Vec<u8>, AttError>)
        ensures
            gated(
                self@,
                write_request_frame((handle_of(handle) + 1) as u16, enable_notification_value()),
                r,
            ),
    {
        if !self.connected {
            return Err(AttError::NotConnected);
        }
        let cccd: ATTCCCDHandles = handle.cccd();
        let value: [u8; 2] = [0x01, 0x00];
        let r = write_request(cccd.value(), &value);
        assert(value@ =~= enable_notification_value());
        Ok(r)
    }

    /// Takes in one inbound frame: a notification is routed to the
    /// subscribers of its handle, any other non-empty frame queues its
    /// payload for the next response waiter, and an empty frame means the
    /// peer closed the channel.
    pub fn receive(&mut self, frame: &[u8]) -> (r: Dispatch)
        ensures
            final(self)@ == after_frame(old(self)@, frame@),
            dispatch_spec(old(self)@, frame@, r),
    {
        let inbound = parse_inbound(frame);
        match inbound {
            Inbound::Closed => {
                self.connected = false;
                Dispatch::Disconnected
            },
            Inbound::Truncated => Dispatch::Dropped,
            Inbound::Notification { handle, value } => {
                let targets = self.listeners_for(handle);
                Dispatch::Notify { targets, value }
            },
            Inbound::Response { payload } => {
                let ghost p = payload@;
                self.responses.push(payload);
                assert(self@.responses =~= old(self)@.responses.push(p));
                Dispatch::Queued
            },
        }
    }

    /// Looks for the response of a request issued on connection `issued_on`,
    /// `elapsed_ms` after the request was sent: the oldest queued payload is
    /// taken; a relay replaced by a later connect fails the wait with
    /// `ChannelClosed`; an empty relay fails it with `ResponseTimeout` once
    /// the bound is reached.
    pub fn poll_response(&mut self, issued_on: u64, elapsed_ms: u64) -> (r: WaitStep)
        ensures
            issued_on != old(self)@.generation ==> r == WaitStep::Failed(AttError::ChannelClosed)
                && final(self)@ == old(self)@,
            issued_on == old(self)@.generation && old(self)@.responses.len() > 0 ==> (r matches WaitStep::Ready(p)
                && p@ == old(self)@.responses[0]
                && final(self)@ == (SessionView { responses: old(self)@.responses.drop_first(), ..old(self)@ })),
            issued_on == old(self)@.generation && old(self)@.responses.len() == 0 ==> final(self)@ == old(self)@ && (
                if elapsed_ms >= RESPONSE_TIMEOUT_MS {
                    r == WaitStep::Failed(AttError::ResponseTimeout)
                } else {
                    r == WaitStep::Pending
                }),
    {
        if issued_on != self.generation {
            return WaitStep::Failed(AttError::ChannelClosed);
        }
        if self.responses.len() > 0 {
            let p = self.responses.remove(0);
            assert(self@.responses =~= old(self)@.responses.drop_first());
            return WaitStep::Ready(p);
        }
        if elapsed_ms >= RESPONSE_TIMEOUT_MS {
            WaitStep::Failed(AttError::ResponseTimeout)
        } else {
            WaitStep::Pending
        }
    }
}

} // verus!
