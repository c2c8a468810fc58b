use vstd::prelude::*;
use crate::error::AttError;
use crate::pdu::{inbound_spec, lsb, msb, lemma_handle_bytes, Inbound};
use crate::session::{after_frame, dispatch_spec, gated, initial_view, targets_of, Dispatch, SessionView};

verus! {

/// A subscriber is among the targets for `h` exactly when it was
/// registered for `h`.
pub proof fn lemma_targets_are_registered(ls: Seq<(u16, u64)>, h: u16, id: u64)
    ensures
        targets_of(ls, h).contains(id) <==> exists|i: int| 0 <= i < ls.len() && ls[i] == (h, id),
    decreases ls.len(),
{
    if ls.len() > 0 {
        let pre = ls.drop_last();
        lemma_targets_are_registered(pre, h, id);
        let rest = targets_of(pre, h);
        if targets_of(ls, h).contains(id) {
            if ls.last() == (h, id) {
                assert(ls[ls.len() - 1] == (h, id));
            } else {
                assert(targets_of(ls, h) == rest || targets_of(ls, h) == rest.push(ls.last().1));
                if ls.last().0 == h {
                    let k = choose|k: int| 0 <= k < rest.push(ls.last().1).len() && rest.push(ls.last().1)[k] == id;
                    assert(k < rest.len());
                    assert(rest.contains(id));
                }
                let i = choose|i: int| 0 <= i < pre.len() && pre[i] == (h, id);
                assert(ls[i] == (h, id));
            }
        } else {
            if exists|i: int| 0 <= i < ls.len() && ls[i] == (h, id) {
                let i = choose|i: int| 0 <= i < ls.len() && ls[i] == (h, id);
                if i == ls.len() - 1 {
                    assert(targets_of(ls, h)[rest.len() as int] == id);
                } else {
                    assert(pre[i] == (h, id));
                    let k = choose|k: int| 0 <= k < rest.len() && rest[k] == id;
                    if ls.last().0 == h {
                        assert(targets_of(ls, h)[k] == id);
                    }
                }
            }
        }
    }
}

/// A notification frame `[0x1B, lsb(h), msb(h), payload...]` delivers
/// `payload` unchanged to every subscriber registered for `h` and to no
/// other, and leaves the state as it was.
pub proof fn lemma_notification_delivery(s: SessionView, h: u16, payload: Seq<u8>, d: Dispatch, id: u64)
    requires
        dispatch_spec(s, seq![0x1Bu8, lsb(h), msb(h)] + payload, d),
    ensures
        d matches Dispatch::Notify { targets, value } && value@ == payload && (targets@.contains(id)
            <==> exists|i: int| 0 <= i < s.listeners.len() && s.listeners[i] == (h, id)),
        after_frame(s, seq![0x1Bu8, lsb(h), msb(h)] + payload) == s,
{
    let f = seq![0x1Bu8, lsb(h), msb(h)] + payload;
    lemma_handle_bytes(h);
    assert(f[0] == 0x1Bu8 && f[1] == lsb(h) && f[2] == msb(h));
    assert(f.subrange(3, f.len() as int) =~= payload);
    let i = choose|i: Inbound| inbound_spec(f, i) && match i {
        Inbound::Closed => d is Disconnected,
        Inbound::Truncated => d is Dropped,
        Inbound::Notification { handle, value } => d matches Dispatch::Notify { targets, value: v }
            && targets@ == targets_of(s.listeners, handle) && v@ == value@,
        Inbound::Response { .. } => d is Queued,
    };
    lemma_targets_are_registered(s.listeners, h, id);
}

/// Any other non-empty frame reaches no subscriber: its payload, without
/// the opcode byte, joins the end of the response queue, so that it is
/// the very next response taken when no other was pending.
pub proof fn lemma_response_to_next_waiter(s: SessionView, f: Seq<u8>, d: Dispatch)
    requires
        f.len() > 0,
        f[0] != 0x1Bu8,
        dispatch_spec(s, f, d),
    ensures
        d is Queued,
        after_frame(s, f).responses == s.responses.push(f.subrange(1, f.len() as int)),
        after_frame(s, f).listeners == s.listeners,
        s.responses.len() == 0 ==> after_frame(s, f).responses[0] == f.subrange(1, f.len() as int),
{
    let i = choose|i: Inbound| inbound_spec(f, i) && match i {
        Inbound::Closed => d is Disconnected,
        Inbound::Truncated => d is Dropped,
        Inbound::Notification { handle, value } => d matches Dispatch::Notify { targets, value: v }
            && targets@ == targets_of(s.listeners, handle) && v@ == value@,
        Inbound::Response { .. } => d is Queued,
    };
}

/// Before any connect, every request fails with `NotConnected`.
pub proof fn lemma_requests_need_connect(frame: Seq<u8>, r: Result<Vec<u8>, AttError>)
    requires
        gated(initial_view(), frame, r),
    ensures
        r == Err::<Vec<u8>, AttError>(AttError::NotConnected),
{
}

} // verus!
