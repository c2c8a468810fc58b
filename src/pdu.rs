use vstd::prelude::*;

verus! {

/// Read Request opcode.
pub const OPCODE_READ_REQUEST: u8 = 0x0A;
/// Write Request opcode.
pub const OPCODE_WRITE_REQUEST: u8 = 0x12;
/// Write Response opcode.
pub const OPCODE_WRITE_RESPONSE: u8 = 0x13;
/// Handle Value Notification opcode.
pub const OPCODE_HANDLE_VALUE_NTF: u8 = 0x1B;

/// Low byte of a little-endian handle.
pub open spec fn lsb(h: u16) -> u8 {
    (h % 256) as u8
}

/// High byte of a little-endian handle.
pub open spec fn msb(h: u16) -> u8 {
    (h / 256) as u8
}

/// The handle whose little-endian bytes are `lo`, `hi`.
pub open spec fn handle_from_bytes(lo: u8, hi: u8) -> u16 {
    (lo as int + hi as int * 256) as u16
}

/// `[0x0A, lsb(h), msb(h)]`
pub open spec fn read_request_frame(h: u16) -> Seq<u8> {
    seq![0x0Au8, lsb(h), msb(h)]
}

/// `[0x12, lsb(h), msb(h), value...]`
pub open spec fn write_request_frame(h: u16, value: Seq<u8>) -> Seq<u8> {
    seq![0x12u8, lsb(h), msb(h)] + value
}

/// The value written to a configuration descriptor to turn notifications on.
pub open spec fn enable_notification_value() -> Seq<u8> {
    seq![0x01u8, 0x00u8]
}

/// What an inbound frame means to the connection.
#[derive(Debug, Clone, PartialEq, Eq)]
pub enum Inbound {
    /// A zero-length frame: the peer closed the channel.
    Closed,
    /// A Handle Value Notification for `handle` carrying `value`.
    Notification { handle: u16, value: Vec<u8> },
    /// A notification too short to hold a handle; it is dropped.
    Truncated,
    /// Any other frame: a response, with its opcode byte stripped.
    Response { payload: Vec<u8> },
}

/// How the frame `f` is classified by its first byte.
pub open spec fn inbound_spec(f: Seq<u8>, r: Inbound) -> bool {
    if f.len() == 0 {
        r is Closed
    } else if f[0] == 0x1Bu8 {
        if f.len() < 3 {
            r is Truncated
        } else {
            r matches Inbound::Notification { handle, value }
                && handle == handle_from_bytes(f[1], f[2])
                && value@ == f.subrange(3, f.len() as int)
        }
    } else {
        r matches Inbound::Response { payload } && payload@ == f.subrange(1, f.len() as int)
    }
}

/// A handle survives being split into bytes and put back together.
pub proof fn lemma_handle_bytes(h: u16)
    ensures
        handle_from_bytes(lsb(h), msb(h)) == h,
{
}

/// Appends `src` to `dst`.
fn append_bytes(dst: &mut Vec<u8>, src: &[u8])
    ensures
        final(dst)@ == old(dst)@ + src@,
{
    let mut i: usize = 0;
    while i < src.len()
        invariant
            i <= src@.len(),
            dst@ == old(dst)@ + src@.subrange(0, i as int),
        decreases src@.len() - i,
    {
        dst.push(src[i]);
        i = i + 1;
        assert(src@.subrange(0, i as int) == src@.subrange(0, i - 1 as int).push(src@[i - 1]));
    }
    assert(src@.subrange(0, src@.len() as int) == src@);
}

/// The bytes of `src` from `start` on.
fn tail_from(src: &[u8], start: usize) -> (r: Vec<u8>)
    requires
        start <= src@.len(),
    ensures
        r@ == src@.subrange(start as int, src@.len() as int),
{
    let mut r: Vec<u8> = Vec::new();
    let mut i: usize = start;
    while i < src.len()
        invariant
            start <= i <= src@.len(),
            r@ == src@.subrange(start as int, i as int),
        decreases src@.len() - i,
    {
        r.push(src[i]);
        i = i + 1;
        assert(src@.subrange(start as int, i as int) == src@.subrange(start as int, i - 1 as int).push(src@[i - 1]));
    }
    r
}

/// The frame of a Read Request for `handle`.
pub fn read_request(handle: u16) -> (r: Vec<u8>)
    ensures
        r@ == read_request_frame(handle),
{
    let mut r: Vec<u8> = Vec::new();
    r.push(OPCODE_READ_REQUEST);
    r.push((handle % 256) as u8);
    r.push((handle / 256) as u8);
    assert(r@ =~= read_request_frame(handle));
    r
}

/// The frame of a Write Request that writes `value` to `handle`.
pub fn write_request(handle: u16, value: &[u8]) -> (r: Vec<u8>)
    ensures
        r@ == write_request_frame(handle, value@),
{
    let mut r: Vec<u8> = Vec::new();
    r.push(OPCODE_WRITE_REQUEST);
    r.push((handle % 256) as u8);
    r.push((handle / 256) as u8);
    append_bytes(&mut r, value);
    assert(r@ =~= write_request_frame(handle, value@));
    r
}

/// Classifies an inbound frame by its opcode.
pub fn parse_inbound(frame: &[u8]) -> (r: Inbound)
    ensures
        inbound_spec(frame@, r),
{
    if frame.len() == 0 {
        Inbound::Closed
    } else if frame[0] == OPCODE_HANDLE_VALUE_NTF {
        if frame.len() < 3 {
            Inbound::Truncated
        } else {
            let handle: u16 = frame[1] as u16 + frame[2] as u16 * 256;
            Inbound::Notification { handle, value: tail_from(frame, 3) }
        }
    } else {
        Inbound::Response { payload: tail_from(frame, 1) }
    }
}

} // verus!
