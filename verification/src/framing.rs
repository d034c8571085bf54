//! The length-framed message codec.
//!
//! Each message on the wire is a little-endian unsigned 32-bit length
//! followed by that many bytes of payload. A frame whose declared length
//! exceeds [`MAX_MESSAGE_SIZE`] is refused and the connection is dropped
//! without a reply. The functions here work on plain byte buffers; the
//! shell around the library feeds them what it read from the socket and
//! writes out what they built.

use vstd::prelude::*;

verus! {

/// Upper bound, in bytes, on a framed message's payload.
pub const MAX_MESSAGE_SIZE: usize = 10 * 1024 * 1024;

/// The value of a 4-byte little-endian length prefix.
pub open spec fn le32(b: Seq<u8>) -> int
    recommends
        b.len() == 4,
{
    b[0] + 0x100 * b[1] + 0x1_0000 * b[2] + 0x100_0000 * b[3]
}

/// The 4-byte little-endian encoding of a length.
pub open spec fn le32_bytes(n: int) -> Seq<u8>
    recommends
        0 <= n < 0x1_0000_0000,
{
    seq![
        (n % 0x100) as u8,
        ((n / 0x100) % 0x100) as u8,
        ((n / 0x1_0000) % 0x100) as u8,
        ((n / 0x100_0000) % 0x100) as u8,
    ]
}

/// A whole frame: the length prefix followed by the payload itself.
pub open spec fn frame_bytes(payload: Seq<u8>) -> Seq<u8> {
    le32_bytes(payload.len() as int) + payload
}

/// Law: the little-endian length prefix decodes to the length it was built
/// from, for every length a prefix can carry.
pub proof fn lemma_le32_round_trip(n: int)
    requires
        0 <= n < 0x1_0000_0000,
    ensures
        le32(le32_bytes(n)) == n,
{
}

/// Reads the length prefix at the front of `buf`.
pub fn decode_frame_len(buf: &[u8]) -> (n: u32)
    requires
        buf@.len() >= 4,
    ensures
        n == le32(buf@.subrange(0, 4)),
{
    let n = buf[0] as u32 + (buf[1] as u32) * 0x100 + (buf[2] as u32) * 0x1_0000 + (buf[3] as u32)
        * 0x100_0000;
    proof {
        assert(buf@.subrange(0, 4)[0] == buf@[0]);
        assert(buf@.subrange(0, 4)[1] == buf@[1]);
        assert(buf@.subrange(0, 4)[2] == buf@[2]);
        assert(buf@.subrange(0, 4)[3] == buf@[3]);
    }
    n
}

/// Writes the 4-byte little-endian prefix for a payload of `n` bytes.
pub fn encode_frame_len(n: u32) -> (b: Vec<u8>)
    ensures
        b@ == le32_bytes(n as int),
{
    let mut b: Vec<u8> = Vec::new();
    b.push((n % 0x100) as u8);
    b.push(((n / 0x100) % 0x100) as u8);
    b.push(((n / 0x1_0000) % 0x100) as u8);
    b.push(((n / 0x100_0000) % 0x100) as u8);
    proof {
        assert(b@ =~= le32_bytes(n as int));
    }
    b
}

/// What the bytes buffered so far say about the frame at their front.
#[derive(Debug, Clone, Copy, PartialEq, Eq, Structural)]
pub enum FrameStatus {
    /// Fewer than 4 bytes are buffered: the length prefix is incomplete.
    NeedHeader,
    /// The declared length exceeds the limit: drop the connection.
    TooLarge { declared: u32 },
    /// The prefix is read but the payload is not yet fully buffered.
    NeedBody { declared: u32 },
    /// A whole frame is buffered.
    Complete { declared: u32 },
}

/// Classifies the front of the read buffer.
pub fn frame_status(buf: &[u8]) -> (r: FrameStatus)
    ensures
        buf@.len() < 4 ==> r == FrameStatus::NeedHeader,
        buf@.len() >= 4 ==> {
            let n = le32(buf@.subrange(0, 4));
            if n > MAX_MESSAGE_SIZE as int {
                r == (FrameStatus::TooLarge { declared: n as u32 })
            } else if buf@.len() >= 4 + n {
                r == (FrameStatus::Complete { declared: n as u32 })
            } else {
                r == (FrameStatus::NeedBody { declared: n as u32 })
            }
        },
{
    if buf.len() < 4 {
        return FrameStatus::NeedHeader;
    }
    let declared = decode_frame_len(buf);
    if declared as usize > MAX_MESSAGE_SIZE {
        FrameStatus::TooLarge { declared }
    } else if buf.len() >= 4 + declared as usize {
        FrameStatus::Complete { declared }
    } else {
        FrameStatus::NeedBody { declared }
    }
}

/// Frames a payload for the wire: length prefix, then the payload. Returns
/// `None` exactly when the payload exceeds the limit; the caller must then
/// drop the connection without a reply.
pub fn encode_frame(payload: &Vec<u8>) -> (r: Option<Vec<u8>>)
    ensures
        payload@.len() > MAX_MESSAGE_SIZE as int ==> r is None,
        payload@.len() <= MAX_MESSAGE_SIZE as int ==> (r matches Some(v) && v@ == frame_bytes(
            payload@,
        )),
{
    if payload.len() > MAX_MESSAGE_SIZE {
        return None;
    }
    let mut out = encode_frame_len(payload.len() as u32);
    out.extend_from_slice(payload.as_slice());
    proof {
        assert(out@ =~= frame_bytes(payload@));
    }
    Some(out)
}

/// Takes the complete frame at the front of `buf` out of it, returning the
/// payload and leaving any bytes of later frames in place.
pub fn take_frame(buf: &mut Vec<u8>) -> (payload: Vec<u8>)
    requires
        old(buf)@.len() >= 4,
        le32(old(buf)@.subrange(0, 4)) <= MAX_MESSAGE_SIZE as int,
        old(buf)@.len() >= 4 + le32(old(buf)@.subrange(0, 4)),
    ensures
        payload@ == old(buf)@.subrange(4, 4 + le32(old(buf)@.subrange(0, 4))),
        final(buf)@ == old(buf)@.subrange(
            4 + le32(old(buf)@.subrange(0, 4)),
            old(buf)@.len() as int,
        ),
{
    let declared = decode_frame_len(buf.as_slice()) as usize;
    let rest = buf.split_off(4 + declared);
    let payload = buf.split_off(4);
    *buf = rest;
    proof {
        assert(payload@ =~= old(buf)@.subrange(4, 4 + le32(old(buf)@.subrange(0, 4))));
    }
    payload
}

/// Law: a frame built by [`encode_frame`] is read back whole: its status is
/// `Complete` and the payload taken from it is the one framed.
pub proof fn lemma_frame_round_trip(payload: Seq<u8>)
    requires
        payload.len() <= MAX_MESSAGE_SIZE as int,
    ensures
        le32(frame_bytes(payload).subrange(0, 4)) == payload.len() as int,
        frame_bytes(payload).len() == 4 + payload.len(),
        frame_bytes(payload).subrange(4, 4 + payload.len() as int) == payload,
{
    assert(frame_bytes(payload).subrange(0, 4) =~= le32_bytes(payload.len() as int));
    lemma_le32_round_trip(payload.len() as int);
    assert(frame_bytes(payload).subrange(4, 4 + payload.len() as int) =~= payload);
}

} // verus!
