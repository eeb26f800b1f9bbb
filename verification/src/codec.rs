//! Frame codec: the on-wire shape of every command and response.
//!
//! A frame is `HEADER(2) | LENGTH(2, little-endian) | PAYLOAD | CHECKSUM(1)`,
//! where `LENGTH = payload length + 1` and `CHECKSUM` is the XOR fold of all
//! bytes from the first length byte through the last payload byte.

use vstd::prelude::*;

verus! {

/// First header byte of every frame.
pub const HEADER_0: u8 = 0xaa;

/// Second header byte of every frame.
pub const HEADER_1: u8 = 0xbb;

/// XOR fold of a byte sequence; the frame checksum is this fold over
/// `LENGTH | PAYLOAD`.
pub open spec fn xor_fold(s: Seq<u8>) -> u8
    decreases s.len(),
{
    if s.len() == 0 {
        0u8
    } else {
        xor_fold(s.drop_last()) ^ s.last()
    }
}

/// Low byte of the little-endian LENGTH field for a payload of length `n`.
pub open spec fn length_lo(n: int) -> u8 {
    (((n + 1) % 256) as u8)
}

/// High byte of the little-endian LENGTH field for a payload of length `n`.
pub open spec fn length_hi(n: int) -> u8 {
    ((((n + 1) / 256) % 256) as u8)
}

/// The complete frame for a command payload.
pub open spec fn frame_spec(p: Seq<u8>) -> Seq<u8> {
    let body = seq![length_lo(p.len() as int), length_hi(p.len() as int)] + p;
    seq![HEADER_0, HEADER_1] + body + seq![xor_fold(body)]
}

/// The mathematical decoder: a byte sequence is a frame exactly for its own
/// embedded payload, or for no payload at all.
pub open spec fn decode_spec(f: Seq<u8>) -> Option<Seq<u8>> {
    if f.len() >= 5 && f == frame_spec(f.subrange(4, f.len() - 1)) {
        Some(f.subrange(4, f.len() - 1))
    } else {
        None
    }
}

/// XOR fold of all bytes of `data`. A buffer shorter than the minimal frame
/// prefix signals a caller defect, so it is ruled out up front.
pub fn checksum(data: &Vec<u8>) -> (r: u8)
    requires
        data@.len() >= 3,
    ensures
        r == xor_fold(data@),
{
    let r = xor_range(data, 0, data.len());
    proof {
        assert(data@.subrange(0, data@.len() as int) =~= data@);
    }
    r
}

/// XOR fold of `data[from..to]`.
fn xor_range(data: &Vec<u8>, from: usize, to: usize) -> (r: u8)
    requires
        from <= to <= data@.len(),
    ensures
        r == xor_fold(data@.subrange(from as int, to as int)),
{
    let mut acc: u8 = 0;
    let mut i: usize = from;
    proof {
        assert(data@.subrange(from as int, from as int) =~= Seq::<u8>::empty());
    }
    while i < to
        invariant
            from <= i <= to <= data@.len(),
            acc == xor_fold(data@.subrange(from as int, i as int)),
        decreases to - i,
    {
        proof {
            let pre = data@.subrange(from as int, i as int);
            let post = data@.subrange(from as int, i + 1);
            assert(post.drop_last() =~= pre);
            assert(post.last() == data@[i as int]);
        }
        acc = acc ^ data[i];
        i = i + 1;
    }
    acc
}

/// Builds the on-wire frame for `payload`: header, little-endian length
/// (payload length plus one), the payload, and the XOR checksum over
/// everything but the header.
pub fn encode(payload: &Vec<u8>) -> (frame: Vec<u8>)
    requires
        payload@.len() <= 65534,
    ensures
        frame@ == frame_spec(payload@),
{
    let n = payload.len();
    let lo = ((n + 1) % 256) as u8;
    let hi = (((n + 1) / 256) % 256) as u8;
    let mut frame: Vec<u8> = Vec::new();
    frame.push(HEADER_0);
    frame.push(HEADER_1);
    frame.push(lo);
    frame.push(hi);
    let mut i: usize = 0;
    while i < n
        invariant
            i <= n,
            n == payload@.len(),
            frame@ == seq![HEADER_0, HEADER_1, length_lo(n as int), length_hi(n as int)]
                + payload@.subrange(0, i as int),
        decreases n - i,
    {
        frame.push(payload[i]);
        proof {
            assert(payload@.subrange(0, i + 1) =~= payload@.subrange(0, i as int).push(
                payload@[i as int],
            ));
        }
        i = i + 1;
    }
    proof {
        assert(payload@.subrange(0, n as int) =~= payload@);
    }
    let cs = xor_range(&frame, 2, frame.len());
    proof {
        let body = seq![length_lo(n as int), length_hi(n as int)] + payload@;
        assert(frame@.subrange(2, frame@.len() as int) =~= body);
    }
    frame.push(cs);
    proof {
        let body = seq![length_lo(n as int), length_hi(n as int)] + payload@;
        assert(frame@ =~= seq![HEADER_0, HEADER_1] + body + seq![xor_fold(body)]);
    }
    frame
}

/// Checks that `frame` is a well-formed frame (header, length field and
/// checksum all consistent) and recovers its payload; returns `None` for
/// any byte sequence that is not the encoding of some payload.
pub fn decode(frame: &Vec<u8>) -> (r: Option<Vec<u8>>)
    ensures
        match r {
            Some(p) => decode_spec(frame@) == Some(p@),
            None => decode_spec(frame@) is None,
        },
{
    let len = frame.len();
    if len < 5 {
        return None;
    }
    if frame[0] != HEADER_0 || frame[1] != HEADER_1 {
        proof {
            lemma_frame_mismatch(frame@);
        }
        return None;
    }
    let n = len - 5;
    if frame[2] != ((n + 1) % 256) as u8 || frame[3] != (((n + 1) / 256) % 256) as u8 {
        proof {
            lemma_frame_mismatch(frame@);
        }
        return None;
    }
    let cs = xor_range(frame, 2, len - 1);
    if frame[len - 1] != cs {
        proof {
            let p = frame@.subrange(4, len - 1);
            let body = seq![length_lo(p.len() as int), length_hi(p.len() as int)] + p;
            if frame@ == frame_spec(p) {
                assert(frame@.subrange(2, len - 1) =~= body);
                assert(frame@.last() == xor_fold(body));
            }
            lemma_frame_mismatch(frame@);
        }
        return None;
    }
    let mut payload: Vec<u8> = Vec::new();
    let mut i: usize = 4;
    while i < len - 1
        invariant
            4 <= i <= len - 1,
            len == frame@.len(),
            payload@ == frame@.subrange(4, i as int),
        decreases len - i,
    {
        payload.push(frame[i]);
        proof {
            assert(frame@.subrange(4, i + 1) =~= frame@.subrange(4, i as int).push(
                frame@[i as int],
            ));
        }
        i = i + 1;
    }
    proof {
        let p = frame@.subrange(4, len - 1);
        let body = seq![length_lo(p.len() as int), length_hi(p.len() as int)] + p;
        assert(frame@.subrange(2, len - 1) =~= body);
        assert(frame@ =~= seq![HEADER_0, HEADER_1] + body + seq![xor_fold(body)]);
    }
    Some(payload)
}

/// A frame that fails any structural check encodes no payload: the only
/// candidate payload of a sequence is its own interior.
proof fn lemma_frame_mismatch(f: Seq<u8>)
    requires
        f.len() >= 5,
        f != frame_spec(f.subrange(4, f.len() - 1)),
    ensures
        decode_spec(f) is None,
{
}

/// Law: decoding an encoded frame recovers the payload exactly.
pub proof fn lemma_round_trip(p: Seq<u8>)
    requires
        p.len() <= 65534,
    ensures
        decode_spec(frame_spec(p)) == Some(p),
{
    let f = frame_spec(p);
    assert(f.subrange(4, f.len() - 1) =~= p);
}

/// Law: the LENGTH field of an encoded frame is the payload length plus one,
/// as a little-endian 16-bit value.
pub proof fn lemma_length_field(p: Seq<u8>)
    requires
        p.len() <= 65534,
    ensures
        (frame_spec(p)[2] as int) + 256 * (frame_spec(p)[3] as int) == p.len() + 1,
{
}

/// Law: the checksum byte of an encoded frame is the XOR fold of the bytes
/// from the first LENGTH byte through the last payload byte.
pub proof fn lemma_checksum_field(p: Seq<u8>)
    ensures
        frame_spec(p).last() == xor_fold(frame_spec(p).subrange(2, frame_spec(p).len() - 1)),
{
    let body = seq![length_lo(p.len() as int), length_hi(p.len() as int)] + p;
    assert(frame_spec(p).subrange(2, frame_spec(p).len() - 1) =~= body);
}

} // verus!
