use vstd::prelude::*;
use crate::frame::Frame;
use crate::errors::CodecError;

verus! {

/// Byte `k` (0 = most significant) of the big-endian encoding of sample `s`.
pub open spec fn be_byte(s: u32, k: int) -> u8 {
    if k == 0 {
        (s >> 24) as u8
    } else if k == 1 {
        (s >> 16) as u8
    } else if k == 2 {
        (s >> 8) as u8
    } else {
        s as u8
    }
}

/// The wire encoding of a sample sequence: four bytes per sample, big-endian
/// (network byte order), samples in order, no header.
pub open spec fn wire_of(f: Seq<u32>) -> Seq<u8> {
    Seq::new(4 * f.len(), |i: int| be_byte(f[i / 4], i % 4))
}

/// The sample whose big-endian bytes are `b0 b1 b2 b3`.
pub open spec fn sample_of_bytes(b0: u8, b1: u8, b2: u8, b3: u8) -> u32 {
    (((b0 as u32) << 24) | ((b1 as u32) << 16) | ((b2 as u32) << 8) | (b3 as u32)) as u32
}

/// The samples read from a wire buffer: one per four bytes, big-endian.
pub open spec fn frame_of(w: Seq<u8>) -> Seq<u32> {
    Seq::new(
        w.len() / 4,
        |j: int| sample_of_bytes(w[4 * j], w[4 * j + 1], w[4 * j + 2], w[4 * j + 3]),
    )
}

/// Reading back the four big-endian bytes of a sample yields the sample.
proof fn lemma_sample_round_trip(s: u32)
    ensures
        sample_of_bytes(be_byte(s, 0), be_byte(s, 1), be_byte(s, 2), be_byte(s, 3)) == s,
{
    assert((((((s >> 24) as u8) as u32) << 24) | ((((s >> 16) as u8) as u32) << 16) | ((((s
        >> 8) as u8) as u32) << 8) | ((s as u8) as u32)) as u32 == s) by (bit_vector);
}

/// Round-trip and length law: the wire encoding of any frame is exactly four
/// bytes per sample, and decoding it yields the frame back unchanged.
pub proof fn lemma_codec_round_trip(f: Seq<u32>)
    ensures
        wire_of(f).len() == 4 * f.len(),
        frame_of(wire_of(f)) == f,
{
    let w = wire_of(f);
    assert(w.len() == 4 * f.len());
    assert forall|j: int| 0 <= j < f.len() implies frame_of(w)[j] == f[j] by {
        assert((4 * j) / 4 == j);
        assert((4 * j + 1) / 4 == j);
        assert((4 * j + 2) / 4 == j);
        assert((4 * j + 3) / 4 == j);
        assert((4 * j) % 4 == 0);
        assert((4 * j + 1) % 4 == 1);
        assert((4 * j + 2) % 4 == 2);
        assert((4 * j + 3) % 4 == 3);
        lemma_sample_round_trip(f[j]);
    }
    assert(frame_of(w) =~= f);
}

/// A frame is reconstructed from its wire bytes however delivery splits them:
/// any chunking whose concatenation is the encoding decodes to the frame.
pub proof fn lemma_split_delivery_reconstructs(f: Seq<u32>, chunks: Seq<Seq<u8>>)
    requires
        chunks.flatten() == wire_of(f),
    ensures
        frame_of(chunks.flatten()) == f,
{
    lemma_codec_round_trip(f);
}

/// Encode a frame into its wire bytes: 4·N bytes, big-endian.
pub fn encode(frame: &Frame) -> (w: Vec<u8>)
    ensures
        w@ == wire_of(frame@),
        w@.len() == 4 * frame@.len(),
{
    let n: usize = frame.samples.len();
    let mut w: Vec<u8> = Vec::new();
    let mut j: usize = 0;
    while j < n
        invariant
            n == frame@.len(),
            j <= n,
            w@.len() == 4 * j,
            forall|i: int| 0 <= i < 4 * j ==> w@[i] == wire_of(frame@)[i],
        decreases n - j,
    {
        let s: u32 = frame.samples[j];
        w.push((s >> 24) as u8);
        w.push((s >> 16) as u8);
        w.push((s >> 8) as u8);
        w.push(s as u8);
        proof {
            assert forall|i: int| 4 * j <= i < 4 * j + 4 implies w@[i] == wire_of(frame@)[i] by {
                assert(i / 4 == j);
                assert(i % 4 == i - 4 * j);
            }
        }
        j = j + 1;
    }
    proof {
        assert(w@ =~= wire_of(frame@));
    }
    w
}

/// Decode a wire buffer whose length is an exact multiple of four.
pub(crate) fn decode_exact(wire: &Vec<u8>) -> (f: Frame)
    requires
        wire@.len() % 4 == 0,
    ensures
        f@ == frame_of(wire@),
{
    let len: usize = wire.len();
    let n: usize = len / 4;
    proof {
        assert(4 * n == len);
    }
    let mut samples: Vec<u32> = Vec::new();
    let mut j: usize = 0;
    while j < n
        invariant
            wire@.len() % 4 == 0,
            n == wire@.len() / 4,
            4 * n == wire@.len(),
            4 * n <= usize::MAX,
            j <= n,
            samples@.len() == j,
            forall|i: int| 0 <= i < j ==> samples@[i] == frame_of(wire@)[i],
        decreases n - j,
    {
        let base: usize = 4 * j;
        let b0: u8 = wire[base];
        let b1: u8 = wire[base + 1];
        let b2: u8 = wire[base + 2];
        let b3: u8 = wire[base + 3];
        let s: u32 = ((b0 as u32) << 24) | ((b1 as u32) << 16) | ((b2 as u32) << 8) | (b3 as u32);
        proof {
            assert(s == frame_of(wire@)[j as int]);
        }
        samples.push(s);
        j = j + 1;
    }
    proof {
        assert(samples@ =~= frame_of(wire@));
    }
    Frame { samples }
}

/// Decode a wire buffer expected to hold `n` samples.
///
/// Succeeds exactly when the buffer holds 4·n bytes; a buffer of any other
/// length fails whole with `LengthMismatch` and is never partially decoded.
pub fn decode(wire: &Vec<u8>, n: usize) -> (r: Result<Frame, CodecError>)
    ensures
        r is Ok <==> wire@.len() == 4 * n,
        r matches Ok(f) ==> f@ == frame_of(wire@) && f@.len() == n,
        r matches Err(e) ==> e == CodecError::LengthMismatch,
{
    let len: usize = wire.len();
    if n <= usize::MAX / 4 && len == 4 * n {
        Ok(decode_exact(wire))
    } else {
        proof {
            if n > usize::MAX / 4 {
                assert(4 * n > usize::MAX);
                assert(wire@.len() != 4 * n);
            }
        }
        Err(CodecError::LengthMismatch)
    }
}

} // verus!
