//! The emotional vector: one observation of affective state, its documented
//! domain, its canonical byte encoding and its content hash.

use vstd::prelude::*;
use crate::digest::sha256;
use crate::digest::sha256_digest;
use crate::fixed::in_signed_unit;
use crate::fixed::in_unit;
use crate::fixed::ONE;

verus! {

/// One observation of affective state. The four coordinates are in
/// millionths; the timestamp is in whole seconds.
#[derive(Clone, Copy, Debug, PartialEq, Eq, Structural)]
pub struct EmotionalVector {
    /// Negative to positive, from -1.0 to 1.0.
    pub valence: i32,
    /// Calm to excited, from 0.0 to 1.0.
    pub arousal: i32,
    /// Submissive to dominant, from 0.0 to 1.0.
    pub dominance: i32,
    /// Confidence in the observation, from 0.0 to 1.0.
    pub confidence: i32,
    /// Unix timestamp, in seconds.
    pub timestamp: i64,
}

/// The number of bytes in the canonical encoding of an emotional vector.
pub const ENCODED_LEN: usize = 24;

impl EmotionalVector {
    /// The vector whose coordinates and timestamp are all zero.
    pub open spec fn zero() -> EmotionalVector {
        EmotionalVector { valence: 0, arousal: 0, dominance: 0, confidence: 0, timestamp: 0 }
    }

    /// Every coordinate lies in its documented domain.
    pub open spec fn in_range(&self) -> bool {
        &&& in_signed_unit(self.valence as int)
        &&& in_unit(self.arousal as int)
        &&& in_unit(self.dominance as int)
        &&& in_unit(self.confidence as int)
    }

    /// Tells whether every coordinate lies in its documented domain.
    pub fn is_in_range(&self) -> (ok: bool)
        ensures
            ok == self.in_range(),
    {
        -ONE <= self.valence && self.valence <= ONE && 0 <= self.arousal && self.arousal <= ONE
            && 0 <= self.dominance && self.dominance <= ONE && 0 <= self.confidence
            && self.confidence <= ONE
    }
}

impl Default for EmotionalVector {
    fn default() -> (v: EmotionalVector)
        ensures
            v == EmotionalVector::zero(),
    {
        EmotionalVector { valence: 0, arousal: 0, dominance: 0, confidence: 0, timestamp: 0 }
    }
}

/// The unsigned 32-bit number with the same two's-complement bits as `x`.
pub open spec fn unsigned_32(x: int) -> int {
    if x >= 0 {
        x
    } else {
        x + 0x1_0000_0000
    }
}

/// The unsigned 64-bit number with the same two's-complement bits as `x`.
pub open spec fn unsigned_64(x: int) -> int {
    if x >= 0 {
        x
    } else {
        x + 0x1_0000_0000_0000_0000
    }
}

/// The four bytes of `w`, least significant first.
pub open spec fn le_bytes_32(w: int) -> Seq<u8> {
    seq![
        (w % 256) as u8,
        (w / 0x100 % 256) as u8,
        (w / 0x1_0000 % 256) as u8,
        (w / 0x100_0000 % 256) as u8,
    ]
}

/// The eight bytes of `w`, least significant first.
pub open spec fn le_bytes_64(w: int) -> Seq<u8> {
    le_bytes_32(w % 0x1_0000_0000) + le_bytes_32(w / 0x1_0000_0000)
}

/// The canonical encoding of an emotional vector: valence, arousal, dominance
/// and confidence as little-endian two's-complement 32-bit integers, then the
/// timestamp as a little-endian two's-complement 64-bit integer; 24 bytes.
pub open spec fn encoding(v: EmotionalVector) -> Seq<u8> {
    le_bytes_32(unsigned_32(v.valence as int)) + le_bytes_32(unsigned_32(v.arousal as int))
        + le_bytes_32(unsigned_32(v.dominance as int)) + le_bytes_32(
        unsigned_32(v.confidence as int),
    ) + le_bytes_64(unsigned_64(v.timestamp as int))
}

/// The content hash of an emotional vector: the SHA-256 digest of its
/// canonical encoding.
pub open spec fn content_hash(v: EmotionalVector) -> Seq<u8> {
    sha256(encoding(v))
}

/// Appends the four little-endian bytes of `w`.
fn push_le_u32(out: &mut Vec<u8>, w: u32)
    ensures
        final(out)@ == old(out)@ + le_bytes_32(w as int),
{
    out.push((w % 256) as u8);
    out.push((w / 0x100 % 256) as u8);
    out.push((w / 0x1_0000 % 256) as u8);
    out.push((w / 0x100_0000 % 256) as u8);
    assert(out@ =~= old(out)@ + le_bytes_32(w as int));
}

/// Appends the little-endian two's-complement bytes of `x`.
fn push_le_i32(out: &mut Vec<u8>, x: i32)
    ensures
        final(out)@ == old(out)@ + le_bytes_32(unsigned_32(x as int)),
{
    let w: u32 = if x >= 0 {
        x as u32
    } else {
        (x as i64 + 0x1_0000_0000) as u32
    };
    push_le_u32(out, w);
}

/// Appends the little-endian two's-complement bytes of `x`.
fn push_le_i64(out: &mut Vec<u8>, x: i64)
    ensures
        final(out)@ == old(out)@ + le_bytes_64(unsigned_64(x as int)),
{
    let w: u64 = if x >= 0 {
        x as u64
    } else {
        (x as i128 + 0x1_0000_0000_0000_0000) as u64
    };
    push_le_u32(out, (w % 0x1_0000_0000) as u32);
    push_le_u32(out, (w / 0x1_0000_0000) as u32);
    assert(out@ =~= old(out)@ + le_bytes_64(unsigned_64(x as int)));
}

/// The canonical 24-byte encoding of an emotional vector.
pub fn encode_emotional_state(emotional_state: &EmotionalVector) -> (bytes: Vec<u8>)
    ensures
        bytes@ == encoding(*emotional_state),
        bytes@.len() == ENCODED_LEN,
{
    let mut bytes: Vec<u8> = Vec::new();
    push_le_i32(&mut bytes, emotional_state.valence);
    push_le_i32(&mut bytes, emotional_state.arousal);
    push_le_i32(&mut bytes, emotional_state.dominance);
    push_le_i32(&mut bytes, emotional_state.confidence);
    push_le_i64(&mut bytes, emotional_state.timestamp);
    assert(bytes@ =~= encoding(*emotional_state));
    bytes
}

/// The content hash of an emotional vector.
pub fn hash_emotional_state(emotional_state: &EmotionalVector) -> (digest: [u8; 32])
    ensures
        digest@ == content_hash(*emotional_state),
{
    let bytes = encode_emotional_state(emotional_state);
    sha256_digest(bytes.as_slice())
}

/// Four little-endian bytes determine the number they encode.
proof fn lemma_le_bytes_32_injective(a: int, b: int)
    requires
        0 <= a < 0x1_0000_0000,
        0 <= b < 0x1_0000_0000,
        le_bytes_32(a) == le_bytes_32(b),
    ensures
        a == b,
{
    let x = le_bytes_32(a);
    let y = le_bytes_32(b);
    assert(x[0] == y[0] && x[1] == y[1] && x[2] == y[2] && x[3] == y[3]);
    assert(a % 256 == b % 256);
    assert(a / 0x100 % 256 == b / 0x100 % 256);
    assert(a / 0x1_0000 % 256 == b / 0x1_0000 % 256);
    assert(a / 0x100_0000 % 256 == b / 0x100_0000 % 256);
}

/// Eight little-endian bytes determine the number they encode.
proof fn lemma_le_bytes_64_injective(a: int, b: int)
    requires
        0 <= a < 0x1_0000_0000_0000_0000,
        0 <= b < 0x1_0000_0000_0000_0000,
        le_bytes_64(a) == le_bytes_64(b),
    ensures
        a == b,
{
    let x = le_bytes_64(a);
    let y = le_bytes_64(b);
    assert(x.subrange(0, 4) =~= le_bytes_32(a % 0x1_0000_0000));
    assert(y.subrange(0, 4) =~= le_bytes_32(b % 0x1_0000_0000));
    assert(x.subrange(4, 8) =~= le_bytes_32(a / 0x1_0000_0000));
    assert(y.subrange(4, 8) =~= le_bytes_32(b / 0x1_0000_0000));
    lemma_le_bytes_32_injective(a % 0x1_0000_0000, b % 0x1_0000_0000);
    lemma_le_bytes_32_injective(a / 0x1_0000_0000, b / 0x1_0000_0000);
}

/// The canonical encoding is the five encoded fields, one after another.
proof fn lemma_encoding_fields(v: EmotionalVector)
    ensures
        encoding(v).len() == ENCODED_LEN,
        encoding(v).subrange(0, 4) == le_bytes_32(unsigned_32(v.valence as int)),
        encoding(v).subrange(4, 8) == le_bytes_32(unsigned_32(v.arousal as int)),
        encoding(v).subrange(8, 12) == le_bytes_32(unsigned_32(v.dominance as int)),
        encoding(v).subrange(12, 16) == le_bytes_32(unsigned_32(v.confidence as int)),
        encoding(v).subrange(16, 24) == le_bytes_64(unsigned_64(v.timestamp as int)),
{
    let f0 = le_bytes_32(unsigned_32(v.valence as int));
    let f1 = le_bytes_32(unsigned_32(v.arousal as int));
    let f2 = le_bytes_32(unsigned_32(v.dominance as int));
    let f3 = le_bytes_32(unsigned_32(v.confidence as int));
    let f4 = le_bytes_64(unsigned_64(v.timestamp as int));
    assert(f0.len() == 4 && f1.len() == 4 && f2.len() == 4 && f3.len() == 4 && f4.len() == 8);
    let e = f0 + f1 + f2 + f3 + f4;
    assert(e == encoding(v));
    assert(e.subrange(0, 4) =~= f0);
    assert(e.subrange(4, 8) =~= f1);
    assert(e.subrange(8, 12) =~= f2);
    assert(e.subrange(12, 16) =~= f3);
    assert(e.subrange(16, 24) =~= f4);
}

/// The canonical encoding is deterministic and loses nothing: two vectors
/// have the same encoding exactly when they are equal, so changing any single
/// field changes the bytes that are hashed.
pub proof fn lemma_encoding_injective(a: EmotionalVector, b: EmotionalVector)
    ensures
        encoding(a) == encoding(b) <==> a == b,
        encoding(a).len() == ENCODED_LEN,
{
    lemma_encoding_fields(a);
    lemma_encoding_fields(b);
    if encoding(a) == encoding(b) {
        lemma_le_bytes_32_injective(
            unsigned_32(a.valence as int),
            unsigned_32(b.valence as int),
        );
        lemma_le_bytes_32_injective(
            unsigned_32(a.arousal as int),
            unsigned_32(b.arousal as int),
        );
        lemma_le_bytes_32_injective(
            unsigned_32(a.dominance as int),
            unsigned_32(b.dominance as int),
        );
        lemma_le_bytes_32_injective(
            unsigned_32(a.confidence as int),
            unsigned_32(b.confidence as int),
        );
        lemma_le_bytes_64_injective(
            unsigned_64(a.timestamp as int),
            unsigned_64(b.timestamp as int),
        );
    }
}

/// The content hash is a function of the vector alone: equal vectors have
/// equal hashes, so two vectors whose hashes differ are different vectors.
pub proof fn lemma_content_hash_deterministic(a: EmotionalVector, b: EmotionalVector)
    ensures
        a == b ==> content_hash(a) == content_hash(b),
        content_hash(a) != content_hash(b) ==> a != b,
{
}

} // verus!
