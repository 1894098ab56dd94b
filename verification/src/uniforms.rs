//! The per-frame uniform record and its byte layout in the uniform buffer.
//!
//! The shader reads a block of four 32-bit words: `time`, `opacity`, `seed`
//! and one word of padding. Each field is an IEEE-754 single, kept here as
//! its bit pattern, and each word is stored least significant byte first.

use vstd::prelude::*;

verus! {

/// Size of the uniform block in bytes.
pub const UNIFORM_BLOCK_SIZE: usize = 16;

/// Bit pattern of `0.0`, the time at start-up.
pub const TIME_AT_START: u32 = 0;

/// Bit pattern of `1.0`, the opacity of every frame.
pub const OPACITY_FULL: u32 = 0x3F80_0000;

/// Bit pattern of `42.0`, the seed that varies the shader's pattern.
pub const WINDOW_SEED: u32 = 0x4228_0000;

/// Bit pattern of `-0.0`.
pub const NEGATIVE_ZERO: u32 = 0x8000_0000;

/// The record uploaded to the GPU once per frame. Every field holds the bit
/// pattern of a 32-bit float: `time` in milliseconds since start, `opacity`
/// in `[0, 1]`, and the per-run `seed`.
#[derive(Clone, Copy, Debug, PartialEq, Eq, Structural)]
pub struct FrameUniforms {
    pub time: u32,
    pub opacity: u32,
    pub seed: u32,
}

/// Whether `bits` is the pattern of a float in `[0, 1]`. Among the patterns
/// without a sign bit, the numeric order of the floats is the order of the
/// patterns, so these are the patterns up to that of `1.0`, and `-0.0`.
pub open spec fn in_unit_range(bits: u32) -> bool {
    bits <= OPACITY_FULL || bits == NEGATIVE_ZERO
}

/// The four bytes of a word, least significant first.
pub open spec fn word_bytes(word: u32) -> Seq<u8> {
    seq![
        (word % 0x100) as u8,
        (word / 0x100 % 0x100) as u8,
        (word / 0x1_0000 % 0x100) as u8,
        (word / 0x100_0000) as u8,
    ]
}

/// The word that four bytes starting at `offset` spell, least significant
/// byte first.
pub open spec fn word_at(bytes: Seq<u8>, offset: int) -> int {
    bytes[offset] + 0x100 * bytes[offset + 1] + 0x1_0000 * bytes[offset + 2] + 0x100_0000
        * bytes[offset + 3]
}

impl FrameUniforms {
    /// The record keeps its invariant: the opacity lies in `[0, 1]`.
    pub open spec fn wf(self) -> bool {
        in_unit_range(self.opacity)
    }

    /// The record at start-up.
    pub open spec fn initial_spec() -> FrameUniforms {
        FrameUniforms { time: TIME_AT_START, opacity: OPACITY_FULL, seed: WINDOW_SEED }
    }

    /// The same record at another time.
    pub open spec fn at_time(self, time: u32) -> FrameUniforms {
        FrameUniforms { time, opacity: self.opacity, seed: self.seed }
    }

    /// The content of the uniform buffer that holds this record: the three
    /// fields in order, then four zero bytes of padding.
    pub open spec fn block(self) -> Seq<u8> {
        word_bytes(self.time) + word_bytes(self.opacity) + word_bytes(self.seed) + seq![
            0u8,
            0u8,
            0u8,
            0u8,
        ]
    }

    /// A record of the given fields, or `None` where the opacity is not the
    /// bit pattern of a float in `[0, 1]`.
    pub fn new(time: u32, opacity: u32, seed: u32) -> (made: Option<FrameUniforms>)
        ensures
            in_unit_range(opacity) ==> made == Some(FrameUniforms { time, opacity, seed }),
            !in_unit_range(opacity) ==> made.is_none(),
    {
        if opacity <= OPACITY_FULL || opacity == NEGATIVE_ZERO {
            Some(FrameUniforms { time, opacity, seed })
        } else {
            None
        }
    }

    /// The record at start-up: time zero, full opacity, the fixed seed.
    pub fn initial() -> (made: FrameUniforms)
        ensures
            made == FrameUniforms::initial_spec(),
            made.wf(),
    {
        FrameUniforms { time: TIME_AT_START, opacity: OPACITY_FULL, seed: WINDOW_SEED }
    }

    /// The record with `time` replaced; opacity and seed stay.
    pub fn with_time(self, time: u32) -> (moved: FrameUniforms)
        ensures
            moved == self.at_time(time),
            self.wf() ==> moved.wf(),
        no_unwind
    {
        FrameUniforms { time, opacity: self.opacity, seed: self.seed }
    }

    /// The sixteen bytes to place in the uniform buffer.
    pub fn to_bytes(&self) -> (bytes: [u8; 16])
        ensures
            bytes@ == self.block(),
    {
        let t: u32 = self.time;
        let o: u32 = self.opacity;
        let s: u32 = self.seed;
        let bytes: [u8; 16] = [
            (t % 0x100) as u8,
            (t / 0x100 % 0x100) as u8,
            (t / 0x1_0000 % 0x100) as u8,
            (t / 0x100_0000) as u8,
            (o % 0x100) as u8,
            (o / 0x100 % 0x100) as u8,
            (o / 0x1_0000 % 0x100) as u8,
            (o / 0x100_0000) as u8,
            (s % 0x100) as u8,
            (s / 0x100 % 0x100) as u8,
            (s / 0x1_0000 % 0x100) as u8,
            (s / 0x100_0000) as u8,
            0,
            0,
            0,
            0,
        ];
        assert(bytes@ =~= self.block());
        bytes
    }
}

/// A word is read back from its four bytes.
pub proof fn lemma_word_bytes_round_trip(word: u32)
    ensures
        word_bytes(word).len() == 4,
        word_at(word_bytes(word), 0) == word,
{
}

/// The layout of the uniform block: sixteen bytes, `time` at offset 0,
/// `opacity` at offset 4, `seed` at offset 8, and zero padding from offset 12.
pub proof fn lemma_block_layout(uniforms: FrameUniforms)
    ensures
        uniforms.block().len() == UNIFORM_BLOCK_SIZE,
        word_at(uniforms.block(), 0) == uniforms.time,
        word_at(uniforms.block(), 4) == uniforms.opacity,
        word_at(uniforms.block(), 8) == uniforms.seed,
        forall|i: int| 12 <= i < 16 ==> uniforms.block()[i] == 0,
{
    lemma_word_bytes_round_trip(uniforms.time);
    lemma_word_bytes_round_trip(uniforms.opacity);
    lemma_word_bytes_round_trip(uniforms.seed);
}

/// Two records with the same block are the same record: the layout loses
/// nothing.
pub proof fn lemma_block_determines_record(a: FrameUniforms, b: FrameUniforms)
    requires
        a.block() == b.block(),
    ensures
        a == b,
{
    lemma_block_layout(a);
    lemma_block_layout(b);
}

} // verus!
