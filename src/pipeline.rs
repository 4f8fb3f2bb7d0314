use vstd::prelude::*;

verus! {

/// The sign bit of a 32-bit float pattern is set.
pub open spec fn sign_set(b: u32) -> bool {
    b >= 0x8000_0000
}

/// The pattern with its sign bit cleared.
pub open spec fn magnitude(b: u32) -> u32 {
    if sign_set(b) {
        (b - 0x8000_0000) as u32
    } else {
        b
    }
}

/// The pattern is a NaN: all exponent bits set and a nonzero fraction.
pub open spec fn is_nan_bits(b: u32) -> bool {
    magnitude(b) > 0x7F80_0000
}

/// `a >= b` on the 32-bit floats whose patterns are `a` and `b`: false when
/// either is NaN, true for two zeros of any sign; otherwise numbers of equal
/// sign are ordered as their magnitudes' patterns are (reversed for negative
/// numbers), and a non-negative number is above a negative one.
pub open spec fn float_ge(a: u32, b: u32) -> bool {
    if is_nan_bits(a) || is_nan_bits(b) {
        false
    } else if magnitude(a) == 0 && magnitude(b) == 0 {
        true
    } else if !sign_set(a) && !sign_set(b) {
        a >= b
    } else if sign_set(a) && sign_set(b) {
        magnitude(a) <= magnitude(b)
    } else {
        !sign_set(a)
    }
}

/// Compares two 32-bit floats given as bit patterns, as `>=` does on `f32`.
pub fn bits_ge(a: u32, b: u32) -> (r: bool)
    ensures
        r == float_ge(a, b),
{
    let sign: u32 = 0x8000_0000;
    let a_neg = a >= sign;
    let b_neg = b >= sign;
    let a_mag: u32 = if a_neg {
        a - sign
    } else {
        a
    };
    let b_mag: u32 = if b_neg {
        b - sign
    } else {
        b
    };
    if a_mag > 0x7F80_0000 || b_mag > 0x7F80_0000 {
        false
    } else if a_mag == 0 && b_mag == 0 {
        true
    } else if !a_neg && !b_neg {
        a >= b
    } else if a_neg && b_neg {
        a_mag <= b_mag
    } else {
        !a_neg
    }
}

/// What the pipeline emits for one frame: its position in arrival order, the
/// detector's speech probability, and the speaker embedding where the frame
/// was at or above the threshold.
#[derive(Debug)]
pub struct FrameResult {
    pub index: u64,
    pub probability: u32,
    pub embedding: Option<Vec<u32>>,
}

/// The sequencing of the frame pipeline: each frame's probability decides
/// whether an embedding is computed, and results are numbered in the order in
/// which frames arrive.
#[derive(Debug)]
pub struct FramePipeline {
    threshold: u32,
    next_index: u64,
}

impl FramePipeline {
    /// The threshold, as a float pattern.
    pub closed spec fn spec_threshold(&self) -> u32 {
        self.threshold
    }

    /// The position that the next frame will get.
    pub closed spec fn spec_next_index(&self) -> u64 {
        self.next_index
    }

    /// A pipeline that asks for embeddings of frames whose probability is at
    /// or above `threshold`, numbering frames from 0.
    pub fn new(threshold: u32) -> (r: FramePipeline)
        ensures
            r.spec_threshold() == threshold,
            r.spec_next_index() == 0,
    {
        FramePipeline { threshold, next_index: 0 }
    }

    /// The threshold, as a float pattern.
    pub fn threshold(&self) -> (r: u32)
        ensures
            r == self.spec_threshold(),
    {
        self.threshold
    }

    /// The position that the next frame will get.
    pub fn next_index(&self) -> (r: u64)
        ensures
            r == self.spec_next_index(),
    {
        self.next_index
    }

    /// Whether a frame with this probability goes on to the embedding
    /// extractor: the probability is at or above the threshold.
    pub fn needs_embedding(&self, probability: u32) -> (r: bool)
        ensures
            r == float_ge(probability, self.spec_threshold()),
    {
        bits_ge(probability, self.threshold)
    }

    /// The result for the next frame. The embedding is kept only when the
    /// probability is at or above the threshold.
    pub fn emit(&mut self, probability: u32, embedding: Option<Vec<u32>>) -> (r: FrameResult)
        requires
            old(self).spec_next_index() < u64::MAX,
        ensures
            r.index == old(self).spec_next_index(),
            r.probability == probability,
            float_ge(probability, old(self).spec_threshold()) ==> r.embedding == embedding,
            !float_ge(probability, old(self).spec_threshold()) ==> r.embedding is None,
            final(self).spec_threshold() == old(self).spec_threshold(),
            final(self).spec_next_index() == old(self).spec_next_index() + 1,
    {
        let index = self.next_index;
        self.next_index = self.next_index + 1;
        let keep = bits_ge(probability, self.threshold);
        FrameResult { index, probability, embedding: if keep {
            embedding
        } else {
            None
        } }
    }

    /// Passes over a frame whose detector or embedding step failed: the
    /// frame keeps its position, and no result is emitted for it.
    pub fn skip(&mut self) -> (r: u64)
        requires
            old(self).spec_next_index() < u64::MAX,
        ensures
            r == old(self).spec_next_index(),
            final(self).spec_threshold() == old(self).spec_threshold(),
            final(self).spec_next_index() == old(self).spec_next_index() + 1,
    {
        let index = self.next_index;
        self.next_index = self.next_index + 1;
        index
    }
}

} // verus!
