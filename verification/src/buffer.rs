use vstd::prelude::*;

verus! {

/// A whole decoded image: one flat run of samples, at the sample width
/// the engine reported for the source.
#[derive(Debug)]
pub enum DecodedImage {
    /// Samples of one byte each.
    U8(Vec<u8>),
    /// Samples of one sixteen-bit word each.
    U16(Vec<u16>),
}

impl DecodedImage {
    /// How many samples the buffer holds, whatever their width.
    pub open spec fn spec_len(self) -> nat {
        match self {
            DecodedImage::U8(v) => v@.len(),
            DecodedImage::U16(v) => v@.len(),
        }
    }

    /// Executable mirror of `spec_len`.
    pub fn len(&self) -> (r: usize)
        ensures
            r == self.spec_len(),
    {
        match self {
            DecodedImage::U8(v) => v.len(),
            DecodedImage::U16(v) => v.len(),
        }
    }
}

} // verus!
