use vstd::prelude::*;

verus! {

/// The representation of one sample in a raw PCM buffer.
#[derive(Debug, Clone, Copy, PartialEq, Eq, Structural)]
pub enum Format {
    Unknown,
    U8,
    S16,
    S24,
    S32,
    F32,
}

impl Format {
    /// The number of bytes that one sample of this format occupies.
    pub open spec fn width(self) -> nat {
        match self {
            Format::Unknown => 0,
            Format::U8 => 1,
            Format::S16 => 2,
            Format::S24 => 3,
            Format::S32 => 4,
            Format::F32 => 4,
        }
    }

    pub fn size_in_bytes(self) -> (size: usize)
        ensures
            size == self.width(),
    {
        match self {
            Format::Unknown => 0,
            Format::U8 => 1,
            Format::S16 => 2,
            Format::S24 => 3,
            Format::S32 => 4,
            Format::F32 => 4,
        }
    }
}

} // verus!
