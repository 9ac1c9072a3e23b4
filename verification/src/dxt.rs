//! Block-compression mode selection for the DXT compressor capability.

use vstd::prelude::*;

verus! {

/// DXT compression mode
#[derive(Debug, Clone, Copy, PartialEq, Eq, Structural)]
pub enum CompressionMode {
    /// Default compression mode
    Normal,
    /// Use dithering: a dubious win, and never right for normal maps
    Dither,
    /// High quality mode: two refinement steps instead of one, noticeably
    /// slower
    Highqual,
}

impl CompressionMode {
    /// The numeric code of this mode.
    pub open spec fn spec_code(self) -> int {
        match self {
            CompressionMode::Normal => 0,
            CompressionMode::Dither => 1,
            CompressionMode::Highqual => 2,
        }
    }

    /// The numeric code handed to a block compressor.
    pub fn code(self) -> (r: i32)
        ensures
            r as int == self.spec_code(),
    {
        match self {
            CompressionMode::Normal => 0,
            CompressionMode::Dither => 1,
            CompressionMode::Highqual => 2,
        }
    }
}

} // verus!
