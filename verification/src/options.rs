//! Encoder option flags.
//!
//! The encoder accepts a small closed set of independent boolean toggles.
//! Hosts that can only pass integers hand the flags over as a bitset; the
//! bit assignment is part of the boundary contract.

use vstd::prelude::*;

verus! {

/// Bit selecting stored (uncompressed) blocks in the flag bitset.
pub const NO_COMPRESSION: u32 = 1;

/// Bit selecting fixed Huffman codes in the flag bitset.
pub const FIXED_HUFFMAN_CODES: u32 = 2;

/// Encoder options: independent boolean toggles. With both flags off the
/// encoder uses its default adaptive (dynamic Huffman) mode.
#[derive(Clone, Copy, Debug, PartialEq, Eq, Structural)]
pub struct CompressionOptions {
    /// Emit stored (uncompressed) blocks instead of compressing.
    pub no_compression: bool,
    /// Compress with fixed Huffman codes instead of adaptive ones.
    pub fixed_huffman_codes: bool,
}

impl CompressionOptions {
    /// The default adaptive mode: no flag set.
    pub fn empty() -> (r: CompressionOptions)
        ensures
            !r.no_compression,
            !r.fixed_huffman_codes,
    {
        CompressionOptions { no_compression: false, fixed_huffman_codes: false }
    }

    /// Decodes the flag bitset used where the calling convention can only
    /// pass integers.
    pub fn from_bits(bits: u32) -> (r: CompressionOptions)
        ensures
            r.no_compression == (bits & NO_COMPRESSION != 0),
            r.fixed_huffman_codes == (bits & FIXED_HUFFMAN_CODES != 0),
    {
        CompressionOptions {
            no_compression: bits & NO_COMPRESSION != 0,
            fixed_huffman_codes: bits & FIXED_HUFFMAN_CODES != 0,
        }
    }

}

} // verus!
