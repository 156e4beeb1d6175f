//! A gzip compression/decompression codec behind a narrow, flat function
//! boundary.
//!
//! The codec itself (DEFLATE coding and RFC 1952 framing) is provided by the
//! `libflate` crate and reached only through trusted wrappers; this crate
//! verifies the memory-exchange protocol around it: a reused scratch buffer,
//! an error slot holding the most recent failure description, encoder option
//! flags, and single- versus multi-member decoding.

pub mod codec;
pub mod options;
pub mod state;

pub use codec::gzip_compress;
pub use codec::gzip_compress_string;
pub use codec::gzip_decompress;
pub use codec::gzip_decompress_string;
pub use codec::DecodeError;
pub use options::CompressionOptions;
pub use state::LocalState;
