//! The per-context owned state behind the boundary: one scratch buffer and
//! one error slot.
//!
//! The scratch buffer holds the most recent operation's result bytes and is
//! reused across calls; the error slot holds the most recent failure
//! description and is only meaningful immediately after a call reported a
//! failure. Exclusive access is by construction: every operation takes the
//! state by mutable reference, so no aliasing or locking is involved.

use vstd::prelude::*;
use vstd::string::StrSliceExecFns;

use crate::codec;
use crate::codec::DecodeError;
use crate::options::CompressionOptions;

verus! {

/// One execution context's scratch buffer and error slot.
pub struct LocalState {
    buffer: Vec<u8>,
    error_message: String,
}

impl LocalState {
    /// The bytes the scratch buffer holds.
    pub closed spec fn scratch(self) -> Seq<u8> {
        self.buffer@
    }

    /// The text the error slot holds: the most recent failure description.
    pub closed spec fn last_error(self) -> Seq<char> {
        self.error_message@
    }

    /// A fresh context: empty scratch buffer, empty error slot.
    pub fn new() -> (s: LocalState)
        ensures
            s.scratch() == Seq::<u8>::empty(),
            s.last_error() == Seq::<char>::empty(),
    {
        LocalState { buffer: Vec::new(), error_message: String::new() }
    }

    /// The scratch buffer, holding the most recent operation's result bytes.
    /// Its contents are only meaningful until the next mutating call.
    pub fn buffer(&self) -> (r: &Vec<u8>)
        ensures
            r@ == self.scratch(),
    {
        &self.buffer
    }

    /// The error slot's text. It describes the most recent failure, not the
    /// most recent call: it is only meaningful immediately after a call
    /// reported a failure.
    pub fn error_message(&self) -> (r: &str)
        ensures
            r@ == self.last_error(),
    {
        self.error_message.as_str()
    }

    /// The length of the error slot's text. Every text the slot ever holds
    /// is ASCII, so this is its byte length as well.
    pub fn error_message_len(&self) -> (r: usize)
        ensures
            r == self.last_error().len(),
    {
        self.error_message.as_str().unicode_len()
    }

    /// Releases the scratch buffer's backing storage and clears the error
    /// slot.
    pub fn deallocate_buffer(&mut self)
        ensures
            final(self).scratch() == Seq::<u8>::empty(),
            final(self).last_error() == Seq::<char>::empty(),
    {
        self.buffer = Vec::new();
        self.error_message = String::new();
    }

    /// Compresses the given bytes into the scratch buffer, replacing its
    /// previous contents entirely, and returns the buffer's length. The
    /// result depends on the input and the options alone, never on what the
    /// buffer held before. Compression is total; the error slot is untouched.
    pub fn gzip_compress(&mut self, data: &[u8], options: CompressionOptions) -> (n: usize)
        ensures
            codec::encoded(
                data@,
                options.no_compression,
                options.fixed_huffman_codes,
                final(self).scratch(),
            ),
            n == final(self).scratch().len(),
            final(self).last_error() == old(self).last_error(),
    {
        let out = codec::compress(data, options);
        let n = out.len();
        self.buffer = out;
        n
    }

    /// Decompresses the given bytes into the scratch buffer, replacing its
    /// previous contents entirely, and returns the buffer's length. On
    /// failure the scratch buffer is left cleared, the failure's description
    /// is recorded in the error slot, and the failure is returned; on success
    /// the error slot is untouched, so it keeps describing the last failure.
    pub fn gzip_decompress(&mut self, data: &[u8], multi: bool) -> (r: Result<usize, DecodeError>)
        ensures
            match r {
                Ok(n) => {
                    &&& codec::gzip_header_ok(data@)
                    &&& codec::gunzip_of(data@, multi) == Some(final(self).scratch())
                    &&& n == final(self).scratch().len()
                    &&& final(self).last_error() == old(self).last_error()
                },
                Err(e) => {
                    &&& codec::gunzip_of(data@, multi) is None
                    &&& (e == DecodeError::InvalidHeader <==> !codec::gzip_header_ok(data@))
                    &&& final(self).scratch() == Seq::<u8>::empty()
                    &&& final(self).last_error() == e.text()
                    &&& final(self).last_error().len() > 0
                },
            },
            (data@.len() < 10 || data@[0] != 0x1f || data@[1] != 0x8b) ==> (r matches Err(e) && e is InvalidHeader),
    {
        match codec::decompress(data, multi) {
            Ok(v) => {
                let n = v.len();
                self.buffer = v;
                Ok(n)
            },
            Err(e) => {
                self.buffer = Vec::new();
                self.error_message = e.message().to_owned();
                proof {
                    codec::lemma_error_text_nonempty(e);
                }
                Err(e)
            },
        }
    }
}

} // verus!
