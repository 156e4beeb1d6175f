//! The codec: gzip framing and DEFLATE coding through `libflate`.
//!
//! The compression algorithm is an external, already-correct library; what
//! its calls return is named by uninterpreted spec functions, and the trusted
//! wrappers below state of those names only what `libflate`'s source shows:
//! that encoding is a function of the input bytes and the option flags, that
//! decoding the encoder's output recovers the input (alone, before trailing
//! bytes, and inside a multi-member stream), how the two failure points of a
//! decoder are classified, and how the encoder's output is framed.

use vstd::prelude::*;
use vstd::utf8::decode_utf8;
use vstd::utf8::valid_utf8;

use crate::options::CompressionOptions;

verus! {

/// The bytes the encoder produces for the given input under the given option
/// flags. The encoder is deterministic: the wrappers pin the one varying
/// header field (the modification time) to zero, so the output is a function
/// of the arguments alone.
pub uninterp spec fn gzip_of(data: Seq<u8>, no_compression: bool, fixed_huffman: bool) -> Seq<u8>;

/// The decoded payload, if the bytes decode without error: of the first
/// member alone when `multi` is false, of every concatenated member when
/// `multi` is true. `None` when decoding fails at either failure point.
pub uninterp spec fn gunzip_of(data: Seq<u8>, multi: bool) -> Option<Seq<u8>>;

/// Whether the leading bytes of the stream parse as a gzip member header.
/// When decoding fails, this decides whether the failure is classified as a
/// header failure or as a body failure.
pub uninterp spec fn gzip_header_ok(data: Seq<u8>) -> bool;

/// The text that lossy UTF-8 decoding yields for the given bytes.
pub uninterp spec fn lossy_utf8_of(data: Seq<u8>) -> Seq<char>;

/// A recoverable decoding failure, classified by its failure point.
#[derive(Clone, Copy, Debug, PartialEq, Eq, Structural)]
pub enum DecodeError {
    /// The leading bytes are not a valid gzip member header.
    InvalidHeader,
    /// The member body is corrupt: checksum, trailer, or truncation mismatch,
    /// or a malformed member after the first in a multi-member stream.
    InvalidBody,
}

impl DecodeError {
    /// The descriptive message recorded in the error slot for this failure.
    pub open spec fn text(self) -> Seq<char> {
        match self {
            DecodeError::InvalidHeader => "invalid header"@,
            DecodeError::InvalidBody => "invalid body"@,
        }
    }

    /// The descriptive message as a string slice.
    pub fn message(&self) -> (r: &'static str)
        ensures
            r@ == self.text(),
    {
        match self {
            DecodeError::InvalidHeader => "invalid header",
            DecodeError::InvalidBody => "invalid body",
        }
    }
}

/// Every failure description is non-empty.
pub proof fn lemma_error_text_nonempty(e: DecodeError)
    ensures
        e.text().len() > 0,
{
    reveal_strlit("invalid header");
    reveal_strlit("invalid body");
}

/// What the encoder's output satisfies, stated over the uninterpreted names:
/// the output is `gzip_of` the input and the flags; it is framed as a gzip
/// member (at least the 10 header and 8 trailer bytes, beginning with the two
/// magic bytes, parsing as a valid header); with stored blocks it is at least
/// the input plus the framing; decoding it recovers the input, in either
/// mode, with trailing bytes ignored in single-member mode and with members
/// concatenated in multi-member mode; and cutting its last byte truncates the
/// trailer, which fails decoding in the body while the header still parses.
pub open spec fn encoded(data: Seq<u8>, no_compression: bool, fixed_huffman: bool, out: Seq<
    u8,
>) -> bool {
    &&& out == gzip_of(data, no_compression, fixed_huffman)
    &&& out.len() >= 18
    &&& out[0] == 0x1f
    &&& out[1] == 0x8b
    &&& no_compression ==> out.len() >= data.len() + 18
    &&& gzip_header_ok(out)
    &&& gunzip_of(out, false) == Some(data)
    &&& gunzip_of(out, true) == Some(data)
    &&& forall|tail: Seq<u8>| #[trigger] gunzip_of(out + tail, false) == Some(data)
    &&& forall|tail: Seq<u8>|
        gunzip_of(tail, true) is Some ==> #[trigger] gunzip_of(out + tail, true) == Some(
            data + gunzip_of(tail, true)->Some_0,
        )
    &&& gunzip_of(out.take(out.len() - 1), false) is None
    &&& gunzip_of(out.take(out.len() - 1), true) is None
    &&& gzip_header_ok(out.take(out.len() - 1))
}

/// Relies on `libflate::gzip::Encoder` in its default adaptive mode: writing
/// all input bytes and finishing yields the gzip encoding of the input. The
/// header's modification-time field is pinned to zero, so the output depends
/// on the input alone. Writing into a `Vec` cannot fail.
#[verifier::external_body]
fn encode_default(data: &[u8]) -> (r: Vec<u8>)
    ensures
        r@ == gzip_of(data@, false, false),
        encoded(data@, false, false, r@),
{
    let header = libflate::gzip::HeaderBuilder::new().modification_time(0).finish();
    let options = libflate::gzip::EncodeOptions::new().header(header);
    let mut encoder = libflate::gzip::Encoder::with_options(Vec::new(), options).unwrap();
    std::io::Write::write_all(&mut encoder, data).unwrap();
    encoder.finish().into_result().unwrap()
}

/// Relies on `libflate::gzip::Encoder` with `EncodeOptions::no_compression`:
/// the input is emitted verbatim in stored blocks, framed as a gzip member.
/// The modification time is pinned to zero as in `encode_default`.
#[verifier::external_body]
fn encode_stored(data: &[u8]) -> (r: Vec<u8>)
    ensures
        r@ == gzip_of(data@, true, false),
        encoded(data@, true, false, r@),
{
    let header = libflate::gzip::HeaderBuilder::new().modification_time(0).finish();
    let options = libflate::gzip::EncodeOptions::new().header(header).no_compression();
    let mut encoder = libflate::gzip::Encoder::with_options(Vec::new(), options).unwrap();
    std::io::Write::write_all(&mut encoder, data).unwrap();
    encoder.finish().into_result().unwrap()
}

/// Relies on `libflate::gzip::Encoder` with
/// `EncodeOptions::fixed_huffman_codes`: compression with fixed Huffman
/// codes. The modification time is pinned to zero as in `encode_default`.
#[verifier::external_body]
fn encode_fixed(data: &[u8]) -> (r: Vec<u8>)
    ensures
        r@ == gzip_of(data@, false, true),
        encoded(data@, false, true, r@),
{
    let header = libflate::gzip::HeaderBuilder::new().modification_time(0).finish();
    let options = libflate::gzip::EncodeOptions::new().header(header).fixed_huffman_codes();
    let mut encoder = libflate::gzip::Encoder::with_options(Vec::new(), options).unwrap();
    std::io::Write::write_all(&mut encoder, data).unwrap();
    encoder.finish().into_result().unwrap()
}

/// Relies on `libflate::gzip::Encoder` with both option setters applied, as
/// when both flags are set: stored blocks take precedence over fixed Huffman
/// codes in `libflate`, so the output is framed like the stored mode's. The
/// modification time is pinned to zero as in `encode_default`.
#[verifier::external_body]
fn encode_stored_fixed(data: &[u8]) -> (r: Vec<u8>)
    ensures
        r@ == gzip_of(data@, true, true),
        encoded(data@, true, true, r@),
{
    let header = libflate::gzip::HeaderBuilder::new().modification_time(0).finish();
    let options = libflate::gzip::EncodeOptions::new()
        .header(header)
        .no_compression()
        .fixed_huffman_codes();
    let mut encoder = libflate::gzip::Encoder::with_options(Vec::new(), options).unwrap();
    std::io::Write::write_all(&mut encoder, data).unwrap();
    encoder.finish().into_result().unwrap()
}

/// Whether a decoding call failed at the header failure point.
pub open spec fn header_failed(r: Result<Vec<u8>, DecodeError>) -> bool {
    r == Err::<Vec<u8>, DecodeError>(DecodeError::InvalidHeader)
}

/// What a decoding call returns, stated over the uninterpreted names: the
/// payload exactly when `gunzip_of` has one, and otherwise the failure point,
/// a header failure exactly when the leading bytes do not parse as a gzip
/// member header.
pub open spec fn decoded(data: Seq<u8>, multi: bool, r: Result<Vec<u8>, DecodeError>) -> bool {
    match r {
        Ok(v) => gzip_header_ok(data) && gunzip_of(data, multi) == Some(v@),
        Err(DecodeError::InvalidHeader) => !gzip_header_ok(data) && gunzip_of(data, multi)
            is None,
        Err(DecodeError::InvalidBody) => gzip_header_ok(data) && gunzip_of(data, multi) is None,
    }
}

/// Relies on `libflate::gzip::Decoder`: it parses one gzip member header
/// (failing on fewer than 10 leading bytes or a wrong magic pair), decodes
/// one member, verifies its trailer, and ignores whatever follows. A
/// `Decoder::new` failure is the header failure point; a read failure is the
/// body failure point.
#[verifier::external_body]
fn decode_single(data: &[u8]) -> (r: Result<Vec<u8>, DecodeError>)
    ensures
        r is Ok <==> gunzip_of(data@, false) is Some,
        header_failed(r) <==> !gzip_header_ok(data@),
        decoded(data@, false, r),
        header_failed(r) <== data@.len() < 10 || data@[0] != 0x1f || data@[1] != 0x8b,
{
    let mut decoder = match libflate::gzip::Decoder::new(data) {
        Ok(d) => d,
        Err(_) => {
            return Err(DecodeError::InvalidHeader);
        },
    };
    let mut out = Vec::new();
    match std::io::Read::read_to_end(&mut decoder, &mut out) {
        Ok(_) => Ok(out),
        Err(_) => Err(DecodeError::InvalidBody),
    }
}

/// Relies on `libflate::gzip::MultiDecoder`: it parses the first member
/// header exactly as `Decoder` does, decodes every concatenated member in
/// stream order, and fails in the body if any member after the first is
/// malformed. A `MultiDecoder::new` failure is the header failure point; a
/// read failure is the body failure point.
#[verifier::external_body]
fn decode_multi(data: &[u8]) -> (r: Result<Vec<u8>, DecodeError>)
    ensures
        r is Ok <==> gunzip_of(data@, true) is Some,
        header_failed(r) <==> !gzip_header_ok(data@),
        decoded(data@, true, r),
        header_failed(r) <== data@.len() < 10 || data@[0] != 0x1f || data@[1] != 0x8b,
{
    let mut decoder = match libflate::gzip::MultiDecoder::new(data) {
        Ok(d) => d,
        Err(_) => {
            return Err(DecodeError::InvalidHeader);
        },
    };
    let mut out = Vec::new();
    match std::io::Read::read_to_end(&mut decoder, &mut out) {
        Ok(_) => Ok(out),
        Err(_) => Err(DecodeError::InvalidBody),
    }
}

/// Encodes a byte slice under the given option flags. Compression is total:
/// every input is accepted.
pub fn compress(data: &[u8], options: CompressionOptions) -> (r: Vec<u8>)
    ensures
        encoded(data@, options.no_compression, options.fixed_huffman_codes, r@),
{
    if options.no_compression {
        if options.fixed_huffman_codes {
            encode_stored_fixed(data)
        } else {
            encode_stored(data)
        }
    } else {
        if options.fixed_huffman_codes {
            encode_fixed(data)
        } else {
            encode_default(data)
        }
    }
}

/// Decodes a byte slice: the first member alone when `multi` is false, every
/// concatenated member when `multi` is true. Succeeds exactly when the bytes
/// decode without error, and classifies a failure by its failure point.
pub fn decompress(data: &[u8], multi: bool) -> (r: Result<Vec<u8>, DecodeError>)
    ensures
        decoded(data@, multi, r),
        (data@.len() < 10 || data@[0] != 0x1f || data@[1] != 0x8b) ==> (r matches Err(e) && e is InvalidHeader),
{
    if multi {
        decode_multi(data)
    } else {
        decode_single(data)
    }
}

/// Compresses binary data using gzip in the default adaptive mode. Always
/// succeeds: the only failure mode of compression is resource exhaustion,
/// which is not modeled as a value.
pub fn gzip_compress(data: &[u8]) -> (r: Option<Vec<u8>>)
    ensures
        r matches Some(v) && encoded(data@, false, false, v@),
{
    Some(encode_default(data))
}

/// Decompresses one gzip member and returns the binary result, or `None`
/// exactly when the bytes do not decode.
pub fn gzip_decompress(data: &[u8]) -> (r: Option<Vec<u8>>)
    ensures
        match r {
            Some(v) => gunzip_of(data@, false) == Some(v@),
            None => gunzip_of(data@, false) is None,
        },
{
    match decode_single(data) {
        Ok(v) => Some(v),
        Err(_) => None,
    }
}

/// Relies on `String::from_utf8_lossy`: the result depends on the bytes
/// alone, valid UTF-8 is decoded unchanged, and invalid sequences are
/// replaced rather than rejected, so the conversion is total.
#[verifier::external_body]
fn utf8_lossy(data: &[u8]) -> (r: String)
    ensures
        r@ == lossy_utf8_of(data@),
        valid_utf8(data@) ==> r@ == decode_utf8(data@),
{
    String::from_utf8_lossy(data).into_owned()
}

/// Compresses the UTF-8 encoding of a string in the default adaptive mode.
/// Always succeeds, like `gzip_compress`.
pub fn gzip_compress_string(s: &str) -> (r: Option<Vec<u8>>)
    ensures
        r matches Some(v) && encoded(vstd::utf8::encode_utf8(s@), false, false, v@),
{
    let bytes = s.as_bytes();
    Some(encode_default(bytes))
}

/// Decompresses one gzip member and decodes the payload as UTF-8 text,
/// lossily: invalid sequences are substituted rather than rejected, so the
/// call fails exactly when the bytes do not decode as gzip. A payload that is
/// the UTF-8 encoding of a text is reproduced exactly.
pub fn gzip_decompress_string(data: &[u8]) -> (r: Option<String>)
    ensures
        match r {
            Some(t) => {
                &&& gunzip_of(data@, false) matches Some(p)
                &&& t@ == lossy_utf8_of(p)
                &&& valid_utf8(p) ==> t@ == decode_utf8(p)
            },
            None => gunzip_of(data@, false) is None,
        },
        forall|s: Seq<char>|
            gunzip_of(data@, false) == Some(#[trigger] vstd::utf8::encode_utf8(s)) ==> (r matches
            Some(t) && t@ == s),
{
    match decode_single(data) {
        Ok(payload) => {
            let text = utf8_lossy(payload.as_slice());
            proof {
                assert forall|s: Seq<char>|
                    gunzip_of(data@, false) == Some(
                        #[trigger] vstd::utf8::encode_utf8(s),
                    ) implies text@ == s by {
                    vstd::utf8::encode_utf8_valid_utf8(s);
                    vstd::utf8::encode_utf8_decode_utf8(s);
                }
            }
            Some(text)
        },
        Err(_) => None,
    }
}

/// The encoder is deterministic: compressing equal inputs under equal
/// option flags yields byte-identical output.
pub proof fn lemma_compress_deterministic(
    b1: Seq<u8>,
    b2: Seq<u8>,
    no_compression: bool,
    fixed_huffman: bool,
)
    requires
        b1 == b2,
    ensures
        gzip_of(b1, no_compression, fixed_huffman) == gzip_of(b2, no_compression, fixed_huffman),
{
}

} // verus!
