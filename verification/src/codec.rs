//! The filter decoders, each read from a buffer that holds the whole
//! encoded stream.
//!
//! The decoders themselves belong to other crates. What this module says of
//! them is believed, not proved: each one computes a result that depends on
//! the encoded bytes alone, and that result is given a name here.

use std::io::Read;
use vstd::prelude::*;

verus! {

/// The bytes that a decoder gave, or nothing where it refused its input.
pub open spec fn bytes_of(output: Option<Vec<u8>>) -> Option<Seq<u8>> {
    match output {
        Some(bytes) => Some(bytes@),
        None => None,
    }
}

/// What `flate2::read::GzDecoder` yields when `input` is read through it to
/// the end: the content of the first gzip member, or nothing where the
/// decoder reports an error.
pub uninterp spec fn gzip_decoded(input: Seq<u8>) -> Option<Seq<u8>>;

/// What `bzip2::read::BzDecoder` yields when `input` is read through it to
/// the end, or nothing where the decoder reports an error.
pub uninterp spec fn bzip_decoded(input: Seq<u8>) -> Option<Seq<u8>>;

/// What `lz4_flex::frame::FrameDecoder` yields when `input` is read through
/// it to the end, or nothing where the decoder reports an error.
pub uninterp spec fn lz4_decoded(input: Seq<u8>) -> Option<Seq<u8>>;

/// What `xz2::read::XzDecoder` yields when `input` is read through it to the
/// end, or nothing where the decoder reports an error.
pub uninterp spec fn lzma_decoded(input: Seq<u8>) -> Option<Seq<u8>>;

/// What `snap::read::FrameDecoder` yields when `input` is read through it to
/// the end, or nothing where the decoder reports an error.
pub uninterp spec fn snappy_decoded(input: Seq<u8>) -> Option<Seq<u8>>;

/// What `zstd::stream::read::Decoder` yields when `input` is read through it
/// to the end, or nothing where the decoder cannot be made or reports an
/// error.
pub uninterp spec fn zstd_decoded(input: Seq<u8>) -> Option<Seq<u8>>;

/// Reads `input` to the end through `flate2::read::GzDecoder::new`. Believed:
/// the outcome is `gzip_decoded` of the input, the same for the same bytes.
#[verifier::external_body]
pub(crate) fn gzip_decode(input: &[u8]) -> (output: Option<Vec<u8>>)
    ensures
        bytes_of(output) == gzip_decoded(input@),
{
    let mut bytes = Vec::new();
    match flate2::read::GzDecoder::new(input).read_to_end(&mut bytes) {
        Ok(_) => Some(bytes),
        Err(_) => None,
    }
}

/// Reads `input` to the end through `bzip2::read::BzDecoder::new`. Believed:
/// the outcome is `bzip_decoded` of the input, the same for the same bytes.
#[verifier::external_body]
pub(crate) fn bzip_decode(input: &[u8]) -> (output: Option<Vec<u8>>)
    ensures
        bytes_of(output) == bzip_decoded(input@),
{
    let mut bytes = Vec::new();
    match bzip2::read::BzDecoder::new(input).read_to_end(&mut bytes) {
        Ok(_) => Some(bytes),
        Err(_) => None,
    }
}

/// Reads `input` to the end through `lz4_flex::frame::FrameDecoder::new`.
/// Believed: the outcome is `lz4_decoded` of the input, the same for the
/// same bytes.
#[verifier::external_body]
pub(crate) fn lz4_decode(input: &[u8]) -> (output: Option<Vec<u8>>)
    ensures
        bytes_of(output) == lz4_decoded(input@),
{
    let mut bytes = Vec::new();
    match lz4_flex::frame::FrameDecoder::new(input).read_to_end(&mut bytes) {
        Ok(_) => Some(bytes),
        Err(_) => None,
    }
}

/// Reads `input` to the end through `xz2::read::XzDecoder::new`. Believed:
/// the outcome is `lzma_decoded` of the input, the same for the same bytes.
#[verifier::external_body]
pub(crate) fn lzma_decode(input: &[u8]) -> (output: Option<Vec<u8>>)
    ensures
        bytes_of(output) == lzma_decoded(input@),
{
    let mut bytes = Vec::new();
    match xz2::read::XzDecoder::new(input).read_to_end(&mut bytes) {
        Ok(_) => Some(bytes),
        Err(_) => None,
    }
}

/// Reads `input` to the end through `snap::read::FrameDecoder::new`.
/// Believed: the outcome is `snappy_decoded` of the input, the same for the
/// same bytes.
#[verifier::external_body]
pub(crate) fn snappy_decode(input: &[u8]) -> (output: Option<Vec<u8>>)
    ensures
        bytes_of(output) == snappy_decoded(input@),
{
    let mut bytes = Vec::new();
    match snap::read::FrameDecoder::new(input).read_to_end(&mut bytes) {
        Ok(_) => Some(bytes),
        Err(_) => None,
    }
}

/// Makes a decoder with `zstd::stream::read::Decoder::new` and reads `input`
/// to the end through it. Believed: the outcome is `zstd_decoded` of the
/// input, the same for the same bytes.
#[verifier::external_body]
pub(crate) fn zstd_decode(input: &[u8]) -> (output: Option<Vec<u8>>)
    ensures
        bytes_of(output) == zstd_decoded(input@),
{
    let mut bytes = Vec::new();
    match zstd::stream::read::Decoder::new(input) {
        Ok(mut decoder) => match decoder.read_to_end(&mut bytes) {
            Ok(_) => Some(bytes),
            Err(_) => None,
        },
        Err(_) => None,
    }
}

} // verus!
