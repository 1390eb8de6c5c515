//! Undoing the filter layers of a chain, outermost first.

use crate::codec::{
    bzip_decode, bzip_decoded, bytes_of, gzip_decode, gzip_decoded, lz4_decode, lz4_decoded,
    lzma_decode, lzma_decoded, snappy_decode, snappy_decoded, zstd_decode, zstd_decoded,
};
use crate::format::Format;
use vstd::prelude::*;

verus! {

/// A filter's decoder refused its input.
#[derive(Clone, Copy, Debug, PartialEq, Eq, Structural)]
pub struct CodecError {
    /// The layer whose decoder failed.
    pub format: Format,
}

/// What the decoder of `format` makes of `input`. A container has no
/// decoder of this kind.
pub open spec fn filter_decoded(format: Format, input: Seq<u8>) -> Option<Seq<u8>> {
    match format {
        Format::Gzip => gzip_decoded(input),
        Format::Bzip => bzip_decoded(input),
        Format::Lz4 => lz4_decoded(input),
        Format::Lzma => lzma_decoded(input),
        Format::Snappy => snappy_decoded(input),
        Format::Zstd => zstd_decoded(input),
        Format::Tar | Format::Zip | Format::SevenZip => None,
    }
}

/// `input` with every layer of `filters` undone in turn, the first layer
/// first. The first decoder that refuses its input ends the decoding with
/// an error that names its layer.
pub open spec fn chain_decoded(filters: Seq<Format>, input: Seq<u8>) -> Result<Seq<u8>, CodecError>
    decreases filters.len(),
{
    if filters.len() == 0 {
        Ok(input)
    } else {
        match filter_decoded(filters[0], input) {
            Some(inner) => chain_decoded(filters.drop_first(), inner),
            None => Err(CodecError { format: filters[0] }),
        }
    }
}

/// Undoes one filter layer.
pub fn decode_filter(format: Format, input: &[u8]) -> (output: Result<Vec<u8>, CodecError>)
    requires
        format.spec_is_filter(),
    ensures
        match output {
            Ok(bytes) => filter_decoded(format, input@) == Some(bytes@),
            Err(error) => filter_decoded(format, input@).is_none() && error.format == format,
        },
{
    let decoded = match format {
        Format::Gzip => gzip_decode(input),
        Format::Bzip => bzip_decode(input),
        Format::Lz4 => lz4_decode(input),
        Format::Lzma => lzma_decode(input),
        Format::Snappy => snappy_decode(input),
        Format::Zstd => zstd_decode(input),
        Format::Tar | Format::Zip | Format::SevenZip => None,
    };
    match decoded {
        Some(bytes) => Ok(bytes),
        None => Err(CodecError { format }),
    }
}

/// Undoes the layers of `filters` on `input`, outermost first: the first
/// filter is the one closest to the bytes as they were stored, and each
/// later one reads what the one before it gave.
pub fn decode_filters(filters: &[Format], input: Vec<u8>) -> (output: Result<Vec<u8>, CodecError>)
    requires
        forall|i: int| 0 <= i < filters@.len() ==> (#[trigger] filters@[i]).spec_is_filter(),
    ensures
        match output {
            Ok(bytes) => chain_decoded(filters@, input@) == Ok::<Seq<u8>, CodecError>(bytes@),
            Err(error) => chain_decoded(filters@, input@) == Err::<Seq<u8>, CodecError>(error),
        },
{
    let mut current = input;
    let mut index: usize = 0;
    assert(filters@.skip(0) == filters@);
    while index < filters.len()
        invariant
            index <= filters@.len(),
            forall|i: int| 0 <= i < filters@.len() ==> (#[trigger] filters@[i]).spec_is_filter(),
            chain_decoded(filters@, input@) == chain_decoded(filters@.skip(index as int), current@),
        decreases filters@.len() - index,
    {
        let ghost rest = filters@.skip(index as int);
        assert(rest.len() > 0 && rest[0] == filters@[index as int]);
        assert(rest.drop_first() == filters@.skip(index as int + 1));
        match decode_filter(filters[index], current.as_slice()) {
            Ok(inner) => {
                current = inner;
            },
            Err(error) => {
                return Err(error);
            },
        }
        index = index + 1;
    }
    Ok(current)
}

/// `packed` is an encoding of `plain` under `format`: the filter's decoder
/// reads `packed` back as `plain`.
pub open spec fn encodes(format: Format, plain: Seq<u8>, packed: Seq<u8>) -> bool {
    filter_decoded(format, packed) == Some(plain)
}

/// `stages` are the bytes of a payload that was wrapped in `filters`: the
/// first stage is what is stored, the last is the payload, and each stage
/// is an encoding, under the layer of its place, of the stage after it.
pub open spec fn layered(filters: Seq<Format>, stages: Seq<Seq<u8>>) -> bool {
    &&& stages.len() == filters.len() + 1
    &&& forall|i: int|
        0 <= i < filters.len() ==> encodes(#[trigger] filters[i], stages[i + 1], stages[i])
}

/// Round trip: when a payload was encoded with the layers of `filters`, the
/// innermost layer first and the outermost last, decoding the stored bytes
/// with the same `filters` gives the payload back, whatever the filters and
/// however many.
pub proof fn lemma_round_trip(filters: Seq<Format>, stages: Seq<Seq<u8>>)
    requires
        layered(filters, stages),
    ensures
        chain_decoded(filters, stages[0]) == Ok::<Seq<u8>, CodecError>(stages.last()),
    decreases filters.len(),
{
    if filters.len() > 0 {
        let inner_filters = filters.drop_first();
        let inner_stages = stages.drop_first();
        assert(encodes(filters[0], stages[1], stages[0]));
        assert forall|i: int| 0 <= i < inner_filters.len() implies encodes(
            #[trigger] inner_filters[i],
            inner_stages[i + 1],
            inner_stages[i],
        ) by {
            assert(encodes(filters[i + 1], stages[i + 2], stages[i + 1]));
        }
        lemma_round_trip(inner_filters, inner_stages);
        assert(inner_stages[0] == stages[1]);
        assert(inner_stages.last() == stages.last());
    }
}

/// Decoding two runs of filters one after the other is decoding their
/// concatenation: the order of the layers is the order of the decoders.
pub proof fn lemma_decoding_composes(outer: Seq<Format>, inner: Seq<Format>, input: Seq<u8>)
    ensures
        chain_decoded(outer + inner, input) == match chain_decoded(outer, input) {
            Ok(middle) => chain_decoded(inner, middle),
            Err(error) => Err(error),
        },
    decreases outer.len(),
{
    if outer.len() == 0 {
        assert(outer + inner == inner);
    } else {
        assert((outer + inner)[0] == outer[0]);
        assert((outer + inner).drop_first() == outer.drop_first() + inner);
        match filter_decoded(outer[0], input) {
            Some(next) => {
                lemma_decoding_composes(outer.drop_first(), inner, next);
            },
            None => {},
        }
    }
}

} // verus!
