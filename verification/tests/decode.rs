use std::io::Write;
use unpacker::composer::{decode_filter, decode_filters, CodecError};
use unpacker::format::Format;

const PAYLOAD: &[u8] = b"a payload that is long enough to be worth packing, packing, packing";

fn gzip(plain: &[u8]) -> Vec<u8> {
    let mut encoder = flate2::write::GzEncoder::new(Vec::new(), flate2::Compression::default());
    encoder.write_all(plain).unwrap();
    encoder.finish().unwrap()
}

fn bzip(plain: &[u8]) -> Vec<u8> {
    let mut encoder = bzip2::write::BzEncoder::new(Vec::new(), bzip2::Compression::default());
    encoder.write_all(plain).unwrap();
    encoder.finish().unwrap()
}

fn lz4(plain: &[u8]) -> Vec<u8> {
    let mut encoder = lz4_flex::frame::FrameEncoder::new(Vec::new());
    encoder.write_all(plain).unwrap();
    encoder.finish().unwrap()
}

fn lzma(plain: &[u8]) -> Vec<u8> {
    let mut encoder = xz2::write::XzEncoder::new(Vec::new(), 6);
    encoder.write_all(plain).unwrap();
    encoder.finish().unwrap()
}

fn snappy(plain: &[u8]) -> Vec<u8> {
    let mut encoder = snap::write::FrameEncoder::new(Vec::new());
    encoder.write_all(plain).unwrap();
    encoder.into_inner().unwrap()
}

fn zstd_packed(plain: &[u8]) -> Vec<u8> {
    zstd::stream::encode_all(plain, 3).unwrap()
}

fn encode(format: Format, plain: &[u8]) -> Vec<u8> {
    match format {
        Format::Gzip => gzip(plain),
        Format::Bzip => bzip(plain),
        Format::Lz4 => lz4(plain),
        Format::Lzma => lzma(plain),
        Format::Snappy => snappy(plain),
        Format::Zstd => zstd_packed(plain),
        _ => panic!("no encoder for a container"),
    }
}

/// Wraps `plain` in `filters`, which are given outermost first: the last
/// filter is applied first.
fn wrap(filters: &[Format], plain: &[u8]) -> Vec<u8> {
    let mut bytes = plain.to_vec();
    for format in filters.iter().rev() {
        bytes = encode(*format, &bytes);
    }
    bytes
}

const FILTERS: [Format; 6] =
    [Format::Gzip, Format::Bzip, Format::Lz4, Format::Lzma, Format::Snappy, Format::Zstd];

#[test]
fn gzip_is_decoded() {
    let packed = gzip(PAYLOAD);
    assert_ne!(packed, PAYLOAD);
    assert_eq!(decode_filter(Format::Gzip, &packed).unwrap(), PAYLOAD);
}

#[test]
fn bzip_is_decoded() {
    let packed = bzip(PAYLOAD);
    assert_ne!(packed, PAYLOAD);
    assert_eq!(decode_filter(Format::Bzip, &packed).unwrap(), PAYLOAD);
}

#[test]
fn lz4_is_decoded() {
    let packed = lz4(PAYLOAD);
    assert_ne!(packed, PAYLOAD);
    assert_eq!(decode_filter(Format::Lz4, &packed).unwrap(), PAYLOAD);
}

#[test]
fn lzma_is_decoded() {
    let packed = lzma(PAYLOAD);
    assert_ne!(packed, PAYLOAD);
    assert_eq!(decode_filter(Format::Lzma, &packed).unwrap(), PAYLOAD);
}

#[test]
fn snappy_is_decoded() {
    let packed = snappy(PAYLOAD);
    assert_ne!(packed, PAYLOAD);
    assert_eq!(decode_filter(Format::Snappy, &packed).unwrap(), PAYLOAD);
}

#[test]
fn zstd_is_decoded() {
    let packed = zstd_packed(PAYLOAD);
    assert_ne!(packed, PAYLOAD);
    assert_eq!(decode_filter(Format::Zstd, &packed).unwrap(), PAYLOAD);
}

#[test]
fn empty_payload_round_trips_through_each_filter() {
    for format in FILTERS {
        let packed = encode(format, b"");
        assert_eq!(decode_filter(format, &packed).unwrap(), b"");
    }
}

#[test]
fn garbage_is_refused_with_the_format_named() {
    let garbage = b"this is no compressed stream of any kind at all";
    for format in FILTERS {
        assert_eq!(decode_filter(format, garbage).unwrap_err(), CodecError { format });
    }
}

#[test]
fn truncated_gzip_is_refused() {
    let packed = gzip(PAYLOAD);
    let cut = &packed[..packed.len() / 2];
    assert_eq!(
        decode_filter(Format::Gzip, cut).unwrap_err(),
        CodecError { format: Format::Gzip }
    );
}

#[test]
fn no_filters_leave_the_bytes_as_they_are() {
    assert_eq!(decode_filters(&[], PAYLOAD.to_vec()).unwrap(), PAYLOAD);
}

#[test]
fn one_layer_chain_is_decoded() {
    let stored = wrap(&[Format::Gzip], PAYLOAD);
    assert_eq!(decode_filters(&[Format::Gzip], stored).unwrap(), PAYLOAD);
}

#[test]
fn outermost_filter_is_undone_first() {
    // The payload was packed with bzip2 and the result with gzip: gzip is
    // the outermost layer and comes first in the chain.
    let stored = gzip(&bzip(PAYLOAD));
    let filters = [Format::Gzip, Format::Bzip];
    assert_eq!(decode_filters(&filters, stored).unwrap(), PAYLOAD);
}

#[test]
fn wrong_order_fails_at_the_first_decoder() {
    let stored = gzip(&bzip(PAYLOAD));
    let filters = [Format::Bzip, Format::Gzip];
    assert_eq!(
        decode_filters(&filters, stored).unwrap_err(),
        CodecError { format: Format::Bzip }
    );
}

#[test]
fn failure_inside_names_the_inner_layer() {
    // What gzip holds is no lz4 frame.
    let stored = gzip(PAYLOAD);
    let filters = [Format::Gzip, Format::Lz4];
    assert_eq!(
        decode_filters(&filters, stored).unwrap_err(),
        CodecError { format: Format::Lz4 }
    );
}

#[test]
fn all_six_filters_round_trip_in_order() {
    let stored = wrap(&FILTERS, PAYLOAD);
    assert_eq!(decode_filters(&FILTERS, stored).unwrap(), PAYLOAD);
}

#[test]
fn all_six_filters_round_trip_in_reverse_order() {
    let mut filters = FILTERS;
    filters.reverse();
    let stored = wrap(&filters, PAYLOAD);
    assert_eq!(decode_filters(&filters, stored).unwrap(), PAYLOAD);
}

#[test]
fn every_pair_of_filters_round_trips() {
    for outer in FILTERS {
        for inner in FILTERS {
            let filters = [outer, inner];
            let stored = wrap(&filters, PAYLOAD);
            assert_eq!(decode_filters(&filters, stored).unwrap(), PAYLOAD);
        }
    }
}

#[test]
fn repeated_filter_round_trips() {
    let filters = [Format::Zstd, Format::Zstd, Format::Zstd];
    let stored = wrap(&filters, PAYLOAD);
    assert_eq!(decode_filters(&filters, stored).unwrap(), PAYLOAD);
}

#[test]
fn binary_payload_round_trips() {
    let payload: Vec<u8> = (0..5000u32).map(|i| (i * 31 % 251) as u8).collect();
    let filters = [Format::Snappy, Format::Lzma, Format::Gzip];
    let stored = wrap(&filters, &payload);
    assert_eq!(decode_filters(&filters, stored).unwrap(), payload);
}

#[test]
fn decoding_in_two_runs_is_decoding_the_whole_chain() {
    let filters = [Format::Gzip, Format::Lz4, Format::Bzip];
    let stored = wrap(&filters, PAYLOAD);
    let middle = decode_filters(&filters[..1], stored.clone()).unwrap();
    let split = decode_filters(&filters[1..], middle).unwrap();
    assert_eq!(split, decode_filters(&filters, stored).unwrap());
}
