use unpacker::chain::{ChainError, FormatChain};
use unpacker::format::{Format, Kind};
use unpacker::route::{decoders, route, Route};

const ALL: [Format; 9] = [
    Format::Gzip,
    Format::Bzip,
    Format::Lz4,
    Format::Lzma,
    Format::Snappy,
    Format::Zstd,
    Format::Tar,
    Format::Zip,
    Format::SevenZip,
];

#[test]
fn kinds_of_all_formats() {
    assert_eq!(Format::Gzip.kind(), Kind::Filter);
    assert_eq!(Format::Bzip.kind(), Kind::Filter);
    assert_eq!(Format::Lz4.kind(), Kind::Filter);
    assert_eq!(Format::Lzma.kind(), Kind::Filter);
    assert_eq!(Format::Snappy.kind(), Kind::Filter);
    assert_eq!(Format::Zstd.kind(), Kind::Filter);
    assert_eq!(Format::Tar.kind(), Kind::StreamingContainer);
    assert_eq!(Format::Zip.kind(), Kind::SeekableContainer);
    assert_eq!(Format::SevenZip.kind(), Kind::SelfContainedContainer);
}

#[test]
fn filter_and_container_are_opposites() {
    for format in ALL {
        assert_ne!(format.is_filter(), format.is_container());
    }
    assert!(Format::Zstd.is_filter());
    assert!(Format::Tar.is_container());
}

#[test]
fn only_zip_requires_random_access() {
    for format in ALL {
        assert_eq!(format.requires_random_access(), format == Format::Zip);
    }
}

#[test]
fn empty_chain_is_refused() {
    assert_eq!(FormatChain::new(vec![]).unwrap_err(), ChainError::Empty);
}

#[test]
fn container_before_the_end_is_refused() {
    let made = FormatChain::new(vec![Format::Tar, Format::Gzip]);
    assert_eq!(made.unwrap_err(), ChainError::MisplacedContainer { index: 0 });
}

#[test]
fn first_misplaced_container_is_named() {
    let made = FormatChain::new(vec![Format::Gzip, Format::Zip, Format::SevenZip, Format::Tar]);
    assert_eq!(made.unwrap_err(), ChainError::MisplacedContainer { index: 1 });
}

#[test]
fn two_containers_are_refused() {
    let made = FormatChain::new(vec![Format::Tar, Format::Tar]);
    assert_eq!(made.unwrap_err(), ChainError::MisplacedContainer { index: 0 });
}

#[test]
fn every_single_layer_is_a_chain() {
    for format in ALL {
        let chain = FormatChain::new(vec![format]).unwrap();
        assert_eq!(chain.len(), 1);
        assert_eq!(chain.terminal(), format);
        assert!(chain.filters().is_empty());
        assert_eq!(chain.layers(), &[format][..]);
    }
}

#[test]
fn container_at_any_place_but_the_last_is_refused() {
    let containers = [Format::Tar, Format::Zip, Format::SevenZip];
    for container in containers {
        for place in 0..3 {
            let mut layers = vec![Format::Gzip, Format::Bzip, Format::Lz4, Format::Tar];
            layers[place] = container;
            let made = FormatChain::new(layers);
            assert_eq!(made.unwrap_err(), ChainError::MisplacedContainer { index: place });
        }
        let layers = vec![Format::Gzip, Format::Bzip, Format::Lz4, container];
        assert!(FormatChain::new(layers).is_ok());
    }
}

#[test]
fn terminal_and_filters_of_tar_gz() {
    let chain = FormatChain::new(vec![Format::Gzip, Format::Tar]).unwrap();
    assert_eq!(chain.len(), 2);
    assert_eq!(chain.terminal(), Format::Tar);
    assert_eq!(chain.filters(), &[Format::Gzip][..]);
    assert_eq!(chain.layers(), &[Format::Gzip, Format::Tar][..]);
}

#[test]
fn filters_keep_their_order() {
    let chain =
        FormatChain::new(vec![Format::Zstd, Format::Lzma, Format::Snappy, Format::Zip]).unwrap();
    assert_eq!(chain.filters(), &[Format::Zstd, Format::Lzma, Format::Snappy][..]);
}

#[test]
fn route_of_a_lone_filter() {
    let chain = FormatChain::new(vec![Format::Gzip]).unwrap();
    assert_eq!(route(&chain), Route::CopyToFile);
    assert_eq!(decoders(&chain), &[Format::Gzip][..]);
}

#[test]
fn route_of_filters_only_decodes_all_layers() {
    let chain = FormatChain::new(vec![Format::Gzip, Format::Bzip]).unwrap();
    assert_eq!(route(&chain), Route::CopyToFile);
    assert_eq!(decoders(&chain), &[Format::Gzip, Format::Bzip][..]);
}

#[test]
fn route_of_tar_with_and_without_filters() {
    let plain = FormatChain::new(vec![Format::Tar]).unwrap();
    assert_eq!(route(&plain), Route::StreamExtract);
    assert!(decoders(&plain).is_empty());
    let wrapped = FormatChain::new(vec![Format::Lzma, Format::Tar]).unwrap();
    assert_eq!(route(&wrapped), Route::StreamExtract);
    assert_eq!(decoders(&wrapped), &[Format::Lzma][..]);
}

#[test]
fn lone_zip_is_read_from_the_file() {
    let chain = FormatChain::new(vec![Format::Zip]).unwrap();
    assert_eq!(route(&chain), Route::SeekDirect);
    assert!(!route(&chain).loads_into_memory());
    assert!(decoders(&chain).is_empty());
}

#[test]
fn wrapped_zip_is_read_from_memory() {
    let chain = FormatChain::new(vec![Format::Gzip, Format::Zstd, Format::Zip]).unwrap();
    assert_eq!(route(&chain), Route::SeekBuffered);
    assert!(route(&chain).loads_into_memory());
    assert_eq!(decoders(&chain), &[Format::Gzip, Format::Zstd][..]);
}

#[test]
fn seven_zip_is_opened_by_path_without_decoders() {
    let lone = FormatChain::new(vec![Format::SevenZip]).unwrap();
    assert_eq!(route(&lone), Route::FromPath);
    assert!(decoders(&lone).is_empty());
    let wrapped = FormatChain::new(vec![Format::Gzip, Format::SevenZip]).unwrap();
    assert_eq!(route(&wrapped), Route::FromPath);
    assert!(decoders(&wrapped).is_empty());
}

#[test]
fn only_the_buffered_route_loads_into_memory() {
    let routes = [
        Route::CopyToFile,
        Route::StreamExtract,
        Route::SeekDirect,
        Route::SeekBuffered,
        Route::FromPath,
    ];
    for way in routes {
        assert_eq!(way.loads_into_memory(), way == Route::SeekBuffered);
        assert_eq!(way.uses_temporary_directory(), way != Route::CopyToFile);
    }
}
