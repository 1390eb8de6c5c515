//! Formats and chains of formats.

use vstd::prelude::*;

verus! {

/// One layer of a nested file: a filter, which turns a byte stream into
/// another, or a container, which holds named entries.
#[derive(Clone, Copy, Debug, PartialEq, Eq, Structural)]
pub enum Format {
    Gzip,
    Bzip,
    Lz4,
    Lzma,
    Snappy,
    Zstd,
    Tar,
    Zip,
    SevenZip,
}

/// How a format is read.
#[derive(Clone, Copy, Debug, PartialEq, Eq, Structural)]
pub enum Kind {
    /// A reversible transform of a byte stream.
    Filter,
    /// A container that is read front to back.
    StreamingContainer,
    /// A container that needs random access to all of its bytes.
    SeekableContainer,
    /// A container whose reader opens the file by its path.
    SelfContainedContainer,
}

impl Format {
    pub open spec fn spec_kind(self) -> Kind {
        match self {
            Format::Tar => Kind::StreamingContainer,
            Format::Zip => Kind::SeekableContainer,
            Format::SevenZip => Kind::SelfContainedContainer,
            _ => Kind::Filter,
        }
    }

    pub open spec fn spec_is_filter(self) -> bool {
        self.spec_kind() == Kind::Filter
    }

    pub open spec fn spec_is_container(self) -> bool {
        !self.spec_is_filter()
    }

    pub open spec fn spec_requires_random_access(self) -> bool {
        self.spec_kind() == Kind::SeekableContainer
    }

    #[verifier::when_used_as_spec(spec_kind)]
    pub fn kind(self) -> (kind: Kind)
        ensures
            kind == self.spec_kind(),
    {
        match self {
            Format::Tar => Kind::StreamingContainer,
            Format::Zip => Kind::SeekableContainer,
            Format::SevenZip => Kind::SelfContainedContainer,
            Format::Gzip | Format::Bzip | Format::Lz4 | Format::Lzma | Format::Snappy
            | Format::Zstd => Kind::Filter,
        }
    }

    #[verifier::when_used_as_spec(spec_is_filter)]
    pub fn is_filter(self) -> (yes: bool)
        ensures
            yes == self.spec_is_filter(),
    {
        self.kind() == Kind::Filter
    }

    #[verifier::when_used_as_spec(spec_is_container)]
    pub fn is_container(self) -> (yes: bool)
        ensures
            yes == self.spec_is_container(),
    {
        !self.is_filter()
    }

    /// Whether the format can only be unpacked from a source that seeks.
    #[verifier::when_used_as_spec(spec_requires_random_access)]
    pub fn requires_random_access(self) -> (yes: bool)
        ensures
            yes == self.spec_requires_random_access(),
    {
        self.kind() == Kind::SeekableContainer
    }
}

} // verus!
