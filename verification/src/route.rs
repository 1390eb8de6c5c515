//! Which way a chain is unpacked, as its innermost layer decides.

use crate::chain::{filters_of, terminal_of, well_formed, FormatChain};
use crate::format::{Format, Kind};
use vstd::prelude::*;
use vstd::slice::slice_subrange;

verus! {

/// The way in which the content of a file comes out of it.
#[derive(Clone, Copy, Debug, PartialEq, Eq, Structural)]
pub enum Route {
    /// The innermost layer is a filter: all layers are decoded and the
    /// bytes become one file.
    CopyToFile,
    /// The innermost layer is a container read front to back, from the
    /// decoded stream.
    StreamExtract,
    /// The only layer is a container that seeks: it is read from the file
    /// itself.
    SeekDirect,
    /// A container that seeks lies behind filters: the decoded bytes are
    /// held in memory to be read from there.
    SeekBuffered,
    /// The innermost layer is a container that is opened by the path of
    /// the file; no decoder is placed before it.
    FromPath,
}

/// The route of a chain.
pub open spec fn route_of(layers: Seq<Format>) -> Route
    recommends
        well_formed(layers),
{
    match terminal_of(layers).spec_kind() {
        Kind::Filter => Route::CopyToFile,
        Kind::StreamingContainer => Route::StreamExtract,
        Kind::SeekableContainer => if layers.len() == 1 {
            Route::SeekDirect
        } else {
            Route::SeekBuffered
        },
        Kind::SelfContainedContainer => Route::FromPath,
    }
}

/// The layers that are decoded on the route of a chain, outermost first:
/// all of them where the bytes become one file, those before the container
/// where it reads decoded bytes, none where it reads the file itself.
pub open spec fn decoders_of(layers: Seq<Format>) -> Seq<Format>
    recommends
        well_formed(layers),
{
    match route_of(layers) {
        Route::CopyToFile => layers,
        Route::StreamExtract | Route::SeekBuffered => filters_of(layers),
        Route::SeekDirect | Route::FromPath => Seq::empty(),
    }
}

impl Route {
    pub open spec fn spec_loads_into_memory(self) -> bool {
        self == Route::SeekBuffered
    }

    pub open spec fn spec_uses_temporary_directory(self) -> bool {
        self != Route::CopyToFile
    }

    /// Whether the whole decoded content is held in memory on this route,
    /// which the user is asked to accept before anything is done.
    #[verifier::when_used_as_spec(spec_loads_into_memory)]
    pub fn loads_into_memory(self) -> (yes: bool)
        ensures
            yes == self.spec_loads_into_memory(),
    {
        self == Route::SeekBuffered
    }

    /// Whether entries are unpacked into a temporary directory first.
    #[verifier::when_used_as_spec(spec_uses_temporary_directory)]
    pub fn uses_temporary_directory(self) -> (yes: bool)
        ensures
            yes == self.spec_uses_temporary_directory(),
    {
        self != Route::CopyToFile
    }
}

/// The route of `chain`.
pub fn route(chain: &FormatChain) -> (way: Route)
    ensures
        way == route_of(chain@),
{
    match chain.terminal().kind() {
        Kind::Filter => Route::CopyToFile,
        Kind::StreamingContainer => Route::StreamExtract,
        Kind::SeekableContainer => if chain.len() == 1 {
            Route::SeekDirect
        } else {
            Route::SeekBuffered
        },
        Kind::SelfContainedContainer => Route::FromPath,
    }
}

/// The layers to decode on the route of `chain`, outermost first. All of
/// them are filters.
pub fn decoders(chain: &FormatChain) -> (layers: &[Format])
    ensures
        layers@ == decoders_of(chain@),
        forall|i: int| 0 <= i < layers@.len() ==> (#[trigger] layers@[i]).spec_is_filter(),
{
    match route(chain) {
        Route::CopyToFile => chain.layers(),
        Route::StreamExtract | Route::SeekBuffered => chain.filters(),
        Route::SeekDirect | Route::FromPath => slice_subrange(chain.layers(), 0, 0),
    }
}

/// A container that seeks and stands alone is read from the file itself,
/// and nothing is loaded into memory for it.
pub proof fn lemma_lone_seekable_is_direct(layers: Seq<Format>)
    requires
        layers.len() == 1,
        layers[0].spec_requires_random_access(),
    ensures
        well_formed(layers),
        route_of(layers) == Route::SeekDirect,
        !route_of(layers).spec_loads_into_memory(),
        decoders_of(layers) == Seq::<Format>::empty(),
{
}

/// A container that seeks and lies behind filters is read from memory.
pub proof fn lemma_wrapped_seekable_is_buffered(layers: Seq<Format>)
    requires
        well_formed(layers),
        layers.len() > 1,
        terminal_of(layers).spec_requires_random_access(),
    ensures
        route_of(layers) == Route::SeekBuffered,
        route_of(layers).spec_loads_into_memory(),
        decoders_of(layers) == filters_of(layers),
{
}

/// Only a container that seeks and lies behind filters is read from
/// memory.
pub proof fn lemma_memory_load_only_when_wrapped(layers: Seq<Format>)
    requires
        well_formed(layers),
    ensures
        route_of(layers).spec_loads_into_memory() <==> (layers.len() > 1 && terminal_of(
            layers,
        ).spec_requires_random_access()),
{
}

} // verus!
