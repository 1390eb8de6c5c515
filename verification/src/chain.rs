//! Chains of formats, outermost layer first.

use crate::format::Format;
use vstd::prelude::*;
use vstd::slice::slice_subrange;

verus! {

/// A chain can be processed when it has at least one layer and every layer
/// but the last is a filter: a container can only be the innermost layer.
pub open spec fn well_formed(layers: Seq<Format>) -> bool {
    &&& layers.len() > 0
    &&& forall|i: int| 0 <= i < layers.len() - 1 ==> (#[trigger] layers[i]).spec_is_filter()
}

/// The innermost layer, which decides what is done with the decoded bytes.
pub open spec fn terminal_of(layers: Seq<Format>) -> Format
    recommends
        layers.len() > 0,
{
    layers.last()
}

/// The layers that wrap the innermost one, outermost first.
pub open spec fn filters_of(layers: Seq<Format>) -> Seq<Format>
    recommends
        layers.len() > 0,
{
    layers.drop_last()
}

/// Why a list of formats is no chain.
#[derive(Clone, Copy, Debug, PartialEq, Eq, Structural)]
pub enum ChainError {
    /// The list has no layer.
    Empty,
    /// The layer at `index` is a container and is not the last one.
    MisplacedContainer { index: usize },
}

/// Whether `index` is the first place of `layers` at which a container
/// stands before the last layer.
pub open spec fn first_misplaced(layers: Seq<Format>, index: int) -> bool {
    &&& 0 <= index < layers.len() - 1
    &&& layers[index].spec_is_container()
    &&& forall|j: int| 0 <= j < index ==> (#[trigger] layers[j]).spec_is_filter()
}

/// A container stands nowhere in a chain but at its last place: a list
/// with a container before its last layer is no chain, and in a chain
/// every container is the last layer.
pub proof fn lemma_container_only_last(layers: Seq<Format>, index: int)
    requires
        0 <= index < layers.len(),
        layers[index].spec_is_container(),
    ensures
        well_formed(layers) ==> index == layers.len() - 1,
        index < layers.len() - 1 ==> !well_formed(layers),
{
}

/// A non-empty list of formats, outermost layer first, in which only the
/// last layer may be a container.
#[derive(Debug)]
pub struct FormatChain {
    layers: Vec<Format>,
}

impl View for FormatChain {
    type V = Seq<Format>;

    closed spec fn view(&self) -> Seq<Format> {
        self.layers@
    }
}

impl FormatChain {
    #[verifier::type_invariant]
    spec fn valid(&self) -> bool {
        well_formed(self.layers@)
    }

    /// Checks `layers` and keeps them as a chain. An empty list and a list
    /// with a container before its last layer are refused; the error names
    /// the first such container.
    pub fn new(layers: Vec<Format>) -> (made: Result<FormatChain, ChainError>)
        ensures
            made is Ok <==> well_formed(layers@),
            match made {
                Ok(chain) => chain@ == layers@,
                Err(ChainError::Empty) => layers@.len() == 0,
                Err(ChainError::MisplacedContainer { index }) => first_misplaced(
                    layers@,
                    index as int,
                ),
            },
    {
        let count: usize = layers.len();
        if count == 0 {
            return Err(ChainError::Empty);
        }
        let mut index: usize = 0;
        while index < count - 1
            invariant
                count == layers@.len(),
                count > 0,
                index <= count - 1,
                forall|j: int| 0 <= j < index ==> (#[trigger] layers@[j]).spec_is_filter(),
            decreases count - index,
        {
            if layers[index].is_container() {
                return Err(ChainError::MisplacedContainer { index });
            }
            index = index + 1;
        }
        Ok(FormatChain { layers })
    }

    /// The layers, outermost first.
    pub fn layers(&self) -> (layers: &[Format])
        ensures
            layers@ == self@,
            well_formed(self@),
    {
        proof {
            use_type_invariant(self);
        }
        self.layers.as_slice()
    }

    /// The number of layers, which is never zero.
    pub fn len(&self) -> (count: usize)
        ensures
            count == self@.len(),
            count > 0,
    {
        proof {
            use_type_invariant(self);
        }
        self.layers.len()
    }

    /// The innermost layer.
    pub fn terminal(&self) -> (last: Format)
        ensures
            last == terminal_of(self@),
    {
        proof {
            use_type_invariant(self);
        }
        self.layers[self.layers.len() - 1]
    }

    /// The layers around the innermost one, outermost first. All of them
    /// are filters.
    pub fn filters(&self) -> (outer: &[Format])
        ensures
            outer@ == filters_of(self@),
            forall|i: int| 0 <= i < outer@.len() ==> (#[trigger] outer@[i]).spec_is_filter(),
    {
        proof {
            use_type_invariant(self);
        }
        slice_subrange(self.layers.as_slice(), 0, self.layers.len() - 1)
    }
}

} // verus!
