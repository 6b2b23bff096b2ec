use vstd::prelude::*;

verus! {

/// A source of data that can be read as a parallel or a distributed stream.
pub trait Source {
    type Item;
    type Error;

    type ParStream;
    type DistStream;

    fn par_stream(self) -> Self::ParStream;

    fn dist_stream(self) -> Self::DistStream;
}

} // verus!
