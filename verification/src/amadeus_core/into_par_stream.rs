mod collections;
mod iterator;

pub use self::iterator::{IterDistStream, IterParStream, IterStreamTask};

use vstd::prelude::*;

verus! {

/// A value that can be turned into a parallel stream.
pub trait IntoParallelStream {
    type ParStream;
    type Item;

    /// The parallel stream that `into_par_stream` gives.
    spec fn par_form(self) -> Self::ParStream where Self: Sized;

    fn into_par_stream(self) -> (r: Self::ParStream) where Self: Sized
        ensures
            r == self.par_form(),
    ;
}

/// A value that can be turned into a distributed stream.
pub trait IntoDistributedStream {
    type DistStream;
    type Item;

    /// The distributed stream that `into_dist_stream` gives.
    spec fn dist_form(self) -> Self::DistStream where Self: Sized;

    fn into_dist_stream(self) -> (r: Self::DistStream) where Self: Sized
        ensures
            r == self.dist_form(),
    ;
}

} // verus!
