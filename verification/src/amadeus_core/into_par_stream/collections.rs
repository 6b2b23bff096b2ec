use vstd::prelude::*;

use std::vec;

use vstd::std_specs::iter::IteratorSpec;
use vstd::std_specs::vec::spec_into_iter;

use super::{IntoDistributedStream, IntoParallelStream, IterDistStream, IterParStream};

verus! {

impl<T> IntoParallelStream for Vec<T> {
    type ParStream = IterParStream<vec::IntoIter<T>>;
    type Item = T;

    open spec fn par_form(self) -> Self::ParStream {
        IterParStream::of_iter(spec_into_iter(self))
    }

    fn into_par_stream(self) -> (r: Self::ParStream)
        ensures
            r.iter().remaining() == self@,
    {
        broadcast use vstd::std_specs::vec::axiom_spec_into_iter;

        IterParStream::new(self.into_iter())
    }
}

impl<T> IntoDistributedStream for Vec<T> {
    type DistStream = IterDistStream<vec::IntoIter<T>>;
    type Item = T;

    open spec fn dist_form(self) -> Self::DistStream {
        IterDistStream::of_iter(spec_into_iter(self))
    }

    fn into_dist_stream(self) -> (r: Self::DistStream)
        ensures
            r.iter().remaining() == self@,
    {
        broadcast use vstd::std_specs::vec::axiom_spec_into_iter;

        IterDistStream::new(self.into_iter())
    }
}

/// A vector read as a parallel stream and read as a distributed stream gives
/// the same items in the same order: its own.
pub proof fn vec_streams_agree<T>(v: Vec<T>)
    ensures
        v.par_form().iter().remaining() == v@,
        v.dist_form().iter().remaining() == v@,
        v.par_form().iter().remaining() == v.dist_form().iter().remaining(),
{
    broadcast use vstd::std_specs::vec::axiom_spec_into_iter;

    IterParStream::lemma_of_iter(spec_into_iter(v));
    IterDistStream::lemma_of_iter(spec_into_iter(v));
}

} // verus!
