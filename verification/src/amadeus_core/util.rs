use vstd::prelude::*;

use super::par_stream::{DistributedStream, ParallelStream};
use crate::poll::Poll;

verus! {

/// A `Result` to be read item by item: the items of the `Ok` value, each
/// wrapped in `Ok`.
pub struct ResultExpand<T, E>(pub Result<T, E>);

/// The items of an `Ok` value, each wrapped in `Ok`.
pub enum ResultExpandIter<T> {
    OkItems(T),
}

impl<T> ResultExpandIter<T> {
    /// The values whose items are read.
    pub open spec fn source(self) -> T {
        match self {
            ResultExpandIter::OkItems(t) => t,
        }
    }

    /// The value whose items are read, to be polled.
    pub fn inner_mut(&mut self) -> (r: &mut T)
        ensures
            *r == old(self).source(),
            final(self).source() == *final(r),
    {
        match self {
            ResultExpandIter::OkItems(t) => t,
        }
    }

    /// What the stream answers once the value inside has been polled: it
    /// has ended, whatever the value gave.
    pub fn poll_next<X>(&mut self, polled: Poll<Option<X>>) -> (r: Poll<Option<Result<X, ()>>>)
        ensures
            r == Poll::Ready(None::<Result<X, ()>>),
            *final(self) == *old(self),
    {
        Poll::Ready(None)
    }
}

/// A distributed stream read as a parallel one.
pub struct DistParStream<S>(pub S);

impl<S> ParallelStream for DistParStream<S> where S: DistributedStream {
    type Item = S::Item;
    type Task = S::Task;
}

} // verus!
