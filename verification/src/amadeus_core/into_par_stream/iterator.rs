use vstd::prelude::*;

use crate::amadeus_core::par_stream::{
    DistributedStream, ParallelStream, StreamTask, StreamTaskAsync,
};

verus! {

/// A parallel stream made of an iterator.
pub struct IterParStream<I>(pub(crate) I);

impl<I> IterParStream<I> {
    pub(crate) fn new(iter: I) -> (r: Self)
        ensures
            r == Self::of_iter(iter),
            r.iter() == iter,
    {
        IterParStream(iter)
    }

    /// The stream that reads the items of `iter`.
    pub closed spec fn of_iter(iter: I) -> Self {
        IterParStream(iter)
    }

    /// The iterator whose items the stream reads.
    pub closed spec fn iter(self) -> I {
        self.0
    }

    /// The stream made of an iterator reads that iterator.
    pub proof fn lemma_of_iter(iter: I)
        ensures
            Self::of_iter(iter).iter() == iter,
    {
    }
}

impl<I: Iterator> ParallelStream for IterParStream<I> {
    type Item = ();
    type Task = IterStreamTask;
}

/// A distributed stream made of an iterator.
pub struct IterDistStream<I>(pub(crate) I);

impl<I> IterDistStream<I> {
    pub(crate) fn new(iter: I) -> (r: Self)
        ensures
            r == Self::of_iter(iter),
            r.iter() == iter,
    {
        IterDistStream(iter)
    }

    /// The stream that reads the items of `iter`.
    pub closed spec fn of_iter(iter: I) -> Self {
        IterDistStream(iter)
    }

    /// The iterator whose items the stream reads.
    pub closed spec fn iter(self) -> I {
        self.0
    }

    /// The stream made of an iterator reads that iterator.
    pub proof fn lemma_of_iter(iter: I)
        ensures
            Self::of_iter(iter).iter() == iter,
    {
    }
}

impl<I: Iterator> DistributedStream for IterDistStream<I> {
    type Item = ();
    type Task = IterStreamTask;
}

/// The task of a stream made of an iterator.
pub struct IterStreamTask;

impl StreamTask for IterStreamTask {
    type Item = ();
    type Async = IterStreamTask;

    open spec fn async_form(self) -> Self::Async {
        IterStreamTask
    }

    fn into_async(self) -> (r: Self::Async) {
        IterStreamTask
    }
}

impl StreamTaskAsync for IterStreamTask {
    type Item = ();
}

} // verus!
