use vstd::prelude::*;

use std::marker::PhantomData;

use crate::amadeus_core;
use crate::amadeus_core::par_stream::{ParallelStream, StreamTask, StreamTaskAsync};

pub mod aws;

pub use crate::amadeus_aws::Cloudfront;
use crate::amadeus_aws::LinesToRows;
use vstd::std_specs::iter::IteratorSpec;

verus! {

/// A source of data that can be read as a parallel or a distributed stream
/// of this crate's rows.
pub trait Source {
    type Item;
    type Error;

    type ParStream;
    type DistStream;

    fn par_stream(self) -> Self::ParStream;

    fn dist_stream(self) -> Self::DistStream;
}

impl Source for Cloudfront {
    type Item = crate::CloudfrontRow;
    type Error = ();

    type ParStream = IntoStream<<Self as amadeus_core::Source>::ParStream, Self::Item>;
    type DistStream = IntoStream<<Self as amadeus_core::Source>::DistStream, Self::Item>;

    fn par_stream(self) -> (r: Self::ParStream)
        ensures
            r.inner().0.mapper() == LinesToRows,
            r.inner().0.stream().iter().remaining() == Seq::<()>::empty(),
    {
        IntoStream::new(amadeus_core::Source::par_stream(self))
    }

    fn dist_stream(self) -> (r: Self::DistStream)
        ensures
            r.inner().mapper() == LinesToRows,
            r.inner().stream().iter().remaining() == Seq::<()>::empty(),
    {
        IntoStream::new(amadeus_core::Source::dist_stream(self))
    }
}

/// A stream of `Result<T, ()>` read as a stream of `Result<U, ()>`, each `T`
/// turned into a `U`.
pub struct IntoStream<I, U>(I, PhantomData<Ghost<U>>);

impl<I, U> IntoStream<I, U> {
    pub fn new(inner: I) -> (r: Self)
        ensures
            r.inner() == inner,
    {
        IntoStream(inner, PhantomData)
    }

    /// The stream that is read.
    pub closed spec fn inner(self) -> I {
        self.0
    }
}

impl<I, T, U> ParallelStream for IntoStream<I, U> where
    I: ParallelStream<Item = Result<T, ()>>,
    T: Into<U>,
    U: 'static,
 {
    type Item = Result<U, ()>;
    type Task = IntoTask<I::Task, U>;
}

/// The task of an `IntoStream`.
pub struct IntoTask<I, U> {
    task: I,
    marker: PhantomData<Ghost<U>>,
}

impl<I, U> IntoTask<I, U> {
    pub fn new(task: I) -> (r: Self)
        ensures
            r.task() == task,
    {
        IntoTask { task, marker: PhantomData }
    }

    /// The task of the stream that is read.
    pub closed spec fn task(self) -> I {
        self.task
    }
}

impl<I, T, U> StreamTask for IntoTask<I, U> where I: StreamTask<Item = Result<T, ()>>, T: Into<U> {
    type Item = Result<U, ()>;
    type Async = IntoTask<I::Async, U>;

    closed spec fn async_form(self) -> Self::Async {
        IntoTask { task: self.task.async_form(), marker: PhantomData }
    }

    fn into_async(self) -> (r: Self::Async)
        ensures
            r.task() == self.task().async_form(),
    {
        IntoTask { task: self.task.into_async(), marker: PhantomData }
    }
}

impl<I, T, U> StreamTaskAsync for IntoTask<I, U> where
    I: StreamTaskAsync<Item = Result<T, ()>>,
    T: Into<U>,
 {
    type Item = Result<U, ()>;
}

} // verus!
