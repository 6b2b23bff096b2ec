mod folder;
mod tuple;

pub use self::tuple::{AsyncTuple2, ReduceA2, ReduceA2Async, ReduceA2Factory, ReduceC2, ReduceC2Async};

use vstd::prelude::*;

use super::par_pipe::{DistributedPipe, ParallelPipe};
use crate::poll::Poll;

verus! {

/// A fold over a stream of `Item`s that ends in one `Output`.
pub trait Reducer {
    type Item;
    type Output;
    type Async: ReducerAsync<Item = Self::Item, Output = Self::Output>;

    /// The asynchronous form that `into_async` gives.
    spec fn async_form(self) -> Self::Async;

    fn into_async(self) -> (r: Self::Async)
        ensures
            r == self.async_form(),
    ;
}

/// The asynchronous form of a reducer.
pub trait ReducerAsync {
    type Item;
    type Output;
}

/// What a reducer answers when it is asked to take items from a stream and
/// the stream has been polled once: it is done with this round whatever the
/// stream gave.
pub fn reducer_poll_forward<T>(polled: Poll<Option<T>>) -> (r: Poll<()>)
    ensures
        r == Poll::Ready(()),
{
    Poll::Ready(())
}

impl ReducerAsync for () {
    type Item = ();
    type Output = ();
}

/// A reducer whose output can be sent to another thread.
pub trait ReducerSend: Reducer<Output = <Self as ReducerSend>::Output> {
    type Output: Send + 'static;
}

/// A reducer whose output can be sent to another process.
pub trait ReducerProcessSend: ReducerSend<Output = <Self as ReducerProcessSend>::Output> {
    type Output: Send + 'static;
}

/// Makes a fresh value each time it is asked.
pub trait Factory {
    type Item;

    /// The value that `make` gives.
    spec fn made(&self) -> Self::Item;

    fn make(&self) -> (r: Self::Item)
        ensures
            r == self.made(),
    ;
}

/// A sink that runs across processes: a pipe, then reducers per thread, per
/// process, and over all processes.
pub trait DistributedSink<Source> {
    type Output;
    type Pipe: DistributedPipe<Source>;
    type ReduceAFactory: Factory<Item = Self::ReduceA> + Send;
    type ReduceBFactory: Factory<Item = Self::ReduceB>;
    type ReduceA: ReducerSend<Item = <Self::Pipe as DistributedPipe<Source>>::Item> + Send;
    type ReduceB: ReducerProcessSend<Item = <Self::ReduceA as Reducer>::Output> + Send;
    type ReduceC: Reducer<Item = <Self::ReduceB as Reducer>::Output, Output = Self::Output>;

    fn reducers(self) -> (Self::Pipe, Self::ReduceAFactory, Self::ReduceBFactory, Self::ReduceC);
}

/// A sink that runs on the threads of one process: a pipe, reducers per
/// thread, and a reducer over the threads.
pub trait ParallelSink<Source> {
    type Output;
    type Pipe: ParallelPipe<Source>;
    type ReduceAFactory: Factory<Item = Self::ReduceA>;
    type ReduceA: ReducerSend<Item = <Self::Pipe as ParallelPipe<Source>>::Item> + Send;
    type ReduceC: Reducer<Item = <Self::ReduceA as Reducer>::Output, Output = Self::Output>;

    /// The pipe and reducers that `reducers` gives.
    spec fn reducers_of(self) -> (Self::Pipe, Self::ReduceAFactory, Self::ReduceC);

    fn reducers(self) -> (r: (Self::Pipe, Self::ReduceAFactory, Self::ReduceC))
        ensures
            r == self.reducers_of(),
    ;
}

impl<T> ParallelSink<T> for () {
    type Output = ();
    type Pipe = ();
    type ReduceAFactory = ();
    type ReduceA = ();
    type ReduceC = ();

    open spec fn reducers_of(self) -> (Self::Pipe, Self::ReduceAFactory, Self::ReduceC) {
        ((), (), ())
    }

    fn reducers(self) -> (Self::Pipe, Self::ReduceAFactory, Self::ReduceC) {
        ((), (), ())
    }
}

} // verus!
