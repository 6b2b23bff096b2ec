#![allow(non_snake_case)]

use vstd::prelude::*;

use sum::Sum2;

use super::{Factory, ParallelSink, Reducer, ReducerAsync, ReducerSend};
use crate::amadeus_core::par_pipe::{ParallelPipe, PipeTask, PipeTaskAsync};

verus! {

/// `sum::Sum2`: a value of one of two types. It is carried through as the
/// item type of pipes and reducers that run two branches side by side.
#[verifier::external_type_specification]
#[verifier::external_body]
#[verifier::reject_recursive_types(A)]
#[verifier::reject_recursive_types(B)]
pub struct ExSum2<A, B>(Sum2<A, B>);

impl<Source, R0: ParallelSink<Source, Output = ()>, R1: ParallelSink<Source, Output = ()>> ParallelSink<
    Source,
> for (R0, R1) where Source: Copy {
    type Output = ((), ());
    type Pipe = ((), ());
    type ReduceAFactory = ReduceA2Factory<(), ()>;
    type ReduceA = ReduceA2;
    type ReduceC = ReduceC2;

    closed spec fn reducers_of(self) -> (Self::Pipe, Self::ReduceAFactory, Self::ReduceC) {
        (((), ()), ReduceA2Factory((), ()), ReduceC2)
    }

    fn reducers(self) -> (r: (Self::Pipe, Self::ReduceAFactory, Self::ReduceC))
        ensures
            r.0 == ((), ()),
            r.2 == ReduceC2,
    {
        (((), ()), ReduceA2Factory((), ()), ReduceC2)
    }
}

impl<Source, I0: ParallelPipe<Source>, I1: ParallelPipe<Source>> ParallelPipe<Source> for (
    I0,
    I1,
) where Source: Copy {
    type Item = Sum2<I0::Item, I1::Item>;
    type Task = (I0::Task, I1::Task);

    open spec fn task_of(&self) -> Self::Task {
        (self.0.task_of(), self.1.task_of())
    }

    fn task(&self) -> (r: Self::Task) {
        (self.0.task(), self.1.task())
    }
}

impl<Source, C0: PipeTask<Source>, C1: PipeTask<Source>> PipeTask<Source> for (C0, C1) where
    Source: Copy,
 {
    type Item = Sum2<C0::Item, C1::Item>;
    type Async = AsyncTuple2<Source, C0::Async, C1::Async>;

    closed spec fn async_form(self) -> Self::Async {
        AsyncTuple2 { Copy: self.0.async_form(), B: self.1.async_form(), pending: None }
    }

    fn into_async(self) -> (r: Self::Async)
        ensures
            r.first() == self.0.async_form(),
            r.second() == self.1.async_form(),
            r.pending() == None::<Option<Source>>,
    {
        AsyncTuple2 { Copy: self.0.into_async(), B: self.1.into_async(), pending: None }
    }
}

/// Two pipe tasks run side by side on one stream of `Source` items, with the
/// item that the second has still to see.
pub struct AsyncTuple2<Source, C0, C1> {
    Copy: C0,
    B: C1,
    pending: Option<Option<Source>>,
}

impl<Source, C0, C1> AsyncTuple2<Source, C0, C1> {
    /// The first task.
    pub closed spec fn first(self) -> C0 {
        self.Copy
    }

    /// The second task.
    pub closed spec fn second(self) -> C1 {
        self.B
    }

    /// The item held back for the second task, if any.
    pub closed spec fn pending(self) -> Option<Option<Source>> {
        self.pending
    }
}

impl<Source, C0: PipeTaskAsync<Source>, C1: PipeTaskAsync<Source>> PipeTaskAsync<Source> for AsyncTuple2<
    Source,
    C0,
    C1,
> {
    type Item = Sum2<C0::Item, C1::Item>;
}

/// Makes the per-thread reducer of two sinks run side by side.
pub struct ReduceA2Factory<R0, R1>(pub(crate) R0, pub(crate) R1);

impl<R0: Factory, R1: Factory> Factory for ReduceA2Factory<R0, R1> {
    type Item = ReduceA2;

    open spec fn made(&self) -> Self::Item {
        ReduceA2
    }

    fn make(&self) -> (r: Self::Item) {
        ReduceA2
    }
}

/// The per-thread reducer of two sinks run side by side.
pub struct ReduceA2;

impl Reducer for ReduceA2 {
    type Item = Sum2<(), ()>;
    type Output = ((), ());
    type Async = ReduceA2Async;

    open spec fn async_form(self) -> Self::Async {
        ReduceA2Async
    }

    fn into_async(self) -> (r: Self::Async) {
        ReduceA2Async
    }
}

/// The asynchronous form of `ReduceA2`.
pub struct ReduceA2Async;

impl ReducerAsync for ReduceA2Async {
    type Item = Sum2<(), ()>;
    type Output = ((), ());
}

impl ReducerSend for ReduceA2 {
    type Output = ((), ());
}

/// The reducer that joins the outputs of two sinks run side by side.
pub struct ReduceC2;

impl ReduceC2 {
    pub fn new() -> (r: Self)
        ensures
            r == ReduceC2,
    {
        ReduceC2
    }
}

impl Reducer for ReduceC2 {
    type Item = ((), ());
    type Output = ((), ());
    type Async = ReduceC2Async;

    open spec fn async_form(self) -> Self::Async {
        ReduceC2Async
    }

    fn into_async(self) -> (r: Self::Async) {
        ReduceC2Async
    }
}

/// The asynchronous form of `ReduceC2`.
pub struct ReduceC2Async;

impl ReducerAsync for ReduceC2Async {
    type Item = ((), ());
    type Output = ((), ());
}

} // verus!
