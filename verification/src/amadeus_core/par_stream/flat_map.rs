use vstd::prelude::*;

use super::StreamTask;
use crate::amadeus_core::sink::SinkFlatMap;

verus! {

/// A stream `I` paired with a function `F` meant to make a stream of each of
/// its items. It holds the two and gives them back; it is not itself a
/// parallel or distributed stream here, since the item type of the streams
/// that `F` makes is not named in this library.
pub struct FlatMap<I, F> {
    _i: I,
    _f: F,
}

impl<I, F> FlatMap<I, F> {
    pub fn new(_i: I, _f: F) -> (r: Self)
        ensures
            r.stream() == _i,
            r.mapper() == _f,
    {
        FlatMap { _i, _f }
    }

    /// The stream whose items are mapped.
    pub closed spec fn stream(self) -> I {
        self._i
    }

    /// The function that makes a stream of each item.
    pub closed spec fn mapper(self) -> F {
        self._f
    }
}

/// The task of a `FlatMap`: the task of the inner stream, and the function.
pub struct FlatMapTask<C, F> {
    _task: C,
    _f: F,
}

impl<C, F> FlatMapTask<C, F> {
    pub fn new(_task: C, _f: F) -> (r: Self)
        ensures
            r.task() == _task,
            r.mapper() == _f,
    {
        FlatMapTask { _task, _f }
    }

    /// The task of the stream whose items are mapped.
    pub closed spec fn task(self) -> C {
        self._task
    }

    /// The function that makes a stream of each item.
    pub closed spec fn mapper(self) -> F {
        self._f
    }

    /// Turns the task into a running one, which holds no stream of an item yet.
    pub fn into_async<R>(self) -> (r: FlatMapStreamTaskAsync<C::Async, F, R>) where
        C: StreamTask,
        F: FnMut(C::Item) -> R,

        ensures
            r.task() == self.task().async_form(),
            r.current() == None::<R>,
            r.mapper() == self.mapper(),
    {
        FlatMapStreamTaskAsync { task: self._task.into_async(), f: self._f, fut: None }
    }
}

/// The asynchronous form of a `FlatMapTask`: the asynchronous inner task,
/// the function, and the stream made of the last item, while it lasts.
pub struct FlatMapStreamTaskAsync<C, F, Fut> {
    task: C,
    f: F,
    fut: Option<Fut>,
}

impl<C, F, Fut> FlatMapStreamTaskAsync<C, F, Fut> {
    /// The running task of the stream whose items are mapped.
    pub closed spec fn task(self) -> C {
        self.task
    }

    /// The stream made of the last item, while it lasts.
    pub closed spec fn current(self) -> Option<Fut> {
        self.fut
    }

    /// The function that makes a stream of each item.
    pub closed spec fn mapper(self) -> F {
        self.f
    }

    /// Lends the stream of the last item and the function to a `SinkFlatMap`
    /// that hands the items on to `sink`; the inner task is given back
    /// beside it.
    pub fn lend<I, R, Item>(self, sink: I) -> (r: (C, SinkFlatMap<F, I, Fut, R, Item>))
        ensures
            r.0 == self.task(),
            r.1.inner() == self.current(),
            r.1.sink() == sink,
            r.1.mapper() == self.mapper(),
    {
        let FlatMapStreamTaskAsync { task, f, fut } = self;
        (task, SinkFlatMap::new(fut, sink, f))
    }

    /// Takes back what `lend` lent: the task holds the stream of the last
    /// item that the sink holds now, and the function; the sink that the
    /// items went to is given back beside it.
    pub fn reclaim<I, R, Item>(task: C, lent: SinkFlatMap<F, I, Fut, R, Item>) -> (r: (Self, I))
        ensures
            r.0.task() == task,
            r.0.current() == lent.inner(),
            r.0.mapper() == lent.mapper(),
            r.1 == lent.sink(),
    {
        let (fut, sink, f) = lent.into_parts();
        (FlatMapStreamTaskAsync { task, f, fut }, sink)
    }
}

} // verus!
