mod flat_map;

pub use self::flat_map::{FlatMap, FlatMapStreamTaskAsync, FlatMapTask};

use vstd::prelude::*;

verus! {

/// A unit of stream work that can be turned into its asynchronous form.
pub trait StreamTask {
    type Item;
    type Async: StreamTaskAsync<Item = Self::Item>;

    /// The asynchronous form that `into_async` gives.
    spec fn async_form(self) -> Self::Async;

    fn into_async(self) -> (r: Self::Async)
        ensures
            r == self.async_form(),
    ;
}

/// The asynchronous form of a stream task: it hands `Item`s to a sink.
pub trait StreamTaskAsync {
    type Item;
}

impl StreamTask for () {
    type Item = ();
    type Async = ();

    open spec fn async_form(self) -> Self::Async {
        ()
    }

    fn into_async(self) -> Self::Async {
    }
}

impl StreamTaskAsync for () {
    type Item = ();
}

/// A stream whose work runs across processes.
pub trait DistributedStream {
    type Item;
    type Task: StreamTask<Item = Self::Item> + Send;

    /// The stream of the items of the streams that `f` makes of each item.
    fn flat_map<B, F>(self, f: F) -> (r: FlatMap<Self, F>) where
        F: FnMut(Self::Item) -> B + Clone + Send + 'static,
        Self: Sized,

        ensures
            r.stream() == self,
            r.mapper() == f,
    {
        FlatMap::new(self, f)
    }
}

/// A stream whose work runs on the threads of one process.
pub trait ParallelStream {
    type Item;
    type Task: StreamTask<Item = Self::Item> + Send;
}

} // verus!
