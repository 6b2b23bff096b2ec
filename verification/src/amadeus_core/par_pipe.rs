use vstd::prelude::*;

verus! {

/// A unit of pipe work that can be turned into its asynchronous form.
pub trait PipeTask<Source> {
    type Item;
    type Async: PipeTaskAsync<Source, Item = Self::Item>;

    /// The asynchronous form that `into_async` gives.
    spec fn async_form(self) -> Self::Async;

    fn into_async(self) -> (r: Self::Async)
        ensures
            r == self.async_form(),
    ;
}

impl<T> PipeTask<T> for () {
    type Item = ();
    type Async = ();

    open spec fn async_form(self) -> Self::Async {
        ()
    }

    fn into_async(self) -> Self::Async {
    }
}

/// The asynchronous form of a pipe task: it reads `Source` items and hands
/// `Item`s on.
pub trait PipeTaskAsync<Source> {
    type Item;
}

impl<T> PipeTaskAsync<T> for () {
    type Item = ();
}

/// A pipe that runs on the threads of one process.
pub trait ParallelPipe<Source> {
    type Item;
    type Task: PipeTask<Source, Item = Self::Item> + Send;

    /// The task that `task` gives.
    spec fn task_of(&self) -> Self::Task;

    fn task(&self) -> (r: Self::Task)
        ensures
            r == self.task_of(),
    ;
}

/// A pipe that runs across processes.
pub trait DistributedPipe<Source> {
    type Item;
    type Task: PipeTask<Source, Item = Self::Item> + Send;

    fn task(&self) -> Self::Task;
}

impl<T> ParallelPipe<T> for () {
    type Item = ();
    type Task = ();

    open spec fn task_of(&self) -> Self::Task {
        ()
    }

    fn task(&self) -> Self::Task {
    }
}

} // verus!
