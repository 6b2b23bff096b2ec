use vstd::prelude::*;

use std::marker::PhantomData;
use std::ops::DerefMut;
use std::pin::Pin;

use crate::poll::Poll;

verus! {

/// Something that takes the items of a stream.
pub trait Sink {
    type Item;
}

/// What a sink answers when it is asked to take items from a stream and the
/// stream has been polled once: it is done with this round whatever the
/// stream gave.
pub fn sink_poll_forward<T>(polled: Poll<Option<T>>) -> (r: Poll<()>)
    ensures
        r == Poll::Ready(()),
{
    Poll::Ready(())
}

/// `std::pin::Pin`: a pointer whose target does not move. A pinned pointer
/// to a sink is a sink of the same items.
#[verifier::external_type_specification]
#[verifier::external_body]
#[verifier::reject_recursive_types(Ptr)]
pub struct ExPin<Ptr>(Pin<Ptr>);

impl<P> Sink for Pin<P> where P: DerefMut + Unpin, P::Target: Sink {
    type Item = <P::Target as Sink>::Item;
}

impl Sink for () {
    type Item = ();
}

/// A sink that maps each item with `F` before it hands it to the sink `I`.
pub struct SinkMap<F, I, R, Item> {
    _i: I,
    _f: F,
    marker: PhantomData<Ghost<(R, Item)>>,
}

impl<F, I, R, Item> SinkMap<F, I, R, Item> {
    pub fn new(_i: I, _f: F) -> (r: Self)
        ensures
            r.sink() == _i,
            r.mapper() == _f,
    {
        SinkMap { _i, _f, marker: PhantomData }
    }

    /// The sink that takes the mapped items.
    pub closed spec fn sink(self) -> I {
        self._i
    }

    /// The function applied to each item.
    pub closed spec fn mapper(self) -> F {
        self._f
    }
}

impl<F, I, R, Item> Sink for SinkMap<F, I, R, Item> where F: FnMut(Item) -> R, I: Sink<Item = R> {
    type Item = Item;
}

/// A sink that takes each item of a stream of streams and hands the items of
/// the inner stream it holds, `fut`, to the sink `I`.
pub struct SinkFlatMap<F, I, Fut, R, Item> {
    fut: Option<Fut>,
    i: I,
    f: F,
    marker: PhantomData<Ghost<(R, Item)>>,
}

impl<F, I, Fut, R, Item> SinkFlatMap<F, I, Fut, R, Item> {
    pub fn new(fut: Option<Fut>, i: I, f: F) -> (r: Self)
        ensures
            r.inner() == fut,
            r.sink() == i,
            r.mapper() == f,
    {
        SinkFlatMap { fut, i, f, marker: PhantomData }
    }

    /// The inner stream whose items are handed on, if one is held.
    pub closed spec fn inner(self) -> Option<Fut> {
        self.fut
    }

    /// The sink that takes the items.
    pub closed spec fn sink(self) -> I {
        self.i
    }

    /// The function that turns an item into an inner stream.
    pub closed spec fn mapper(self) -> F {
        self.f
    }

    /// Whether an inner stream is held.
    pub fn has_inner(&self) -> (r: bool)
        ensures
            r == self.inner().is_some(),
    {
        self.fut.is_some()
    }

    /// The inner stream, to be polled.
    pub fn inner_mut(&mut self) -> (r: &mut Fut)
        requires
            old(self).inner().is_some(),
        ensures
            *r == old(self).inner().unwrap(),
            final(self).inner() == Some(*final(r)),
            final(self).sink() == old(self).sink(),
            final(self).mapper() == old(self).mapper(),
    {
        self.fut.as_mut().unwrap()
    }

    /// One poll of the flattened stream, given what polling the inner stream
    /// gave: an item, or `Pending`, is passed on as it is, and the inner
    /// stream stays in its place. The end of the inner stream is no input
    /// here: the flattened stream panics on it.
    pub fn poll_step(&mut self, polled: Poll<Option<R>>) -> (r: Poll<Option<R>>)
        requires
            old(self).inner().is_some(),
            polled != Poll::Ready(None::<R>),
        ensures
            r == polled,
            final(self).inner() == old(self).inner(),
            final(self).sink() == old(self).sink(),
            final(self).mapper() == old(self).mapper(),
    {
        polled
    }

    /// What the sink answers when it is asked to forward, given what polling
    /// the inner stream gave: the sink it hands items to polls the flattened
    /// stream once and is done with this round. The inner stream, that sink
    /// and the function all stay as they were. The end of the inner stream is
    /// no input here: the flattened stream panics on it.
    pub fn forward_step(&mut self, polled: Poll<Option<R>>) -> (r: Poll<()>)
        requires
            old(self).inner().is_some(),
            polled != Poll::Ready(None::<R>),
        ensures
            r == Poll::Ready(()),
            final(self).inner() == old(self).inner(),
            final(self).sink() == old(self).sink(),
            final(self).mapper() == old(self).mapper(),
    {
        let flattened = self.poll_step(polled);
        sink_poll_forward(flattened)
    }

    /// The inner stream, the sink and the function, taken back out.
    pub fn into_parts(self) -> (r: (Option<Fut>, I, F))
        ensures
            r.0 == self.inner(),
            r.1 == self.sink(),
            r.2 == self.mapper(),
    {
        (self.fut, self.i, self.f)
    }
}

impl<F, I, R, Fut, Item> Sink for SinkFlatMap<F, I, Fut, R, Item> where
    F: FnMut(Item) -> Fut,
    I: Sink<Item = R>,
 {
    type Item = Item;
}

} // verus!
