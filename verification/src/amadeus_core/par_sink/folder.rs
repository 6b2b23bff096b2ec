use vstd::prelude::*;

use super::{Factory, Reducer, ReducerSend};

verus! {

impl Factory for () {
    type Item = ();

    open spec fn made(&self) -> Self::Item {
        ()
    }

    fn make(&self) -> (r: Self::Item) {
    }
}

impl Reducer for () {
    type Item = ();
    type Output = ();
    type Async = ();

    open spec fn async_form(self) -> Self::Async {
        ()
    }

    fn into_async(self) -> (r: Self::Async) {
    }
}

impl ReducerSend for () {
    type Output = ();
}

} // verus!
