use vstd::prelude::*;

verus! {

/// The state of an asynchronous computation when it is polled: finished with
/// a value, or not finished yet.
pub enum Poll<T> {
    Ready(T),
    Pending,
}

} // verus!
