use vstd::prelude::*;

verus! {

/// The message of work that panicked.
pub struct Panicked(pub String);

} // verus!
