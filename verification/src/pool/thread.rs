use vstd::prelude::*;

use tokio::task::JoinError;

verus! {

/// `tokio::task::JoinError`: why a spawned task did not finish (it
/// panicked or was cancelled). It is only carried and dropped here.
#[verifier::external_type_specification]
#[verifier::external_body]
pub struct ExJoinError(JoinError);

/// A pool of threads that runs spawned work.
pub struct ThreadPool;

impl ThreadPool {
    /// The result of spawned work once it has been joined: its output when
    /// it finished, and `Err(())` when it did not, whatever the reason.
    pub fn settle<T>(joined: Result<T, JoinError>) -> (r: Result<T, ()>)
        ensures
            match joined {
                Ok(v) => r == Ok::<T, ()>(v),
                Err(_) => r == Err::<T, ()>(()),
            },
    {
        match joined {
            Ok(v) => Ok(v),
            Err(_) => Err(()),
        }
    }
}

} // verus!
