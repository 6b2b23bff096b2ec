//! Parallel and distributed data-processing pipelines: streams of items
//! split into tasks, pipes that transform them, and sinks whose reducers
//! fold them back together.

pub mod amadeus_aws;
pub mod amadeus_core;
pub mod poll;
pub mod pool;
pub mod prelude;
pub mod source;

pub use amadeus_core::{par_pipe, par_stream};
pub use amadeus_core::par_stream::{DistributedStream, ParallelStream};
pub use source::Source;

use vstd::prelude::*;

verus! {

/// One row of a CloudFront access log, as this crate hands it out.
pub struct CloudfrontRow {}

impl From<amadeus_aws::CloudfrontRow> for CloudfrontRow {
    fn from(row: amadeus_aws::CloudfrontRow) -> (r: Self) {
        CloudfrontRow {  }
    }
}

impl vstd::std_specs::convert::FromSpecImpl<amadeus_aws::CloudfrontRow> for CloudfrontRow {
    open spec fn obeys_from_spec() -> bool {
        true
    }

    open spec fn from_spec(v: amadeus_aws::CloudfrontRow) -> Self {
        CloudfrontRow {  }
    }
}

} // verus!
