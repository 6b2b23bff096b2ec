use vstd::prelude::*;

use std::vec;

use vstd::std_specs::iter::IteratorSpec;

use crate::amadeus_core::into_par_stream::{IntoDistributedStream, IterDistStream};
use crate::amadeus_core::par_stream::FlatMap;
use crate::amadeus_core::util::DistParStream;
use crate::amadeus_core::Source;

verus! {

/// The access logs of Amazon CloudFront, read as a source of rows.
pub struct Cloudfront;

/// One row of a CloudFront access log.
pub struct CloudfrontRow;

impl CloudfrontRow {
    pub fn new() -> (r: Self)
        ensures
            r == CloudfrontRow,
    {
        CloudfrontRow
    }
}

/// Names the function that the CloudFront stream pairs with its listing. It
/// holds no data, and no code of this library applies it to anything.
pub struct LinesToRows;

impl Source for Cloudfront {
    type Item = CloudfrontRow;
    type Error = ();

    type ParStream = DistParStream<Self::DistStream>;
    type DistStream = FlatMap<IterDistStream<vec::IntoIter<()>>, LinesToRows>;

    /// The distributed stream, read in parallel.
    fn par_stream(self) -> (r: Self::ParStream)
        ensures
            r.0.mapper() == LinesToRows,
            r.0.stream().iter().remaining() == Seq::<()>::empty(),
    {
        DistParStream(self.dist_stream())
    }

    /// The stream of the rows of the entries of the listing, which is empty.
    fn dist_stream(self) -> (r: Self::DistStream)
        ensures
            r.mapper() == LinesToRows,
            r.stream().iter().remaining() == Seq::<()>::empty(),
    {
        FlatMap::new(Vec::<()>::new().into_dist_stream(), LinesToRows)
    }
}

} // verus!
