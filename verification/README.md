# amadeus

Parallel and distributed data-processing pipelines: streams whose work is
split into tasks, pipes that transform items, and sinks whose reducers fold
the items back together, with Amazon CloudFront logs as a source.

Layout:

- `src/` — the library, verified with Verus.
  - `amadeus_core/` — the stream, pipe, sink and reducer traits; the
    flat-map types (a stream paired with a function, its task, and the sink
    that hands on the items of one inner stream) and the tuple pipes and
    reducers; and the decisions taken each time a stream is polled
    (`sink::SinkFlatMap::poll_step` and `forward_step`,
    `util::ResultExpandIter::poll_next`, `sink::sink_poll_forward`,
    `par_sink::reducer_poll_forward`).
  - `amadeus_aws.rs` — the CloudFront source.
  - `source.rs` (with `source/aws.rs`), `prelude.rs`, `pool/` — the
    crate's own view of sources (rows converted
    into `CloudfrontRow`) and the thread pool's handling of joined work.
  - `poll.rs` — the state of a polled computation.
- `app/` — the asynchronous edge: polling `futures` streams with the
  library's decisions, spawning work on tokio, `std::task::Poll`
  conversions.
- `tests/` — tests of the library.
