use amadeus::amadeus_aws::{Cloudfront, CloudfrontRow as AwsRow};
use amadeus::amadeus_core::into_par_stream::{
    IntoDistributedStream, IntoParallelStream, IterStreamTask,
};
use amadeus::amadeus_core::par_pipe::{ParallelPipe, PipeTask};
use amadeus::amadeus_core::par_sink::{
    reducer_poll_forward, Factory, ParallelSink, ReduceA2, ReduceA2Async, ReduceA2Factory,
    ReduceC2, ReduceC2Async, Reducer,
};
use amadeus::amadeus_core::par_stream::{
    DistributedStream, FlatMapStreamTaskAsync, FlatMapTask, StreamTask,
};
use amadeus::amadeus_core::sink::{sink_poll_forward, SinkFlatMap, SinkMap};
use amadeus::amadeus_core::util::{DistParStream, ResultExpandIter};
use amadeus::amadeus_core::Source as CoreSource;
use amadeus::poll::Poll;
use amadeus::pool::ThreadPool;
use amadeus::{CloudfrontRow, Source};

#[test]
fn reduce_c2_new_is_the_joining_reducer() {
    let r = ReduceC2::new();
    assert!(matches!(r, ReduceC2));
    assert!(matches!(r.into_async(), ReduceC2Async));
}

#[test]
fn pair_of_sinks_gives_pair_reducers() {
    let (pipe, factory, reduce_c): (((), ()), ReduceA2Factory<(), ()>, ReduceC2) =
        ParallelSink::<u8>::reducers(((), ()));
    assert_eq!(pipe, ((), ()));
    assert!(matches!(reduce_c, ReduceC2));
    let a: ReduceA2 = factory.make();
    assert!(matches!(a.into_async(), ReduceA2Async));
}

#[test]
fn unit_sink_pipe_and_reducers() {
    let r: ((), (), ()) = ParallelSink::<u8>::reducers(());
    assert_eq!(r, ((), (), ()));
    let t: () = ParallelPipe::<u8>::task(&());
    assert_eq!(t, ());
    let a: () = PipeTask::<u8>::into_async(());
    assert_eq!(a, ());
    assert_eq!(Factory::make(&()), ());
    assert_eq!(Reducer::into_async(()), ());
    assert_eq!(StreamTask::into_async(()), ());
}

#[test]
fn pair_of_pipes_gives_pair_of_tasks() {
    let tasks: ((), ()) = ParallelPipe::<u8>::task(&((), ()));
    assert_eq!(tasks, ((), ()));
    let _running = PipeTask::<u8>::into_async(((), ()));
}

#[test]
fn poll_forward_is_ready_whatever_the_stream_gave() {
    assert!(matches!(sink_poll_forward(Poll::Ready(Some(7u32))), Poll::Ready(())));
    assert!(matches!(sink_poll_forward::<u32>(Poll::Ready(None)), Poll::Ready(())));
    assert!(matches!(sink_poll_forward::<u32>(Poll::Pending), Poll::Ready(())));
    assert!(matches!(reducer_poll_forward(Poll::Ready(Some(1u8))), Poll::Ready(())));
    assert!(matches!(reducer_poll_forward::<u8>(Poll::Pending), Poll::Ready(())));
}

#[test]
fn flat_map_step_passes_items_on_and_keeps_the_inner_stream() {
    let mut sink: SinkFlatMap<u8, (), Vec<u32>, u32, u8> = SinkFlatMap::new(Some(vec![1, 2]), (), 9u8);
    assert!(sink.has_inner());
    assert!(matches!(sink.poll_step(Poll::Ready(Some(5))), Poll::Ready(Some(5))));
    assert!(sink.has_inner());
    assert!(matches!(sink.poll_step(Poll::Pending), Poll::Pending));
    assert!(sink.has_inner());
    assert_eq!(sink.inner_mut(), &mut vec![1, 2]);
}

#[test]
fn flat_map_sink_without_inner_stream() {
    let sink: SinkFlatMap<u8, (), Vec<u32>, u32, u8> = SinkFlatMap::new(None, (), 0u8);
    assert!(!sink.has_inner());
}

#[test]
fn sink_map_is_built_from_its_parts() {
    let _m: SinkMap<u8, (), (), u32> = SinkMap::new((), 3u8);
}

#[test]
fn result_expand_ends_at_once() {
    let mut it = ResultExpandIter::OkItems(vec![1u8, 2, 3]);
    assert!(matches!(it.poll_next(Poll::Ready(Some(4u8))), Poll::Ready(None)));
    assert!(matches!(it.poll_next::<u8>(Poll::Pending), Poll::Ready(None)));
    assert!(matches!(it.poll_next::<u8>(Poll::Ready(None)), Poll::Ready(None)));
    assert_eq!(it.inner_mut(), &mut vec![1u8, 2, 3]);
}

#[test]
fn vec_streams_and_tasks() {
    let _p = vec![1u8, 2, 3].into_par_stream();
    let d = vec![1u8, 2, 3].into_dist_stream();
    let f = d.flat_map(|x: ()| vec![x]);
    let _ = f;
    let t: IterStreamTask = IterStreamTask;
    assert!(matches!(t.into_async(), IterStreamTask));
    let ft = FlatMapTask::new((), |x: ()| vec![x]);
    let _a = ft.into_async();
}

#[test]
fn cloudfront_streams_read_an_empty_listing() {
    let _d = CoreSource::dist_stream(Cloudfront);
    let DistParStream(_inner) = CoreSource::par_stream(Cloudfront);
    let _rows_par = Source::par_stream(Cloudfront);
    let _rows_dist = Source::dist_stream(Cloudfront);
}

#[test]
fn cloudfront_rows() {
    let row = AwsRow::new();
    assert!(matches!(row, AwsRow));
    let CloudfrontRow {} = CloudfrontRow::from(row);
}

#[test]
fn settle_keeps_output_and_forgets_the_join_error() {
    assert_eq!(ThreadPool::settle(Ok::<u32, tokio::task::JoinError>(3)), Ok(3));
    let rt = tokio::runtime::Builder::new_current_thread().build().unwrap();
    let joined = rt.block_on(async {
        tokio::task::spawn(async {
            if true {
                panic!("work failed");
            }
            5u32
        })
        .await
    });
    assert!(joined.is_err());
    assert_eq!(ThreadPool::settle(joined), Err(()));
}

#[test]
fn flattened_run_gives_the_inner_items_in_order() {
    let polls = vec![
        Poll::Ready(Some(1u32)),
        Poll::Pending,
        Poll::Ready(Some(2u32)),
        Poll::Ready(Some(3u32)),
        Poll::Pending,
    ];
    let mut sink: SinkFlatMap<u8, (), Vec<u32>, u32, u8> = SinkFlatMap::new(Some(vec![7]), (), 0u8);
    let mut items = Vec::new();
    let mut pendings = 0;
    for p in polls {
        match sink.poll_step(p) {
            Poll::Ready(Some(x)) => items.push(x),
            Poll::Ready(None) => unreachable!(),
            Poll::Pending => pendings += 1,
        }
        assert!(sink.has_inner());
    }
    assert_eq!(items, vec![1, 2, 3]);
    assert_eq!(pendings, 2);
    assert_eq!(sink.inner_mut(), &mut vec![7]);
}

#[test]
fn flat_map_forward_is_ready_and_keeps_everything() {
    let mut sink: SinkFlatMap<u8, u16, Vec<u32>, u32, u8> = SinkFlatMap::new(Some(vec![4]), 6u16, 2u8);
    assert!(matches!(sink.forward_step(Poll::Ready(Some(1))), Poll::Ready(())));
    assert!(matches!(sink.forward_step(Poll::Pending), Poll::Ready(())));
    assert!(sink.has_inner());
    let (fut, inner_sink, f) = sink.into_parts();
    assert_eq!(fut, Some(vec![4]));
    assert_eq!(inner_sink, 6u16);
    assert_eq!(f, 2u8);
}

#[test]
fn flat_map_task_lends_and_reclaims_its_slot() {
    let task = FlatMapTask::new((), |x: ()| vec![x]).into_async();
    let (inner, lent): ((), SinkFlatMap<_, u16, Vec<()>, (), u8>) = task.lend(5u16);
    assert!(!lent.has_inner());
    let (back, sink) = FlatMapStreamTaskAsync::reclaim(inner, lent);
    assert_eq!(sink, 5u16);
    let (_, lent_again): ((), SinkFlatMap<_, u16, Vec<()>, (), u8>) = back.lend(7u16);
    assert!(!lent_again.has_inner());
}
