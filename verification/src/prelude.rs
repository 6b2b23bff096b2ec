pub use crate::par_pipe::ParallelPipe;
pub use crate::pool::ThreadPool;
pub use crate::source::{aws, Cloudfront, IntoStream, IntoTask, Source};
pub use crate::{CloudfrontRow, ParallelStream};
