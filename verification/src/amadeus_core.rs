pub mod into_par_stream;
pub mod par_pipe;
pub mod par_sink;
pub mod par_stream;
pub mod sink;
pub mod source;
pub mod util;

pub use source::Source;
