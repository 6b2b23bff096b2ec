mod thread;
mod util;

pub use thread::ThreadPool;
pub use util::Panicked;
