pub use crate::CloudfrontRow;
