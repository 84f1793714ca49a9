//! Content addressable storage and the validation tags shared with zomes.

pub mod error;
pub mod storage;
pub mod validation;
