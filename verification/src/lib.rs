//! Recognition of identifier formats, and the contract by which a data type
//! reports whether it is well formed.

pub mod error;
pub mod utils;
