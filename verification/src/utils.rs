//! Helpers shared by the data types of the library.

pub mod validation;
