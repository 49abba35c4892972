//! Resolution of toolchain release artifacts and the decisions of their
//! streamed download.

pub mod error;
pub mod platform;
pub mod naming;
pub mod catalog;
pub mod transfer;
pub mod retrieval;
