//! Helpers around the rate pipeline.

pub mod message;
pub mod parse;
pub mod plots;
pub mod search;
