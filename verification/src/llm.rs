//! The narrative: which prompt is written, and what is made of the answer.

pub mod generate;
pub mod prompt;
