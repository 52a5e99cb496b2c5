//! What is checked before a payload is stored.

pub mod historical_data;
