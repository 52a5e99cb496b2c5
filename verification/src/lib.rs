//! Exchange-rate history, narrative prompts and notification texts.
//!
//! The crate holds the rules of a bot that watches a currency pair: how a
//! window of days is resolved into a gap-free series from a primary source, a
//! fallback source and a cache; which narrative a change of the rate calls
//! for; which points a trend chart shows; and what the notification says.
//! Every function is proved against its contract.
//!
//! The crate does no input or output and no arithmetic on rates. Its caller
//! fetches, stores, draws and computes, and hands plain values in:
//!
//! - payloads as texts, which `serde_json` reads into [`json::JsonValue`];
//! - instants as seconds, and days as days, since 1970-01-01 (see
//!   [`calendar`]), with `chrono` behind what concerns the calendar;
//! - rates as the bit patterns of binary64 numbers (see [`binary64`]), a rate
//!   between two currencies as the pair of patterns whose quotient it is.
//!
//! The way through a resolution is: [`resolution::request_base`] and
//! [`resolution::rates_url`] for the request to the primary source;
//! `ExchangeRateMap::from_primary` for its answer;
//! [`resolution::missing_dates`] for the days to ask of the fallback source;
//! `ExchangeRateMap::fetch_single` and
//! `ExchangeRateMap::store_fallback_response` for each of them; and
//! `ExchangeRateMap::get_rates` for the series.

pub mod binary64;
pub mod cache;
pub mod calendar;
pub mod commands;
pub mod completeness;
pub mod database;
pub mod decimal;
pub mod environment;
pub mod exchange_rate;
pub mod exchange_rate_api;
pub mod json;
pub mod llm;
pub mod payload;
pub mod resolution;
pub mod series;
pub mod text;
pub mod utils;
