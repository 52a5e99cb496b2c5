//! Asking the primary service for the rates of a single day.

use vstd::prelude::*;
use vstd::string::*;
use crate::calendar::{day_text, formatted_time, midnight, representable_day};
use crate::exchange_rate::ExchangeRateError;
use crate::text::join;

verus! {

/// Why the rates of a single day could not be fetched.
#[derive(Debug, Clone, PartialEq, Eq)]
pub enum FetchExchangeRateError {
    RequestError(String),
    NetworkError(String),
    ResponseBodyError(String),
    ParseError(ExchangeRateError),
}

/// Which rates are asked for: the latest, or those of a day.
#[derive(Debug, Clone, Copy, PartialEq, Eq)]
pub enum FetchMode {
    Latest,
    Date(i64),
}

/// The address that serves what a mode asks for. No parameter follows the
/// question mark.
pub open spec fn mode_url(api_url: Seq<char>, mode: FetchMode) -> Seq<char> {
    match mode {
        FetchMode::Latest => api_url + "/latest"@ + "?"@,
        FetchMode::Date(day) => api_url + "/"@ + formatted_time(midnight(day as int), "%Y-%m-%d"@)
            + "?"@,
    }
}

/// Builds the address from which the rates of a mode are fetched.
pub fn fetch_exchange_rate(api_url: &str, mode: FetchMode) -> (r: String)
    requires
        mode matches FetchMode::Date(day) ==> representable_day(day as int),
    ensures
        r@ == mode_url(api_url@, mode),
{
    let mut url = match mode {
        FetchMode::Latest => join(api_url, "/latest"),
        FetchMode::Date(day) => {
            let mut dated = join(api_url, "/");
            dated.append(day_text(day).as_str());
            dated
        },
    };
    url.append("?");
    url
}

} // verus!
