//! The store of historical payloads, one record for each day.

use vstd::prelude::*;
use vstd::string::*;
use crate::calendar::{parse_day, parsed_day};
use crate::json::text_member;
use crate::json::{json_document, read_document, JsonValue};
use crate::text::join;

verus! {

/// Why a historical payload was not stored.
#[derive(Debug, Clone, PartialEq, Eq)]
pub enum SaveError {
    JsonParseError(String),
    MissingSuccessField,
    HistoricalDataNotSuccessful,
    MissingDateField,
    InvalidDateFormat(String),
    DatabaseError(String),
    UnknownError,
}

/// A save error as a mathematical value.
pub enum SaveFailure {
    JsonParse(Seq<char>),
    MissingSuccessField,
    HistoricalDataNotSuccessful,
    MissingDateField,
    InvalidDateFormat(Seq<char>),
    Database(Seq<char>),
    Unknown,
}

impl View for SaveError {
    type V = SaveFailure;

    open spec fn view(&self) -> SaveFailure {
        match self {
            SaveError::JsonParseError(message) => SaveFailure::JsonParse(message@),
            SaveError::MissingSuccessField => SaveFailure::MissingSuccessField,
            SaveError::HistoricalDataNotSuccessful => SaveFailure::HistoricalDataNotSuccessful,
            SaveError::MissingDateField => SaveFailure::MissingDateField,
            SaveError::InvalidDateFormat(message) => SaveFailure::InvalidDateFormat(message@),
            SaveError::DatabaseError(message) => SaveFailure::Database(message@),
            SaveError::UnknownError => SaveFailure::Unknown,
        }
    }
}

/// The text that describes a save error.
pub open spec fn save_failure_text(failure: SaveFailure) -> Seq<char> {
    match failure {
        SaveFailure::JsonParse(message) => "JSON parsing error: "@ + message,
        SaveFailure::MissingSuccessField => "Missing or invalid 'success' field in JSON"@,
        SaveFailure::HistoricalDataNotSuccessful => "Historical data is not marked as 'success'"@,
        SaveFailure::MissingDateField => "Missing 'date' field in JSON"@,
        SaveFailure::InvalidDateFormat(message) => "Invalid date format: "@ + message,
        SaveFailure::Database(message) => "Database error: "@ + message,
        SaveFailure::Unknown => "Unknown error occurred"@,
    }
}

impl SaveError {
    /// Describes the error.
    pub fn message(&self) -> (r: String)
        ensures
            r@ == save_failure_text(self@),
    {
        match self {
            SaveError::JsonParseError(message) => join("JSON parsing error: ", message.as_str()),
            SaveError::MissingSuccessField => String::from_str(
                "Missing or invalid 'success' field in JSON",
            ),
            SaveError::HistoricalDataNotSuccessful => String::from_str(
                "Historical data is not marked as 'success'",
            ),
            SaveError::MissingDateField => String::from_str("Missing 'date' field in JSON"),
            SaveError::InvalidDateFormat(message) => join(
                "Invalid date format: ",
                message.as_str(),
            ),
            SaveError::DatabaseError(message) => join("Database error: ", message.as_str()),
            SaveError::UnknownError => String::from_str("Unknown error occurred"),
        }
    }
}

/// The day under which a historical document is stored: the document has to
/// say that it is a success, and to name its date.
pub open spec fn record_day(document: JsonValue) -> Result<i64, SaveFailure> {
    let success = match document.member("success"@) {
        Some(value) => value.truth(),
        None => None,
    };
    match success {
        None => Err(SaveFailure::MissingSuccessField),
        Some(false) => Err(SaveFailure::HistoricalDataNotSuccessful),
        Some(true) => match text_member(document, "date"@) {
            None => Err(SaveFailure::MissingDateField),
            Some(date) => match parsed_day(date, "%Y-%m-%d"@) {
                Ok(day) => Ok(day),
                Err(message) => Err(SaveFailure::InvalidDateFormat(message)),
            },
        },
    }
}

/// The day under which a historical payload is stored.
pub open spec fn payload_day(payload: Seq<char>) -> Result<i64, SaveFailure> {
    match json_document(payload) {
        Ok(document) => record_day(document),
        Err(message) => Err(SaveFailure::JsonParse(message)),
    }
}

/// Checks a historical document and finds the day under which it is stored.
pub fn historical_day(document: &JsonValue) -> (r: Result<i64, SaveError>)
    ensures
        match r {
            Ok(day) => record_day(*document) == Ok::<i64, SaveFailure>(day),
            Err(error) => record_day(*document) == Err::<i64, SaveFailure>(error@),
        },
{
    let success = match document.get("success") {
        Some(value) => value.as_bool(),
        None => None,
    };
    match success {
        None => {
            return Err(SaveError::MissingSuccessField);
        },
        Some(marked) => {
            if !marked {
                return Err(SaveError::HistoricalDataNotSuccessful);
            }
        },
    }
    let date = match document.get("date") {
        Some(value) => value.as_str(),
        None => None,
    };
    match date {
        None => Err(SaveError::MissingDateField),
        Some(text) => match parse_day(text, "%Y-%m-%d") {
            Ok(day) => Ok(day),
            Err(message) => Err(SaveError::InvalidDateFormat(message)),
        },
    }
}

/// Checks a historical payload before it is stored, and finds the day under
/// which the caller is to store it.
pub fn save_historical_exchange_rate(json: &str) -> (r: Result<i64, SaveError>)
    ensures
        match r {
            Ok(day) => payload_day(json@) == Ok::<i64, SaveFailure>(day),
            Err(error) => payload_day(json@) == Err::<i64, SaveFailure>(error@),
        },
{
    match read_document(json) {
        Ok(document) => historical_day(&document),
        Err(message) => Err(SaveError::JsonParseError(message)),
    }
}

} // verus!
