//! Rate snapshots: what one source reported for one day.
//!
//! A rate is a binary64 number and is carried as its bit pattern; the
//! arithmetic on rates is left to the caller. What is decided here is which
//! numbers a question is about, and whether there are any.

use vstd::prelude::*;
use vstd::string::*;
use crate::calendar::{day_number, day_of, is_representable, representable};
use crate::text::{join, same_text, to_uppercase, uppercase};

verus! {

/// The bit pattern of the rate 1, which is the rate of the base currency.
pub const UNIT_RATE: u64 = 0x3FF0_0000_0000_0000;

/// The bit pattern of -1, which stands for a rate that is not to be had.
pub const UNAVAILABLE_RATE: u64 = 0xBFF0_0000_0000_0000;

/// The rate of one currency against the base of its snapshot.
#[derive(Debug, Clone, PartialEq, Eq)]
pub struct CurrencyRate {
    pub code: String,
    pub bits: u64,
}

/// One snapshot: the rates of a day against a base currency.
#[derive(Debug, Clone, PartialEq, Eq)]
pub struct ExchangeRateMap {
    /// The instant of the snapshot, in seconds since 1970-01-01T00:00:00Z.
    pub datetime: i64,
    pub base: String,
    /// The rates, the later entry counting where a code occurs twice.
    pub map: Vec<CurrencyRate>,
}

/// A snapshot as a mathematical value.
pub struct RateSnapshot {
    pub datetime: int,
    pub base: Seq<char>,
    pub rates: Map<Seq<char>, u64>,
}

/// The rate between two currencies as the quotient of two binary64 numbers,
/// each given by its bit pattern: how much of the second currency one unit of
/// the first buys.
#[derive(Debug, Clone, Copy, PartialEq, Eq)]
pub struct PairRate {
    pub numerator: u64,
    pub denominator: u64,
}

/// The table that a list of rates describes.
pub open spec fn rate_table(entries: Seq<CurrencyRate>) -> Map<Seq<char>, u64>
    decreases entries.len(),
{
    if entries.len() == 0 {
        Map::empty()
    } else {
        rate_table(entries.drop_last()).insert(entries.last().code@, entries.last().bits)
    }
}

/// The rate of a currency in a snapshot: 1 for the base, the table's entry for
/// any other, nothing where the table has none.
pub open spec fn rate_in(snapshot: RateSnapshot, code: Seq<char>) -> Option<u64> {
    if code == snapshot.base {
        Some(UNIT_RATE)
    } else if snapshot.rates.contains_key(code) {
        Some(snapshot.rates[code])
    } else {
        None
    }
}

/// The rate from one currency to another in a snapshot, where both have one.
pub open spec fn pair_rate(snapshot: RateSnapshot, from: Seq<char>, to: Seq<char>) -> Option<
    PairRate,
> {
    match (rate_in(snapshot, from), rate_in(snapshot, to)) {
        (Some(from_bits), Some(to_bits)) => Some(
            PairRate { numerator: to_bits, denominator: from_bits },
        ),
        _ => None,
    }
}

/// The pair that stands for a rate which is not to be had: its value is -1.
pub open spec fn unavailable_pair() -> PairRate {
    PairRate { numerator: UNAVAILABLE_RATE, denominator: UNIT_RATE }
}

/// The rate of a pair as a narrative speaks of it: the rate where the snapshot
/// has one, and else the pair whose value is -1.
pub open spec fn narrative_rate(
    snapshot: RateSnapshot,
    from: Seq<char>,
    to: Seq<char>,
) -> PairRate {
    match pair_rate(snapshot, from, to) {
        Some(pair) => pair,
        None => unavailable_pair(),
    }
}

impl PairRate {
    /// The pair that stands for a rate which is not to be had.
    pub fn unavailable() -> (r: PairRate)
        ensures
            r == unavailable_pair(),
    {
        PairRate { numerator: UNAVAILABLE_RATE, denominator: UNIT_RATE }
    }
}

impl View for ExchangeRateMap {
    type V = RateSnapshot;

    open spec fn view(&self) -> RateSnapshot {
        RateSnapshot {
            datetime: self.datetime as int,
            base: self.base@,
            rates: rate_table(self.map@),
        }
    }
}

/// A snapshot is well formed when `chrono` can hold its instant and its table
/// has no entry for its own base.
pub open spec fn well_formed(snapshot: RateSnapshot) -> bool {
    &&& representable(snapshot.datetime)
    &&& !snapshot.rates.contains_key(snapshot.base)
}

impl ExchangeRateMap {
    /// Whether the snapshot is well formed.
    pub open spec fn well_formed(&self) -> bool {
        well_formed(self@)
    }

    /// The day of the snapshot.
    pub open spec fn day(&self) -> int {
        day_of(self.datetime as int)
    }

    /// The snapshot that stands in for one that is missing: the given instant,
    /// the base EUR and no rates.
    pub fn placeholder(now: i64) -> (r: ExchangeRateMap)
        ensures
            r.datetime == now,
            r.base@ == "EUR"@,
            r.map@.len() == 0,
            r@.rates == Map::<Seq<char>, u64>::empty(),
            representable(now as int) ==> r.well_formed(),
    {
        ExchangeRateMap { datetime: now, base: String::from_str("EUR"), map: Vec::new() }
    }

    /// Whether the snapshot is well formed.
    pub fn is_well_formed(&self) -> (r: bool)
        ensures
            r == self.well_formed(),
    {
        is_representable(self.datetime) && self.rate_bits(self.base.as_str()).is_none()
    }

    /// The day on which the snapshot was taken.
    pub fn get_date(&self) -> (r: i64)
        ensures
            r == self.day(),
    {
        day_number(self.datetime)
    }

    /// The table's entry for a currency code.
    pub fn rate_bits(&self, code: &str) -> (r: Option<u64>)
        ensures
            r == (if self@.rates.contains_key(code@) {
                Some(self@.rates[code@])
            } else {
                None
            }),
    {
        let mut i: usize = self.map.len();
        assert(self.map@.take(i as int) =~= self.map@);
        while i > 0
            invariant
                i <= self.map.len(),
                rate_table(self.map@).contains_key(code@) == rate_table(
                    self.map@.take(i as int),
                ).contains_key(code@),
                rate_table(self.map@).contains_key(code@) ==> rate_table(self.map@)[code@]
                    == rate_table(self.map@.take(i as int))[code@],
            decreases i,
        {
            i -= 1;
            assert(self.map@.take(i as int + 1).drop_last() =~= self.map@.take(i as int));
            if same_text(self.map[i].code.as_str(), code) {
                return Some(self.map[i].bits);
            }
        }
        None
    }

    /// The rate of a currency code against the base, the base itself included.
    pub fn rate_of(&self, code: &str) -> (r: Option<u64>)
        ensures
            r == rate_in(self@, code@),
    {
        if same_text(code, self.base.as_str()) {
            Some(UNIT_RATE)
        } else {
            self.rate_bits(code)
        }
    }

    /// The rate between two currency codes that are written as the snapshot
    /// writes them.
    pub fn pair_of(&self, from: &str, to: &str) -> (r: Option<PairRate>)
        ensures
            r == pair_rate(self@, from@, to@),
    {
        let from_bits = match self.rate_of(from) {
            Some(bits) => bits,
            None => {
                return None;
            },
        };
        match self.rate_of(to) {
            Some(to_bits) => Some(PairRate { numerator: to_bits, denominator: from_bits }),
            None => None,
        }
    }

    /// The rate from one currency to another, whatever the case in which the
    /// two codes are written.
    pub fn get_val(&self, from: &str, to: &str) -> (r: Option<PairRate>)
        ensures
            r == pair_rate(self@, uppercase(from@), uppercase(to@)),
    {
        let from_code = to_uppercase(from);
        let to_code = to_uppercase(to);
        self.pair_of(from_code.as_str(), to_code.as_str())
    }

    /// The rate from one currency to another as a narrative speaks of it: a
    /// rate that is not to be had shows as -1.
    pub fn get_val_or_unavailable(&self, from: &str, to: &str) -> (r: PairRate)
        ensures
            r == narrative_rate(self@, uppercase(from@), uppercase(to@)),
    {
        match self.get_val(from, to) {
            Some(pair) => pair,
            None => PairRate::unavailable(),
        }
    }
}

/// Why a payload could not be read.
#[derive(Debug, Clone, PartialEq, Eq)]
pub enum ExchangeRateParserError {
    /// The payload is no JSON document; the message is the reader's.
    SerdeError(String),
    /// The document lacks something, or holds it in another form.
    ShapeError(String),
}

/// A parser error as a mathematical value.
pub enum ParserFailure {
    Serde(Seq<char>),
    Shape(Seq<char>),
}

impl View for ExchangeRateParserError {
    type V = ParserFailure;

    open spec fn view(&self) -> ParserFailure {
        match self {
            ExchangeRateParserError::SerdeError(message) => ParserFailure::Serde(message@),
            ExchangeRateParserError::ShapeError(message) => ParserFailure::Shape(message@),
        }
    }
}

/// Why rates could not be fetched.
#[derive(Debug, Clone, PartialEq, Eq)]
pub enum FetchExchangeRateError {
    /// The service answered with a status that is no success.
    RequestError(String),
    /// The service could not be reached.
    NetworkError(String),
    /// The body of the answer could not be read.
    ResponseBodyError(String),
    /// The payload could not be read.
    ParseError(ExchangeRateParserError),
    /// The fallback service needs an access key, and none is set.
    MissingKeyError,
}

/// A fetch error as a mathematical value.
pub enum FetchFailure {
    Request(Seq<char>),
    Network(Seq<char>),
    ResponseBody(Seq<char>),
    Parse(ParserFailure),
    MissingKey,
}

impl View for FetchExchangeRateError {
    type V = FetchFailure;

    open spec fn view(&self) -> FetchFailure {
        match self {
            FetchExchangeRateError::RequestError(message) => FetchFailure::Request(message@),
            FetchExchangeRateError::NetworkError(message) => FetchFailure::Network(message@),
            FetchExchangeRateError::ResponseBodyError(message) => FetchFailure::ResponseBody(
                message@,
            ),
            FetchExchangeRateError::ParseError(error) => FetchFailure::Parse(error@),
            FetchExchangeRateError::MissingKeyError => FetchFailure::MissingKey,
        }
    }
}

/// The text that describes a parser error.
pub open spec fn parser_failure_text(failure: ParserFailure) -> Seq<char> {
    match failure {
        ParserFailure::Serde(message) => "Failed to parse JSON: "@ + message,
        ParserFailure::Shape(message) => "JSON in unexpected form: "@ + message,
    }
}

/// The text that describes a fetch error.
pub open spec fn fetch_failure_text(failure: FetchFailure) -> Seq<char> {
    match failure {
        FetchFailure::Request(message) => "Request Error: "@ + message,
        FetchFailure::Network(message) => "Network Error: "@ + message,
        FetchFailure::ResponseBody(message) => "Response Body Error: "@ + message,
        FetchFailure::Parse(failure) => "Failed to parse JSON: "@ + parser_failure_text(failure),
        FetchFailure::MissingKey => "Missing API Key"@,
    }
}

impl ExchangeRateParserError {
    /// Describes the error.
    pub fn message(&self) -> (r: String)
        ensures
            r@ == parser_failure_text(self@),
    {
        match self {
            ExchangeRateParserError::SerdeError(message) => join(
                "Failed to parse JSON: ",
                message.as_str(),
            ),
            ExchangeRateParserError::ShapeError(message) => join(
                "JSON in unexpected form: ",
                message.as_str(),
            ),
        }
    }
}

impl FetchExchangeRateError {
    /// Describes the error.
    pub fn message(&self) -> (r: String)
        ensures
            r@ == fetch_failure_text(self@),
    {
        match self {
            FetchExchangeRateError::RequestError(message) => join(
                "Request Error: ",
                message.as_str(),
            ),
            FetchExchangeRateError::NetworkError(message) => join(
                "Network Error: ",
                message.as_str(),
            ),
            FetchExchangeRateError::ResponseBodyError(message) => join(
                "Response Body Error: ",
                message.as_str(),
            ),
            FetchExchangeRateError::ParseError(error) => {
                let inner = error.message();
                join("Failed to parse JSON: ", inner.as_str())
            },
            FetchExchangeRateError::MissingKeyError => String::from_str("Missing API Key"),
        }
    }
}

/// What can be wrong with the answer of a rate service.
#[derive(Debug, Clone, PartialEq, Eq)]
pub enum ExchangeRateError {
    ParseError(String),
    ParseDateTimeError,
    ParseDateError,
    InvalidResponse(String),
    ApiError(String, String),
    MissingField(String),
    InvalidData(String),
}

/// A rate error as a mathematical value.
pub enum RateFailure {
    Parse(Seq<char>),
    ParseDateTime,
    ParseDate,
    InvalidResponse(Seq<char>),
    Api(Seq<char>, Seq<char>),
    MissingField(Seq<char>),
    InvalidData(Seq<char>),
}

impl View for ExchangeRateError {
    type V = RateFailure;

    open spec fn view(&self) -> RateFailure {
        match self {
            ExchangeRateError::ParseError(message) => RateFailure::Parse(message@),
            ExchangeRateError::ParseDateTimeError => RateFailure::ParseDateTime,
            ExchangeRateError::ParseDateError => RateFailure::ParseDate,
            ExchangeRateError::InvalidResponse(message) => RateFailure::InvalidResponse(message@),
            ExchangeRateError::ApiError(code, message) => RateFailure::Api(code@, message@),
            ExchangeRateError::MissingField(field) => RateFailure::MissingField(field@),
            ExchangeRateError::InvalidData(message) => RateFailure::InvalidData(message@),
        }
    }
}

/// The text that describes a rate error.
pub open spec fn rate_failure_text(failure: RateFailure) -> Seq<char> {
    match failure {
        RateFailure::Parse(message) => "Failed to parse JSON: "@ + message,
        RateFailure::ParseDateTime => "Failed to parse datetime"@,
        RateFailure::ParseDate => "Failed to parse date"@,
        RateFailure::InvalidResponse(message) => "Invalid response: "@ + message,
        RateFailure::Api(code, message) => "API error (code: "@ + code + ", message: "@ + message
            + ")"@,
        RateFailure::MissingField(field) => "Missing field: "@ + field,
        RateFailure::InvalidData(message) => "Invalid data: "@ + message,
    }
}

impl ExchangeRateError {
    /// Describes the error.
    pub fn message(&self) -> (r: String)
        ensures
            r@ == rate_failure_text(self@),
    {
        match self {
            ExchangeRateError::ParseError(message) => join(
                "Failed to parse JSON: ",
                message.as_str(),
            ),
            ExchangeRateError::ParseDateTimeError => String::from_str("Failed to parse datetime"),
            ExchangeRateError::ParseDateError => String::from_str("Failed to parse date"),
            ExchangeRateError::InvalidResponse(message) => join(
                "Invalid response: ",
                message.as_str(),
            ),
            ExchangeRateError::ApiError(code, message) => {
                let mut text = join("API error (code: ", code.as_str());
                text.append(", message: ");
                text.append(message.as_str());
                text.append(")");
                text
            },
            ExchangeRateError::MissingField(field) => join("Missing field: ", field.as_str()),
            ExchangeRateError::InvalidData(message) => join("Invalid data: ", message.as_str()),
        }
    }
}

} // verus!
