//! Resolving a window of days into a series.
//!
//! The primary service answers for a whole window at once and leaves days
//! out. Each day it left out is asked of the fallback service, one request a
//! day, from today backwards. What comes back is merged into one series: a
//! snapshot of the primary service keeps its day, and a day that nobody could
//! serve stays out.

use vstd::prelude::*;
use vstd::string::*;
use crate::cache::RateCache;
use crate::calendar::{day_text, formatted_time, midnight, representable_day};
use crate::exchange_rate::{
    well_formed, ExchangeRateMap, FetchExchangeRateError, FetchFailure, ParserFailure,
    RateSnapshot,
};
use crate::payload::{parsed_fallback, parsed_range};
use crate::series::{
    all_well_formed, day, has_day, is_series, lemma_placed_well_formed, place, placed_all,
    snapshots,
};
use crate::text::{join, to_uppercase, uppercase};

verus! {

/// The days of a window that a list of snapshots leaves out, from the last
/// day of the window back to its first.
pub open spec fn missing_days(primary: Seq<RateSnapshot>, from: int, today: int) -> Seq<int>
    decreases today - from + 1,
{
    if today < from {
        Seq::empty()
    } else if has_day(primary, today) {
        missing_days(primary, from, today - 1)
    } else {
        seq![today] + missing_days(primary, from, today - 1)
    }
}

/// A list of day numbers as mathematical integers.
pub open spec fn days(list: Seq<i64>) -> Seq<int> {
    list.map_values(|d: i64| d as int)
}

/// The snapshots among the outcomes of the fallback requests, in the order of
/// the requests; a request that failed leaves nothing.
pub open spec fn successes(
    outcomes: Seq<Result<ExchangeRateMap, FetchExchangeRateError>>,
) -> Seq<RateSnapshot>
    decreases outcomes.len(),
{
    if outcomes.len() == 0 {
        Seq::empty()
    } else {
        match outcomes.last() {
            Ok(snapshot) => successes(outcomes.drop_last()).push(snapshot@),
            Err(_) => successes(outcomes.drop_last()),
        }
    }
}

/// The series that the snapshots of the primary service form, a later one
/// replacing an earlier one of the same day.
pub open spec fn keyed(primary: Seq<RateSnapshot>) -> Seq<RateSnapshot> {
    placed_all(Seq::empty(), primary, true)
}

/// The resolved series: the snapshots of the primary service, and each
/// fallback snapshot whose day was still free when its turn came.
pub open spec fn resolved(primary: Seq<RateSnapshot>, fills: Seq<RateSnapshot>) -> Seq<
    RateSnapshot,
> {
    placed_all(keyed(primary), fills, false)
}

/// Whether a list of snapshots holds one of the given day.
pub fn holds_day(list: &Vec<ExchangeRateMap>, d: i64) -> (r: bool)
    ensures
        r == has_day(snapshots(list@), d as int),
{
    let mut i: usize = 0;
    while i < list.len()
        invariant
            i <= list.len(),
            forall|j: int| 0 <= j < i ==> day(#[trigger] snapshots(list@)[j]) != d,
        decreases list.len() - i,
    {
        if list[i].get_date() == d {
            assert(day(snapshots(list@)[i as int]) == d);
            return true;
        }
        i += 1;
    }
    false
}

/// The days from `from_date` to `today` for which the primary service sent no
/// snapshot, today first: the days to ask of the fallback service.
pub fn missing_dates(primary: &Vec<ExchangeRateMap>, from_date: i64, today: i64) -> (r: Vec<i64>)
    ensures
        days(r@) == missing_days(snapshots(primary@), from_date as int, today as int),
{
    let mut out: Vec<i64> = Vec::new();
    let ghost given = snapshots(primary@);
    if today < from_date {
        assert(days(out@) =~= Seq::<int>::empty());
        return out;
    }
    let mut d: i64 = today;
    assert(days(out@) + missing_days(given, from_date as int, d as int) =~= missing_days(
        given,
        from_date as int,
        today as int,
    ));
    while d > from_date
        invariant
            from_date <= d <= today,
            given == snapshots(primary@),
            missing_days(given, from_date as int, today as int) == days(out@) + missing_days(
                given,
                from_date as int,
                d as int,
            ),
        decreases d - from_date,
    {
        let ghost before = out@;
        if !holds_day(primary, d) {
            out.push(d);
            assert(days(out@) =~= days(before).push(d as int));
        }
        d = d - 1;
        assert(days(out@) + missing_days(given, from_date as int, d as int) =~= days(before)
            + missing_days(given, from_date as int, d as int + 1));
    }
    let ghost before = out@;
    if !holds_day(primary, d) {
        out.push(d);
        assert(days(out@) =~= days(before).push(d as int));
    }
    assert(missing_days(given, from_date as int, d as int - 1) =~= Seq::<int>::empty());
    assert(days(out@) =~= days(before) + missing_days(given, from_date as int, d as int));
    out
}

/// Why a window could not be resolved: the primary service failed, and no
/// series is made of fallback snapshots alone.
#[derive(Debug, Clone, PartialEq, Eq)]
pub enum GetRatesError {
    RemoteError(FetchExchangeRateError),
}

/// A resolution error as a mathematical value.
pub enum ResolutionFailure {
    Remote(FetchFailure),
}

impl View for GetRatesError {
    type V = ResolutionFailure;

    open spec fn view(&self) -> ResolutionFailure {
        match self {
            GetRatesError::RemoteError(error) => ResolutionFailure::Remote(error@),
        }
    }
}

/// What the answer of the primary service comes to: its series, or the
/// failure of the transport or of the reading.
pub open spec fn primary_outcome(
    fetched: Result<String, FetchExchangeRateError>,
    base: Seq<char>,
) -> Result<Seq<RateSnapshot>, ResolutionFailure> {
    match fetched {
        Err(error) => Err(ResolutionFailure::Remote(error@)),
        Ok(payload) => match parsed_range(payload@, base) {
            Ok(series) => Ok(series),
            Err(failure) => Err(ResolutionFailure::Remote(FetchFailure::Parse(failure))),
        },
    }
}

/// What is to be done for one day that the primary service left out.
#[derive(Debug, Clone, PartialEq, Eq)]
pub enum FallbackStep {
    /// The cache held the day: this is its snapshot, and nothing is fetched.
    Found(ExchangeRateMap),
    /// The cache did not hold the day: the payload is to be fetched from this
    /// address.
    Fetch(String),
}

/// A fallback step as a mathematical value.
pub enum FallbackPlan {
    Found(RateSnapshot),
    Fetch(Seq<char>),
}

impl View for FallbackStep {
    type V = FallbackPlan;

    open spec fn view(&self) -> FallbackPlan {
        match self {
            FallbackStep::Found(snapshot) => FallbackPlan::Found(snapshot@),
            FallbackStep::Fetch(url) => FallbackPlan::Fetch(url@),
        }
    }
}

/// The base currency of a request: the one that was named, else EUR.
pub open spec fn base_or_default(base: Option<&str>) -> Seq<char> {
    match base {
        Some(code) => code@,
        None => "EUR"@,
    }
}

/// The address from which the fallback service serves one day.
pub open spec fn fallback_url(
    api_base: Seq<char>,
    date: int,
    api_key: Seq<char>,
    base: Seq<char>,
) -> Seq<char> {
    api_base + "/"@ + formatted_time(midnight(date), "%Y-%m-%d"@) + "?access_key="@ + api_key
        + "&base="@ + base
}

/// The address from which the primary service serves the days from a date on.
pub open spec fn range_url(api_base: Seq<char>, from_date: int, base: Seq<char>) -> Seq<char> {
    api_base + "/"@ + formatted_time(midnight(from_date), "%Y-%m-%d"@) + "..?base="@ + base
}

/// The characters of a text that may be missing.
pub open spec fn text_of(text: Option<&str>) -> Option<Seq<char>> {
    match text {
        Some(t) => Some(t@),
        None => None,
    }
}

/// The step that the state of the cache and of the settings asks for: what
/// the cache holds for the day is read, and only a day that it does not hold
/// is fetched, which takes an access key.
pub open spec fn fallback_plan(
    date: int,
    base: Option<&str>,
    cached: Option<Seq<char>>,
    api_key: Option<&str>,
    api_base: Seq<char>,
) -> Result<FallbackPlan, FetchFailure> {
    match cached {
        Some(payload) => match parsed_fallback(payload) {
            Ok(snapshot) => Ok(FallbackPlan::Found(snapshot)),
            Err(failure) => Err(FetchFailure::Parse(failure)),
        },
        None => match api_key {
            None => Err(FetchFailure::MissingKey),
            Some(key) => Ok(
                FallbackPlan::Fetch(fallback_url(api_base, date, key@, base_or_default(base))),
            ),
        },
    }
}

/// Whether a cache and a result are what reading a fallback payload, and
/// storing it if it can be read, comes to. The payload is stored under the
/// day and the base that it reports itself; nothing else in the cache
/// changes, and nothing at all where the payload cannot be read.
pub open spec fn stores_what_reads(
    before: RateCache,
    after: RateCache,
    payload: Seq<char>,
    result: Result<ExchangeRateMap, FetchExchangeRateError>,
) -> bool {
    match result {
        Ok(snapshot) => {
            &&& parsed_fallback(payload) == Ok::<RateSnapshot, ParserFailure>(snapshot@)
            &&& after.records@.len() == before.records@.len() + 1
            &&& after.records@.drop_last() == before.records@
            &&& after.records@.last().date == snapshot.day()
            &&& after.records@.last().base@ == snapshot.base@
            &&& after.records@.last().raw_payload@ == payload
            &&& after.payload(snapshot.day()) == Some(payload)
        },
        Err(error) => {
            &&& parsed_fallback(payload) is Err
            &&& error@ == FetchFailure::Parse(parsed_fallback(payload)->Err_0)
            &&& after == before
        },
    }
}

/// The base currency of a request to the primary service: the code that was
/// named, else EUR, in upper case.
pub fn request_base(base: Option<&str>) -> (r: String)
    ensures
        r@ == uppercase(base_or_default(base)),
{
    match base {
        Some(code) => to_uppercase(code),
        None => to_uppercase("EUR"),
    }
}

/// The address that serves the days from `from_date` on against `base`.
pub fn rates_url(api_base: &str, from_date: i64, base: &str) -> (r: String)
    requires
        representable_day(from_date as int),
    ensures
        r@ == range_url(api_base@, from_date as int, base@),
{
    let mut url = join(api_base, "/");
    url.append(day_text(from_date).as_str());
    url.append("..?base=");
    url.append(base);
    url
}

/// The error for an answer whose status is no success.
pub fn request_failure(status: &str, url: &str) -> (r: FetchExchangeRateError)
    ensures
        r@ == FetchFailure::Request(
            "Request failed with status: "@ + status@ + ", URL: "@ + url@,
        ),
{
    let mut message = join("Request failed with status: ", status);
    message.append(", URL: ");
    message.append(url);
    FetchExchangeRateError::RequestError(message)
}

impl ExchangeRateMap {
    /// Decides how one day that the primary service left out is to be had.
    /// `cached` is the payload that the cache holds for the day, if any, and
    /// `api_key` the access key of the fallback service, if one is set. A day
    /// that the cache holds is read from it and never fetched.
    pub fn get_rate_fallback(
        date: i64,
        base: Option<&str>,
        cached: Option<&str>,
        api_key: Option<&str>,
        api_base: &str,
    ) -> (r: Result<FallbackStep, FetchExchangeRateError>)
        requires
            representable_day(date as int),
        ensures
            match r {
                Ok(step) => fallback_plan(date as int, base, text_of(cached), api_key, api_base@)
                    == Ok::<FallbackPlan, FetchFailure>(step@),
                Err(error) => fallback_plan(date as int, base, text_of(cached), api_key, api_base@)
                    == Err::<FallbackPlan, FetchFailure>(error@),
            },
            r matches Ok(FallbackStep::Found(snapshot)) ==> snapshot.well_formed(),
            cached is Some ==> !(r matches Ok(FallbackStep::Fetch(_))),
    {
        match cached {
            Some(payload) => match ExchangeRateMap::parse_fallback_json(payload) {
                Ok(snapshot) => Ok(FallbackStep::Found(snapshot)),
                Err(error) => Err(FetchExchangeRateError::ParseError(error)),
            },
            None => {
                let key = match api_key {
                    Some(key) => key,
                    None => {
                        return Err(FetchExchangeRateError::MissingKeyError);
                    },
                };
                let mut url = join(api_base, "/");
                url.append(day_text(date).as_str());
                url.append("?access_key=");
                url.append(key);
                url.append("&base=");
                match base {
                    Some(code) => url.append(code),
                    None => url.append("EUR"),
                }
                Ok(FallbackStep::Fetch(url))
            },
        }
    }

    /// Decides how one day that the primary service left out is to be had,
    /// given the cache. A day that the cache holds is never fetched.
    pub fn fetch_single(
        cache: &RateCache,
        date: i64,
        base: Option<&str>,
        api_key: Option<&str>,
        api_base: &str,
    ) -> (r: Result<FallbackStep, FetchExchangeRateError>)
        requires
            representable_day(date as int),
        ensures
            match r {
                Ok(step) => fallback_plan(
                    date as int,
                    base,
                    cache.payload(date as int),
                    api_key,
                    api_base@,
                ) == Ok::<FallbackPlan, FetchFailure>(step@),
                Err(error) => fallback_plan(
                    date as int,
                    base,
                    cache.payload(date as int),
                    api_key,
                    api_base@,
                ) == Err::<FallbackPlan, FetchFailure>(error@),
            },
            r matches Ok(FallbackStep::Found(snapshot)) ==> snapshot.well_formed(),
            cache.payload(date as int) is Some ==> !(r matches Ok(FallbackStep::Fetch(_))),
    {
        ExchangeRateMap::get_rate_fallback(date, base, cache.get(date), api_key, api_base)
    }

    /// Reads the payload that the fallback service sent and, if it can be
    /// read, stores it in the cache under the day that the payload itself
    /// reports, which need not be the day that was asked for. A payload that
    /// cannot be read is not stored.
    pub fn store_fallback_response(cache: &mut RateCache, payload: &str) -> (r: Result<
        ExchangeRateMap,
        FetchExchangeRateError,
    >)
        ensures
            stores_what_reads(*old(cache), *final(cache), payload@, r),
            r matches Ok(snapshot) ==> snapshot.well_formed(),
    {
        match ExchangeRateMap::from_fallback_response(payload) {
            Ok(snapshot) => {
                cache.put(snapshot.get_date(), snapshot.base.as_str(), payload);
                Ok(snapshot)
            },
            Err(error) => Err(error),
        }
    }

    /// Reads the payload that the fallback service sent. The caller stores
    /// the payload under the instant of the snapshot that comes back.
    pub fn from_fallback_response(payload: &str) -> (r: Result<
        ExchangeRateMap,
        FetchExchangeRateError,
    >)
        ensures
            match r {
                Ok(snapshot) => parsed_fallback(payload@) == Ok::<RateSnapshot, ParserFailure>(
                    snapshot@,
                ) && snapshot.well_formed(),
                Err(error) => parsed_fallback(payload@) is Err && error@ == FetchFailure::Parse(
                    parsed_fallback(payload@)->Err_0,
                ),
            },
    {
        match ExchangeRateMap::parse_fallback_json(payload) {
            Ok(snapshot) => Ok(snapshot),
            Err(error) => Err(FetchExchangeRateError::ParseError(error)),
        }
    }

    /// Reads the payload that the primary service sent for a base.
    pub fn from_range_response(payload: &str, base: &str) -> (r: Result<
        Vec<ExchangeRateMap>,
        FetchExchangeRateError,
    >)
        ensures
            match r {
                Ok(series) => parsed_range(payload@, base@) == Ok::<
                    Seq<RateSnapshot>,
                    ParserFailure,
                >(snapshots(series@)) && is_series(snapshots(series@)) && all_well_formed(
                    snapshots(series@),
                ),
                Err(error) => parsed_range(payload@, base@) is Err && error@
                    == FetchFailure::Parse(parsed_range(payload@, base@)->Err_0),
            },
    {
        match ExchangeRateMap::parse_range_json(payload, base) {
            Ok(series) => Ok(series),
            Err(error) => Err(FetchExchangeRateError::ParseError(error)),
        }
    }

    /// Takes what fetching from the primary service came to, the payload or
    /// the failure of the transport. Any failure, that of reading the payload
    /// included, ends the resolution.
    pub fn from_primary(fetched: Result<String, FetchExchangeRateError>, base: &str) -> (r: Result<
        Vec<ExchangeRateMap>,
        GetRatesError,
    >)
        ensures
            match r {
                Ok(series) => primary_outcome(fetched, base@) == Ok::<
                    Seq<RateSnapshot>,
                    ResolutionFailure,
                >(snapshots(series@)) && is_series(snapshots(series@)) && all_well_formed(
                    snapshots(series@),
                ),
                Err(error) => primary_outcome(fetched, base@) == Err::<
                    Seq<RateSnapshot>,
                    ResolutionFailure,
                >(error@),
            },
    {
        match fetched {
            Ok(payload) => match ExchangeRateMap::from_range_response(payload.as_str(), base) {
                Ok(series) => Ok(series),
                Err(error) => Err(GetRatesError::RemoteError(error)),
            },
            Err(error) => Err(GetRatesError::RemoteError(error)),
        }
    }

    /// Merges what the primary service sent with the outcomes of the fallback
    /// requests into one series. A request that failed leaves its day out; it
    /// does not fail the resolution.
    pub fn get_rates(
        primary: Vec<ExchangeRateMap>,
        outcomes: Vec<Result<ExchangeRateMap, FetchExchangeRateError>>,
    ) -> (r: Vec<ExchangeRateMap>)
        ensures
            snapshots(r@) == resolved(snapshots(primary@), successes(outcomes@)),
            is_series(snapshots(r@)),
            all_well_formed(snapshots(primary@)) && all_well_formed(successes(outcomes@))
                ==> all_well_formed(snapshots(r@)),
    {
        let ghost given = snapshots(primary@);
        let ghost sent = outcomes@;
        let mut series: Vec<ExchangeRateMap> = Vec::new();
        assert(snapshots(series@) =~= Seq::<RateSnapshot>::empty());
        assert(given.take(0) =~= Seq::<RateSnapshot>::empty());
        for snapshot in it: primary
            invariant
                it.seq() == primary@,
                given == snapshots(primary@),
                snapshots(series@) == keyed(given.take(it.index())),
                is_series(snapshots(series@)),
                all_well_formed(given) ==> all_well_formed(snapshots(series@)),
        {
            proof {
                let k = it.index();
                assert(given.take(k + 1).drop_last() =~= given.take(k));
                assert(given.take(k + 1).last() == snapshot@);
                if all_well_formed(given) {
                    assert(well_formed(given[k]));
                    lemma_placed_well_formed(snapshots(series@), snapshot@, true);
                }
            }
            place(&mut series, snapshot, true);
        }
        assert(given.take(given.len() as int) =~= given);
        assert(sent.take(0) =~= Seq::<Result<ExchangeRateMap, FetchExchangeRateError>>::empty());
        for outcome in it: outcomes
            invariant
                it.seq() == outcomes@,
                sent == outcomes@,
                snapshots(series@) == placed_all(
                    keyed(given),
                    successes(sent.take(it.index())),
                    false,
                ),
                is_series(snapshots(series@)),
                all_well_formed(given) && all_well_formed(successes(sent)) ==> all_well_formed(
                    snapshots(series@),
                ),
        {
            proof {
                let k = it.index();
                assert(sent.take(k + 1).drop_last() =~= sent.take(k));
                assert(sent.take(k + 1).last() == outcome);
            }
            match outcome {
                Ok(snapshot) => {
                    proof {
                        let k = it.index();
                        let fills = successes(sent.take(k + 1));
                        assert(fills.drop_last() =~= successes(sent.take(k)));
                        if all_well_formed(given) && all_well_formed(successes(sent)) {
                            lemma_successes_prefix(sent, k + 1);
                            assert(well_formed(fills[fills.len() - 1]));
                            lemma_placed_well_formed(snapshots(series@), snapshot@, false);
                        }
                    }
                    place(&mut series, snapshot, false);
                },
                Err(_) => {},
            }
        }
        assert(sent.take(sent.len() as int) =~= sent);
        series
    }
}

/// The successes of the first outcomes are the first of all the successes.
pub proof fn lemma_successes_prefix(
    outcomes: Seq<Result<ExchangeRateMap, FetchExchangeRateError>>,
    upto: int,
)
    requires
        0 <= upto <= outcomes.len(),
    ensures
        successes(outcomes.take(upto)).is_prefix_of(successes(outcomes)),
    decreases outcomes.len() - upto,
{
    if upto == outcomes.len() {
        assert(outcomes.take(upto) =~= outcomes);
    } else {
        assert(outcomes.take(upto + 1).drop_last() =~= outcomes.take(upto));
        lemma_successes_prefix(outcomes, upto + 1);
    }
}

} // verus!
