//! Reading the payloads of the two rate services.
//!
//! The fallback service sends one snapshot: a `timestamp`, a `base` and
//! `rates`. The primary service sends `rates` for a range of days, one object
//! of rates under the date of each day. A payload is read whole or not at
//! all: the first thing that is missing or misshapen is reported.

use vstd::prelude::*;
use vstd::string::*;
use crate::calendar::{is_representable, parse_rfc3339, representable, rfc3339_instant};
use crate::exchange_rate::{
    rate_table, CurrencyRate, ExchangeRateMap, ExchangeRateParserError, ParserFailure,
    RateSnapshot,
};
use crate::json::{
    json_document, object_member, read_document, signed_member, text_member, JsonMember,
    JsonValue,
};
use crate::series::{
    all_well_formed, is_series, lemma_placed_well_formed, place, placed, snapshots,
};
use crate::text::{join, same_text};

verus! {

/// The table that the members of a JSON object describe: each member is a
/// rate, and a member for the base itself is left out. A member that is no
/// number makes the whole object unusable; the first such member's key is
/// reported.
pub open spec fn member_rates(members: Seq<JsonMember>, base: Seq<char>) -> Result<
    Map<Seq<char>, u64>,
    Seq<char>,
>
    decreases members.len(),
{
    if members.len() == 0 {
        Ok(Map::empty())
    } else {
        match member_rates(members.drop_last(), base) {
            Err(key) => Err(key),
            Ok(table) => match members.last().value.real_bits() {
                None => Err(members.last().key@),
                Some(bits) => Ok(
                    if members.last().key@ == base {
                        table
                    } else {
                        table.insert(members.last().key@, bits)
                    },
                ),
            },
        }
    }
}

/// A member that is no number spoils every longer list of members too.
proof fn lemma_member_rates_error_stays(members: Seq<JsonMember>, base: Seq<char>, upto: int)
    requires
        0 <= upto <= members.len(),
        member_rates(members.take(upto), base) is Err,
    ensures
        member_rates(members, base) == member_rates(members.take(upto), base),
    decreases members.len() - upto,
{
    if upto == members.len() {
        assert(members.take(upto) =~= members);
    } else {
        assert(members.take(upto + 1).drop_last() =~= members.take(upto));
        lemma_member_rates_error_stays(members, base, upto + 1);
    }
}

/// Reads the rates that the members of a JSON object give.
pub fn rates_from_members(members: &Vec<JsonMember>, base: &str) -> (r: Result<
    Vec<CurrencyRate>,
    String,
>)
    ensures
        match r {
            Ok(list) => member_rates(members@, base@) == Ok::<Map<Seq<char>, u64>, Seq<char>>(
                rate_table(list@),
            ) && !rate_table(list@).contains_key(base@),
            Err(key) => member_rates(members@, base@) == Err::<Map<Seq<char>, u64>, Seq<char>>(
                key@,
            ),
        },
{
    let mut out: Vec<CurrencyRate> = Vec::new();
    let mut i: usize = 0;
    assert(members@.take(0) =~= Seq::<JsonMember>::empty());
    while i < members.len()
        invariant
            i <= members.len(),
            member_rates(members@.take(i as int), base@) == Ok::<Map<Seq<char>, u64>, Seq<char>>(
                rate_table(out@),
            ),
            !rate_table(out@).contains_key(base@),
        decreases members.len() - i,
    {
        assert(members@.take(i as int + 1).drop_last() =~= members@.take(i as int));
        match members[i].value.as_real_bits() {
            Some(bits) => {
                if !same_text(members[i].key.as_str(), base) {
                    let ghost before = out@;
                    out.push(CurrencyRate { code: members[i].key.clone(), bits });
                    assert(out@.drop_last() =~= before);
                }
            },
            None => {
                proof {
                    lemma_member_rates_error_stays(members@, base@, i as int + 1);
                }
                return Err(members[i].key.clone());
            },
        }
        i += 1;
    }
    assert(members@.take(members@.len() as int) =~= members@);
    Ok(out)
}

/// The snapshot that a document of the fallback service holds: its
/// `timestamp`, an instant that `chrono` can hold; its `base`; and its
/// `rates`. What is missing or misshapen is reported in this order, together
/// with the payload.
pub open spec fn fallback_snapshot(text: Seq<char>, document: JsonValue) -> Result<
    RateSnapshot,
    ParserFailure,
> {
    let instant = signed_member(document, "timestamp"@);
    let base = text_member(document, "base"@);
    let members = object_member(document, "rates"@);
    if instant is None || !representable(instant->0 as int) {
        Err(ParserFailure::Shape("JSON in wrong shape (datetime): "@ + text))
    } else if base is None {
        Err(ParserFailure::Shape("JSON in wrong shape (base): "@ + text))
    } else if members is None {
        Err(ParserFailure::Shape("JSON in wrong shape (map): "@ + text))
    } else {
        match member_rates(members->0, base->0) {
            Err(key) => Err(
                ParserFailure::Shape("JSON in wrong shape (map item): ["@ + key + "]"@),
            ),
            Ok(table) => Ok(
                RateSnapshot { datetime: instant->0 as int, base: base->0, rates: table },
            ),
        }
    }
}

/// What a payload of the fallback service reads as.
pub open spec fn parsed_fallback(text: Seq<char>) -> Result<RateSnapshot, ParserFailure> {
    match json_document(text) {
        Err(message) => Err(ParserFailure::Serde(message)),
        Ok(document) => fallback_snapshot(text, document),
    }
}

/// Whether a result is what reading a payload of the fallback service may
/// come to.
pub open spec fn reads_as(
    payload: Seq<char>,
    result: Result<ExchangeRateMap, ExchangeRateParserError>,
) -> bool {
    match result {
        Ok(snapshot) => parsed_fallback(payload) == Ok::<RateSnapshot, ParserFailure>(snapshot@),
        Err(error) => parsed_fallback(payload) == Err::<RateSnapshot, ParserFailure>(error@),
    }
}

/// The snapshot of one day of the primary service: the given instant, the
/// base that was asked for, and the rates of a JSON object.
pub open spec fn day_snapshot(instant: int, rates: JsonValue, base: Seq<char>) -> Result<
    RateSnapshot,
    ParserFailure,
> {
    match rates.members() {
        None => Err(ParserFailure::Shape("rate_map in wrong shape"@)),
        Some(members) => match member_rates(members, base) {
            Err(key) => Err(ParserFailure::Shape("Invalid value for key: "@ + key)),
            Ok(table) => Ok(RateSnapshot { datetime: instant, base: base, rates: table }),
        },
    }
}

/// The snapshot that one member of the primary service's `rates` gives. Its
/// key is a date; the instant is the start of that date in UTC, as `chrono`
/// reads it.
pub open spec fn member_snapshot(member: JsonMember, base: Seq<char>) -> Result<
    RateSnapshot,
    ParserFailure,
> {
    let stamp = member.key@ + "T00:00:00+00:00"@;
    match rfc3339_instant(stamp) {
        Err(description) => Err(
            ParserFailure::Shape("Invalid date ("@ + stamp + "): "@ + description),
        ),
        Ok(instant) => day_snapshot(instant as int, member.value, base),
    }
}

/// The series that the members of the primary service's `rates` give, a later
/// member replacing an earlier one of the same day. The first member that
/// cannot be read is reported.
pub open spec fn range_series(members: Seq<JsonMember>, base: Seq<char>) -> Result<
    Seq<RateSnapshot>,
    ParserFailure,
>
    decreases members.len(),
{
    if members.len() == 0 {
        Ok(Seq::empty())
    } else {
        match range_series(members.drop_last(), base) {
            Err(failure) => Err(failure),
            Ok(series) => match member_snapshot(members.last(), base) {
                Err(failure) => Err(failure),
                Ok(snapshot) => Ok(placed(series, snapshot, true)),
            },
        }
    }
}

/// The series that a document of the primary service holds.
pub open spec fn document_series(document: JsonValue, base: Seq<char>) -> Result<
    Seq<RateSnapshot>,
    ParserFailure,
> {
    match object_member(document, "rates"@) {
        None => Err(ParserFailure::Shape("rates in wrong shape"@)),
        Some(members) => range_series(members, base),
    }
}

/// What a payload of the primary service reads as.
pub open spec fn parsed_range(text: Seq<char>, base: Seq<char>) -> Result<
    Seq<RateSnapshot>,
    ParserFailure,
> {
    match json_document(text) {
        Err(message) => Err(ParserFailure::Serde(message)),
        Ok(document) => document_series(document, base),
    }
}

/// Whether a result is what reading a payload of the primary service against
/// a base may come to.
pub open spec fn reads_as_range(
    payload: Seq<char>,
    base: Seq<char>,
    result: Result<Vec<ExchangeRateMap>, ExchangeRateParserError>,
) -> bool {
    match result {
        Ok(series) => parsed_range(payload, base) == Ok::<Seq<RateSnapshot>, ParserFailure>(
            snapshots(series@),
        ),
        Err(error) => parsed_range(payload, base) == Err::<Seq<RateSnapshot>, ParserFailure>(
            error@,
        ),
    }
}

/// A member that cannot be read spoils every longer list of members too.
proof fn lemma_range_series_error_stays(members: Seq<JsonMember>, base: Seq<char>, upto: int)
    requires
        0 <= upto <= members.len(),
        range_series(members.take(upto), base) is Err,
    ensures
        range_series(members, base) == range_series(members.take(upto), base),
    decreases members.len() - upto,
{
    if upto == members.len() {
        assert(members.take(upto) =~= members);
    } else {
        assert(members.take(upto + 1).drop_last() =~= members.take(upto));
        lemma_range_series_error_stays(members, base, upto + 1);
    }
}

impl ExchangeRateMap {
    /// Builds the snapshot that a document of the fallback service holds; the
    /// payload itself is quoted where the document cannot be used.
    pub fn from_fallback_document(json: &str, document: &JsonValue) -> (r: Result<
        ExchangeRateMap,
        ExchangeRateParserError,
    >)
        ensures
            match r {
                Ok(snapshot) => fallback_snapshot(json@, *document) == Ok::<
                    RateSnapshot,
                    ParserFailure,
                >(snapshot@) && snapshot.well_formed(),
                Err(error) => fallback_snapshot(json@, *document) == Err::<
                    RateSnapshot,
                    ParserFailure,
                >(error@),
            },
    {
        let instant = match document.get("timestamp") {
            Some(value) => value.as_i64(),
            None => None,
        };
        let datetime = match instant {
            Some(seconds) => seconds,
            None => {
                return Err(
                    ExchangeRateParserError::ShapeError(
                        join("JSON in wrong shape (datetime): ", json),
                    ),
                );
            },
        };
        if !is_representable(datetime) {
            return Err(
                ExchangeRateParserError::ShapeError(join("JSON in wrong shape (datetime): ", json)),
            );
        }
        let base_text = match document.get("base") {
            Some(value) => value.as_str(),
            None => None,
        };
        let base = match base_text {
            Some(text) => String::from_str(text),
            None => {
                return Err(
                    ExchangeRateParserError::ShapeError(join("JSON in wrong shape (base): ", json)),
                );
            },
        };
        let rates = match document.get("rates") {
            Some(value) => value.as_object(),
            None => None,
        };
        let members = match rates {
            Some(members) => members,
            None => {
                return Err(
                    ExchangeRateParserError::ShapeError(join("JSON in wrong shape (map): ", json)),
                );
            },
        };
        match rates_from_members(members, base.as_str()) {
            Ok(map) => Ok(ExchangeRateMap { datetime, base, map }),
            Err(key) => {
                let mut message = join("JSON in wrong shape (map item): [", key.as_str());
                message.append("]");
                Err(ExchangeRateParserError::ShapeError(message))
            },
        }
    }

    /// Reads a payload of the fallback service.
    pub fn parse_fallback_json(json: &str) -> (r: Result<
        ExchangeRateMap,
        ExchangeRateParserError,
    >)
        ensures
            reads_as(json@, r),
            r matches Ok(snapshot) ==> snapshot.well_formed(),
    {
        match read_document(json) {
            Ok(document) => ExchangeRateMap::from_fallback_document(json, &document),
            Err(message) => Err(ExchangeRateParserError::SerdeError(message)),
        }
    }

    /// Builds the snapshot of one day of the primary service from the instant
    /// at which the day starts and the JSON object of its rates.
    pub fn from_day_rates(instant: i64, rates: &JsonValue, base: &str) -> (r: Result<
        ExchangeRateMap,
        ExchangeRateParserError,
    >)
        ensures
            match r {
                Ok(snapshot) => day_snapshot(instant as int, *rates, base@) == Ok::<
                    RateSnapshot,
                    ParserFailure,
                >(snapshot@) && (representable(instant as int) ==> snapshot.well_formed()),
                Err(error) => day_snapshot(instant as int, *rates, base@) == Err::<
                    RateSnapshot,
                    ParserFailure,
                >(error@),
            },
    {
        let members = match rates.as_object() {
            Some(members) => members,
            None => {
                return Err(
                    ExchangeRateParserError::ShapeError(
                        String::from_str("rate_map in wrong shape"),
                    ),
                );
            },
        };
        match rates_from_members(members, base) {
            Ok(map) => Ok(ExchangeRateMap { datetime: instant, base: String::from_str(base), map }),
            Err(key) => Err(
                ExchangeRateParserError::ShapeError(join("Invalid value for key: ", key.as_str())),
            ),
        }
    }

    /// Builds the snapshot that one member of the primary service's `rates`
    /// gives.
    pub fn from_range_member(member: &JsonMember, base: &str) -> (r: Result<
        ExchangeRateMap,
        ExchangeRateParserError,
    >)
        ensures
            match r {
                Ok(snapshot) => member_snapshot(*member, base@) == Ok::<
                    RateSnapshot,
                    ParserFailure,
                >(snapshot@) && snapshot.well_formed(),
                Err(error) => member_snapshot(*member, base@) == Err::<
                    RateSnapshot,
                    ParserFailure,
                >(error@),
            },
    {
        let stamp = join(member.key.as_str(), "T00:00:00+00:00");
        match parse_rfc3339(stamp.as_str()) {
            Ok(instant) => ExchangeRateMap::from_day_rates(instant, &member.value, base),
            Err(description) => {
                let mut message = join("Invalid date (", stamp.as_str());
                message.append("): ");
                message.append(description.as_str());
                Err(ExchangeRateParserError::ShapeError(message))
            },
        }
    }

    /// Builds the series that a document of the primary service holds.
    pub fn from_range_document(document: &JsonValue, base: &str) -> (r: Result<
        Vec<ExchangeRateMap>,
        ExchangeRateParserError,
    >)
        ensures
            match r {
                Ok(series) => document_series(*document, base@) == Ok::<
                    Seq<RateSnapshot>,
                    ParserFailure,
                >(snapshots(series@)) && is_series(snapshots(series@)) && all_well_formed(
                    snapshots(series@),
                ),
                Err(error) => document_series(*document, base@) == Err::<
                    Seq<RateSnapshot>,
                    ParserFailure,
                >(error@),
            },
    {
        let rates = match document.get("rates") {
            Some(value) => value.as_object(),
            None => None,
        };
        let members = match rates {
            Some(members) => members,
            None => {
                return Err(
                    ExchangeRateParserError::ShapeError(String::from_str("rates in wrong shape")),
                );
            },
        };
        let mut series: Vec<ExchangeRateMap> = Vec::new();
        let mut i: usize = 0;
        assert(members@.take(0) =~= Seq::<JsonMember>::empty());
        assert(snapshots(series@) =~= Seq::<RateSnapshot>::empty());
        while i < members.len()
            invariant
                i <= members.len(),
                document_series(*document, base@) == range_series(members@, base@),
                range_series(members@.take(i as int), base@) == Ok::<
                    Seq<RateSnapshot>,
                    ParserFailure,
                >(snapshots(series@)),
                is_series(snapshots(series@)),
                all_well_formed(snapshots(series@)),
            decreases members.len() - i,
        {
            assert(members@.take(i as int + 1).drop_last() =~= members@.take(i as int));
            match ExchangeRateMap::from_range_member(&members[i], base) {
                Ok(snapshot) => {
                    proof {
                        lemma_placed_well_formed(snapshots(series@), snapshot@, true);
                    }
                    place(&mut series, snapshot, true);
                },
                Err(error) => {
                    proof {
                        lemma_range_series_error_stays(members@, base@, i as int + 1);
                    }
                    return Err(error);
                },
            }
            i += 1;
        }
        assert(members@.take(members@.len() as int) =~= members@);
        Ok(series)
    }

    /// Reads a payload of the primary service into a series of snapshots
    /// against the base that was asked for.
    pub fn parse_range_json(json: &str, base: &str) -> (r: Result<
        Vec<ExchangeRateMap>,
        ExchangeRateParserError,
    >)
        ensures
            reads_as_range(json@, base@, r),
            r matches Ok(series) ==> is_series(snapshots(series@)) && all_well_formed(
                snapshots(series@),
            ),
    {
        match read_document(json) {
            Ok(document) => ExchangeRateMap::from_range_document(&document, base),
            Err(message) => Err(ExchangeRateParserError::SerdeError(message)),
        }
    }
}

/// Reading a payload is a function of its text: two readings of one payload
/// both succeed or both fail, and they come to the same snapshot or to the
/// same error.
pub proof fn lemma_reading_repeats(
    payload: Seq<char>,
    first: Result<ExchangeRateMap, ExchangeRateParserError>,
    second: Result<ExchangeRateMap, ExchangeRateParserError>,
)
    requires
        reads_as(payload, first),
        reads_as(payload, second),
    ensures
        first is Ok <==> second is Ok,
        first is Ok ==> first->Ok_0@ == second->Ok_0@,
        first is Err ==> first->Err_0@ == second->Err_0@,
{
}

/// Reading a payload of the primary service is a function of its text and of
/// the base: two readings come to the same series or to the same error.
pub proof fn lemma_reading_range_repeats(
    payload: Seq<char>,
    base: Seq<char>,
    first: Result<Vec<ExchangeRateMap>, ExchangeRateParserError>,
    second: Result<Vec<ExchangeRateMap>, ExchangeRateParserError>,
)
    requires
        reads_as_range(payload, base, first),
        reads_as_range(payload, base, second),
    ensures
        first is Ok <==> second is Ok,
        first is Ok ==> snapshots(first->Ok_0@) == snapshots(second->Ok_0@),
        first is Err ==> first->Err_0@ == second->Err_0@,
{
}

} // verus!
