//! The data of the trend chart.
//!
//! The chart shows the rate of one pair over the days of a series. Which
//! points it shows, and in which order, is decided here; evaluating the rates
//! and drawing them is left to the caller.

use vstd::prelude::*;
use vstd::string::*;
use crate::exchange_rate::{pair_rate, ExchangeRateMap, PairRate, RateSnapshot};
use crate::series::{day, snapshots};
use crate::text::{join, to_uppercase, uppercase};

verus! {

/// Why no chart could be made.
#[derive(Debug, Clone, PartialEq, Eq)]
pub enum PlotError {
    FillError(String),
    DrawTextError(String),
    DrawBorderError(String),
    PresentError(String),
    BufferConversionError,
    PngEncodingError(String),
    IoError(String),
    /// No snapshot holds a rate for the pair, which is named as it was asked.
    NoDataError(String, String),
}

/// A plot error as a mathematical value.
pub enum PlotFailure {
    Fill(Seq<char>),
    DrawText(Seq<char>),
    DrawBorder(Seq<char>),
    Present(Seq<char>),
    BufferConversion,
    PngEncoding(Seq<char>),
    Io(Seq<char>),
    NoData(Seq<char>, Seq<char>),
}

impl View for PlotError {
    type V = PlotFailure;

    open spec fn view(&self) -> PlotFailure {
        match self {
            PlotError::FillError(message) => PlotFailure::Fill(message@),
            PlotError::DrawTextError(message) => PlotFailure::DrawText(message@),
            PlotError::DrawBorderError(message) => PlotFailure::DrawBorder(message@),
            PlotError::PresentError(message) => PlotFailure::Present(message@),
            PlotError::BufferConversionError => PlotFailure::BufferConversion,
            PlotError::PngEncodingError(message) => PlotFailure::PngEncoding(message@),
            PlotError::IoError(message) => PlotFailure::Io(message@),
            PlotError::NoDataError(from, to) => PlotFailure::NoData(from@, to@),
        }
    }
}

/// The text that describes a plot error.
pub open spec fn plot_failure_text(failure: PlotFailure) -> Seq<char> {
    match failure {
        PlotFailure::Fill(message) => "Failed to fill the drawing area: "@ + message,
        PlotFailure::DrawText(message) => "Failed to draw text: "@ + message,
        PlotFailure::DrawBorder(message) => "Failed to draw border: "@ + message,
        PlotFailure::Present(message) => "Failed to present the drawing area: "@ + message,
        PlotFailure::BufferConversion => "Failed to create image from raw buffer"@,
        PlotFailure::PngEncoding(message) => "Failed to encode PNG: "@ + message,
        PlotFailure::Io(message) => "I/O Error: "@ + message,
        PlotFailure::NoData(from, to) => "No data available from "@ + from + " to "@ + to,
    }
}

impl PlotError {
    /// Describes the error.
    pub fn message(&self) -> (r: String)
        ensures
            r@ == plot_failure_text(self@),
    {
        match self {
            PlotError::FillError(message) => join(
                "Failed to fill the drawing area: ",
                message.as_str(),
            ),
            PlotError::DrawTextError(message) => join("Failed to draw text: ", message.as_str()),
            PlotError::DrawBorderError(message) => join(
                "Failed to draw border: ",
                message.as_str(),
            ),
            PlotError::PresentError(message) => join(
                "Failed to present the drawing area: ",
                message.as_str(),
            ),
            PlotError::BufferConversionError => String::from_str(
                "Failed to create image from raw buffer",
            ),
            PlotError::PngEncodingError(message) => join(
                "Failed to encode PNG: ",
                message.as_str(),
            ),
            PlotError::IoError(message) => join("I/O Error: ", message.as_str()),
            PlotError::NoDataError(from, to) => {
                let mut text = join("No data available from ", from.as_str());
                text.append(" to ");
                text.append(to.as_str());
                text
            },
        }
    }
}

/// One point of the chart: a day and the rate of the pair on that day.
#[derive(Debug, Clone, Copy, PartialEq, Eq)]
pub struct TrendPoint {
    pub day: i64,
    pub rate: PairRate,
}

/// Whether some snapshot of a list holds a rate for the pair.
pub open spec fn has_pair(list: Seq<RateSnapshot>, from: Seq<char>, to: Seq<char>) -> bool {
    exists|i: int| 0 <= i < list.len() && pair_rate(#[trigger] list[i], from, to) is Some
}

/// The points of the snapshots that hold a rate for the pair, in the order of
/// the snapshots. A snapshot without such a rate gives no point.
pub open spec fn computable(list: Seq<RateSnapshot>, from: Seq<char>, to: Seq<char>) -> Seq<
    TrendPoint,
>
    decreases list.len(),
{
    if list.len() == 0 {
        Seq::empty()
    } else {
        let before = computable(list.drop_last(), from, to);
        match pair_rate(list.last(), from, to) {
            Some(rate) => before.push(TrendPoint { day: day(list.last()) as i64, rate: rate }),
            None => before,
        }
    }
}

/// How many points at the front of a list are of the day `d` or of an earlier
/// one: where a point of the day `d` goes behind them.
pub open spec fn slot(points: Seq<TrendPoint>, d: int) -> int
    decreases points.len(),
{
    if points.len() == 0 || points[0].day > d {
        0
    } else {
        1 + slot(points.drop_first(), d)
    }
}

/// The points in the order of their days, points of one day staying in the
/// order in which they came.
pub open spec fn by_day(points: Seq<TrendPoint>) -> Seq<TrendPoint>
    decreases points.len(),
{
    if points.len() == 0 {
        Seq::empty()
    } else {
        let before = by_day(points.drop_last());
        before.insert(slot(before, points.last().day as int), points.last())
    }
}

/// Whether the days of a list of points never go back.
pub open spec fn ascending(points: Seq<TrendPoint>) -> bool {
    forall|i: int, j: int| 0 <= i < j < points.len() ==> points[i].day <= points[j].day
}

/// In a list that never goes back, an index before which no day is later than
/// `d`, and at which the day is, is the slot of `d`.
pub proof fn lemma_slot_is(points: Seq<TrendPoint>, d: int, p: int)
    requires
        0 <= p <= points.len(),
        forall|j: int| 0 <= j < p ==> (#[trigger] points[j]).day <= d,
        p < points.len() ==> points[p].day > d,
    ensures
        slot(points, d) == p,
    decreases points.len(),
{
    if p > 0 {
        let rest = points.drop_first();
        assert(points[0].day <= d);
        assert forall|j: int| 0 <= j < p - 1 implies (#[trigger] rest[j]).day <= d by {
            assert(rest[j] == points[j + 1]);
        }
        if p - 1 < rest.len() {
            assert(rest[p - 1] == points[p]);
        }
        lemma_slot_is(rest, d, p - 1);
    }
}

/// The slot of a day lies within the list; before it no day is later, and the
/// day at it is.
pub proof fn lemma_slot_bounds(points: Seq<TrendPoint>, d: int)
    ensures
        0 <= slot(points, d) <= points.len(),
        forall|j: int| 0 <= j < slot(points, d) ==> (#[trigger] points[j]).day <= d,
        slot(points, d) < points.len() ==> points[slot(points, d)].day > d,
    decreases points.len(),
{
    if points.len() == 0 || points[0].day > d {
    } else {
        let rest = points.drop_first();
        lemma_slot_bounds(rest, d);
        assert forall|j: int| 0 <= j < slot(points, d) implies (#[trigger] points[j]).day
            <= d by {
            if j > 0 {
                assert(points[j] == rest[j - 1]);
            }
        }
        if slot(points, d) < points.len() {
            assert(points[slot(points, d)] == rest[slot(rest, d)]);
        }
    }
}

/// A point that is put into its slot leaves the days in order.
pub proof fn lemma_insert_ascending(points: Seq<TrendPoint>, point: TrendPoint)
    requires
        ascending(points),
    ensures
        ascending(points.insert(slot(points, point.day as int), point)),
{
    let p = slot(points, point.day as int);
    let after = points.insert(p, point);
    lemma_slot_bounds(points, point.day as int);
    assert forall|i: int, j: int| 0 <= i < j < after.len() implies after[i].day
        <= after[j].day by {
        if j < p {
            assert(points[i].day <= points[j].day);
        } else if j == p {
            assert(points[i].day <= point.day);
        } else if i < p {
            assert(points[i].day <= point.day);
            if j - 1 > p {
                assert(points[p].day <= points[j - 1].day);
            }
        } else if i == p {
            if j - 1 > p {
                assert(points[p].day <= points[j - 1].day);
            }
        } else {
            assert(points[i - 1].day <= points[j - 1].day);
        }
    }
}

/// Ordering the points by day loses none, adds none, and leaves the days in
/// order.
pub proof fn lemma_by_day(points: Seq<TrendPoint>)
    ensures
        ascending(by_day(points)),
        by_day(points).to_multiset() == points.to_multiset(),
        by_day(points).len() == points.len(),
    decreases points.len(),
{
    broadcast use vstd::seq_lib::group_to_multiset_ensures;

    if points.len() == 0 {
    } else {
        let before = by_day(points.drop_last());
        lemma_by_day(points.drop_last());
        lemma_slot_bounds(before, points.last().day as int);
        lemma_insert_ascending(before, points.last());
        assert(points.drop_last().push(points.last()) =~= points);
    }
}

/// The list of points is empty exactly where no snapshot holds a rate for the
/// pair.
pub proof fn lemma_computable_points(list: Seq<RateSnapshot>, from: Seq<char>, to: Seq<char>)
    ensures
        computable(list, from, to).len() > 0 <==> has_pair(list, from, to),
        computable(list, from, to).len() <= list.len(),
    decreases list.len(),
{
    if list.len() == 0 {
    } else {
        let before = list.drop_last();
        lemma_computable_points(before, from, to);
        if has_pair(list, from, to) {
            let i = choose|i: int|
                0 <= i < list.len() && pair_rate(#[trigger] list[i], from, to) is Some;
            if i < before.len() {
                assert(before[i] == list[i]);
            }
        }
        if has_pair(before, from, to) {
            let i = choose|i: int|
                0 <= i < before.len() && pair_rate(#[trigger] before[i], from, to) is Some;
            assert(list[i] == before[i]);
        }
        if pair_rate(list.last(), from, to) is Some {
            assert(list[list.len() - 1] == list.last());
        }
    }
}

/// The points of a chart for a pair whose two codes are written as the
/// snapshots write them.
pub fn points_of(rates: &Vec<ExchangeRateMap>, from: &str, to: &str) -> (r: Vec<TrendPoint>)
    ensures
        r@ == by_day(computable(snapshots(rates@), from@, to@)),
        r@.len() > 0 <==> has_pair(snapshots(rates@), from@, to@),
        ascending(r@),
{
    let ghost series = snapshots(rates@);
    let mut points: Vec<TrendPoint> = Vec::new();
    let mut i: usize = 0;
    assert(series.take(0) =~= Seq::<RateSnapshot>::empty());
    while i < rates.len()
        invariant
            i <= rates.len(),
            series == snapshots(rates@),
            points@ == by_day(computable(series.take(i as int), from@, to@)),
            ascending(points@),
        decreases rates.len() - i,
    {
        assert(series.take(i as int + 1).drop_last() =~= series.take(i as int));
        assert(series.take(i as int + 1).last() == rates@[i as int]@);
        match rates[i].pair_of(from, to) {
            Some(rate) => {
                let point = TrendPoint { day: rates[i].get_date(), rate };
                let ghost found = computable(series.take(i as int + 1), from@, to@);
                assert(found.drop_last() =~= computable(series.take(i as int), from@, to@));
                assert(found.last() == point);
                let mut p: usize = points.len();
                while p > 0 && points[p - 1].day > point.day
                    invariant
                        p <= points.len(),
                        forall|j: int| p <= j < points.len() ==> (#[trigger] points@[j]).day
                            > point.day,
                    decreases p,
                {
                    p -= 1;
                }
                proof {
                    assert forall|j: int| 0 <= j < p implies (#[trigger] points@[j]).day
                        <= point.day by {
                        assert(points@[j].day <= points@[p - 1].day);
                    }
                    lemma_slot_is(points@, point.day as int, p as int);
                    lemma_insert_ascending(points@, point);
                }
                points.insert(p, point);
            },
            None => {},
        }
        i += 1;
    }
    proof {
        assert(series.take(series.len() as int) =~= series);
        lemma_computable_points(series, from@, to@);
        lemma_by_day(computable(series, from@, to@));
    }
    points
}

/// The points of the trend chart of a pair, in the order of their days: one
/// for each snapshot that holds a rate for the pair. Where no snapshot does,
/// there is nothing to draw.
pub fn trend_points(rates: &Vec<ExchangeRateMap>, from: &str, to: &str) -> (r: Result<
    Vec<TrendPoint>,
    PlotError,
>)
    ensures
        r is Ok <==> has_pair(snapshots(rates@), uppercase(from@), uppercase(to@)),
        match r {
            Ok(points) => points@ == by_day(
                computable(snapshots(rates@), uppercase(from@), uppercase(to@)),
            ) && ascending(points@),
            Err(error) => error@ == PlotFailure::NoData(from@, to@),
        },
{
    let from_code = to_uppercase(from);
    let to_code = to_uppercase(to);
    let points = points_of(rates, from_code.as_str(), to_code.as_str());
    if points.len() == 0 {
        Err(PlotError::NoDataError(String::from_str(from), String::from_str(to)))
    } else {
        Ok(points)
    }
}

} // verus!
