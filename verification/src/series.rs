//! Rate series: snapshots in the order of their days, one for each day.

use vstd::prelude::*;
use crate::calendar::day_of;
use crate::exchange_rate::{well_formed, ExchangeRateMap, RateSnapshot};

verus! {

/// The day of a snapshot.
pub open spec fn day(snapshot: RateSnapshot) -> int {
    day_of(snapshot.datetime)
}

/// The mathematical values of a list of snapshots.
pub open spec fn snapshots(list: Seq<ExchangeRateMap>) -> Seq<RateSnapshot> {
    list.map_values(|s: ExchangeRateMap| s@)
}

/// A series is strictly increasing by day, so no day occurs twice.
pub open spec fn is_series(series: Seq<RateSnapshot>) -> bool {
    forall|i: int, j: int| 0 <= i < j < series.len() ==> day(series[i]) < day(series[j])
}

/// Whether some snapshot of a list is of the given day.
pub open spec fn has_day(list: Seq<RateSnapshot>, d: int) -> bool {
    exists|i: int| 0 <= i < list.len() && day(#[trigger] list[i]) == d
}

/// Whether every snapshot of a list is well formed.
pub open spec fn all_well_formed(list: Seq<RateSnapshot>) -> bool {
    forall|i: int| 0 <= i < list.len() ==> well_formed(#[trigger] list[i])
}

/// How many snapshots at the front of a list are of a day before `d`: in a
/// series, the place of the day `d`.
pub open spec fn position(series: Seq<RateSnapshot>, d: int) -> int
    decreases series.len(),
{
    if series.len() == 0 || day(series[0]) >= d {
        0
    } else {
        1 + position(series.drop_first(), d)
    }
}

/// The snapshot that a series holds for a day.
pub open spec fn on_day(series: Seq<RateSnapshot>, d: int) -> Option<RateSnapshot> {
    let p = position(series, d);
    if p < series.len() && day(series[p]) == d {
        Some(series[p])
    } else {
        None
    }
}

/// A series after a snapshot was put at the place of its day. Where the
/// series holds that day already, the snapshot replaces the one that is
/// there, or is dropped, as `replace` says.
pub open spec fn placed(series: Seq<RateSnapshot>, snapshot: RateSnapshot, replace: bool) -> Seq<
    RateSnapshot,
> {
    let p = position(series, day(snapshot));
    if p < series.len() && day(series[p]) == day(snapshot) {
        if replace {
            series.update(p, snapshot)
        } else {
            series
        }
    } else {
        series.insert(p, snapshot)
    }
}

/// A series after each snapshot of a list was put into it in turn.
pub open spec fn placed_all(
    series: Seq<RateSnapshot>,
    list: Seq<RateSnapshot>,
    replace: bool,
) -> Seq<RateSnapshot>
    decreases list.len(),
{
    if list.len() == 0 {
        series
    } else {
        placed(placed_all(series, list.drop_last(), replace), list.last(), replace)
    }
}

/// The place of a day lies within the list; before it every day is earlier,
/// and the day at it is not.
pub proof fn lemma_position_bounds(series: Seq<RateSnapshot>, d: int)
    ensures
        0 <= position(series, d) <= series.len(),
        forall|j: int| 0 <= j < position(series, d) ==> day(#[trigger] series[j]) < d,
        position(series, d) < series.len() ==> day(series[position(series, d)]) >= d,
    decreases series.len(),
{
    if series.len() == 0 || day(series[0]) >= d {
    } else {
        let rest = series.drop_first();
        lemma_position_bounds(rest, d);
        assert forall|j: int| 0 <= j < position(series, d) implies day(#[trigger] series[j])
            < d by {
            if j > 0 {
                assert(series[j] == rest[j - 1]);
            }
        }
        if position(series, d) < series.len() {
            assert(series[position(series, d)] == rest[position(rest, d)]);
        }
    }
}

/// An index before which every day is earlier than `d`, and at which the day
/// is not, is the place of `d`.
pub proof fn lemma_position_is(series: Seq<RateSnapshot>, d: int, p: int)
    requires
        0 <= p <= series.len(),
        forall|j: int| 0 <= j < p ==> day(#[trigger] series[j]) < d,
        p < series.len() ==> day(series[p]) >= d,
    ensures
        position(series, d) == p,
    decreases series.len(),
{
    if p == 0 {
    } else {
        let rest = series.drop_first();
        assert(day(series[0]) < d);
        assert forall|j: int| 0 <= j < p - 1 implies day(#[trigger] rest[j]) < d by {
            assert(rest[j] == series[j + 1]);
        }
        if p - 1 < rest.len() {
            assert(rest[p - 1] == series[p]);
        }
        lemma_position_is(rest, d, p - 1);
    }
}

/// In a series a day is present exactly where `on_day` finds it.
pub proof fn lemma_on_day_finds(series: Seq<RateSnapshot>, d: int)
    requires
        is_series(series),
    ensures
        has_day(series, d) <==> on_day(series, d) is Some,
        forall|i: int| 0 <= i < series.len() && day(#[trigger] series[i]) == d ==> on_day(series, d)
            == Some(series[i]),
{
    lemma_position_bounds(series, d);
    let p = position(series, d);
    assert forall|i: int| 0 <= i < series.len() && day(#[trigger] series[i]) == d implies i
        == p by {
        if i < p {
            assert(day(series[i]) < d);
        } else if i > p {
            assert(day(series[p]) < day(series[i]));
        }
    }
    if on_day(series, d) is Some {
        assert(day(series[p]) == d);
    }
}

/// Putting a snapshot into a series gives a series again. It holds the new
/// snapshot for its day, unless the day was there and is kept, and what the
/// series held for every other day.
pub proof fn lemma_placed(series: Seq<RateSnapshot>, snapshot: RateSnapshot, replace: bool)
    requires
        is_series(series),
    ensures
        is_series(placed(series, snapshot, replace)),
        forall|d: int|
            #![trigger on_day(placed(series, snapshot, replace), d)]
            on_day(placed(series, snapshot, replace), d) == (if d == day(snapshot) {
                if on_day(series, d) is Some && !replace {
                    on_day(series, d)
                } else {
                    Some(snapshot)
                }
            } else {
                on_day(series, d)
            }),
{
    let x = day(snapshot);
    let p = position(series, x);
    let after = placed(series, snapshot, replace);
    lemma_position_bounds(series, x);
    if p < series.len() && day(series[p]) == x {
        assert forall|i: int| 0 <= i < after.len() implies day(#[trigger] after[i]) == day(
            series[i],
        ) by {}
        assert(is_series(after)) by {
            assert forall|i: int, j: int| 0 <= i < j < after.len() implies day(after[i]) < day(
                after[j],
            ) by {
                assert(day(series[i]) < day(series[j]));
            }
        }
        assert forall|d: int| on_day(after, d) == (if d == x {
            if on_day(series, d) is Some && !replace {
                on_day(series, d)
            } else {
                Some(snapshot)
            }
        } else {
            on_day(series, d)
        }) by {
            lemma_position_bounds(series, d);
            let q = position(series, d);
            assert forall|j: int| 0 <= j < q implies day(#[trigger] after[j]) < d by {
                assert(day(series[j]) < d);
            }
            lemma_position_is(after, d, q);
        }
    } else {
        assert forall|j: int| p <= j < series.len() implies day(#[trigger] series[j]) > x by {
            if j > p {
                assert(day(series[p]) < day(series[j]));
            }
        }
        assert(is_series(after)) by {
            assert forall|i: int, j: int| 0 <= i < j < after.len() implies day(after[i]) < day(
                after[j],
            ) by {
                if j < p {
                    assert(day(series[i]) < day(series[j]));
                } else if j == p {
                    assert(day(series[i]) < x);
                } else if i < p {
                    assert(day(series[i]) < x);
                    assert(day(series[j - 1]) > x);
                } else if i == p {
                    assert(day(series[j - 1]) > x);
                } else {
                    assert(day(series[i - 1]) < day(series[j - 1]));
                }
            }
        }
        assert forall|d: int| on_day(after, d) == (if d == x {
            if on_day(series, d) is Some && !replace {
                on_day(series, d)
            } else {
                Some(snapshot)
            }
        } else {
            on_day(series, d)
        }) by {
            lemma_position_bounds(series, d);
            let q = position(series, d);
            if d <= x {
                if q > p {
                    assert(day(series[p]) < d);
                }
                assert forall|j: int| 0 <= j < q implies day(#[trigger] after[j]) < d by {
                    assert(day(series[j]) < d);
                }
                lemma_position_is(after, d, q);
            } else {
                if q < p {
                    assert(day(series[q]) < x);
                }
                assert forall|j: int| 0 <= j < q + 1 implies day(#[trigger] after[j]) < d by {
                    if j < p {
                        assert(day(series[j]) < x);
                    } else if j > p {
                        assert(day(series[j - 1]) < d);
                    }
                }
                lemma_position_is(after, d, q + 1);
            }
        }
    }
}

/// Putting a well-formed snapshot among well-formed ones leaves all of them
/// well formed.
pub proof fn lemma_placed_well_formed(
    series: Seq<RateSnapshot>,
    snapshot: RateSnapshot,
    replace: bool,
)
    requires
        all_well_formed(series),
        well_formed(snapshot),
    ensures
        all_well_formed(placed(series, snapshot, replace)),
{
    lemma_position_bounds(series, day(snapshot));
}

/// Puts a snapshot into a series at the place of its day.
pub fn place(series: &mut Vec<ExchangeRateMap>, snapshot: ExchangeRateMap, replace: bool)
    requires
        is_series(snapshots(old(series)@)),
    ensures
        snapshots(final(series)@) == placed(snapshots(old(series)@), snapshot@, replace),
        is_series(snapshots(final(series)@)),
{
    let ghost before = snapshots(series@);
    let target = snapshot.get_date();
    let mut p: usize = 0;
    while p < series.len() && series[p].get_date() < target
        invariant
            p <= series.len(),
            before == snapshots(series@),
            forall|j: int| 0 <= j < p ==> day(#[trigger] before[j]) < target,
        decreases series.len() - p,
    {
        p += 1;
    }
    proof {
        lemma_position_is(before, target as int, p as int);
        lemma_placed(before, snapshot@, replace);
    }
    if p < series.len() && series[p].get_date() == target {
        if replace {
            series.set(p, snapshot);
            assert(snapshots(series@) =~= before.update(p as int, snapshot@));
        }
    } else {
        series.insert(p, snapshot);
        assert(snapshots(series@) =~= before.insert(p as int, snapshot@));
    }
}

/// Whether every snapshot of a list is well formed.
pub fn are_well_formed(list: &Vec<ExchangeRateMap>) -> (r: bool)
    ensures
        r == all_well_formed(snapshots(list@)),
{
    let mut i: usize = 0;
    while i < list.len()
        invariant
            i <= list.len(),
            forall|j: int| 0 <= j < i ==> well_formed(#[trigger] snapshots(list@)[j]),
        decreases list.len() - i,
    {
        if !list[i].is_well_formed() {
            assert(!well_formed(snapshots(list@)[i as int]));
            return false;
        }
        i += 1;
    }
    true
}

} // verus!
