//! What a resolved series is sure to hold.
//!
//! The laws of this module speak of the snapshots that the primary service
//! sent for a window of days, and of the outcomes of the fallback requests,
//! one for each day that the primary service left out, today first. They say
//! which snapshot the resolved series holds for a day, and which days of the
//! window it holds at all.

use vstd::prelude::*;
use crate::exchange_rate::{ExchangeRateMap, FetchExchangeRateError, RateSnapshot};
use crate::resolution::{keyed, missing_days, resolved, successes};
use crate::series::{
    day, has_day, is_series, lemma_on_day_finds, lemma_placed, on_day, placed, placed_all,
};

verus! {

/// Whether each fallback request that was served was served with a snapshot
/// of the very day it asked for, the requests being those for `asked`.
pub open spec fn served_as_asked(
    outcomes: Seq<Result<ExchangeRateMap, FetchExchangeRateError>>,
    asked: Seq<int>,
) -> bool {
    &&& outcomes.len() == asked.len()
    &&& forall|i: int|
        0 <= i < outcomes.len() ==> ((#[trigger] outcomes[i]) matches Ok(snapshot) ==> day(
            snapshot@,
        ) == asked[i])
}

/// Whether the request for the day `d` failed.
pub open spec fn failed_on(
    outcomes: Seq<Result<ExchangeRateMap, FetchExchangeRateError>>,
    asked: Seq<int>,
    d: int,
) -> bool {
    exists|i: int|
        0 <= i < outcomes.len() && i < asked.len() && asked[i] == d && (
        #[trigger] outcomes[i]) is Err
}

/// The days that are asked of the fallback service are the days of the window
/// that the primary service left out, each once, the latest first.
pub proof fn lemma_missing_days(primary: Seq<RateSnapshot>, from: int, today: int)
    ensures
        forall|d: int|
            #[trigger] missing_days(primary, from, today).contains(d) <==> (from <= d <= today
                && !has_day(primary, d)),
        forall|i: int, j: int|
            0 <= i < j < missing_days(primary, from, today).len() ==> missing_days(
                primary,
                from,
                today,
            )[i] > missing_days(primary, from, today)[j],
    decreases today - from + 1,
{
    let all = missing_days(primary, from, today);
    if today >= from {
        let rest = missing_days(primary, from, today - 1);
        lemma_missing_days(primary, from, today - 1);
        if !has_day(primary, today) {
            assert(all[0] == today);
            assert forall|d: int| #[trigger] all.contains(d) implies (from <= d <= today
                && !has_day(primary, d)) by {
                let i = choose|i: int| 0 <= i < all.len() && all[i] == d;
                if i > 0 {
                    assert(rest.contains(d));
                }
            }
            assert forall|d: int|
                from <= d <= today && !has_day(primary, d) implies #[trigger] all.contains(d) by {
                if d != today {
                    assert(rest.contains(d));
                    let i = choose|i: int| 0 <= i < rest.len() && rest[i] == d;
                    assert(all[i + 1] == d);
                }
            }
            assert forall|i: int, j: int| 0 <= i < j < all.len() implies all[i] > all[j] by {
                assert(rest.contains(all[j]));
            }
        }
    }
}

/// A list that grew by one snapshot holds the days it held, and the day of
/// that snapshot.
proof fn lemma_has_day_push(list: Seq<RateSnapshot>, last: RateSnapshot, d: int)
    ensures
        has_day(list.push(last), d) <==> (has_day(list, d) || day(last) == d),
{
    let grown = list.push(last);
    if has_day(list, d) {
        let i = choose|i: int| 0 <= i < list.len() && day(#[trigger] list[i]) == d;
        assert(day(grown[i]) == d);
    }
    if day(last) == d {
        assert(day(grown[list.len() as int]) == d);
    }
}

/// Putting a list of snapshots into a series adds the days of the list to the
/// days of the series, and no others.
pub proof fn lemma_placed_all_days(
    series: Seq<RateSnapshot>,
    list: Seq<RateSnapshot>,
    replace: bool,
    d: int,
)
    requires
        is_series(series),
    ensures
        is_series(placed_all(series, list, replace)),
        has_day(placed_all(series, list, replace), d) <==> (has_day(series, d) || has_day(list, d)),
    decreases list.len(),
{
    if list.len() > 0 {
        let before = placed_all(series, list.drop_last(), replace);
        lemma_placed_all_days(series, list.drop_last(), replace, d);
        lemma_placed(before, list.last(), replace);
        let after = placed(before, list.last(), replace);
        lemma_on_day_finds(before, d);
        lemma_on_day_finds(after, d);
        assert(list.drop_last().push(list.last()) =~= list);
        lemma_has_day_push(list.drop_last(), list.last(), d);
    }
}

/// The successes hold a day exactly when some request was served with a
/// snapshot of that day.
pub proof fn lemma_successes_days(
    outcomes: Seq<Result<ExchangeRateMap, FetchExchangeRateError>>,
    d: int,
)
    ensures
        has_day(successes(outcomes), d) <==> (exists|i: int|
            0 <= i < outcomes.len() && ((#[trigger] outcomes[i]) matches Ok(snapshot) && day(
                snapshot@,
            ) == d)),
    decreases outcomes.len(),
{
    if outcomes.len() > 0 {
        let before = outcomes.drop_last();
        lemma_successes_days(before, d);
        let served = exists|i: int|
            0 <= i < outcomes.len() && ((#[trigger] outcomes[i]) matches Ok(snapshot) && day(
                snapshot@,
            ) == d);
        let served_before = exists|i: int|
            0 <= i < before.len() && ((#[trigger] before[i]) matches Ok(snapshot) && day(
                snapshot@,
            ) == d);
        let last_serves = outcomes.last() matches Ok(snapshot) && day(snapshot@) == d;
        assert(served <==> (served_before || last_serves)) by {
            if served {
                let i = choose|i: int|
                    0 <= i < outcomes.len() && ((#[trigger] outcomes[i]) matches Ok(snapshot)
                        && day(snapshot@) == d);
                if i < before.len() {
                    assert(before[i] == outcomes[i]);
                }
            }
        }
        match outcomes.last() {
            Ok(snapshot) => {
                lemma_has_day_push(successes(before), snapshot@, d);
            },
            Err(_) => {},
        }
    }
}

/// Which days of the window a resolved series holds: every day but those
/// whose fallback request failed. The series is strictly increasing by day,
/// so it holds each of these days once.
pub proof fn lemma_resolved_days(
    primary: Seq<RateSnapshot>,
    outcomes: Seq<Result<ExchangeRateMap, FetchExchangeRateError>>,
    from: int,
    today: int,
    d: int,
)
    requires
        served_as_asked(outcomes, missing_days(primary, from, today)),
        from <= d <= today,
    ensures
        is_series(resolved(primary, successes(outcomes))),
        has_day(resolved(primary, successes(outcomes)), d) <==> !failed_on(
            outcomes,
            missing_days(primary, from, today),
            d,
        ),
{
    let asked = missing_days(primary, from, today);
    let fills = successes(outcomes);
    lemma_placed_all_days(Seq::empty(), primary, true, d);
    lemma_placed_all_days(keyed(primary), fills, false, d);
    assert(!has_day(Seq::<RateSnapshot>::empty(), d));
    lemma_successes_days(outcomes, d);
    lemma_missing_days(primary, from, today);
    if has_day(primary, d) {
        assert(!asked.contains(d));
        if failed_on(outcomes, asked, d) {
            let i = choose|i: int|
                0 <= i < outcomes.len() && i < asked.len() && asked[i] == d && (
                #[trigger] outcomes[i]) is Err;
            assert(asked.contains(d));
        }
    } else {
        assert(asked.contains(d));
        let k = choose|k: int| 0 <= k < asked.len() && asked[k] == d;
        assert forall|i: int| 0 <= i < asked.len() && asked[i] == d implies i == k by {
            if i < k {
                assert(asked[i] > asked[k]);
            } else if i > k {
                assert(asked[k] > asked[i]);
            }
        }
        match outcomes[k] {
            Ok(snapshot) => {
                assert(day(snapshot@) == d);
                if failed_on(outcomes, asked, d) {
                    let i = choose|i: int|
                        0 <= i < outcomes.len() && i < asked.len() && asked[i] == d && (
                        #[trigger] outcomes[i]) is Err;
                    assert(i == k);
                }
            },
            Err(_) => {
                assert(failed_on(outcomes, asked, d));
                if has_day(fills, d) {
                    let i = choose|i: int|
                        0 <= i < outcomes.len() && ((#[trigger] outcomes[i]) matches Ok(snapshot)
                            && day(snapshot@) == d);
                    assert(asked[i] == d);
                    assert(i == k);
                }
            },
        }
    }
}

/// Where the fallback service serves every day that the primary service left
/// out, the resolved series holds every day of the window, each once, in
/// ascending order.
pub proof fn lemma_resolution_complete(
    primary: Seq<RateSnapshot>,
    outcomes: Seq<Result<ExchangeRateMap, FetchExchangeRateError>>,
    from: int,
    today: int,
)
    requires
        served_as_asked(outcomes, missing_days(primary, from, today)),
        forall|i: int| 0 <= i < outcomes.len() ==> (#[trigger] outcomes[i]) is Ok,
    ensures
        is_series(resolved(primary, successes(outcomes))),
        forall|d: int|
            from <= d <= today ==> #[trigger] has_day(resolved(primary, successes(outcomes)), d),
{
    lemma_placed_all_days(Seq::empty(), primary, true, 0);
    lemma_placed_all_days(keyed(primary), successes(outcomes), false, 0);
    assert forall|d: int| from <= d <= today implies #[trigger] has_day(
        resolved(primary, successes(outcomes)),
        d,
    ) by {
        lemma_resolved_days(primary, outcomes, from, today, d);
    }
}

/// Where the fallback service fails for a day, the resolved series leaves
/// that day out and still holds every day of the window for which no request
/// failed.
pub proof fn lemma_resolution_partial(
    primary: Seq<RateSnapshot>,
    outcomes: Seq<Result<ExchangeRateMap, FetchExchangeRateError>>,
    from: int,
    today: int,
    failed: int,
)
    requires
        served_as_asked(outcomes, missing_days(primary, from, today)),
        0 <= failed < outcomes.len(),
        outcomes[failed] is Err,
    ensures
        is_series(resolved(primary, successes(outcomes))),
        !has_day(
            resolved(primary, successes(outcomes)),
            missing_days(primary, from, today)[failed],
        ),
        forall|d: int|
            from <= d <= today && !failed_on(outcomes, missing_days(primary, from, today), d)
                ==> #[trigger] has_day(resolved(primary, successes(outcomes)), d),
{
    let asked = missing_days(primary, from, today);
    lemma_missing_days(primary, from, today);
    assert(asked.contains(asked[failed]));
    lemma_resolved_days(primary, outcomes, from, today, asked[failed]);
    assert forall|d: int|
        from <= d <= today && !failed_on(outcomes, asked, d) implies #[trigger] has_day(
        resolved(primary, successes(outcomes)),
        d,
    ) by {
        lemma_resolved_days(primary, outcomes, from, today, d);
    }
}

/// The last snapshot of a list that is of the given day.
pub open spec fn last_of_day(list: Seq<RateSnapshot>, d: int) -> Option<RateSnapshot>
    decreases list.len(),
{
    if list.len() == 0 {
        None
    } else if day(list.last()) == d {
        Some(list.last())
    } else {
        last_of_day(list.drop_last(), d)
    }
}

/// The first snapshot of a list that is of the given day.
pub open spec fn first_of_day(list: Seq<RateSnapshot>, d: int) -> Option<RateSnapshot>
    decreases list.len(),
{
    if list.len() == 0 {
        None
    } else if day(list[0]) == d {
        Some(list[0])
    } else {
        first_of_day(list.drop_first(), d)
    }
}

/// The first snapshot of a day in a list that grew at its end is the first
/// one of the list as it was, and only where there was none the one that
/// came.
proof fn lemma_first_of_day_push(list: Seq<RateSnapshot>, last: RateSnapshot, d: int)
    ensures
        first_of_day(list.push(last), d) == (if first_of_day(list, d) is Some {
            first_of_day(list, d)
        } else if day(last) == d {
            Some(last)
        } else {
            None
        }),
    decreases list.len(),
{
    let grown = list.push(last);
    if list.len() == 0 {
        assert(grown[0] == last);
        assert(grown.drop_first() =~= Seq::<RateSnapshot>::empty());
        assert(first_of_day(grown.drop_first(), d) is None);
    } else {
        assert(grown[0] == list[0]);
        assert(grown.drop_first() =~= list.drop_first().push(last));
        lemma_first_of_day_push(list.drop_first(), last, d);
    }
}

/// Which snapshot a resolved series holds for a day: the last one that the
/// primary service sent for the day; where it sent none, the first one that
/// the fallback service sent for the day; and none where neither sent one.
pub proof fn lemma_resolved_holds(primary: Seq<RateSnapshot>, fills: Seq<RateSnapshot>, d: int)
    ensures
        is_series(keyed(primary)),
        is_series(resolved(primary, fills)),
        on_day(keyed(primary), d) == last_of_day(primary, d),
        on_day(resolved(primary, fills), d) == (if last_of_day(primary, d) is Some {
            last_of_day(primary, d)
        } else {
            first_of_day(fills, d)
        }),
    decreases fills.len(), primary.len(),
{
    if fills.len() > 0 {
        let before = resolved(primary, fills.drop_last());
        lemma_resolved_holds(primary, fills.drop_last(), d);
        lemma_placed(before, fills.last(), false);
        assert(fills.drop_last().push(fills.last()) =~= fills);
        lemma_first_of_day_push(fills.drop_last(), fills.last(), d);
    } else if primary.len() > 0 {
        let before = keyed(primary.drop_last());
        lemma_resolved_holds(primary.drop_last(), fills, d);
        lemma_placed(before, primary.last(), true);
    }
}

} // verus!
