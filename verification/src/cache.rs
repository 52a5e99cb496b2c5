//! The rate cache: payloads that were fetched before, kept by day.
//!
//! The cache only grows. A day may be stored more than once; what is read is
//! what was stored last for the day.

use vstd::prelude::*;
use vstd::string::*;

verus! {

/// One stored payload: the day and the base it is for, and the text as it
/// came.
#[derive(Debug, Clone, PartialEq, Eq)]
pub struct CacheRecord {
    pub date: i64,
    pub base: String,
    pub raw_payload: String,
}

/// The payloads that were stored, in the order in which they came.
#[derive(Debug, Clone, PartialEq, Eq)]
pub struct RateCache {
    pub records: Vec<CacheRecord>,
}

/// The payload that was stored last for a day.
pub open spec fn latest_payload(records: Seq<CacheRecord>, date: int) -> Option<Seq<char>>
    decreases records.len(),
{
    if records.len() == 0 {
        None
    } else if records.last().date == date {
        Some(records.last().raw_payload@)
    } else {
        latest_payload(records.drop_last(), date)
    }
}

impl RateCache {
    /// The payload that the cache holds for a day.
    pub open spec fn payload(&self, date: int) -> Option<Seq<char>> {
        latest_payload(self.records@, date)
    }

    /// A cache that holds nothing.
    pub fn new() -> (r: RateCache)
        ensures
            r.records@.len() == 0,
            forall|date: int| r.payload(date) is None,
    {
        RateCache { records: Vec::new() }
    }

    /// Stores a payload for a day. Nothing that was stored before is lost,
    /// and for any other day the cache reads as before.
    pub fn put(&mut self, date: i64, base: &str, raw_payload: &str)
        ensures
            final(self).records@.len() == old(self).records@.len() + 1,
            final(self).records@.drop_last() == old(self).records@,
            final(self).records@.last().date == date,
            final(self).records@.last().base@ == base@,
            final(self).records@.last().raw_payload@ == raw_payload@,
            final(self).payload(date as int) == Some(raw_payload@),
            forall|other: int|
                other != date ==> #[trigger] final(self).payload(other) == old(self).payload(other),
    {
        let record = CacheRecord {
            date,
            base: String::from_str(base),
            raw_payload: String::from_str(raw_payload),
        };
        self.records.push(record);
    }

    /// Reads the payload that was stored last for a day.
    pub fn get(&self, date: i64) -> (r: Option<&str>)
        ensures
            match r {
                Some(payload) => self.payload(date as int) == Some(payload@),
                None => self.payload(date as int) is None,
            },
    {
        let mut i: usize = self.records.len();
        assert(self.records@.take(i as int) =~= self.records@);
        while i > 0
            invariant
                i <= self.records.len(),
                self.payload(date as int) == latest_payload(
                    self.records@.take(i as int),
                    date as int,
                ),
            decreases i,
        {
            i -= 1;
            assert(self.records@.take(i as int + 1).drop_last() =~= self.records@.take(i as int));
            if self.records[i].date == date {
                return Some(self.records[i].raw_payload.as_str());
            }
        }
        None
    }
}

} // verus!
