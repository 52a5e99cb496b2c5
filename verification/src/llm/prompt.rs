//! Composing the prompt for the narrative.
//!
//! The prompt compares the latest rate of a pair with the one before it. The
//! caller evaluates the two rates and their difference, which takes binary64
//! arithmetic, and hands them in as bit pattern and as text; which template
//! is used and what is written into it is decided here.

use vstd::prelude::*;
use vstd::string::*;
use crate::binary64::{absolute, less, less_than, magnitude};
use crate::calendar::{date_text, formatted_time, representable, time_text};
use crate::exchange_rate::{
    narrative_rate, unavailable_pair, ExchangeRateMap, PairRate, RateSnapshot,
};
use crate::series::{all_well_formed, snapshots};
use crate::text::{join, replace, replaced, uppercase};
use crate::utils::search::{hits, SearchHit, SearchResult};

verus! {

/// The three narratives.
#[derive(Debug, Clone, Copy, PartialEq, Eq, Structural)]
pub enum NarrativeClass {
    Increase,
    Decrease,
    Equal,
}

/// The narrative for a difference between two rates: equal where its absolute
/// value is less than the threshold, else an increase where it is above zero
/// and a decrease where it is below zero. A difference that is neither, which
/// is zero or not a number, reads as equal.
pub open spec fn classified(diff: u64, threshold: u64) -> NarrativeClass {
    if less(magnitude(diff) as u64, threshold) {
        NarrativeClass::Equal
    } else if less(0, diff) {
        NarrativeClass::Increase
    } else if less(diff, 0) {
        NarrativeClass::Decrease
    } else {
        NarrativeClass::Equal
    }
}

/// Classifies the difference between the current and the previous rate; both
/// numbers are given by their bit patterns.
pub fn classify(diff: u64, threshold: u64) -> (r: NarrativeClass)
    ensures
        r == classified(diff, threshold),
{
    if less_than(absolute(diff), threshold) {
        NarrativeClass::Equal
    } else if less_than(0, diff) {
        NarrativeClass::Increase
    } else if less_than(diff, 0) {
        NarrativeClass::Decrease
    } else {
        NarrativeClass::Equal
    }
}

/// A template with its seven placeholders filled in, one after the other.
pub open spec fn rendered(
    template: Seq<char>,
    from: Seq<char>,
    to: Seq<char>,
    diff: Seq<char>,
    current_rate: Seq<char>,
    last_rate: Seq<char>,
    current_date: Seq<char>,
    last_date: Seq<char>,
) -> Seq<char> {
    let with_from = replaced(template, "{FROM}"@, from);
    let with_to = replaced(with_from, "{TO}"@, to);
    let with_current = replaced(with_to, "{CURR}"@, current_rate);
    let with_previous = replaced(with_current, "{PREV}"@, last_rate);
    let with_diff = replaced(with_previous, "{DIFF}"@, diff);
    let with_current_date = replaced(with_diff, "{CURR_DATE}"@, current_date);
    replaced(with_current_date, "{LAST_DATE}"@, last_date)
}

/// Fills the placeholders of a template. The three numbers are given as the
/// texts that are to stand in the prompt.
pub fn render_template(
    template: &str,
    from: &str,
    to: &str,
    diff: &str,
    current_rate: &str,
    last_rate: &str,
    current_date: &str,
    last_date: &str,
) -> (r: String)
    ensures
        r@ == rendered(
            template@,
            from@,
            to@,
            diff@,
            current_rate@,
            last_rate@,
            current_date@,
            last_date@,
        ),
{
    proof {
        reveal_strlit("{FROM}");
        reveal_strlit("{TO}");
        reveal_strlit("{CURR}");
        reveal_strlit("{PREV}");
        reveal_strlit("{DIFF}");
        reveal_strlit("{CURR_DATE}");
        reveal_strlit("{LAST_DATE}");
    }
    let with_from = replace(template, "{FROM}", from);
    let with_to = replace(with_from.as_str(), "{TO}", to);
    let with_current = replace(with_to.as_str(), "{CURR}", current_rate);
    let with_previous = replace(with_current.as_str(), "{PREV}", last_rate);
    let with_diff = replace(with_previous.as_str(), "{DIFF}", diff);
    let with_current_date = replace(with_diff.as_str(), "{CURR_DATE}", current_date);
    replace(with_current_date.as_str(), "{LAST_DATE}", last_date)
}

/// The rate of a pair in the snapshot at a place of a series, as a narrative
/// speaks of it. Where the series has no such place, the rate is not to be
/// had and shows as -1.
pub open spec fn rate_at(
    series: Seq<RateSnapshot>,
    place: int,
    from: Seq<char>,
    to: Seq<char>,
) -> PairRate {
    if 0 <= place < series.len() {
        narrative_rate(series[place], from, to)
    } else {
        unavailable_pair()
    }
}

/// The instant of the snapshot at a place of a series; where the series has
/// no such place, the instant `now`.
pub open spec fn instant_at(series: Seq<RateSnapshot>, place: int, now: int) -> int {
    if 0 <= place < series.len() {
        series[place].datetime
    } else {
        now
    }
}

/// What a prompt is about: the rate of the pair in the latest snapshot and in
/// the one before, and the dates of the two. A rate that is not to be had
/// shows as -1, so that the prompt tells its absence from a rate that stayed.
#[derive(Debug, Clone, PartialEq, Eq)]
pub struct PromptSubject {
    pub current: PairRate,
    pub previous: PairRate,
    pub current_date: String,
    pub last_date: String,
}

/// The three templates, one for each narrative.
#[derive(Debug, Clone, PartialEq, Eq)]
pub struct PromptTemplates {
    pub increase: String,
    pub decrease: String,
    pub equal: String,
}

/// The numbers of a prompt as the caller evaluated them: the difference
/// between the current and the previous rate as a bit pattern, and the three
/// texts that are to stand in the prompt.
#[derive(Debug, Clone, PartialEq, Eq)]
pub struct PromptFigures {
    pub diff_bits: u64,
    pub diff: String,
    pub current_rate: String,
    pub last_rate: String,
}

/// The template of a narrative.
pub open spec fn template_for(class: NarrativeClass, templates: PromptTemplates) -> Seq<char> {
    match class {
        NarrativeClass::Increase => templates.increase@,
        NarrativeClass::Decrease => templates.decrease@,
        NarrativeClass::Equal => templates.equal@,
    }
}

/// Finds what the prompt for a pair is about: the latest snapshot of the
/// series and the one before it. `now` is the instant that a missing snapshot
/// is dated with.
pub fn prompt_subject(rates: &Vec<ExchangeRateMap>, from: &str, to: &str, now: i64) -> (r:
    PromptSubject)
    requires
        all_well_formed(snapshots(rates@)),
        representable(now as int),
    ensures
        r.current == rate_at(snapshots(rates@), rates@.len() - 1, uppercase(from@), uppercase(to@)),
        r.previous == rate_at(
            snapshots(rates@),
            rates@.len() - 2,
            uppercase(from@),
            uppercase(to@),
        ),
        r.current_date@ == formatted_time(
            instant_at(snapshots(rates@), rates@.len() - 1, now as int),
            "%Y-%m-%d"@,
        ),
        r.last_date@ == formatted_time(
            instant_at(snapshots(rates@), rates@.len() - 2, now as int),
            "%Y-%m-%d"@,
        ),
{
    let len: usize = rates.len();
    let ghost series = snapshots(rates@);
    let (current, current_date) = if len >= 1 {
        assert(series[len - 1] == rates@[len - 1]@);
        (rates[len - 1].get_val_or_unavailable(from, to), date_text(rates[len - 1].datetime))
    } else {
        (PairRate::unavailable(), date_text(now))
    };
    let (previous, last_date) = if len >= 2 {
        assert(series[len - 2] == rates@[len - 2]@);
        (rates[len - 2].get_val_or_unavailable(from, to), date_text(rates[len - 2].datetime))
    } else {
        (PairRate::unavailable(), date_text(now))
    };
    PromptSubject { current, previous, current_date, last_date }
}

/// The rate of a pair in the latest snapshot of a series, as a notification
/// shows it; -1 where it is not to be had.
pub fn latest_rate(rates: &Vec<ExchangeRateMap>, from: &str, to: &str) -> (r: PairRate)
    ensures
        r == rate_at(snapshots(rates@), rates@.len() - 1, uppercase(from@), uppercase(to@)),
{
    let len: usize = rates.len();
    if len >= 1 {
        rates[len - 1].get_val_or_unavailable(from, to)
    } else {
        PairRate::unavailable()
    }
}

/// Writes the prompt for a pair: the template of the narrative that the
/// difference calls for, filled with the two codes, the three numbers and the
/// dates of the latest snapshot and of the one before.
pub fn get_prompt(
    rates: &Vec<ExchangeRateMap>,
    from: &str,
    to: &str,
    now: i64,
    figures: &PromptFigures,
    threshold: u64,
    templates: &PromptTemplates,
) -> (r: String)
    requires
        all_well_formed(snapshots(rates@)),
        representable(now as int),
    ensures
        r@ == rendered(
            template_for(classified(figures.diff_bits, threshold), *templates),
            from@,
            to@,
            figures.diff@,
            figures.current_rate@,
            figures.last_rate@,
            formatted_time(
                instant_at(snapshots(rates@), rates@.len() - 1, now as int),
                "%Y-%m-%d"@,
            ),
            formatted_time(
                instant_at(snapshots(rates@), rates@.len() - 2, now as int),
                "%Y-%m-%d"@,
            ),
        ),
{
    let subject = prompt_subject(rates, from, to, now);
    let template = match classify(figures.diff_bits, threshold) {
        NarrativeClass::Increase => templates.increase.as_str(),
        NarrativeClass::Decrease => templates.decrease.as_str(),
        NarrativeClass::Equal => templates.equal.as_str(),
    };
    render_template(
        template,
        from,
        to,
        figures.diff.as_str(),
        figures.current_rate.as_str(),
        figures.last_rate.as_str(),
        subject.current_date.as_str(),
        subject.last_date.as_str(),
    )
}

/// A text that may be missing, or what stands for it.
pub open spec fn text_or(text: Option<Seq<char>>, default: Seq<char>) -> Seq<char> {
    match text {
        Some(t) => t,
        None => default,
    }
}

/// One search result as it is written into a prompt.
pub open spec fn entry(hit: SearchHit) -> Seq<char> {
    "\n# "@ + text_or(hit.title, "No Title"@) + "\n"@ + text_or(hit.content, "No content..."@)
        + "\n[link]("@ + text_or(hit.url, "N/A"@) + ")\n"@
}

/// The search results of a list as they are written into a prompt.
pub open spec fn entries(list: Seq<SearchHit>) -> Seq<char>
    decreases list.len(),
{
    if list.len() == 0 {
        Seq::empty()
    } else {
        entries(list.drop_last()) + entry(list.last())
    }
}

/// A prompt that hands search results to the generator: the heading, which
/// is left out where there are no results, the results, and an empty line.
pub open spec fn digest(heading: Seq<char>, list: Seq<SearchHit>) -> Seq<char> {
    (if list.len() == 0 {
        Seq::empty()
    } else {
        heading
    }) + entries(list) + "\n"@
}

fn text_or_default<'a>(text: &'a Option<String>, default: &'a str) -> (r: &'a str)
    ensures
        r@ == text_or(crate::utils::search::optional_text(*text), default@),
{
    match text {
        Some(t) => t.as_str(),
        None => default,
    }
}

/// Writes a prompt that hands search results to the generator.
pub fn search_prompt(heading: &str, list: &Vec<SearchResult>) -> (r: String)
    ensures
        r@ == digest(heading@, hits(list@)),
{
    let mut prompt = if list.len() == 0 {
        String::new()
    } else {
        String::from_str(heading)
    };
    let ghost start = prompt@;
    let mut i: usize = 0;
    assert(hits(list@).take(0) =~= Seq::<SearchHit>::empty());
    assert(prompt@ =~= start + entries(hits(list@).take(0)));
    while i < list.len()
        invariant
            i <= list.len(),
            prompt@ == start + entries(hits(list@).take(i as int)),
        decreases list.len() - i,
    {
        let ghost before = prompt@;
        let ghost hit = hits(list@)[i as int];
        assert(hit == list@[i as int]@);
        prompt.append("\n# ");
        prompt.append(text_or_default(&list[i].title, "No Title"));
        prompt.append("\n");
        prompt.append(text_or_default(&list[i].content, "No content..."));
        prompt.append("\n[link](");
        prompt.append(text_or_default(&list[i].url, "N/A"));
        prompt.append(")\n");
        assert(prompt@ =~= before + entry(hit));
        assert(hits(list@).take(i as int + 1).drop_last() =~= hits(list@).take(i as int));
        assert(hits(list@).take(i as int + 1).last() == hit);
        i += 1;
    }
    assert(hits(list@).take(list@.len() as int) =~= hits(list@));
    prompt.append("\n");
    assert(prompt@ =~= digest(heading@, hits(list@)));
    prompt
}

/// Writes the prompt that hands the news of a day to the generator.
pub fn get_news_prompt(news_list: &Vec<SearchResult>, date: i64) -> (r: String)
    requires
        representable(date as int),
    ensures
        r@ == digest("News on "@ + formatted_time(date as int, "%d/%m/%Y"@), hits(news_list@)),
{
    let day = time_text(date, "%d/%m/%Y");
    let heading = join("News on ", day.as_str());
    search_prompt(heading.as_str(), news_list)
}

/// Writes the prompt that hands what a search for the date found to the
/// generator.
pub fn get_date_prompt(news_list: &Vec<SearchResult>, date: i64) -> (r: String)
    requires
        representable(date as int),
    ensures
        r@ == digest(
            "Search result date [d/m]: "@ + formatted_time(date as int, "%d/%m"@),
            hits(news_list@),
        ),
{
    let day = time_text(date, "%d/%m");
    let heading = join("Search result date [d/m]: ", day.as_str());
    search_prompt(heading.as_str(), news_list)
}

} // verus!
