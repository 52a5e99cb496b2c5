use exchange_rate_bot::environment::{
    get_decrease_prompt_template, get_equal_prompt_template, get_increase_prompt_template,
    get_system_prompt,
};
use exchange_rate_bot::exchange_rate::{CurrencyRate, ExchangeRateMap, PairRate};
use exchange_rate_bot::llm::prompt::{
    classify, latest_rate, get_date_prompt, get_news_prompt, get_prompt, prompt_subject, render_template,
    search_prompt, NarrativeClass, PromptFigures, PromptSubject, PromptTemplates,
};
use exchange_rate_bot::utils::search::SearchResult;

const DAY: i64 = 86400;

fn on(day: i64, base: &str, rates: &[(&str, f64)]) -> ExchangeRateMap {
    ExchangeRateMap {
        datetime: day * DAY,
        base: base.to_string(),
        map: rates.iter().map(|(code, rate)| CurrencyRate { code: code.to_string(), bits: rate.to_bits() }).collect(),
    }
}

fn value(pair: PairRate) -> f64 {
    f64::from_bits(pair.numerator) / f64::from_bits(pair.denominator)
}

fn unavailable() -> PairRate {
    PairRate { numerator: (-1.0f64).to_bits(), denominator: 1.0f64.to_bits() }
}

fn figures(subject: &PromptSubject) -> PromptFigures {
    let current = value(subject.current);
    let previous = value(subject.previous);
    let diff = current - previous;
    PromptFigures {
        diff_bits: diff.to_bits(),
        diff: format!("{:.4}", diff),
        current_rate: format!("{:.4}", current),
        last_rate: format!("{:.4}", previous),
    }
}

fn templates() -> PromptTemplates {
    PromptTemplates {
        increase: get_increase_prompt_template(None),
        decrease: get_decrease_prompt_template(None),
        equal: get_equal_prompt_template(None),
    }
}

fn class_of(diff: f64, threshold: f64) -> NarrativeClass {
    classify(diff.to_bits(), threshold.to_bits())
}

#[test]
fn classifies_by_the_threshold() {
    assert_eq!(class_of(0.0005, 0.001), NarrativeClass::Equal);
    assert_eq!(class_of(0.01, 0.001), NarrativeClass::Increase);
    assert_eq!(class_of(-0.01, 0.001), NarrativeClass::Decrease);
}

#[test]
fn a_difference_at_the_threshold_is_no_longer_equal() {
    assert_eq!(class_of(0.001, 0.001), NarrativeClass::Increase);
    assert_eq!(class_of(-0.001, 0.001), NarrativeClass::Decrease);
    assert_eq!(class_of(-0.0005, 0.001), NarrativeClass::Equal);
    assert_eq!(class_of(0.0, 0.001), NarrativeClass::Equal);
    assert_eq!(class_of(-0.0, 0.001), NarrativeClass::Equal);
}

#[test]
fn without_a_threshold_only_zero_is_equal() {
    assert_eq!(class_of(0.0, 0.0), NarrativeClass::Equal);
    assert_eq!(class_of(-0.0, 0.0), NarrativeClass::Equal);
    assert_eq!(class_of(5e-324, 0.0), NarrativeClass::Increase);
    assert_eq!(class_of(-5e-324, 0.0), NarrativeClass::Decrease);
    assert_eq!(class_of(0.0005, -0.001), NarrativeClass::Increase);
    assert_eq!(class_of(0.0005, -0.0), NarrativeClass::Increase);
}

#[test]
fn what_is_not_a_number_reads_as_equal() {
    assert_eq!(class_of(f64::NAN, 0.001), NarrativeClass::Equal);
    assert_eq!(class_of(-f64::NAN, 0.001), NarrativeClass::Equal);
    assert_eq!(class_of(0.5, f64::NAN), NarrativeClass::Increase);
    assert_eq!(class_of(-0.5, f64::NAN), NarrativeClass::Decrease);
    assert_eq!(class_of(0.0, f64::NAN), NarrativeClass::Equal);
}

#[test]
fn infinite_values_are_classified_like_any_other() {
    assert_eq!(class_of(f64::INFINITY, 0.001), NarrativeClass::Increase);
    assert_eq!(class_of(f64::NEG_INFINITY, 0.001), NarrativeClass::Decrease);
    assert_eq!(class_of(1e300, f64::INFINITY), NarrativeClass::Equal);
    assert_eq!(class_of(f64::INFINITY, f64::INFINITY), NarrativeClass::Increase);
}

#[test]
fn classifies_as_the_comparisons_of_the_numbers_do() {
    let values = [0.0, -0.0, 0.0005, -0.0005, 0.001, -0.001, 0.01, -0.01, 1.0, -2.0, f64::INFINITY, f64::NEG_INFINITY, f64::NAN, 5e-324, 0.92 - 0.91];
    for diff in values {
        for threshold in values {
            let expected = if diff.abs() < threshold {
                NarrativeClass::Equal
            } else if diff > 0.0 {
                NarrativeClass::Increase
            } else if diff < 0.0 {
                NarrativeClass::Decrease
            } else {
                NarrativeClass::Equal
            };
            assert_eq!(class_of(diff, threshold), expected, "{diff} against {threshold}");
        }
    }
}

#[test]
fn fills_each_placeholder() {
    let text = render_template(
        "{FROM}>{TO} {CURR} {PREV} {DIFF} {CURR_DATE} {LAST_DATE}",
        "USD",
        "EUR",
        "0.0100",
        "0.9200",
        "0.9100",
        "2024-01-03",
        "2024-01-02",
    );
    assert_eq!(text, "USD>EUR 0.9200 0.9100 0.0100 2024-01-03 2024-01-02");
}

#[test]
fn fills_a_placeholder_wherever_it_stands() {
    let text = render_template("{TO}{TO} {to} {TO {FROM}{FROM}", "a", "b", "", "", "", "", "");
    assert_eq!(text, "bb {to} {TO aa");
    assert_eq!(render_template("", "a", "b", "c", "d", "e", "f", "g"), "");
    assert_eq!(render_template("no placeholder", "a", "b", "c", "d", "e", "f", "g"), "no placeholder");
}

#[test]
fn fills_the_placeholders_one_after_the_other() {
    let text = render_template("{FROM}", "{TO}", "{CURR}", "{LAST_DATE}", "{PREV}", "{DIFF}", "x", "y");
    assert_eq!(text, "y");
    let dates = render_template("{CURR_DATE}|{CURR}", "", "", "", "c", "", "d", "");
    assert_eq!(dates, "d|c");
}

#[test]
fn finds_the_latest_rate_and_the_one_before() {
    let rates = vec![
        on(19723, "USD", &[("EUR", 0.90)]),
        on(19724, "USD", &[("EUR", 0.91)]),
        on(19725, "USD", &[("EUR", 0.92)]),
    ];
    let subject = prompt_subject(&rates, "usd", "eur", 0);
    assert_eq!(
        subject,
        PromptSubject {
            current: PairRate { numerator: 0.92f64.to_bits(), denominator: 1.0f64.to_bits() },
            previous: PairRate { numerator: 0.91f64.to_bits(), denominator: 1.0f64.to_bits() },
            current_date: "2024-01-03".to_string(),
            last_date: "2024-01-02".to_string(),
        }
    );
}

#[test]
fn a_missing_snapshot_is_dated_now_and_holds_no_pair() {
    let now = 19800 * DAY + 3600;
    let one = vec![on(19725, "USD", &[("EUR", 0.92)])];
    let subject = prompt_subject(&one, "USD", "EUR", now);
    assert_eq!(subject.current.numerator, 0.92f64.to_bits());
    assert_eq!(subject.previous, unavailable());
    assert_eq!(value(subject.previous), -1.0);
    assert_eq!(subject.current_date, "2024-01-03");
    assert_eq!(subject.last_date, "2024-03-18");
    let none = prompt_subject(&vec![], "USD", "EUR", now);
    assert_eq!(none.current, unavailable());
    assert_eq!(none.previous, unavailable());
    assert_eq!(none.current_date, "2024-03-18");
    assert_eq!(none.last_date, "2024-03-18");
    let euro = prompt_subject(&vec![], "EUR", "eur", now);
    assert_eq!(euro.current, unavailable());
    let one_euro = prompt_subject(&vec![on(19725, "EUR", &[])], "EUR", "eur", now);
    assert_eq!(one_euro.current, PairRate { numerator: 1.0f64.to_bits(), denominator: 1.0f64.to_bits() });
    assert_eq!(one_euro.previous, unavailable());
}

#[test]
fn the_latest_rate_is_that_of_the_last_snapshot() {
    let rates = vec![on(19724, "USD", &[("EUR", 0.91)]), on(19725, "USD", &[("EUR", 0.92)])];
    assert_eq!(value(latest_rate(&rates, "usd", "eur")), 0.92);
    assert_eq!(value(latest_rate(&rates, "EUR", "USD")), 1.0 / 0.92);
    assert_eq!(latest_rate(&rates, "USD", "GBP"), unavailable());
    assert_eq!(latest_rate(&vec![], "USD", "EUR"), unavailable());
    assert_eq!(latest_rate(&vec![], "eur", "EUR"), unavailable());
    assert_eq!(value(latest_rate(&vec![on(1, "EUR", &[])], "eur", "EUR")), 1.0);
}

#[test]
fn composes_the_prompt_of_the_example() {
    let rates = vec![
        on(19723, "USD", &[("EUR", 0.90)]),
        on(19724, "USD", &[("EUR", 0.91)]),
        on(19725, "USD", &[("EUR", 0.92)]),
    ];
    let subject = prompt_subject(&rates, "USD", "EUR", 0);
    let numbers = figures(&subject);
    assert_eq!(numbers.current_rate, "0.9200");
    assert_eq!(numbers.last_rate, "0.9100");
    assert_eq!(numbers.diff, "0.0100");
    assert_eq!(classify(numbers.diff_bits, 0.001f64.to_bits()), NarrativeClass::Increase);
    let prompt = get_prompt(&rates, "USD", "EUR", 0, &numbers, 0.001f64.to_bits(), &templates());
    assert_eq!(
        prompt,
        "Today is 2024-01-03. Provide a brief report for the public about an increase in exchange rates.\n\
         - Since 2024-01-02, the exchange rate from USD to EUR has risen to 0.9200, which is higher than the previous rate of 0.9100.\n\
         - The increase in value is 0.0100.\n\
         Summarize this information clearly and concisely."
    );
}

#[test]
fn composes_a_prompt_for_a_rate_that_fell() {
    let rates = vec![on(19724, "USD", &[("EUR", 0.91)]), on(19725, "USD", &[("EUR", 0.89)])];
    let numbers = figures(&prompt_subject(&rates, "USD", "EUR", 0));
    let prompt = get_prompt(&rates, "USD", "EUR", 0, &numbers, 0.001f64.to_bits(), &templates());
    assert_eq!(
        prompt,
        "Today is 2024-01-03. Provide a brief report for the public about a decrease in exchange rates.\n\
         - Since 2024-01-02, the exchange rate from USD to EUR has dropped to 0.8900, which is lower than the previous rate of 0.9100.\n\
         - The decrease in value is -0.0200.\n\
         Summarize this information clearly and concisely."
    );
}

#[test]
fn composes_a_prompt_for_a_rate_that_stayed() {
    let rates = vec![on(19724, "USD", &[("EUR", 0.91)]), on(19725, "USD", &[("EUR", 0.9105)])];
    let numbers = figures(&prompt_subject(&rates, "USD", "EUR", 0));
    let prompt = get_prompt(&rates, "USD", "EUR", 0, &numbers, 0.001f64.to_bits(), &templates());
    assert_eq!(
        prompt,
        "Today is 2024-01-03. Provide a brief report for the public on the current exchange rate.\n\
         - The exchange rate from USD to EUR is 0.9105, which is approximately the same as the previous rate of 0.9100 on 2024-01-02.\n\
         Summarize this information clearly and concisely."
    );
}

#[test]
fn a_pair_that_is_missing_once_shows_as_a_change() {
    let rates = vec![on(19724, "USD", &[]), on(19725, "USD", &[("EUR", 0.92)])];
    let numbers = figures(&prompt_subject(&rates, "USD", "EUR", 0));
    assert_eq!(numbers.last_rate, "-1.0000");
    assert_eq!(numbers.diff, "1.9200");
    assert_eq!(classify(numbers.diff_bits, 0.001f64.to_bits()), NarrativeClass::Increase);
    let prompt = get_prompt(&rates, "USD", "EUR", 0, &numbers, 0.001f64.to_bits(), &templates());
    assert!(prompt.contains("has risen to 0.9200, which is higher than the previous rate of -1.0000."));
}

#[test]
fn a_pair_that_is_missing_twice_shows_as_equal() {
    let numbers = figures(&prompt_subject(&vec![], "USD", "GBP", 0));
    assert_eq!(numbers.diff, "0.0000");
    assert_eq!(classify(numbers.diff_bits, 0.001f64.to_bits()), NarrativeClass::Equal);
}

#[test]
fn the_templates_name_the_seven_placeholders() {
    for name in ["{CURR_DATE}", "{LAST_DATE}", "{FROM}", "{TO}", "{CURR}", "{PREV}", "{DIFF}"] {
        assert!(get_increase_prompt_template(None).contains(name));
        assert!(get_decrease_prompt_template(None).contains(name));
    }
    assert!(!get_equal_prompt_template(None).contains("{DIFF}"));
    assert_eq!(get_increase_prompt_template(Some("up {CURR}".to_string())), "up {CURR}");
    assert!(get_system_prompt(None).starts_with("Speak your mind freely."));
    assert!(get_system_prompt(None).ends_with("a knack for making finance approachable.\n"));
    assert_eq!(get_system_prompt(Some("be brief".to_string())), "be brief");
}

fn result(title: Option<&str>, content: Option<&str>, url: Option<&str>) -> SearchResult {
    SearchResult { url: url.map(String::from), title: title.map(String::from), content: content.map(String::from) }
}

#[test]
fn hands_the_news_of_a_day_to_the_generator() {
    let news = vec![
        result(Some("Rates rise"), Some("The bank said so."), Some("https://n.test/1")),
        result(None, None, None),
    ];
    assert_eq!(
        get_news_prompt(&news, 1704067200),
        "News on 01/01/2024\n# Rates rise\nThe bank said so.\n[link](https://n.test/1)\n\n# No Title\nNo content...\n[link](N/A)\n\n"
    );
    assert_eq!(
        get_date_prompt(&news[..1].to_vec(), 1704067200),
        "Search result date [d/m]: 01/01\n# Rates rise\nThe bank said so.\n[link](https://n.test/1)\n\n"
    );
}

#[test]
fn no_news_is_an_empty_line() {
    assert_eq!(get_news_prompt(&vec![], 1704067200), "\n");
    assert_eq!(get_date_prompt(&vec![], 1704067200), "\n");
    assert_eq!(search_prompt("heading", &vec![]), "\n");
    assert_eq!(search_prompt("", &vec![result(Some("t"), Some("c"), Some("u"))]), "\n# t\nc\n[link](u)\n\n");
}
