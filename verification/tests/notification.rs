use exchange_rate_bot::llm::generate::GenerationResult;
use exchange_rate_bot::decimal::{decimal_text, digit, seconds_text};
use exchange_rate_bot::text::join;
use exchange_rate_bot::utils::message::{
    failure_message, failure_text, get_exchange_rate_message, message_text, window_start,
    ExchangeRateMessage, LOOKBACK_DAYS,
};

fn generated() -> GenerationResult {
    GenerationResult {
        content: "The dollar rose.".to_string(),
        search_duration: 1_234_567_890,
        total_duration: 9_000_000_000,
        load_duration: 5_000_000,
        prompt_eval_duration: 1,
        eval_duration: 61_000_999_999,
    }
}

#[test]
fn writes_numbers_in_decimal() {
    assert_eq!(decimal_text(0), "0");
    assert_eq!(decimal_text(7), "7");
    assert_eq!(decimal_text(10), "10");
    assert_eq!(decimal_text(1234567890), "1234567890");
    assert_eq!(decimal_text(u64::MAX), "18446744073709551615");
    for n in [0u64, 9, 10, 99, 100, 101, 999, 1000, 86400, 31536000, u64::MAX - 1] {
        assert_eq!(decimal_text(n), n.to_string());
    }
    assert_eq!((0..10).map(digit).collect::<String>(), "0123456789");
}

#[test]
fn writes_nanoseconds_as_seconds_and_milliseconds() {
    assert_eq!(seconds_text(0), "0.000");
    assert_eq!(seconds_text(999_999), "0.000");
    assert_eq!(seconds_text(1_000_000), "0.001");
    assert_eq!(seconds_text(5_000_000), "0.005");
    assert_eq!(seconds_text(45_000_000), "0.045");
    assert_eq!(seconds_text(999_999_999), "0.999");
    assert_eq!(seconds_text(1_000_000_000), "1.000");
    assert_eq!(seconds_text(1_234_567_890), "1.234");
    assert_eq!(seconds_text(61_000_999_999), "61.000");
    assert_eq!(seconds_text(u64::MAX), "18446744073.709");
    for nanos in [0u64, 1, 999_999, 1_000_000, 123_456_789, 987_654_321_000, u64::MAX] {
        let d = std::time::Duration::from_nanos(nanos);
        assert_eq!(seconds_text(nanos), format!("{}.{:03}", d.as_secs(), d.subsec_millis()));
    }
}

#[test]
fn joins_two_texts() {
    assert_eq!(join("ab", "cd"), "abcd");
    assert_eq!(join("", ""), "");
    assert_eq!(join("é", "\u{1F600}"), "é\u{1F600}");
}

#[test]
fn writes_the_text_of_a_notification() {
    let text = message_text(&generated(), "USD", "0.92", "EUR", 45_000_000, None, 10_500_000_000);
    assert_eq!(
        text,
        "The dollar rose.\n```\n1 USD = 0.92 EUR\nSearched in 1.234 seconds\nModel Loaded in 0.005 seconds\nEvaluated in 61.000 seconds\nGraph generated in 0.045 seconds\nGenerated in 10.500 seconds\n```"
    );
}

#[test]
fn reports_a_chart_that_could_not_be_drawn() {
    let text = message_text(&generated(), "USD", "-1", "GBP", 1_000_000, Some("No data available from USD to GBP"), 2_000_000_000);
    assert_eq!(
        text,
        "The dollar rose.\n```\n1 USD = -1 GBP\nSearched in 1.234 seconds\nModel Loaded in 0.005 seconds\nEvaluated in 61.000 seconds\nGraph generated in 0.001 seconds\nGraph generation error: No data available from USD to GBP\nGenerated in 2.000 seconds\n```"
    );
}

#[test]
fn a_notification_carries_its_chart() {
    let with_chart = get_exchange_rate_message(&generated(), "USD", "0.92", "EUR", Ok(vec![137, 80, 78, 71]), 45_000_000, 10_500_000_000);
    assert_eq!(
        with_chart,
        ExchangeRateMessage {
            message: message_text(&generated(), "USD", "0.92", "EUR", 45_000_000, None, 10_500_000_000),
            graph: Some(vec![137, 80, 78, 71]),
        }
    );
}

#[test]
fn a_notification_without_a_chart_is_still_sent() {
    let without = get_exchange_rate_message(&generated(), "USD", "0.92", "EUR", Err("No data".to_string()), 1, 2);
    assert_eq!(without.graph, None);
    assert_eq!(without.message, message_text(&generated(), "USD", "0.92", "EUR", 1, Some("No data"), 2));
    assert!(without.message.contains("\nGraph generation error: No data\n"));
    assert!(without.message.starts_with("The dollar rose.\n"));
}

#[test]
fn a_failed_generation_still_gives_a_notification() {
    let failed = GenerationResult::failure("Failed to send request", "refused");
    let message = get_exchange_rate_message(&failed, "USD", "0.92", "EUR", Ok(vec![1]), 0, 0);
    assert_eq!(
        message.message,
        "Error generating response: Failed to send request (refused)\n```\n1 USD = 0.92 EUR\nSearched in 0.000 seconds\nModel Loaded in 0.000 seconds\nEvaluated in 0.000 seconds\nGraph generated in 0.000 seconds\nGenerated in 0.000 seconds\n```"
    );
    assert_eq!(message.graph, Some(vec![1]));
}

#[test]
fn a_failed_resolution_is_reported_without_a_chart() {
    assert_eq!(
        failure_text("https://api.frankfurter.dev/v1", "NetworkError(\"down\")"),
        "Error fetching API. Please verify the API URL and Internet connection. URL used: `https://api.frankfurter.dev/v1`\n`Error: NetworkError(\"down\")`"
    );
    assert_eq!(
        failure_message("u", "e"),
        ExchangeRateMessage {
            message: "Error fetching API. Please verify the API URL and Internet connection. URL used: `u`\n`Error: e`".to_string(),
            graph: None,
        }
    );
}

#[test]
fn the_window_starts_thirty_days_before_today() {
    assert_eq!(LOOKBACK_DAYS, 30);
    assert_eq!(window_start(1706659200), 19723);
    assert_eq!(window_start(1706659200 + 86399), 19723);
    assert_eq!(window_start(0), -30);
    assert_eq!(window_start(-1), -31);
}
