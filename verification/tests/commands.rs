use exchange_rate_bot::commands::about::{run, Configuration};
use exchange_rate_bot::commands::check_rate::{autocomplete, choices_among, CURRENCIES, MAX_CHOICES};
use exchange_rate_bot::commands::{command_named, Command, NOT_IMPLEMENTED};
use exchange_rate_bot::database::historical_data::{historical_day, save_historical_exchange_rate, SaveError};
use exchange_rate_bot::exchange_rate_api::{fetch_exchange_rate, FetchMode};
use exchange_rate_bot::json::parse;

#[test]
fn finds_the_command_of_a_name() {
    assert_eq!(command_named("exchange-check"), Command::CheckRate);
    assert_eq!(command_named("about"), Command::About);
    assert_eq!(command_named("About"), Command::Unknown);
    assert_eq!(command_named(""), Command::Unknown);
    assert_eq!(command_named("exchange-check "), Command::Unknown);
    assert_eq!(NOT_IMPLEMENTED, "not implemented :(");
}

#[test]
fn completes_a_currency_code() {
    assert_eq!(autocomplete("US"), vec!["USD"]);
    assert_eq!(autocomplete("us"), vec!["USD"]);
    assert_eq!(autocomplete("eU"), vec!["EUR"]);
    assert_eq!(autocomplete("Z"), vec!["ZAR", "ZMK", "ZMW", "ZWL"]);
    assert_eq!(autocomplete("CN"), vec!["CNY", "CNH"]);
    assert_eq!(autocomplete("USD"), vec!["USD"]);
}

#[test]
fn completes_nothing_that_no_code_begins_with() {
    assert_eq!(autocomplete("USDX"), Vec::<&str>::new());
    assert_eq!(autocomplete("QQ"), Vec::<&str>::new());
    assert_eq!(autocomplete(" U"), Vec::<&str>::new());
    assert_eq!(autocomplete("€"), Vec::<&str>::new());
}

#[test]
fn offers_no_more_choices_than_a_completion_may_hold() {
    assert_eq!(MAX_CHOICES, 25);
    assert_eq!(CURRENCIES.len(), 171);
    let all = autocomplete("");
    assert_eq!(all.len(), 25);
    assert_eq!(all, CURRENCIES[..25].to_vec());
    assert_eq!(all[0], "AED");
    assert_eq!(all[24], "BYN");
    let with_b = autocomplete("b");
    assert_eq!(with_b.len(), 17);
    assert_eq!(with_b.first(), Some(&"BAM"));
    assert_eq!(with_b.last(), Some(&"BZD"));
}

#[test]
fn chooses_among_any_list_of_codes() {
    assert_eq!(choices_among(&["AA", "AB", "BA", "A"], "A"), vec!["AA", "AB", "A"]);
    assert_eq!(choices_among(&["AA", "AB"], "a"), Vec::<&str>::new());
    assert_eq!(choices_among(&[], "A"), Vec::<&str>::new());
    let many = ["X"; 40];
    assert_eq!(choices_among(&many, "X").len(), 25);
    assert_eq!(choices_among(&many, "").len(), 25);
}

#[test]
fn tells_about_the_bot() {
    let configuration = Configuration {
        version: "RELEASE BUILD v2024-01-03 10:00:00".to_string(),
        exchange_from: "USD".to_string(),
        exchange_to: "EUR".to_string(),
        schedule: "24h".to_string(),
        exchange_rate_api: "https://api.frankfurter.dev/v1".to_string(),
        fallback_enabled: true,
        searxng_url: None,
        ollama_model: "llama3.1".to_string(),
    };
    assert_eq!(
        run(&configuration),
        "\n    **Exchange Rate Bot**\nVersion: `RELEASE BUILD v2024-01-03 10:00:00`\n\n**Configuration**:\n```\n- Exchange From: `USD`\n- Exchange To: `EUR`\n- Schedule: `24h`\n- Exchange Rate API: `https://api.frankfurter.dev/v1`\n- Fallback Exchange Rate API: `ENABLED`\n- SearXNG API: `N/A`\n- Ollama Model: `llama3.1`\n```\n    "
    );
    let other = Configuration { fallback_enabled: false, searxng_url: Some("https://s.test".to_string()), ..configuration };
    let text = run(&other);
    assert!(text.contains("- Fallback Exchange Rate API: `DISABLED`\n"));
    assert!(text.contains("- SearXNG API: `https://s.test`\n"));
}

#[test]
fn finds_the_day_of_a_historical_payload() {
    let json = "{\"success\":true,\"timestamp\":1704153600,\"historical\":true,\"base\":\"EUR\",\"date\":\"2024-01-02\",\"rates\":{\"USD\":1.1}}";
    assert_eq!(save_historical_exchange_rate(json), Ok(19724));
    assert_eq!(save_historical_exchange_rate("{\"success\":true,\"date\":\"1970-01-01\"}"), Ok(0));
    assert_eq!(save_historical_exchange_rate("{\"success\":true,\"date\":\"1969-12-31\"}"), Ok(-1));
    assert_eq!(historical_day(&parse("{\"success\":true,\"date\":\"2000-02-29\"}").unwrap()), Ok(11016));
}

#[test]
fn refuses_a_historical_payload_that_is_no_success() {
    assert_eq!(save_historical_exchange_rate("{\"date\":\"2024-01-02\"}"), Err(SaveError::MissingSuccessField));
    assert_eq!(save_historical_exchange_rate("{\"success\":\"true\",\"date\":\"2024-01-02\"}"), Err(SaveError::MissingSuccessField));
    assert_eq!(save_historical_exchange_rate("[]"), Err(SaveError::MissingSuccessField));
    assert_eq!(save_historical_exchange_rate("{\"success\":false,\"date\":\"2024-01-02\"}"), Err(SaveError::HistoricalDataNotSuccessful));
    assert_eq!(save_historical_exchange_rate("{\"success\":false}"), Err(SaveError::HistoricalDataNotSuccessful));
}

#[test]
fn refuses_a_historical_payload_without_a_date() {
    assert_eq!(save_historical_exchange_rate("{\"success\":true}"), Err(SaveError::MissingDateField));
    assert_eq!(save_historical_exchange_rate("{\"success\":true,\"date\":20240102}"), Err(SaveError::MissingDateField));
    assert_eq!(
        save_historical_exchange_rate("{\"success\":true,\"date\":\"2024-02-30\"}"),
        Err(SaveError::InvalidDateFormat("input is out of range".to_string()))
    );
    assert_eq!(
        save_historical_exchange_rate("{\"success\":true,\"date\":\"02.01.2024\"}"),
        Err(SaveError::InvalidDateFormat("input contains invalid characters".to_string()))
    );
    assert_eq!(
        save_historical_exchange_rate("{\"success\":true,\"date\":\"2024-01-02T00:00:00\"}"),
        Err(SaveError::InvalidDateFormat("trailing input".to_string()))
    );
}

#[test]
fn refuses_a_historical_payload_that_is_no_json() {
    assert_eq!(
        save_historical_exchange_rate("success"),
        Err(SaveError::JsonParseError("expected value at line 1 column 1".to_string()))
    );
}

#[test]
fn save_errors_describe_themselves() {
    assert_eq!(SaveError::JsonParseError("j".to_string()).message(), "JSON parsing error: j");
    assert_eq!(SaveError::MissingSuccessField.message(), "Missing or invalid 'success' field in JSON");
    assert_eq!(SaveError::HistoricalDataNotSuccessful.message(), "Historical data is not marked as 'success'");
    assert_eq!(SaveError::MissingDateField.message(), "Missing 'date' field in JSON");
    assert_eq!(SaveError::InvalidDateFormat("d".to_string()).message(), "Invalid date format: d");
    assert_eq!(SaveError::DatabaseError("b".to_string()).message(), "Database error: b");
    assert_eq!(SaveError::UnknownError.message(), "Unknown error occurred");
}

#[test]
fn asks_for_the_latest_rates_or_for_those_of_a_day() {
    assert_eq!(fetch_exchange_rate("https://api.test/v1", FetchMode::Latest), "https://api.test/v1/latest?");
    assert_eq!(fetch_exchange_rate("https://api.test/v1", FetchMode::Date(19724)), "https://api.test/v1/2024-01-02?");
}
