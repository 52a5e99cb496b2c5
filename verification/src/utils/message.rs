//! The notification: the text that is sent, and the chart that goes with it.

use vstd::prelude::*;
use vstd::string::*;
use crate::calendar::{day_number, day_of};
use crate::decimal::{seconds, seconds_text};
use crate::llm::generate::{Generation, GenerationResult};
use crate::text::join;

verus! {

/// How many days of history a notification looks back on.
pub const LOOKBACK_DAYS: i64 = 30;

/// A notification: its text, and its chart where one could be drawn.
#[derive(Debug, Clone, PartialEq, Eq)]
pub struct ExchangeRateMessage {
    pub message: String,
    pub graph: Option<Vec<u8>>,
}

/// The line that reports why no chart could be drawn; nothing where one was.
pub open spec fn graph_report(error: Option<Seq<char>>) -> Seq<char> {
    match error {
        Some(reason) => "\nGraph generation error: "@ + reason,
        None => Seq::empty(),
    }
}

/// The characters of a reason that may be missing.
pub open spec fn reason_of(error: Option<&str>) -> Option<Seq<char>> {
    match error {
        Some(reason) => Some(reason@),
        None => None,
    }
}

/// The text of a notification: the narrative, then a block with the latest
/// rate of the pair and with the time that searching, loading the model,
/// evaluating, drawing and all of it took.
pub open spec fn notification(
    generated: Generation,
    from: Seq<char>,
    rate: Seq<char>,
    to: Seq<char>,
    graph_duration: u64,
    graph_error: Option<Seq<char>>,
    total_duration: u64,
) -> Seq<char> {
    generated.content + "\n```\n1 "@ + from + " = "@ + rate + " "@ + to + "\nSearched in "@
        + seconds(generated.search_duration as nat) + " seconds\nModel Loaded in "@ + seconds(
        generated.load_duration as nat,
    ) + " seconds\nEvaluated in "@ + seconds(generated.eval_duration as nat)
        + " seconds\nGraph generated in "@ + seconds(graph_duration as nat) + " seconds"@
        + graph_report(graph_error) + "\nGenerated in "@ + seconds(total_duration as nat)
        + " seconds\n```"@
}

/// The text of a notification that reports a failed resolution: the address
/// that was asked, and the error.
pub open spec fn failure_notification(api_url: Seq<char>, error: Seq<char>) -> Seq<char> {
    "Error fetching API. Please verify the API URL and Internet connection. URL used: `"@
        + api_url + "`\n`Error: "@ + error + "`"@
}

/// The first day of the window that a notification made at the instant `now`
/// looks back on.
pub fn window_start(now: i64) -> (r: i64)
    ensures
        r == day_of(now as int) - LOOKBACK_DAYS,
{
    day_number(now) - LOOKBACK_DAYS
}

/// Writes the text of a notification. The rate is given as the text that is
/// to stand for it, the two durations in nanoseconds.
pub fn message_text(
    generated: &GenerationResult,
    from: &str,
    rate: &str,
    to: &str,
    graph_duration: u64,
    graph_error: Option<&str>,
    total_duration: u64,
) -> (r: String)
    ensures
        r@ == notification(
            generated@,
            from@,
            rate@,
            to@,
            graph_duration,
            reason_of(graph_error),
            total_duration,
        ),
{
    let mut text = join(generated.content.as_str(), "\n```\n1 ");
    text.append(from);
    text.append(" = ");
    text.append(rate);
    text.append(" ");
    text.append(to);
    text.append("\nSearched in ");
    text.append(seconds_text(generated.search_duration).as_str());
    text.append(" seconds\nModel Loaded in ");
    text.append(seconds_text(generated.load_duration).as_str());
    text.append(" seconds\nEvaluated in ");
    text.append(seconds_text(generated.eval_duration).as_str());
    text.append(" seconds\nGraph generated in ");
    text.append(seconds_text(graph_duration).as_str());
    text.append(" seconds");
    match graph_error {
        Some(reason) => {
            text.append("\nGraph generation error: ");
            text.append(reason);
        },
        None => {},
    }
    text.append("\nGenerated in ");
    text.append(seconds_text(total_duration).as_str());
    text.append(" seconds\n```");
    text
}

/// Writes the text of a notification that reports a failed resolution.
pub fn failure_text(api_url: &str, error: &str) -> (r: String)
    ensures
        r@ == failure_notification(api_url@, error@),
{
    let mut text = join(
        "Error fetching API. Please verify the API URL and Internet connection. URL used: `",
        api_url,
    );
    text.append("`\n`Error: ");
    text.append(error);
    text.append("`");
    text
}

/// Puts a notification together: the text, and the chart if one was drawn.
/// A chart that could not be drawn is reported in the text and does not keep
/// the text from being sent.
pub fn get_exchange_rate_message(
    generated: &GenerationResult,
    from: &str,
    rate: &str,
    to: &str,
    graph: Result<Vec<u8>, String>,
    graph_duration: u64,
    total_duration: u64,
) -> (r: ExchangeRateMessage)
    ensures
        match graph {
            Ok(image) => r.graph == Some(image) && r.message@ == notification(
                generated@,
                from@,
                rate@,
                to@,
                graph_duration,
                None,
                total_duration,
            ),
            Err(reason) => r.graph is None && r.message@ == notification(
                generated@,
                from@,
                rate@,
                to@,
                graph_duration,
                Some(reason@),
                total_duration,
            ),
        },
{
    match graph {
        Ok(image) => ExchangeRateMessage {
            message: message_text(generated, from, rate, to, graph_duration, None, total_duration),
            graph: Some(image),
        },
        Err(reason) => ExchangeRateMessage {
            message: message_text(
                generated,
                from,
                rate,
                to,
                graph_duration,
                Some(reason.as_str()),
                total_duration,
            ),
            graph: None,
        },
    }
}

/// Puts together the notification that reports a failed resolution; it has
/// no chart.
pub fn failure_message(api_url: &str, error: &str) -> (r: ExchangeRateMessage)
    ensures
        r.message@ == failure_notification(api_url@, error@),
        r.graph is None,
{
    ExchangeRateMessage { message: failure_text(api_url, error), graph: None }
}

} // verus!
