//! The command that tells about the bot.

use vstd::prelude::*;
use vstd::string::*;
use crate::text::join;

verus! {

/// The name under which the command is registered.
pub const COMMAND_NAME: &'static str = "about";

/// What the bot runs with, as far as the command tells it.
#[derive(Debug, Clone, PartialEq, Eq)]
pub struct Configuration {
    pub version: String,
    pub exchange_from: String,
    pub exchange_to: String,
    pub schedule: String,
    pub exchange_rate_api: String,
    /// Whether an access key for the fallback service is set.
    pub fallback_enabled: bool,
    pub searxng_url: Option<String>,
    pub ollama_model: String,
}

/// How the state of the fallback service is written.
pub open spec fn enabled_text(enabled: bool) -> Seq<char> {
    if enabled {
        "ENABLED"@
    } else {
        "DISABLED"@
    }
}

/// How an address that may be missing is written.
pub open spec fn address_text(address: Option<String>) -> Seq<char> {
    match address {
        Some(url) => url@,
        None => "N/A"@,
    }
}

/// The text that tells about the bot.
pub open spec fn about(c: Configuration) -> Seq<char> {
    "\n    **Exchange Rate Bot**\nVersion: `"@ + c.version@
        + "`\n\n**Configuration**:\n```\n- Exchange From: `"@ + c.exchange_from@
        + "`\n- Exchange To: `"@ + c.exchange_to@ + "`\n- Schedule: `"@ + c.schedule@
        + "`\n- Exchange Rate API: `"@ + c.exchange_rate_api@
        + "`\n- Fallback Exchange Rate API: `"@ + enabled_text(c.fallback_enabled)
        + "`\n- SearXNG API: `"@ + address_text(c.searxng_url) + "`\n- Ollama Model: `"@
        + c.ollama_model@ + "`\n```\n    "@
}

/// Writes the text that tells about the bot.
pub fn run(configuration: &Configuration) -> (r: String)
    ensures
        r@ == about(*configuration),
{
    let mut text = join("\n    **Exchange Rate Bot**\nVersion: `", configuration.version.as_str());
    text.append("`\n\n**Configuration**:\n```\n- Exchange From: `");
    text.append(configuration.exchange_from.as_str());
    text.append("`\n- Exchange To: `");
    text.append(configuration.exchange_to.as_str());
    text.append("`\n- Schedule: `");
    text.append(configuration.schedule.as_str());
    text.append("`\n- Exchange Rate API: `");
    text.append(configuration.exchange_rate_api.as_str());
    text.append("`\n- Fallback Exchange Rate API: `");
    if configuration.fallback_enabled {
        text.append("ENABLED");
    } else {
        text.append("DISABLED");
    }
    text.append("`\n- SearXNG API: `");
    match &configuration.searxng_url {
        Some(url) => text.append(url.as_str()),
        None => text.append("N/A"),
    }
    text.append("`\n- Ollama Model: `");
    text.append(configuration.ollama_model.as_str());
    text.append("`\n```\n    ");
    text
}

} // verus!
