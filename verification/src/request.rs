use vstd::prelude::*;
use vstd::string::*;

use crate::exchange::{describe_status, status_text, STATUS_OK};
use crate::text::{format_signed, signed_decimal};
use crate::yahoo_error::{YahooError, YahooErrorView};

verus! {

/// Where the service keeps the price charts.
pub const YCHART_URL: &'static str = "https://query1.finance.yahoo.com/v8/finance/chart";

/// Where the service answers searches for a ticker.
pub const YSEARCH_URL: &'static str = "https://query2.finance.yahoo.com/v1/finance/search";

/// The events that every chart request asks for.
pub const CHART_EVENTS: &'static str = "&events=div|split|capitalGains";

/// A JSON document as the `serde_json` crate holds it.
#[verifier::external_type_specification]
#[verifier::external_body]
pub struct ExJsonValue(serde_json::Value);

/// The address of the chart of `symbol` under `base`, without its parameters.
pub open spec fn chart_of(base: Seq<char>, symbol: Seq<char>) -> Seq<char> {
    base + "/"@ + symbol + "?symbol="@ + symbol
}

/// The address of the chart of `symbol` over `range`, one quote per `interval`.
pub open spec fn range_url(
    base: Seq<char>,
    symbol: Seq<char>,
    interval: Seq<char>,
    range: Seq<char>,
) -> Seq<char> {
    chart_of(base, symbol) + "&interval="@ + interval + "&range="@ + range + CHART_EVENTS@
}

/// The address of the chart of `symbol` from the second `start` to the
/// second `end` since the Unix epoch, one quote per `interval`.
pub open spec fn history_url(
    base: Seq<char>,
    symbol: Seq<char>,
    start: i64,
    end: i64,
    interval: Seq<char>,
) -> Seq<char> {
    chart_of(base, symbol) + "&period1="@ + signed_decimal(start as int) + "&period2="@
        + signed_decimal(end as int) + "&interval="@ + interval + CHART_EVENTS@
}

/// How a request writes yes and no.
pub open spec fn flag(value: bool) -> Seq<char> {
    if value {
        "true"@
    } else {
        "false"@
    }
}

/// The address of the chart of `symbol` over `period`, one quote per
/// `interval`, with or without the trading before and after hours.
pub open spec fn period_url(
    base: Seq<char>,
    symbol: Seq<char>,
    period: Seq<char>,
    interval: Seq<char>,
    prepost: bool,
) -> Seq<char> {
    chart_of(base, symbol) + "&period="@ + period + "&interval="@ + interval
        + "&includePrePost="@ + flag(prepost)
}

/// The address of a search for `name` under `base`.
pub open spec fn search_url(base: Seq<char>, name: Seq<char>) -> Seq<char> {
    base + "?q="@ + name
}

/// The address of the page that lists the options of `name`.
pub open spec fn options_url(name: Seq<char>) -> Seq<char> {
    "https://finance.yahoo.com/quote/"@ + name + "/options?p="@ + name
}

fn chart_address(base: &str, symbol: &str) -> (url: String)
    ensures
        url@ == chart_of(base@, symbol@),
{
    let mut url = String::from_str(base);
    url.append("/");
    url.append(symbol);
    url.append("?symbol=");
    url.append(symbol);
    url
}

/// Writes the address of the chart of `symbol` over `range`.
pub fn compose_range_url(base: &str, symbol: &str, interval: &str, range: &str) -> (url: String)
    ensures
        url@ == range_url(base@, symbol@, interval@, range@),
{
    let mut url = chart_address(base, symbol);
    url.append("&interval=");
    url.append(interval);
    url.append("&range=");
    url.append(range);
    url.append(CHART_EVENTS);
    url
}

/// Writes the address of the chart of `symbol` between two moments, given
/// in seconds since the Unix epoch.
pub fn compose_history_url(base: &str, symbol: &str, start: i64, end: i64, interval: &str) -> (url:
    String)
    ensures
        url@ == history_url(base@, symbol@, start, end, interval@),
{
    let first = format_signed(start);
    let last = format_signed(end);
    let mut url = chart_address(base, symbol);
    url.append("&period1=");
    url.append(first.as_str());
    url.append("&period2=");
    url.append(last.as_str());
    url.append("&interval=");
    url.append(interval);
    url.append(CHART_EVENTS);
    url
}

/// Writes the address of the chart of `symbol` over `period`.
pub fn compose_period_url(
    base: &str,
    symbol: &str,
    period: &str,
    interval: &str,
    prepost: bool,
) -> (url: String)
    ensures
        url@ == period_url(base@, symbol@, period@, interval@, prepost),
{
    let mut url = chart_address(base, symbol);
    url.append("&period=");
    url.append(period);
    url.append("&interval=");
    url.append(interval);
    url.append("&includePrePost=");
    if prepost {
        url.append("true");
    } else {
        url.append("false");
    }
    url
}

/// Writes the address of a search for `name`.
pub fn compose_search_url(base: &str, name: &str) -> (url: String)
    ensures
        url@ == search_url(base@, name@),
{
    let mut url = String::from_str(base);
    url.append("?q=");
    url.append(name);
    url
}

/// Writes the address of the page that lists the options of `name`.
pub fn compose_options_url(name: &str) -> (url: String)
    ensures
        url@ == options_url(name@),
{
    let mut url = String::from_str("https://finance.yahoo.com/quote/");
    url.append(name);
    url.append("/options?p=");
    url.append(name);
    url
}

/// The failure that a response with another status than 200 stands for.
pub open spec fn bad_status(status: u16, body: Seq<char>) -> YahooErrorView {
    YahooErrorView::FetchFailed("status "@ + status_text(status) + ", response: "@ + body)
}

/// Whether the `serde_json` crate reads `text` as a JSON document.
pub uninterp spec fn json_reads(text: Seq<char>) -> bool;

/// Reads `text` as JSON with `serde_json::from_str`. Whether the crate takes
/// the text is the same for the same text; nothing is claimed of the
/// document or of the error that it hands out.
#[verifier::external_body]
fn parse_json(text: &str) -> (outcome: Result<serde_json::Value, serde_json::Error>)
    ensures
        outcome is Ok == json_reads(text@),
{
    serde_json::from_str(text)
}

/// What a `Result` of a document or an error holds, as specifications see it.
pub open spec fn document_view(outcome: Result<serde_json::Value, YahooError>) -> Result<
    serde_json::Value,
    YahooErrorView,
> {
    match outcome {
        Ok(document) => Ok(document),
        Err(error) => Err(error@),
    }
}

/// What the parser's outcome means to the caller: the document, or a
/// failure to deserialize that carries the parser's error.
pub open spec fn deserialized(outcome: Result<serde_json::Value, serde_json::Error>) -> Result<
    serde_json::Value,
    YahooErrorView,
> {
    match outcome {
        Ok(document) => Ok(document),
        Err(cause) => Err(YahooErrorView::DeserializeFailed(cause)),
    }
}

/// Passes a parsed document on and wraps the parser's error.
pub fn accept_document(outcome: Result<serde_json::Value, serde_json::Error>) -> (accepted: Result<
    serde_json::Value,
    YahooError,
>)
    ensures
        document_view(accepted) == deserialized(outcome),
{
    match outcome {
        Ok(document) => Ok(document),
        Err(cause) => Err(YahooError::DeserializeFailed(cause)),
    }
}

/// Reads the response to a data request. Only status 200 carries data; the
/// body of such a response is handed out as a document exactly where it
/// reads as JSON, and fails to deserialize where it does not. Any other
/// status fails the fetch, whatever the body holds, with a message that
/// quotes status and body.
pub fn read_response(status: u16, body: &str) -> (outcome: Result<serde_json::Value, YahooError>)
    ensures
        status != STATUS_OK ==> document_view(outcome) == Err::<
            serde_json::Value,
            YahooErrorView,
        >(bad_status(status, body@)),
        status == STATUS_OK ==> (outcome is Ok <==> json_reads(body@)),
        status == STATUS_OK && !json_reads(body@) ==> outcome is Err
            && outcome->Err_0@ is DeserializeFailed,
{
    if status == STATUS_OK {
        accept_document(parse_json(body))
    } else {
        let digits = describe_status(status);
        let mut text = String::from_str("status ");
        text.append(digits.as_str());
        text.append(", response: ");
        text.append(body);
        Err(YahooError::FetchFailed(text))
    }
}

} // verus!
