use vstd::prelude::*;
use vstd::string::*;

use crate::text::{comma_joined, decimal, format_unsigned, join, join_with_commas};
use crate::yahoo_error::{YahooError, YahooErrorView};

verus! {

/// A module of the quote summary that a request may ask for.
#[derive(Debug, Copy, Clone, PartialEq, Eq, Hash)]
pub enum QuoteSummaryField {
    AssetProfile,
    DefaultKeyStatistics,
    FinancialData,
    QuoteType,
    SummaryDetail,
    Earnings,
    EarningsHistory,
    EarningsTrend,
    Price,
}

impl QuoteSummaryField {
    /// Name of the module as the service spells it.
    pub open spec fn name(&self) -> Seq<char> {
        match self {
            QuoteSummaryField::AssetProfile => "assetProfile"@,
            QuoteSummaryField::DefaultKeyStatistics => "defaultKeyStatistics"@,
            QuoteSummaryField::FinancialData => "financialData"@,
            QuoteSummaryField::QuoteType => "quoteType"@,
            QuoteSummaryField::SummaryDetail => "summaryDetail"@,
            QuoteSummaryField::Earnings => "earnings"@,
            QuoteSummaryField::EarningsHistory => "earningsHistory"@,
            QuoteSummaryField::EarningsTrend => "earningsTrend"@,
            QuoteSummaryField::Price => "price"@,
        }
    }

    /// Name of the module as the service spells it.
    pub fn as_str(&self) -> (name: &str)
        ensures
            name@ == self.name(),
    {
        match self {
            QuoteSummaryField::AssetProfile => "assetProfile",
            QuoteSummaryField::DefaultKeyStatistics => "defaultKeyStatistics",
            QuoteSummaryField::FinancialData => "financialData",
            QuoteSummaryField::QuoteType => "quoteType",
            QuoteSummaryField::SummaryDetail => "summaryDetail",
            QuoteSummaryField::Earnings => "earnings",
            QuoteSummaryField::EarningsHistory => "earningsHistory",
            QuoteSummaryField::EarningsTrend => "earningsTrend",
            QuoteSummaryField::Price => "price",
        }
    }
}

/// No two modules go by the same name.
pub proof fn lemma_module_names_differ(first: QuoteSummaryField, second: QuoteSummaryField)
    requires
        first.name() == second.name(),
    ensures
        first == second,
{
    reveal_strlit("assetProfile");
    assert("assetProfile"@.len() == 12 && "assetProfile"@[0] == 'a');
    reveal_strlit("defaultKeyStatistics");
    assert("defaultKeyStatistics"@.len() == 20 && "defaultKeyStatistics"@[0] == 'd');
    reveal_strlit("financialData");
    assert("financialData"@.len() == 13 && "financialData"@[0] == 'f');
    reveal_strlit("quoteType");
    assert("quoteType"@.len() == 9 && "quoteType"@[0] == 'q');
    reveal_strlit("summaryDetail");
    assert("summaryDetail"@.len() == 13 && "summaryDetail"@[0] == 's');
    reveal_strlit("earnings");
    assert("earnings"@.len() == 8 && "earnings"@[0] == 'e');
    reveal_strlit("earningsHistory");
    assert("earningsHistory"@.len() == 15 && "earningsHistory"@[0] == 'e');
    reveal_strlit("earningsTrend");
    assert("earningsTrend"@.len() == 13 && "earningsTrend"@[0] == 'e');
    reveal_strlit("price");
    assert("price"@.len() == 5 && "price"@[0] == 'p');
}

/// The company's profile. The service sends more than anyone has asked this
/// library to keep.
#[derive(Debug, Clone)]
pub struct AssetProfile {}

/// What kind of security a symbol names, and where it trades.
#[derive(Debug, Clone)]
pub struct QuoteType {
    pub exchange: Option<String>,
    pub first_tradwe_date_epoch_utc: Option<usize>,
    pub gmt_off_set_milliseconds: Option<isize>,
    pub long_name: Option<String>,
    pub max_age: Option<usize>,
    pub message_board_id: Option<String>,
    pub quote_type: Option<String>,
    pub short_name: Option<String>,
    pub symbol: Option<String>,
    pub time_zone_full_name: Option<String>,
    pub time_zone_short_name: Option<String>,
    pub underlying_symbol: Option<String>,
    pub uuid: Option<String>,
}

/// A value as the service sends it: formatted for display, and raw.
#[derive(Debug, Clone)]
pub struct Formatted<T> {
    pub fmt: Option<String>,
    pub raw: Option<T>,
}

/// The names of the modules `fields`, in their order.
pub open spec fn module_names(fields: Seq<QuoteSummaryField>) -> Seq<Seq<char>> {
    Seq::new(fields.len(), |i: int| fields[i].name())
}

/// The address of the quote summary of `symbol`, asking for the modules
/// `fields`.
pub open spec fn summary_url(symbol: Seq<char>, fields: Seq<QuoteSummaryField>) -> Seq<char> {
    "https://query2.finance.yahoo.com/v10/finance/quoteSummary/"@ + symbol + "?modules="@
        + comma_joined(module_names(fields))
        + "&corsDomain=finance.yahoo.com&formatted=false&symbol="@ + symbol
}

/// Writes the address of the quote summary of `symbol`: the modules appear
/// in the order of `fields`, separated by commas.
pub fn compose_url(symbol: &str, fields: &[QuoteSummaryField]) -> (url: String)
    ensures
        url@ == summary_url(symbol@, fields@),
{
    let mut names: Vec<String> = Vec::new();
    let mut done: usize = 0;
    while done < fields.len()
        invariant
            done <= fields.len(),
            names@.len() == done,
            names.deep_view() == module_names(fields@.take(done as int)),
        decreases fields.len() - done,
    {
        let ghost before = names.deep_view();
        names.push(String::from_str(fields[done].as_str()));
        done = done + 1;
        proof {
            let after = module_names(fields@.take(done as int));
            assert forall|i: int| 0 <= i < after.len() implies names.deep_view()[i] == after[i] by {
                if i < done - 1 {
                    assert(names.deep_view()[i] == before[i]);
                }
            }
        }
    }
    assert(fields@.take(fields.len() as int) =~= fields@);
    let modules = join_with_commas(&names);
    let mut url = String::from_str("https://query2.finance.yahoo.com/v10/finance/quoteSummary/");
    url.append(symbol);
    url.append("?modules=");
    url.append(modules.as_str());
    url.append("&corsDomain=finance.yahoo.com&formatted=false&symbol=");
    url.append(symbol);
    url
}

/// Whether a response holds the one result that a quote summary consists of.
/// `count` is the length of the list `quoteSummary.result`, or `None` where
/// the response has no such list.
pub open spec fn single_result(count: Option<usize>) -> Result<(), YahooErrorView> {
    match count {
        None => Err(
            YahooErrorView::FetchFailed("quoteSummary.result not found in the response JSON"@),
        ),
        Some(found) => if found == 1 {
            Ok(())
        } else {
            Err(
                YahooErrorView::FetchFailed(
                    "Expecting exactly 1 result but got "@ + decimal(found as nat),
                ),
            )
        },
    }
}

/// What a `Result` of nothing or an error holds, as specifications see it.
pub open spec fn unit_view(outcome: Result<(), YahooError>) -> Result<(), YahooErrorView> {
    match outcome {
        Ok(()) => Ok(()),
        Err(error) => Err(error@),
    }
}

/// Accepts a response with exactly one result and refuses every other one.
pub fn expect_single_result(count: Option<usize>) -> (outcome: Result<(), YahooError>)
    ensures
        unit_view(outcome) == single_result(count),
{
    match count {
        None => Err(
            YahooError::FetchFailed(
                String::from_str("quoteSummary.result not found in the response JSON"),
            ),
        ),
        Some(found) => {
            if found == 1 {
                Ok(())
            } else {
                let digits = format_unsigned(found as u64);
                Err(
                    YahooError::FetchFailed(
                        join("Expecting exactly 1 result but got ", digits.as_str()),
                    ),
                )
            }
        },
    }
}

} // verus!
