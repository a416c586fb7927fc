use vstd::prelude::*;
use vstd::string::*;

use crate::text::{comma_joined, format_signed, join, join_with_commas, signed_decimal};

mod balance_sheet;
mod cashflow;
mod income_statement;
mod timeseries;

pub use balance_sheet::{lemma_balance_sheet_names_differ, BalanceSheetFact};
pub use cashflow::{lemma_cashflow_names_differ, CashflowFact};
pub use income_statement::{lemma_income_statement_names_differ, IncomeStatementFact};
pub use timeseries::{
    all_days, by_day, collect_days, comes_before, converted_days, day_before, days_suffice,
    days_view, entries_view, entry_days, entry_sound, entry_values,
    extract_timestamps_from_response, find_series, from_response, gathered, has_days_for,
    holds_pair, is_table_of, lemma_absent_day, lemma_one_table, lemma_ordered_holds, lemma_table_reads,
    ordered_by_day, pairs_among,
    pair_values, paired, put_on_day, reported_on, response_days, response_sound,
    response_tables, series_named, tables_are, tables_view, timestamp_day, Day, SeriesEntry,
    SeriesEntryView,
};

verus! {

/// Something that the service knows under a fixed name.
pub trait AsStr {
    /// The name, as a sequence of characters.
    spec fn spec_str(&self) -> Seq<char>;

    /// The name.
    fn as_str(&self) -> (name: &str)
        ensures
            name@ == self.spec_str(),
    ;
}

/// Length of the reporting period of a fundamentals time series.
#[derive(Debug, Clone, Copy)]
pub enum Period {
    Year,
    Quarter,
}

impl Period {
    /// The prefix that marks the period in the name of a time series.
    pub open spec fn identifier(&self) -> Seq<char> {
        match self {
            Period::Year => "annual"@,
            Period::Quarter => "quarterly"@,
        }
    }

    /// The prefix that marks the period in the name of a time series.
    pub fn to_yquery_identifier(&self) -> (id: &'static str)
        ensures
            id@ == self.identifier(),
    {
        match self {
            Period::Year => "annual",
            Period::Quarter => "quarterly",
        }
    }
}

/// Where the service keeps the time series of fundamentals.
pub const FUNDAMENTALS_URL: &'static str =
    "https://query2.finance.yahoo.com/ws/fundamentals-timeseries/v1/finance/timeseries";

/// Start of every request for fundamentals, in seconds since the Unix epoch:
/// midnight UTC of 1 January 2010. The service keeps a few recent records
/// only, so nothing lies before that day.
pub const FUNDAMENTALS_START: i64 = 1262304000;

/// The name of the time series of the item called `fact` for `period`.
pub open spec fn series_name(period: Period, fact: Seq<char>) -> Seq<char> {
    period.identifier() + fact
}

/// A time series has one period and one item: two series of the same name
/// are for the same period and for items of the same name.
pub proof fn lemma_series_names_differ(
    first_period: Period,
    first_fact: Seq<char>,
    second_period: Period,
    second_fact: Seq<char>,
)
    requires
        series_name(first_period, first_fact) == series_name(second_period, second_fact),
    ensures
        first_period == second_period,
        first_fact == second_fact,
{
    reveal_strlit("annual");
    reveal_strlit("quarterly");
    let first = series_name(first_period, first_fact);
    let second = series_name(second_period, second_fact);
    // the first letter tells the period
    assert(first[0] == first_period.identifier()[0]);
    assert(second[0] == second_period.identifier()[0]);
    // what follows the period is the item
    let width = first_period.identifier().len() as int;
    assert(first.skip(width) =~= first_fact);
    assert(second.skip(width) =~= second_fact);
}

/// The names of the time series of the items `facts` for `period`, in their order.
pub open spec fn series_names<T: AsStr>(period: Period, facts: Seq<T>) -> Seq<Seq<char>> {
    Seq::new(facts.len(), |i: int| series_name(period, facts[i].spec_str()))
}

/// The address of the time series of `facts` for `symbol`, from
/// [`FUNDAMENTALS_START`] until the second `until` since the Unix epoch.
pub open spec fn fundamentals_url<T: AsStr>(
    symbol: Seq<char>,
    period: Period,
    until: i64,
    facts: Seq<T>,
) -> Seq<char> {
    FUNDAMENTALS_URL@ + "/"@ + symbol + "?symbol="@ + symbol + "&period1="@ + signed_decimal(
        FUNDAMENTALS_START as int,
    ) + "&period2="@ + signed_decimal(until as int) + "&type="@ + comma_joined(
        series_names(period, facts),
    )
}

/// A moment in time as the `time` crate holds it.
#[verifier::external_type_specification]
#[verifier::external_body]
pub struct ExOffsetDateTime(time::OffsetDateTime);

/// Reads the moment's distance from the Unix epoch in seconds with
/// `time::OffsetDateTime::unix_timestamp`. Nothing is claimed of the number.
#[verifier::external_body]
fn seconds_since_epoch(moment: &time::OffsetDateTime) -> (seconds: i64) {
    moment.unix_timestamp()
}

/// Writes the name of the time series of `fact` for `period`.
pub fn timeseries_key<T: AsStr>(period: Period, fact: &T) -> (key: String)
    ensures
        key@ == series_name(period, fact.spec_str()),
{
    join(period.to_yquery_identifier(), fact.as_str())
}

/// Writes the address of the time series of `facts` for `symbol` until the
/// second `until` since the Unix epoch: the series appear in the order of
/// `facts`, separated by commas.
pub fn compose_fundamentals_url_until<T: AsStr>(
    symbol: &str,
    period: Period,
    until: i64,
    facts: &[T],
) -> (url: String)
    ensures
        url@ == fundamentals_url(symbol@, period, until, facts@),
{
    let mut names: Vec<String> = Vec::new();
    let mut done: usize = 0;
    while done < facts.len()
        invariant
            done <= facts.len(),
            names@.len() == done,
            names.deep_view() == series_names(period, facts@.take(done as int)),
        decreases facts.len() - done,
    {
        let ghost before = names.deep_view();
        names.push(timeseries_key(period, &facts[done]));
        done = done + 1;
        proof {
            let after = series_names(period, facts@.take(done as int));
            assert forall|i: int| 0 <= i < after.len() implies names.deep_view()[i] == after[i] by {
                if i < done - 1 {
                    assert(names.deep_view()[i] == before[i]);
                }
            }
        }
    }
    assert(facts@.take(facts.len() as int) =~= facts@);
    let series = join_with_commas(&names);
    let start = format_signed(FUNDAMENTALS_START);
    let end = format_signed(until);
    let mut url = String::from_str(FUNDAMENTALS_URL);
    url.append("/");
    url.append(symbol);
    url.append("?symbol=");
    url.append(symbol);
    url.append("&period1=");
    url.append(start.as_str());
    url.append("&period2=");
    url.append(end.as_str());
    url.append("&type=");
    url.append(series.as_str());
    url
}

/// Writes the address of the time series of `facts` for `symbol` until the
/// moment `until`, which counts by its distance from the Unix epoch in whole
/// seconds.
pub fn compose_fundamentals_url<T: AsStr>(
    symbol: &str,
    period: Period,
    until: time::OffsetDateTime,
    facts: &[T],
) -> (url: String)
    ensures
        exists|seconds: i64| url@ == fundamentals_url(symbol@, period, seconds, facts@),
{
    let seconds = seconds_since_epoch(&until);
    compose_fundamentals_url_until(symbol, period, seconds, facts)
}

} // verus!
