use time::OffsetDateTime;
use yahoo_finance_api::fundamentals::{
    compose_fundamentals_url, compose_fundamentals_url_until, timeseries_key, BalanceSheetFact,
    CashflowFact, IncomeStatementFact, Period,
};
use yahoo_finance_api::quote_summary::{compose_url, QuoteSummaryField};
use yahoo_finance_api::request::{
    compose_history_url, compose_options_url, compose_period_url, compose_range_url,
    compose_search_url, YCHART_URL, YSEARCH_URL,
};

#[test]
fn compose_income_statement_url() {
    let url = compose_fundamentals_url(
        "IBM",
        Period::Year,
        OffsetDateTime::from_unix_timestamp(1710248726).unwrap(),
        &[
            IncomeStatementFact::EBITDA,
            IncomeStatementFact::NetIncome,
            IncomeStatementFact::BasicEPS,
        ],
    );
    assert_eq!(url, "https://query2.finance.yahoo.com/ws/fundamentals-timeseries/v1/finance/timeseries/IBM?symbol=IBM&period1=1262304000&period2=1710248726&type=annualEBITDA,annualNetIncome,annualBasicEPS");
}

#[test]
fn fundamentals_url_follows_the_moment() {
    let facts = [CashflowFact::FreeCashFlow];
    let early = compose_fundamentals_url(
        "OKE",
        Period::Quarter,
        OffsetDateTime::from_unix_timestamp(1).unwrap(),
        &facts,
    );
    let late = compose_fundamentals_url(
        "OKE",
        Period::Quarter,
        OffsetDateTime::from_unix_timestamp(1710979200).unwrap(),
        &facts,
    );
    assert_eq!(early, "https://query2.finance.yahoo.com/ws/fundamentals-timeseries/v1/finance/timeseries/OKE?symbol=OKE&period1=1262304000&period2=1&type=quarterlyFreeCashFlow");
    assert_eq!(late, "https://query2.finance.yahoo.com/ws/fundamentals-timeseries/v1/finance/timeseries/OKE?symbol=OKE&period1=1262304000&period2=1710979200&type=quarterlyFreeCashFlow");
}

#[test]
fn fundamentals_url_without_facts_or_before_the_epoch() {
    let none: [BalanceSheetFact; 0] = [];
    assert_eq!(
        compose_fundamentals_url_until("IBM", Period::Year, -5, &none),
        "https://query2.finance.yahoo.com/ws/fundamentals-timeseries/v1/finance/timeseries/IBM?symbol=IBM&period1=1262304000&period2=-5&type="
    );
    assert_eq!(
        compose_fundamentals_url_until("IBM", Period::Quarter, 0, &[BalanceSheetFact::NetDebt]),
        "https://query2.finance.yahoo.com/ws/fundamentals-timeseries/v1/finance/timeseries/IBM?symbol=IBM&period1=1262304000&period2=0&type=quarterlyNetDebt"
    );
}

#[test]
fn series_are_named_by_period_and_fact() {
    assert_eq!(Period::Year.to_yquery_identifier(), "annual");
    assert_eq!(Period::Quarter.to_yquery_identifier(), "quarterly");
    assert_eq!(timeseries_key(Period::Quarter, &IncomeStatementFact::DilutedEPS), "quarterlyDilutedEPS");
    assert_eq!(timeseries_key(Period::Year, &BalanceSheetFact::TotalAssets), "annualTotalAssets");
    assert_eq!(timeseries_key(Period::Year, &CashflowFact::FreeCashFlow), "annualFreeCashFlow");
}

#[test]
fn quote_summary_url_lists_the_modules() {
    assert_eq!(
        compose_url("AAPL", &[QuoteSummaryField::EarningsTrend, QuoteSummaryField::Earnings, QuoteSummaryField::DefaultKeyStatistics]),
        "https://query2.finance.yahoo.com/v10/finance/quoteSummary/AAPL?modules=earningsTrend,earnings,defaultKeyStatistics&corsDomain=finance.yahoo.com&formatted=false&symbol=AAPL"
    );
    assert_eq!(
        compose_url("AAPL", &[QuoteSummaryField::Price]),
        "https://query2.finance.yahoo.com/v10/finance/quoteSummary/AAPL?modules=price&corsDomain=finance.yahoo.com&formatted=false&symbol=AAPL"
    );
    assert_eq!(
        compose_url("AAPL", &[]),
        "https://query2.finance.yahoo.com/v10/finance/quoteSummary/AAPL?modules=&corsDomain=finance.yahoo.com&formatted=false&symbol=AAPL"
    );
}

#[test]
fn quote_summary_modules_have_their_names() {
    let names: Vec<&str> = [
        QuoteSummaryField::AssetProfile,
        QuoteSummaryField::DefaultKeyStatistics,
        QuoteSummaryField::FinancialData,
        QuoteSummaryField::QuoteType,
        QuoteSummaryField::SummaryDetail,
        QuoteSummaryField::Earnings,
        QuoteSummaryField::EarningsHistory,
        QuoteSummaryField::EarningsTrend,
        QuoteSummaryField::Price,
    ]
    .iter()
    .map(|field| field.as_str())
    .collect();
    assert_eq!(
        names,
        vec![
            "assetProfile",
            "defaultKeyStatistics",
            "financialData",
            "quoteType",
            "summaryDetail",
            "earnings",
            "earningsHistory",
            "earningsTrend",
            "price"
        ]
    );
}

#[test]
fn chart_urls() {
    assert_eq!(
        compose_range_url(YCHART_URL, "HNL.DE", "1d", "1mo"),
        "https://query1.finance.yahoo.com/v8/finance/chart/HNL.DE?symbol=HNL.DE&interval=1d&range=1mo&events=div|split|capitalGains"
    );
    assert_eq!(
        compose_history_url(YCHART_URL, "AAPL", 1577836800, 1580515199, "1d"),
        "https://query1.finance.yahoo.com/v8/finance/chart/AAPL?symbol=AAPL&period1=1577836800&period2=1580515199&interval=1d&events=div|split|capitalGains"
    );
    assert_eq!(
        compose_history_url(YCHART_URL, "IBM", -252322200, 0, "1mo"),
        "https://query1.finance.yahoo.com/v8/finance/chart/IBM?symbol=IBM&period1=-252322200&period2=0&interval=1mo&events=div|split|capitalGains"
    );
    assert_eq!(
        compose_period_url(YCHART_URL, "BTC-USD", "5d", "1h", true),
        "https://query1.finance.yahoo.com/v8/finance/chart/BTC-USD?symbol=BTC-USD&period=5d&interval=1h&includePrePost=true"
    );
    assert_eq!(
        compose_period_url(YCHART_URL, "BTC-USD", "5d", "1h", false),
        "https://query1.finance.yahoo.com/v8/finance/chart/BTC-USD?symbol=BTC-USD&period=5d&interval=1h&includePrePost=false"
    );
}

#[test]
fn search_and_options_urls() {
    assert_eq!(
        compose_search_url(YSEARCH_URL, "Apple"),
        "https://query2.finance.yahoo.com/v1/finance/search?q=Apple"
    );
    assert_eq!(
        compose_options_url("AAPL"),
        "https://finance.yahoo.com/quote/AAPL/options?p=AAPL"
    );
}
