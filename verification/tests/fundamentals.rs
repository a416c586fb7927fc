use std::collections::HashSet;

use yahoo_finance_api::fundamentals::{
    collect_days, compose_fundamentals_url_until, extract_timestamps_from_response,
    has_days_for, pair_values, timeseries_key,
    AsStr, BalanceSheetFact, CashflowFact, Day, IncomeStatementFact, Period,
};
use yahoo_finance_api::quote_summary::QuoteSummaryField;
use yahoo_finance_api::YahooError;

fn day(year: i32, month: u8, day: u8) -> Day {
    Day { year, month, day }
}

#[test]
fn all_lists_every_fact_once() {
    let income = IncomeStatementFact::all();
    assert_eq!(income.len(), 96);
    assert_eq!(income[0], IncomeStatementFact::TaxEffectOfUnusualItems);
    assert_eq!(income[95], IncomeStatementFact::OperatingRevenue);
    let balance = BalanceSheetFact::all();
    assert_eq!(balance.len(), 144);
    assert_eq!(balance[0], BalanceSheetFact::TreasurySharesNumber);
    assert_eq!(balance[3], BalanceSheetFact::ShareIssued);
    let cashflow = CashflowFact::all();
    assert_eq!(cashflow.len(), 123);
    let mut sorted = balance.to_vec();
    sorted.sort();
    sorted.dedup();
    assert_eq!(sorted.len(), 144);
    // the order of the list is the order of declaration
    assert_eq!(sorted, balance);
    let mut sorted = income.to_vec();
    sorted.sort();
    sorted.dedup();
    assert_eq!(sorted, income);
    let mut sorted = cashflow.to_vec();
    sorted.sort();
    sorted.dedup();
    assert_eq!(sorted, cashflow);
}

#[test]
fn facts_are_named_like_their_variants() {
    assert_eq!(IncomeStatementFact::EBITDA.as_str(), "EBITDA");
    assert_eq!(IncomeStatementFact::DilutedEPS.as_str(), "DilutedEPS");
    assert_eq!(
        IncomeStatementFact::NetIncomeFromContinuingOperationNetMinorityInterest.as_str(),
        "NetIncomeFromContinuingOperationNetMinorityInterest"
    );
    assert_eq!(BalanceSheetFact::NetDebt.as_str(), "NetDebt");
    assert_eq!(CashflowFact::FreeCashFlow.as_str(), "FreeCashFlow");
    for fact in IncomeStatementFact::all() {
        assert_eq!(fact.as_str(), format!("{:?}", fact));
    }
    for fact in BalanceSheetFact::all() {
        assert_eq!(fact.as_str(), format!("{:?}", fact));
    }
    for fact in CashflowFact::all() {
        assert_eq!(fact.as_str(), format!("{:?}", fact));
    }
}

#[test]
fn timestamps_become_days() {
    let stamps = Some(vec![Some(1672444800), Some(1680220800), Some(0), Some(-1), Some(1262304000)]);
    let days = extract_timestamps_from_response(&stamps).unwrap();
    assert_eq!(
        days,
        vec![day(2022, 12, 31), day(2023, 3, 31), day(1970, 1, 1), day(1969, 12, 31), day(2010, 1, 1)]
    );
    assert_eq!(extract_timestamps_from_response(&Some(vec![])).unwrap(), vec![]);
}

#[test]
fn day_is_not_the_timestamp() {
    let days = extract_timestamps_from_response(&Some(vec![Some(86399), Some(86400)])).unwrap();
    assert_eq!(days, vec![day(1970, 1, 1), day(1970, 1, 2)]);
}

#[test]
fn broken_timestamps_are_inconsistent() {
    assert!(matches!(
        extract_timestamps_from_response(&None),
        Err(YahooError::DataInconsistency)
    ));
    assert!(matches!(
        extract_timestamps_from_response(&Some(vec![Some(0), None, Some(1)])),
        Err(YahooError::DataInconsistency)
    ));
    assert!(matches!(
        extract_timestamps_from_response(&Some(vec![Some(i64::MAX)])),
        Err(YahooError::DataInconsistency)
    ));
    assert!(matches!(
        extract_timestamps_from_response(&Some(vec![Some(i64::MIN)])),
        Err(YahooError::DataInconsistency)
    ));
}

#[test]
fn days_are_collected_in_order() {
    let days = collect_days(&vec![Some(day(2020, 1, 2)), Some(day(2019, 5, 6))]).unwrap();
    assert_eq!(days, vec![day(2020, 1, 2), day(2019, 5, 6)]);
    assert!(matches!(
        collect_days(&vec![Some(day(2020, 1, 2)), None]),
        Err(YahooError::DataInconsistency)
    ));
    assert_eq!(collect_days(&vec![]).unwrap(), vec![]);
}

#[test]
fn values_are_paired_with_their_days() {
    let days = vec![day(2022, 12, 31), day(2023, 3, 31), day(2023, 6, 30)];
    let values = vec![Some(1.88f64), None, Some(0.0f64)];
    assert!(has_days_for(&days, &values));
    assert_eq!(
        pair_values(&days, &values),
        vec![(day(2022, 12, 31), 1.88f64), (day(2023, 6, 30), 0.0f64)]
    );
    let none: Vec<Option<f64>> = vec![];
    assert!(has_days_for(&days, &none));
    assert_eq!(pair_values(&days, &none), vec![]);
}

#[test]
fn values_beyond_the_days_are_noticed() {
    let days = vec![day(2022, 12, 31)];
    assert!(has_days_for(&days, &vec![Some(1u32), None, None]));
    assert!(!has_days_for(&days, &vec![Some(1u32), Some(2u32)]));
    assert!(!has_days_for(&days, &vec![None, None, Some(2u32)]));
    assert_eq!(pair_values(&days, &vec![Some(7u32), None, None]), vec![(day(2022, 12, 31), 7u32)]);
    let no_days: Vec<Day> = vec![];
    assert!(has_days_for(&no_days, &vec![None::<u32>]));
    assert!(!has_days_for(&no_days, &vec![Some(1u32)]));
}

#[test]
fn no_two_facts_share_a_name() {
    let income: HashSet<String> =
        IncomeStatementFact::all().iter().map(|fact| fact.as_str().to_string()).collect();
    assert_eq!(income.len(), 96);
    let balance: HashSet<String> =
        BalanceSheetFact::all().iter().map(|fact| fact.as_str().to_string()).collect();
    assert_eq!(balance.len(), 144);
    let cashflow: HashSet<String> =
        CashflowFact::all().iter().map(|fact| fact.as_str().to_string()).collect();
    assert_eq!(cashflow.len(), 123);

    let mut series = HashSet::new();
    for fact in CashflowFact::all() {
        series.insert(timeseries_key(Period::Year, fact));
        series.insert(timeseries_key(Period::Quarter, fact));
    }
    assert_eq!(series.len(), 2 * 123);

    let modules: HashSet<&str> = [
        QuoteSummaryField::AssetProfile,
        QuoteSummaryField::DefaultKeyStatistics,
        QuoteSummaryField::FinancialData,
        QuoteSummaryField::QuoteType,
        QuoteSummaryField::SummaryDetail,
        QuoteSummaryField::Earnings,
        QuoteSummaryField::EarningsHistory,
        QuoteSummaryField::EarningsTrend,
        QuoteSummaryField::Price,
    ]
    .iter()
    .map(|field| field.as_str())
    .collect();
    assert_eq!(modules.len(), 9);
}

#[test]
fn all_facts_can_be_asked_for_at_once() {
    let facts = CashflowFact::all();
    let url = compose_fundamentals_url_until("IBM", Period::Year, 0, facts);
    let series: Vec<&str> = url.split("&type=").nth(1).unwrap().split(',').collect();
    assert_eq!(series.len(), 123);
    for (name, fact) in series.iter().zip(facts) {
        assert_eq!(*name, format!("annual{}", fact.as_str()));
    }
}
