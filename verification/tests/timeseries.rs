use std::collections::{BTreeMap, HashMap};

use serde_json::Value;
use yahoo_finance_api::fundamentals::{
    by_day, comes_before, find_series, from_response, put_on_day, Day, IncomeStatementFact,
    Period, SeriesEntry,
};
use yahoo_finance_api::YahooError;

const INCOME_STATEMENT: &str = r#"
    {
  "timeseries": {
    "result": [
      {
        "meta": {
          "symbol": [
            "AAPL"
          ],
          "type": [
            "quarterlyDilutedEPS"
          ]
        },
        "timestamp": [
          1672444800,
          1680220800,
          1688083200,
          1696032000,
          1703980800
        ],
        "quarterlyDilutedEPS": [
          {
            "dataId": 29009,
            "asOfDate": "2022-12-31",
            "periodType": "3M",
            "currencyCode": "USD",
            "reportedValue": {
              "raw": 1.88,
              "fmt": "1.88"
            }
          },
          {
            "dataId": 29009,
            "asOfDate": "2023-03-31",
            "periodType": "3M",
            "currencyCode": "USD",
            "reportedValue": {
              "raw": 1.52,
              "fmt": "1.52"
            }
          },
          {
            "dataId": 29009,
            "asOfDate": "2023-06-30",
            "periodType": "3M",
            "currencyCode": "USD",
            "reportedValue": {
              "raw": 1.26,
              "fmt": "1.26"
            }
          },
          {
            "dataId": 29009,
            "asOfDate": "2023-09-30",
            "periodType": "3M",
            "currencyCode": "USD",
            "reportedValue": {
              "raw": 1.46,
              "fmt": "1.46"
            }
          },
          {
            "dataId": 29009,
            "asOfDate": "2023-12-31",
            "periodType": "3M",
            "currencyCode": "USD",
            "reportedValue": {
              "raw": 2.18,
              "fmt": "2.18"
            }
          }
        ]
      },
      {
        "meta": {
          "symbol": [
            "AAPL"
          ],
          "type": [
            "quarterlyTaxEffectOfUnusualItems"
          ]
        },
        "timestamp": [
          1672444800,
          1680220800,
          1688083200,
          1696032000,
          1703980800
        ],
        "quarterlyTaxEffectOfUnusualItems": [
          {
            "dataId": 20419,
            "asOfDate": "2022-12-31",
            "periodType": "3M",
            "currencyCode": "USD",
            "reportedValue": {
              "raw": 0.0,
              "fmt": "0.00"
            }
          },
          {
            "dataId": 20419,
            "asOfDate": "2023-03-31",
            "periodType": "3M",
            "currencyCode": "USD",
            "reportedValue": {
              "raw": 0.0,
              "fmt": "0.00"
            }
          },
          {
            "dataId": 20419,
            "asOfDate": "2023-06-30",
            "periodType": "3M",
            "currencyCode": "USD",
            "reportedValue": {
              "raw": 0.0,
              "fmt": "0.00"
            }
          },
          {
            "dataId": 20419,
            "asOfDate": "2023-09-30",
            "periodType": "3M",
            "currencyCode": "USD",
            "reportedValue": {
              "raw": 0.0,
              "fmt": "0.00"
            }
          },
          {
            "dataId": 20419,
            "asOfDate": "2023-12-31",
            "periodType": "3M",
            "currencyCode": "USD",
            "reportedValue": {
              "raw": 0.0,
              "fmt": "0.00"
            }
          }
        ]
      }
    ],
    "error": null
  }
}"#;

/// What the library reads of the result list of a response.
fn entries(resp: &Value) -> Option<Vec<SeriesEntry<f64>>> {
    match resp.get("timeseries").and_then(|v| v.get("result")) {
        Some(Value::Array(results)) => Some(results.iter().map(entry).collect()),
        _ => None,
    }
}

fn entry(result_entry: &Value) -> SeriesEntry<f64> {
    let timestamps = match result_entry.get("timestamp") {
        Some(Value::Array(timestamps)) => Some(timestamps.iter().map(Value::as_i64).collect()),
        _ => None,
    };
    let mut series = Vec::new();
    if let Value::Object(members) = result_entry {
        for (name, member) in members {
            if let Value::Array(values) = member {
                let reported = values
                    .iter()
                    .map(|val| {
                        val.get("reportedValue").and_then(|v| v.get("raw")).and_then(Value::as_f64)
                    })
                    .collect();
                series.push((name.clone(), reported));
            }
        }
    }
    SeriesEntry { timestamps, series }
}

fn tables(
    facts: &[IncomeStatementFact],
    found: Vec<Option<Vec<(Day, f64)>>>,
) -> HashMap<IncomeStatementFact, BTreeMap<time::Date, f64>> {
    let mut ret = HashMap::new();
    for (fact, table) in facts.iter().zip(found) {
        if let Some(table) = table {
            let data = ret.entry(*fact).or_insert_with(BTreeMap::new);
            for (day, val) in table {
                let month = time::Month::try_from(day.month).unwrap();
                data.insert(time::Date::from_calendar_date(day.year, month, day.day).unwrap(), val);
            }
        }
    }
    ret
}

fn day(year: i32, month: u8, day: u8) -> Day {
    Day { year, month, day }
}

fn plain(timestamps: Option<Vec<Option<i64>>>, series: Vec<(&str, Vec<Option<u32>>)>) -> SeriesEntry<u32> {
    SeriesEntry {
        timestamps,
        series: series.into_iter().map(|(name, values)| (name.to_string(), values)).collect(),
    }
}

#[test]
fn test_income_statement_parsing() {
    let json: Value = serde_json::from_str(INCOME_STATEMENT).unwrap();
    let facts = [
        IncomeStatementFact::DilutedEPS,
        IncomeStatementFact::TaxEffectOfUnusualItems,
    ];
    let found = from_response(&entries(&json), Period::Quarter, &facts).unwrap();
    let income_statement = tables(&facts, found);

    assert_eq!(income_statement.len(), 2);

    let diluted_eps = income_statement
        .get(&IncomeStatementFact::DilutedEPS)
        .unwrap();
    let tax_effect_of_unusual_items = income_statement
        .get(&IncomeStatementFact::TaxEffectOfUnusualItems)
        .unwrap();

    assert_eq!(diluted_eps.len(), 5);
    assert_eq!(tax_effect_of_unusual_items.len(), 5);

    assert_eq!(
        diluted_eps
            .get(&time::Date::from_calendar_date(2022, time::Month::December, 31).unwrap()),
        Some(&1.88f64)
    );
}

#[test]
fn tables_follow_the_order_of_the_request() {
    let json: Value = serde_json::from_str(INCOME_STATEMENT).unwrap();
    let facts = [
        IncomeStatementFact::TaxEffectOfUnusualItems,
        IncomeStatementFact::NetIncome,
        IncomeStatementFact::DilutedEPS,
    ];
    let found = from_response(&entries(&json), Period::Quarter, &facts).unwrap();
    assert_eq!(found.len(), 3);
    assert_eq!(
        found[0],
        Some(vec![
            (day(2022, 12, 31), 0.0),
            (day(2023, 3, 31), 0.0),
            (day(2023, 6, 30), 0.0),
            (day(2023, 9, 30), 0.0),
            (day(2023, 12, 31), 0.0),
        ])
    );
    assert_eq!(found[1], None);
    assert_eq!(
        found[2],
        Some(vec![
            (day(2022, 12, 31), 1.88),
            (day(2023, 3, 31), 1.52),
            (day(2023, 6, 30), 1.26),
            (day(2023, 9, 30), 1.46),
            (day(2023, 12, 31), 2.18),
        ])
    );
    // the yearly series are not in this response
    let yearly = from_response(&entries(&json), Period::Year, &facts).unwrap();
    assert_eq!(yearly, vec![None, None, None]);
}

#[test]
fn response_without_result_list_is_inconsistent() {
    let json: Value = serde_json::from_str("{\"timeseries\": {\"error\": null}}").unwrap();
    let facts = [IncomeStatementFact::DilutedEPS];
    assert!(matches!(
        from_response(&entries(&json), Period::Quarter, &facts),
        Err(YahooError::DataInconsistency)
    ));
    let none: Option<Vec<SeriesEntry<u32>>> = None;
    assert!(matches!(
        from_response(&none, Period::Quarter, &facts),
        Err(YahooError::DataInconsistency)
    ));
}

#[test]
fn entry_without_timestamps_is_inconsistent() {
    let facts = [IncomeStatementFact::DilutedEPS];
    let broken = Some(vec![plain(None, vec![])]);
    assert!(matches!(
        from_response(&broken, Period::Quarter, &facts),
        Err(YahooError::DataInconsistency)
    ));
    let broken = Some(vec![
        plain(Some(vec![Some(0)]), vec![("quarterlyDilutedEPS", vec![Some(1)])]),
        plain(Some(vec![Some(0), None]), vec![]),
    ]);
    assert!(matches!(
        from_response(&broken, Period::Quarter, &facts),
        Err(YahooError::DataInconsistency)
    ));
    // also where nothing was asked for
    let none: [IncomeStatementFact; 0] = [];
    assert!(matches!(
        from_response(&broken, Period::Quarter, &none),
        Err(YahooError::DataInconsistency)
    ));
}

#[test]
fn value_without_a_day_is_inconsistent() {
    let facts = [IncomeStatementFact::DilutedEPS];
    let broken = Some(vec![plain(
        Some(vec![Some(0)]),
        vec![("quarterlyDilutedEPS", vec![Some(1), Some(2)])],
    )]);
    assert!(matches!(
        from_response(&broken, Period::Quarter, &facts),
        Err(YahooError::DataInconsistency)
    ));
    // a place without a value needs no day
    let sound = Some(vec![plain(
        Some(vec![Some(0)]),
        vec![("quarterlyDilutedEPS", vec![Some(1), None])],
    )]);
    assert_eq!(
        from_response(&sound, Period::Quarter, &facts).unwrap(),
        vec![Some(vec![(day(1970, 1, 1), 1)])]
    );
    // a series that was not asked for is not looked at
    let other = Some(vec![plain(
        Some(vec![Some(0)]),
        vec![("annualDilutedEPS", vec![Some(1), Some(2)])],
    )]);
    assert_eq!(from_response(&other, Period::Quarter, &facts).unwrap(), vec![None]);
}

#[test]
fn later_entries_replace_earlier_ones() {
    let facts = [IncomeStatementFact::EBIT, IncomeStatementFact::EBITDA];
    let results = Some(vec![
        plain(
            Some(vec![Some(0), Some(86400)]),
            vec![("annualEBIT", vec![Some(1), Some(2)]), ("annualEBITDA", vec![])],
        ),
        plain(Some(vec![Some(86400)]), vec![("annualEBIT", vec![Some(3)])]),
        plain(Some(vec![]), vec![("annualOther", vec![])]),
    ]);
    let found = from_response(&results, Period::Year, &facts).unwrap();
    assert_eq!(
        found,
        vec![
            Some(vec![(day(1970, 1, 1), 1), (day(1970, 1, 2), 3)]),
            Some(vec![]),
        ]
    );
    let empty: Option<Vec<SeriesEntry<u32>>> = Some(vec![]);
    assert_eq!(from_response(&empty, Period::Year, &facts).unwrap(), vec![None, None]);
}

#[test]
fn first_series_of_a_name_is_found() {
    let entry = plain(
        None,
        vec![("a", vec![Some(1)]), ("b", vec![Some(2)]), ("a", vec![Some(3)]), ("", vec![])],
    );
    assert_eq!(find_series(&entry, &"a".to_string()), Some(&vec![Some(1)]));
    assert_eq!(find_series(&entry, &"b".to_string()), Some(&vec![Some(2)]));
    assert_eq!(find_series(&entry, &"".to_string()), Some(&vec![]));
    assert_eq!(find_series(&entry, &"c".to_string()), None);
}

#[test]
fn tables_are_ordered_by_day() {
    let facts = [IncomeStatementFact::EBIT];
    let results = Some(vec![
        plain(
            Some(vec![Some(3 * 86400), Some(86400), Some(2 * 86400)]),
            vec![("annualEBIT", vec![Some(30), Some(10), Some(20)])],
        ),
        plain(Some(vec![Some(0), Some(86400 + 5)]), vec![("annualEBIT", vec![Some(1), Some(11)])]),
    ]);
    let found = from_response(&results, Period::Year, &facts).unwrap();
    assert_eq!(
        found,
        vec![Some(vec![
            (day(1970, 1, 1), 1),
            (day(1970, 1, 2), 11),
            (day(1970, 1, 3), 20),
            (day(1970, 1, 4), 30),
        ])]
    );
}

#[test]
fn table_holds_the_last_value_of_each_day() {
    let reported = vec![
        (day(2023, 3, 31), 1.52),
        (day(2022, 12, 31), 1.88),
        (day(2023, 3, 31), 1.26),
        (day(2021, 12, 31), 0.5),
        (day(2022, 12, 31), 2.18),
    ];
    assert_eq!(
        by_day(&reported),
        vec![(day(2021, 12, 31), 0.5), (day(2022, 12, 31), 2.18), (day(2023, 3, 31), 1.26)]
    );
    let none: Vec<(Day, f64)> = vec![];
    assert_eq!(by_day(&none), vec![]);
    assert_eq!(by_day(&vec![(day(2020, 2, 29), 7u8)]), vec![(day(2020, 2, 29), 7u8)]);
}

#[test]
fn value_is_put_where_its_day_belongs() {
    let mut table = vec![(day(2020, 1, 1), 1), (day(2020, 3, 1), 3)];
    put_on_day(&mut table, day(2020, 2, 1), 2);
    assert_eq!(table, vec![(day(2020, 1, 1), 1), (day(2020, 2, 1), 2), (day(2020, 3, 1), 3)]);
    put_on_day(&mut table, day(2019, 12, 31), 0);
    put_on_day(&mut table, day(2020, 3, 2), 4);
    put_on_day(&mut table, day(2020, 2, 1), 20);
    assert_eq!(
        table,
        vec![
            (day(2019, 12, 31), 0),
            (day(2020, 1, 1), 1),
            (day(2020, 2, 1), 20),
            (day(2020, 3, 1), 3),
            (day(2020, 3, 2), 4),
        ]
    );
}

#[test]
fn days_follow_the_calendar() {
    assert!(comes_before(day(2019, 12, 31), day(2020, 1, 1)));
    assert!(comes_before(day(2020, 1, 31), day(2020, 2, 1)));
    assert!(comes_before(day(2020, 2, 1), day(2020, 2, 2)));
    assert!(comes_before(day(-1, 12, 31), day(0, 1, 1)));
    assert!(!comes_before(day(2020, 2, 2), day(2020, 2, 2)));
    assert!(!comes_before(day(2020, 2, 2), day(2020, 2, 1)));
    assert!(!comes_before(day(2020, 3, 1), day(2020, 2, 28)));
    assert!(!comes_before(day(2021, 1, 1), day(2020, 12, 31)));
}
