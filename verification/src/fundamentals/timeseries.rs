use vstd::prelude::*;

use super::{series_names, timeseries_key, AsStr, Period};
use crate::yahoo_error::{YahooError, YahooErrorView};

verus! {

/// A day of the calendar.
#[derive(Debug, Clone, Copy, PartialEq, Eq, Structural)]
pub struct Day {
    pub year: i32,
    /// 1 for January to 12 for December.
    pub month: u8,
    /// Day of the month, from 1.
    pub day: u8,
}

/// The day, in UTC, on which the second `seconds` since the Unix epoch
/// falls, as the `time` crate reckons it; `None` where the crate holds no
/// such moment.
pub uninterp spec fn timestamp_day(seconds: i64) -> Option<Day>;

/// Makes a moment of `seconds` with `time::OffsetDateTime::from_unix_timestamp`
/// and reads its day with `to_calendar_date`. Nothing is claimed of the
/// outcome but that it is the same for the same number.
#[verifier::external_body]
fn day_of_timestamp(seconds: i64) -> (day: Option<Day>)
    ensures
        day == timestamp_day(seconds),
{
    match time::OffsetDateTime::from_unix_timestamp(seconds) {
        Err(_) => None,
        Ok(moment) => {
            let (year, month, day) = moment.to_calendar_date();
            Some(Day { year, month: u8::from(month), day })
        },
    }
}

/// The days that a list of converted timestamps stands for: all of them in
/// their order, if none is missing.
pub open spec fn all_days(converted: Seq<Option<Day>>) -> Result<Seq<Day>, YahooErrorView> {
    if forall|i: int| 0 <= i < converted.len() ==> (#[trigger] converted[i]) is Some {
        Ok(Seq::new(converted.len(), |i: int| converted[i]->0))
    } else {
        Err(YahooErrorView::DataInconsistency)
    }
}

/// What a `Result` of days or an error holds, as specifications see it.
pub open spec fn days_view(outcome: Result<Vec<Day>, YahooError>) -> Result<
    Seq<Day>,
    YahooErrorView,
> {
    match outcome {
        Ok(days) => Ok(days@),
        Err(error) => Err(error@),
    }
}

/// Collects the days of `converted` in their order. One missing day makes
/// the whole list inconsistent.
pub fn collect_days(converted: &Vec<Option<Day>>) -> (outcome: Result<Vec<Day>, YahooError>)
    ensures
        days_view(outcome) == all_days(converted@),
{
    let mut days: Vec<Day> = Vec::new();
    let mut done: usize = 0;
    while done < converted.len()
        invariant
            done <= converted.len(),
            days@.len() == done,
            forall|i: int| 0 <= i < done ==> (#[trigger] converted@[i]) == Some(days@[i]),
        decreases converted.len() - done,
    {
        match converted[done] {
            Some(day) => days.push(day),
            None => {
                return Err(YahooError::DataInconsistency);
            },
        }
        done = done + 1;
    }
    assert(days@ =~= Seq::new(converted@.len(), |i: int| converted@[i]->0));
    Ok(days)
}

/// The day of each entry of a `timestamp` list, where `None` stands for an
/// entry that is no whole number of seconds.
pub open spec fn converted_days(timestamps: Seq<Option<i64>>) -> Seq<Option<Day>> {
    Seq::new(
        timestamps.len(),
        |i: int|
            match timestamps[i] {
                Some(seconds) => timestamp_day(seconds),
                None => None,
            },
    )
}

/// The days of the `timestamp` list of a result entry. `None` stands for an
/// entry without such a list.
pub open spec fn response_days(timestamps: Option<Seq<Option<i64>>>) -> Result<
    Seq<Day>,
    YahooErrorView,
> {
    match timestamps {
        None => Err(YahooErrorView::DataInconsistency),
        Some(list) => all_days(converted_days(list)),
    }
}

/// Turns the `timestamp` list of a result entry into days. The entry is
/// inconsistent where it has no such list, where an entry of the list is no
/// whole number of seconds, or where one lies outside the calendar.
pub fn extract_timestamps_from_response(timestamps: &Option<Vec<Option<i64>>>) -> (outcome: Result<
    Vec<Day>,
    YahooError,
>)
    ensures
        days_view(outcome) == response_days(timestamps.deep_view()),
{
    match timestamps {
        None => Err(YahooError::DataInconsistency),
        Some(list) => {
            let mut converted: Vec<Option<Day>> = Vec::new();
            let mut done: usize = 0;
            while done < list.len()
                invariant
                    done <= list.len(),
                    converted@.len() == done,
                    forall|i: int|
                        0 <= i < done ==> (#[trigger] converted@[i]) == converted_days(list@)[i],
                decreases list.len() - done,
            {
                let day = match list[done] {
                    Some(seconds) => day_of_timestamp(seconds),
                    None => None,
                };
                converted.push(day);
                done = done + 1;
            }
            assert(converted@ =~= converted_days(list@));
            assert(list.deep_view() =~= list@);
            collect_days(&converted)
        },
    }
}

/// The reported values of a time series, each with its day: the entries of
/// `values` that hold a number, in their order. The entry at a place belongs
/// to the day at the same place.
pub open spec fn paired<V>(days: Seq<Day>, values: Seq<Option<V>>) -> Seq<(Day, V)>
    decreases values.len(),
{
    if values.len() == 0 {
        Seq::empty()
    } else {
        let front = paired(days, values.drop_last());
        match values.last() {
            Some(value) => front.push((days[values.len() - 1], value)),
            None => front,
        }
    }
}

/// Whether every entry of `values` that holds a number has a day in `days`.
pub open spec fn days_suffice<V>(days: Seq<Day>, values: Seq<Option<V>>) -> bool {
    forall|i: int| 0 <= i < values.len() && (#[trigger] values[i]) is Some ==> i < days.len()
}

/// Whether every entry of `values` that holds a number has a day in `days`.
pub fn has_days_for<V: Copy>(days: &Vec<Day>, values: &Vec<Option<V>>) -> (enough: bool)
    ensures
        enough == days_suffice(days@, values@),
{
    let mut place: usize = days.len();
    while place < values.len()
        invariant
            days.len() <= place,
            forall|i: int| days.len() <= i < place && i < values.len() ==> (#[trigger] values@[i]) is None,
        decreases values.len() - place,
    {
        if values[place].is_some() {
            return false;
        }
        place = place + 1;
    }
    true
}

/// Gives each reported value of a time series its day. An entry of `values`
/// without a number is passed over.
pub fn pair_values<V: Copy>(days: &Vec<Day>, values: &Vec<Option<V>>) -> (pairs: Vec<(Day, V)>)
    requires
        days_suffice(days@, values@),
    ensures
        pairs@ == paired(days@, values@),
{
    let mut pairs: Vec<(Day, V)> = Vec::new();
    let mut done: usize = 0;
    while done < values.len()
        invariant
            done <= values.len(),
            days_suffice(days@, values@),
            pairs@ == paired(days@, values@.take(done as int)),
        decreases values.len() - done,
    {
        proof {
            let next = values@.take(done + 1);
            assert(next.drop_last() =~= values@.take(done as int));
        }
        match values[done] {
            Some(value) => {
                pairs.push((days[done], value));
            },
            None => {},
        }
        done = done + 1;
    }
    assert(values@.take(values.len() as int) =~= values@);
    pairs
}

/// Whether `first` comes before `second` in the calendar.
pub open spec fn day_before(first: Day, second: Day) -> bool {
    ||| first.year < second.year
    ||| first.year == second.year && first.month < second.month
    ||| first.year == second.year && first.month == second.month && first.day < second.day
}

/// Whether `first` comes before `second` in the calendar.
pub fn comes_before(first: Day, second: Day) -> (before: bool)
    ensures
        before == day_before(first, second),
{
    first.year < second.year || (first.year == second.year && (first.month < second.month || (
        first.month == second.month && first.day < second.day)))
}

/// The value that a row of reported values holds for `day`: the last one
/// that was reported for it, if any was.
pub open spec fn reported_on<N>(pairs: Seq<(Day, N)>, day: Day) -> Option<N>
    decreases pairs.len(),
{
    if pairs.len() == 0 {
        None
    } else if pairs.last().0 == day {
        Some(pairs.last().1)
    } else {
        reported_on(pairs.drop_last(), day)
    }
}

/// Whether the days of `pairs` go forward in the calendar from each pair to
/// the next, so that no day comes twice.
pub open spec fn ordered_by_day<N>(pairs: Seq<(Day, N)>) -> bool {
    forall|i: int, j: int|
        0 <= i < j < pairs.len() ==> day_before((#[trigger] pairs[i]).0, (#[trigger] pairs[j]).0)
}

/// Whether `table` is the table of the values `reported`: ordered by day,
/// and holding for every day the value that was reported for it last.
pub open spec fn is_table_of<N>(table: Seq<(Day, N)>, reported: Seq<(Day, N)>) -> bool {
    &&& ordered_by_day(table)
    &&& forall|day: Day| reported_on(table, day) == reported_on(reported, day)
}

/// In a row that is ordered by day, each pair holds the value of its day.
pub proof fn lemma_ordered_holds<N>(pairs: Seq<(Day, N)>, place: int)
    requires
        ordered_by_day(pairs),
        0 <= place < pairs.len(),
    ensures
        reported_on(pairs, pairs[place].0) == Some(pairs[place].1),
    decreases pairs.len(),
{
    if place < pairs.len() - 1 {
        assert(day_before(pairs[place].0, pairs[pairs.len() - 1].0));
        let front = pairs.drop_last();
        assert forall|i: int, j: int| 0 <= i < j < front.len() implies day_before(
            (#[trigger] front[i]).0,
            (#[trigger] front[j]).0,
        ) by {
            assert(front[i] == pairs[i] && front[j] == pairs[j]);
        }
        lemma_ordered_holds(front, place);
    }
}

/// A row holds no value for a day that none of its pairs names.
pub proof fn lemma_absent_day<N>(pairs: Seq<(Day, N)>, day: Day)
    requires
        forall|i: int| 0 <= i < pairs.len() ==> (#[trigger] pairs[i]).0 != day,
    ensures
        reported_on(pairs, day) is None,
    decreases pairs.len(),
{
    if pairs.len() > 0 {
        let front = pairs.drop_last();
        assert(pairs[pairs.len() - 1].0 != day);
        assert forall|i: int| 0 <= i < front.len() implies (#[trigger] front[i]).0 != day by {
            assert(front[i] == pairs[i]);
        }
        lemma_absent_day(front, day);
    }
}

/// A table that is ordered by day holds for each day the value of the pair
/// that names it, and nothing for a day that no pair names: it can be read
/// like a map.
pub proof fn lemma_table_reads<N>(table: Seq<(Day, N)>, day: Day)
    requires
        ordered_by_day(table),
    ensures
        match reported_on(table, day) {
            Some(value) => exists|i: int| 0 <= i < table.len() && #[trigger] table[i] == (day, value),
            None => forall|i: int| 0 <= i < table.len() ==> (#[trigger] table[i]).0 != day,
        },
{
    if exists|i: int| 0 <= i < table.len() && (#[trigger] table[i]).0 == day {
        let place = choose|i: int| 0 <= i < table.len() && (#[trigger] table[i]).0 == day;
        lemma_ordered_holds(table, place);
        assert(table[place] == (day, table[place].1));
    } else {
        lemma_absent_day(table, day);
    }
}

/// Whether `pair` is a pair of `row`.
pub open spec fn holds_pair<N>(row: Seq<(Day, N)>, pair: (Day, N)) -> bool {
    exists|j: int| 0 <= j < row.len() && #[trigger] row[j] == pair
}

/// Whether every pair of `first` is a pair of `second`.
pub open spec fn pairs_among<N>(first: Seq<(Day, N)>, second: Seq<(Day, N)>) -> bool {
    forall|i: int| 0 <= i < first.len() ==> #[trigger] holds_pair(second, first[i])
}

/// Two rows that are ordered by day and hold the same pairs agree place for
/// place, as far as the first goes.
proof fn lemma_same_places<N>(first: Seq<(Day, N)>, second: Seq<(Day, N)>, upto: nat)
    requires
        ordered_by_day(first),
        ordered_by_day(second),
        pairs_among(first, second),
        pairs_among(second, first),
        upto <= first.len(),
    ensures
        upto <= second.len(),
        forall|k: int| 0 <= k < upto ==> #[trigger] first[k] == second[k],
    decreases upto,
{
    if upto > 0 {
        lemma_same_places(first, second, (upto - 1) as nat);
        let place = upto - 1;
        assert(holds_pair(second, first[place]));
        let found = choose|j: int| 0 <= j < second.len() && #[trigger] second[j] == first[place];
        if found < place {
            assert(first[found] == second[found]);
            assert(day_before(first[found].0, first[place].0));
        } else if found > place {
            assert(holds_pair(first, second[place]));
            let back = choose|i: int| 0 <= i < first.len() && #[trigger] first[i] == second[place];
            assert(day_before(second[place].0, second[found].0));
            if back < place {
                assert(first[back] == second[back]);
                assert(day_before(second[back].0, second[place].0));
            } else if back > place {
                assert(day_before(first[place].0, first[back].0));
            }
        }
    }
}

/// The values that were reported have one table only.
pub proof fn lemma_one_table<N>(
    first: Seq<(Day, N)>,
    second: Seq<(Day, N)>,
    reported: Seq<(Day, N)>,
)
    requires
        is_table_of(first, reported),
        is_table_of(second, reported),
    ensures
        first == second,
{
    assert forall|i: int| 0 <= i < first.len() implies #[trigger] holds_pair(
        second,
        first[i],
    ) by {
        lemma_ordered_holds(first, i);
        lemma_table_reads(second, first[i].0);
    }
    assert forall|i: int| 0 <= i < second.len() implies #[trigger] holds_pair(
        first,
        second[i],
    ) by {
        lemma_ordered_holds(second, i);
        lemma_table_reads(first, second[i].0);
    }
    lemma_same_places(first, second, first.len());
    lemma_same_places(second, first, second.len());
    assert(first =~= second);
}

/// Puts the value `value` of `day` into a table: in the place of the value
/// that the table holds for that day, or where the day belongs in the order.
pub fn put_on_day<N: Copy>(table: &mut Vec<(Day, N)>, day: Day, value: N)
    requires
        ordered_by_day(old(table)@),
    ensures
        ordered_by_day(final(table)@),
        forall|other: Day|
            reported_on(final(table)@, other) == if other == day {
                Some(value)
            } else {
                reported_on(old(table)@, other)
            },
{
    let ghost before = table@;
    let mut place: usize = 0;
    while place < table.len() && comes_before(table[place].0, day)
        invariant
            place <= table.len(),
            table@ == before,
            forall|i: int| 0 <= i < place ==> day_before((#[trigger] before[i]).0, day),
        decreases table.len() - place,
    {
        place = place + 1;
    }
    let replaces = place < table.len() && table[place].0 == day;
    if replaces {
        table[place] = (day, value);
    } else {
        table.insert(place, (day, value));
    }
    proof {
        let after = table@;
        let shift: int = if replaces { 1 } else { 0 };
        assert(after[place as int] == (day, value));
        assert forall|i: int| 0 <= i < place implies after[i] == before[i] by {}
        assert forall|i: int| place < i < after.len() implies after[i] == before[i - 1 + shift]
            && day_before(day, after[i].0) by {
            if !replaces && place < before.len() {
                assert(!day_before(before[place as int].0, day));
                if place as int != i - 1 {
                    assert(day_before(before[place as int].0, before[i - 1].0));
                }
            }
            if replaces && place as int + 1 <= i {
                assert(day_before(before[place as int].0, before[i].0));
            }
        }
        assert forall|i: int, j: int| 0 <= i < j < after.len() implies day_before(
            (#[trigger] after[i]).0,
            (#[trigger] after[j]).0,
        ) by {
            if i < place && j > place {
                assert(day_before(before[i].0, day));
                assert(day_before(day, after[j].0));
            } else if i < place && j < place {
                assert(day_before(before[i].0, before[j].0));
            } else if i > place {
                assert(day_before(before[i - 1 + shift].0, before[j - 1 + shift].0));
            }
        }
        assert forall|other: Day| reported_on(after, other) == if other == day {
            Some(value)
        } else {
            reported_on(before, other)
        } by {
            if other == day {
                lemma_ordered_holds(after, place as int);
            } else {
                lemma_table_reads(before, other);
                match reported_on(before, other) {
                    Some(held) => {
                        let at = choose|i: int|
                            0 <= i < before.len() && #[trigger] before[i] == (other, held);
                        let now_at = if at < place {
                            at
                        } else {
                            at + 1 - shift
                        };
                        assert(after[now_at] == before[at]);
                        lemma_ordered_holds(after, now_at);
                    },
                    None => {
                        assert forall|i: int| 0 <= i < after.len() implies (#[trigger] after[i]).0
                            != other by {
                            if i < place {
                                assert(after[i] == before[i]);
                            } else if i > place {
                                assert(after[i] == before[i - 1 + shift]);
                            }
                        }
                        lemma_absent_day(after, other);
                    },
                }
            }
        }
    }
}

/// Makes the table of the values `reported`: one value for each day, the
/// one that was reported for it last, and the days in the order of the
/// calendar.
pub fn by_day<N: Copy>(reported: &Vec<(Day, N)>) -> (table: Vec<(Day, N)>)
    ensures
        is_table_of(table@, reported@),
{
    let mut table: Vec<(Day, N)> = Vec::new();
    let mut done: usize = 0;
    while done < reported.len()
        invariant
            done <= reported.len(),
            is_table_of(table@, reported@.take(done as int)),
        decreases reported.len() - done,
    {
        let (day, value) = reported[done];
        assert(reported@.take(done + 1).drop_last() =~= reported@.take(done as int));
        put_on_day(&mut table, day, value);
        done = done + 1;
    }
    assert(reported@.take(reported.len() as int) =~= reported@);
    table
}

/// What the library reads of one entry of the result list of a response.
#[derive(Debug)]
pub struct SeriesEntry<N> {
    /// The entries of the `timestamp` list, each as a whole number of seconds
    /// where it is one; `None` where the entry has no such list.
    pub timestamps: Option<Vec<Option<i64>>>,
    /// Every list of the entry with its name. An element stands for the
    /// number that was reported at its place, if one was.
    pub series: Vec<(String, Vec<Option<N>>)>,
}

/// A [`SeriesEntry`] as specifications see it.
pub struct SeriesEntryView<N> {
    pub timestamps: Option<Seq<Option<i64>>>,
    pub series: Seq<(Seq<char>, Seq<Option<N>>)>,
}

impl<N> View for SeriesEntry<N> {
    type V = SeriesEntryView<N>;

    open spec fn view(&self) -> SeriesEntryView<N> {
        SeriesEntryView {
            timestamps: self.timestamps.deep_view(),
            series: Seq::new(
                self.series@.len(),
                |i: int| (self.series@[i].0@, self.series@[i].1@),
            ),
        }
    }
}

/// The entries of a result list as specifications see them.
pub open spec fn entries_view<N>(entries: Seq<SeriesEntry<N>>) -> Seq<SeriesEntryView<N>> {
    Seq::new(entries.len(), |i: int| entries[i]@)
}

/// The first list of `series` that goes by `name`.
pub open spec fn series_named<N>(series: Seq<(Seq<char>, Seq<Option<N>>)>, name: Seq<char>) -> Option<
    Seq<Option<N>>,
>
    decreases series.len(),
{
    if series.len() == 0 {
        None
    } else if series[0].0 == name {
        Some(series[0].1)
    } else {
        series_named(series.drop_first(), name)
    }
}

/// The days of an entry.
pub open spec fn entry_days<N>(entry: SeriesEntryView<N>) -> Result<Seq<Day>, YahooErrorView> {
    response_days(entry.timestamps)
}

/// Whether an entry has its days, and a day for every value that it reports
/// under `name`.
pub open spec fn entry_sound<N>(entry: SeriesEntryView<N>, name: Seq<char>) -> bool {
    &&& entry_days(entry) is Ok
    &&& match series_named(entry.series, name) {
        Some(values) => days_suffice(entry_days(entry)->Ok_0, values),
        None => true,
    }
}

/// The values that an entry reports under `name`, each with its day; `None`
/// where the entry has no list of that name.
pub open spec fn entry_values<N>(entry: SeriesEntryView<N>, name: Seq<char>) -> Option<
    Seq<(Day, N)>,
> {
    match series_named(entry.series, name) {
        Some(values) => Some(paired(entry_days(entry)->Ok_0, values)),
        None => None,
    }
}

/// The values that the entries report under `name`, each with its day, in
/// the order of the entries; `None` where no entry has a list of that name.
/// Read as a table by day, a later value replaces an earlier one of the
/// same day.
pub open spec fn gathered<N>(entries: Seq<SeriesEntryView<N>>, name: Seq<char>) -> Option<
    Seq<(Day, N)>,
>
    decreases entries.len(),
{
    if entries.len() == 0 {
        None
    } else {
        let before = gathered(entries.drop_last(), name);
        match entry_values(entries.last(), name) {
            None => before,
            Some(values) => match before {
                Some(earlier) => Some(earlier + values),
                None => Some(values),
            },
        }
    }
}

/// Whether every entry has its days, and a day for every value that it
/// reports under one of `names`.
pub open spec fn response_sound<N>(entries: Seq<SeriesEntryView<N>>, names: Seq<Seq<char>>) -> bool {
    &&& forall|i: int| 0 <= i < entries.len() ==> entry_days(#[trigger] entries[i]) is Ok
    &&& forall|i: int, j: int|
        0 <= i < entries.len() && 0 <= j < names.len() ==> entry_sound(
            #[trigger] entries[i],
            #[trigger] names[j],
        )
}

/// What a response reports, for each of `names` in their order: the values
/// under that name with their days, as the entries list them. `results` is
/// the result list of the response, or `None` where it has none. A response
/// without a result list, or with an entry that is not sound, is
/// inconsistent.
pub open spec fn response_tables<N>(
    results: Option<Seq<SeriesEntryView<N>>>,
    names: Seq<Seq<char>>,
) -> Result<Seq<Option<Seq<(Day, N)>>>, YahooErrorView> {
    match results {
        None => Err(YahooErrorView::DataInconsistency),
        Some(entries) => if response_sound(entries, names) {
            Ok(Seq::new(names.len(), |j: int| gathered(entries, names[j])))
        } else {
            Err(YahooErrorView::DataInconsistency)
        },
    }
}

/// Whether `tables` holds, name for name, the table of what was reported.
pub open spec fn tables_are<N>(
    tables: Seq<Option<Seq<(Day, N)>>>,
    reported: Seq<Option<Seq<(Day, N)>>>,
) -> bool {
    &&& tables.len() == reported.len()
    &&& forall|j: int|
        0 <= j < tables.len() ==> match (#[trigger] tables[j], reported[j]) {
            (Some(table), Some(values)) => is_table_of(table, values),
            (None, None) => true,
            _ => false,
        }
}

/// What a `Result` of tables or an error holds, as specifications see it.
pub open spec fn tables_view<N>(outcome: Result<Vec<Option<Vec<(Day, N)>>>, YahooError>) -> Result<
    Seq<Option<Seq<(Day, N)>>>,
    YahooErrorView,
> {
    match outcome {
        Ok(tables) => Ok(
            Seq::new(
                tables@.len(),
                |j: int|
                    match tables@[j] {
                        Some(table) => Some(table@),
                        None => None,
                    },
            ),
        ),
        Err(error) => Err(error@),
    }
}

/// Finds the first list of `entry` that goes by `name`.
pub fn find_series<'a, N>(entry: &'a SeriesEntry<N>, name: &String) -> (found: Option<
    &'a Vec<Option<N>>,
>)
    ensures
        match found {
            Some(values) => series_named(entry@.series, name@) == Some(values@),
            None => series_named(entry@.series, name@) is None,
        },
{
    let mut place: usize = 0;
    assert(entry@.series.skip(0) =~= entry@.series);
    while place < entry.series.len()
        invariant
            place <= entry.series.len(),
            series_named(entry@.series, name@) == series_named(
                entry@.series.skip(place as int),
                name@,
            ),
        decreases entry.series.len() - place,
    {
        assert(entry@.series.skip(place as int).drop_first() =~= entry@.series.skip(place + 1));
        if entry.series[place].0 == *name {
            return Some(&entry.series[place].1);
        }
        place = place + 1;
    }
    None
}

/// Reads the result list of a response: for each of `requested_facts`, in
/// their order, the table of the values that the entries report for it in
/// `requested_period`. A table holds one value for each day, the one that
/// the response reports for it last, and is ordered by day. A fact of which
/// no entry holds a list gets `None`.
pub fn from_response<K: AsStr, N: Copy>(
    results: &Option<Vec<SeriesEntry<N>>>,
    requested_period: Period,
    requested_facts: &[K],
) -> (outcome: Result<Vec<Option<Vec<(Day, N)>>>, YahooError>)
    ensures
        match (
            tables_view(outcome),
            response_tables(
                match results {
                    Some(entries) => Some(entries_view(entries@)),
                    None => None,
                },
                series_names(requested_period, requested_facts@),
            ),
        ) {
            (Ok(tables), Ok(reported)) => tables_are(tables, reported),
            (Err(error), Err(wanted)) => error == wanted,
            _ => false,
        },
{
    let entries = match results {
        Some(entries) => entries,
        None => {
            return Err(YahooError::DataInconsistency);
        },
    };
    let ghost seen = entries_view(entries@);
    let ghost names = series_names(requested_period, requested_facts@);

    let mut days: Vec<Vec<Day>> = Vec::new();
    let mut read: usize = 0;
    while read < entries.len()
        invariant
            read <= entries.len(),
            days@.len() == read,
            *results == Some(*entries),
            seen == entries_view(entries@),
            forall|i: int| 0 <= i < read ==> entry_days(#[trigger] seen[i]) == Ok::<
                Seq<Day>,
                YahooErrorView,
            >(days@[i]@),
        decreases entries.len() - read,
    {
        match extract_timestamps_from_response(&entries[read].timestamps) {
            Ok(found) => days.push(found),
            Err(_) => {
                assert(entry_days(seen[read as int]) is Err);
                return Err(YahooError::DataInconsistency);
            },
        }
        read = read + 1;
    }

    let mut tables: Vec<Option<Vec<(Day, N)>>> = Vec::new();
    let mut done: usize = 0;
    while done < requested_facts.len()
        invariant
            done <= requested_facts.len(),
            tables@.len() == done,
            days@.len() == entries.len(),
            *results == Some(*entries),
            seen == entries_view(entries@),
            names == series_names(requested_period, requested_facts@),
            forall|i: int| 0 <= i < seen.len() ==> entry_days(#[trigger] seen[i]) == Ok::<
                Seq<Day>,
                YahooErrorView,
            >(days@[i]@),
            forall|i: int, j: int|
                0 <= i < seen.len() && 0 <= j < done ==> entry_sound(
                    #[trigger] seen[i],
                    #[trigger] names[j],
                ),
            forall|j: int|
                0 <= j < done ==> match #[trigger] tables@[j] {
                    Some(table) => gathered(seen, names[j]) is Some && is_table_of(
                        table@,
                        gathered(seen, names[j])->0,
                    ),
                    None => gathered(seen, names[j]) is None,
                },
        decreases requested_facts.len() - done,
    {
        let name = timeseries_key(requested_period, &requested_facts[done]);
        let mut table: Option<Vec<(Day, N)>> = None;
        let mut at: usize = 0;
        while at < entries.len()
            invariant
                at <= entries.len(),
                days@.len() == entries.len(),
                *results == Some(*entries),
                seen == entries_view(entries@),
                names == series_names(requested_period, requested_facts@),
                0 <= done < names.len(),
                name@ == names[done as int],
                forall|i: int| 0 <= i < seen.len() ==> entry_days(#[trigger] seen[i]) == Ok::<
                    Seq<Day>,
                    YahooErrorView,
                >(days@[i]@),
                forall|i: int| 0 <= i < at ==> entry_sound(#[trigger] seen[i], name@),
                match table {
                    Some(so_far) => gathered(seen.take(at as int), name@) == Some(so_far@),
                    None => gathered(seen.take(at as int), name@) is None,
                },
            decreases entries.len() - at,
        {
            proof {
                let next = seen.take(at + 1);
                assert(next.drop_last() =~= seen.take(at as int));
                assert(entry_days(seen[at as int]) == Ok::<Seq<Day>, YahooErrorView>(
                    days@[at as int]@,
                ));
            }
            match find_series(&entries[at], &name) {
                None => {},
                Some(values) => {
                    if !has_days_for(&days[at], values) {
                        return Err(YahooError::DataInconsistency);
                    }
                    let mut pairs = pair_values(&days[at], values);
                    table = match table {
                        Some(mut so_far) => {
                            so_far.append(&mut pairs);
                            Some(so_far)
                        },
                        None => Some(pairs),
                    };
                },
            }
            at = at + 1;
        }
        assert(seen.take(entries.len() as int) =~= seen);
        let ordered = match table {
            Some(values) => Some(by_day(&values)),
            None => None,
        };
        tables.push(ordered);
        done = done + 1;
    }
    Ok(tables)
}

} // verus!
