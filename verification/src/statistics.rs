//! Statistics of a table, inferred from the statistics that a file's footer
//! carries for its row groups.

use vstd::prelude::*;
use crate::datatypes::{column_index, DataType, Field, SchemaAdapter};
use crate::lookup::{lookup_entries, lookup_get, lookup_insert, lookup_new, ColumnStatsLookup};
use crate::metadata::{ParquetStatistics, RowGroupMetaData};
use crate::scalar::{MaxAccumulator, MinAccumulator, ScalarValue};

verus! {

/// The bounds, as `(min, max)`, that a column chunk's statistics offer to a
/// table column of the declared type `declared`.
///
/// They are offered only where the type in which the file encodes the
/// chunk is the declared type and the file records both bounds; in every
/// other case the chunk has no usable bounds for the column.
pub open spec fn usable_bounds(declared: DataType, stat: ParquetStatistics) -> Option<
    (ScalarValue, ScalarValue),
> {
    match (stat, declared) {
        (ParquetStatistics::Boolean(s), DataType::Boolean) if s.spec_has_min_max_set() => Some(
            (ScalarValue::Boolean(s.min), ScalarValue::Boolean(s.max)),
        ),
        (ParquetStatistics::Int32(s), DataType::Int32) if s.spec_has_min_max_set() => Some(
            (ScalarValue::Int32(s.min), ScalarValue::Int32(s.max)),
        ),
        (ParquetStatistics::Int64(s), DataType::Int64) if s.spec_has_min_max_set() => Some(
            (ScalarValue::Int64(s.min), ScalarValue::Int64(s.max)),
        ),
        (ParquetStatistics::Float(s), DataType::Float32) if s.spec_has_min_max_set() => Some(
            (ScalarValue::Float32(s.min), ScalarValue::Float32(s.max)),
        ),
        (ParquetStatistics::Double(s), DataType::Float64) if s.spec_has_min_max_set() => Some(
            (ScalarValue::Float64(s.min), ScalarValue::Float64(s.max)),
        ),
        _ => None,
    }
}

/// A column's max accumulator after `value` was fed to it. A column whose
/// tracking is off stays off; a value that the accumulator refuses turns
/// the column's tracking off.
pub open spec fn fed_max(slot: Option<MaxAccumulator>, value: ScalarValue) -> Option<
    MaxAccumulator,
> {
    match slot {
        Some(accumulator) if accumulator.max.spec_data_type() == value.spec_data_type() => Some(
            MaxAccumulator { max: accumulator.max.greater(value) },
        ),
        _ => None,
    }
}

/// A column's min accumulator after `value` was fed to it; see `fed_max`.
pub open spec fn fed_min(slot: Option<MinAccumulator>, value: ScalarValue) -> Option<
    MinAccumulator,
> {
    match slot {
        Some(accumulator) if accumulator.min.spec_data_type() == value.spec_data_type() => Some(
            MinAccumulator { min: accumulator.min.smaller(value) },
        ),
        _ => None,
    }
}

/// A column's max accumulator after the statistics `stat` of one column
/// chunk were summarized into it: fed with the chunk's upper bound where
/// the chunk has usable bounds, unchanged where it has none.
pub open spec fn summarized_max(
    slot: Option<MaxAccumulator>,
    declared: DataType,
    stat: ParquetStatistics,
) -> Option<MaxAccumulator> {
    match usable_bounds(declared, stat) {
        Some((_, max)) => fed_max(slot, max),
        None => slot,
    }
}

/// A column's min accumulator after the statistics `stat` of one column
/// chunk were summarized into it; see `summarized_max`.
pub open spec fn summarized_min(
    slot: Option<MinAccumulator>,
    declared: DataType,
    stat: ParquetStatistics,
) -> Option<MinAccumulator> {
    match usable_bounds(declared, stat) {
        Some((min, _)) => fed_min(slot, min),
        None => slot,
    }
}

/// Feeds `value` to the max accumulator of column `i`, and turns the
/// column's tracking off where the accumulator refuses it.
fn feed_max(max_values: &mut Vec<Option<MaxAccumulator>>, i: usize, value: &ScalarValue)
    requires
        i < old(max_values).len(),
    ensures
        final(max_values)@ == old(max_values)@.update(
            i as int,
            fed_max(old(max_values)@[i as int], *value),
        ),
{
    if let Some(mut max_value) = max_values[i] {
        match max_value.update(value) {
            Ok(_) => {
                max_values.set(i, Some(max_value));
            },
            Err(_) => {
                max_values.set(i, None);
            },
        }
    }
}

/// Feeds `value` to the min accumulator of column `i`, and turns the
/// column's tracking off where the accumulator refuses it.
fn feed_min(min_values: &mut Vec<Option<MinAccumulator>>, i: usize, value: &ScalarValue)
    requires
        i < old(min_values).len(),
    ensures
        final(min_values)@ == old(min_values)@.update(
            i as int,
            fed_min(old(min_values)@[i as int], *value),
        ),
{
    if let Some(mut min_value) = min_values[i] {
        match min_value.update(value) {
            Ok(_) => {
                min_values.set(i, Some(min_value));
            },
            Err(_) => {
                min_values.set(i, None);
            },
        }
    }
}

/// Summarizes the statistics `stat` of one column chunk into the
/// accumulators of the table column `i`.
///
/// The accumulators are fed with the chunk's bounds only where the type in
/// which the file encodes the chunk is the type that `fields[i]` declares
/// and both bounds are recorded. A chunk of another type is no error: the
/// accumulators stay as they were. An accumulator that refuses a bound is
/// replaced by `None`, and from then on the column is not tracked. The
/// accumulators of the other columns are never touched.
pub fn summarize_min_max(
    max_values: &mut Vec<Option<MaxAccumulator>>,
    min_values: &mut Vec<Option<MinAccumulator>>,
    fields: &[Field],
    i: usize,
    stat: &ParquetStatistics,
)
    requires
        i < old(max_values).len(),
        i < old(min_values).len(),
        i < fields.len(),
    ensures
        final(max_values)@ == old(max_values)@.update(
            i as int,
            summarized_max(old(max_values)@[i as int], fields@[i as int].data_type, *stat),
        ),
        final(min_values)@ == old(min_values)@.update(
            i as int,
            summarized_min(old(min_values)@[i as int], fields@[i as int].data_type, *stat),
        ),
{
    match stat {
        ParquetStatistics::Boolean(s) => {
            if let DataType::Boolean = fields[i].data_type {
                if let (Some(min), Some(max)) = (s.min, s.max) {
                    feed_max(max_values, i, &ScalarValue::Boolean(Some(max)));
                    feed_min(min_values, i, &ScalarValue::Boolean(Some(min)));
                }
            }
        },
        ParquetStatistics::Int32(s) => {
            if let DataType::Int32 = fields[i].data_type {
                if let (Some(min), Some(max)) = (s.min, s.max) {
                    feed_max(max_values, i, &ScalarValue::Int32(Some(max)));
                    feed_min(min_values, i, &ScalarValue::Int32(Some(min)));
                }
            }
        },
        ParquetStatistics::Int64(s) => {
            if let DataType::Int64 = fields[i].data_type {
                if let (Some(min), Some(max)) = (s.min, s.max) {
                    feed_max(max_values, i, &ScalarValue::Int64(Some(max)));
                    feed_min(min_values, i, &ScalarValue::Int64(Some(min)));
                }
            }
        },
        ParquetStatistics::Float(s) => {
            if let DataType::Float32 = fields[i].data_type {
                if let (Some(min), Some(max)) = (s.min, s.max) {
                    feed_max(max_values, i, &ScalarValue::Float32(Some(max)));
                    feed_min(min_values, i, &ScalarValue::Float32(Some(min)));
                }
            }
        },
        ParquetStatistics::Double(s) => {
            if let DataType::Float64 = fields[i].data_type {
                if let (Some(min), Some(max)) = (s.min, s.max) {
                    feed_max(max_values, i, &ScalarValue::Float64(Some(max)));
                    feed_min(min_values, i, &ScalarValue::Float64(Some(min)));
                }
            }
        },
        _ => {},
    }
}

/// The statistics of one column of a table.
#[derive(Clone, Copy, Debug, PartialEq, Eq)]
pub struct ColumnStatistics {
    /// The number of nulls in the column.
    pub null_count: Option<usize>,
    /// The greatest value of the column.
    pub max_value: Option<ScalarValue>,
    /// The least value of the column.
    pub min_value: Option<ScalarValue>,
    /// The number of distinct values of the column.
    pub distinct_count: Option<usize>,
}

/// The statistics of a table, as far as one file tells them.
#[derive(Clone, Debug, PartialEq, Eq)]
pub struct Statistics {
    /// The number of rows.
    pub num_rows: Option<usize>,
    /// The size of the data in bytes.
    pub total_byte_size: Option<usize>,
    /// The statistics of the table's columns: entry `i` describes field
    /// `i` of the table's schema.
    pub column_statistics: Option<Vec<ColumnStatistics>>,
    /// Whether the statistics are exact rather than estimated.
    pub is_exact: bool,
}

/// Whether any of the first `k` row groups carries statistics for any of
/// its columns. Once a row group does, this holds for it and for every row
/// group after it.
pub open spec fn has_statistics(row_groups: Seq<RowGroupMetaData>, k: int) -> bool {
    exists|r: int|
        0 <= r < k && r < row_groups.len() && (#[trigger] row_groups[r]).carries_statistics()
}

/// The number of rows in the first `k` row groups.
pub open spec fn total_rows(row_groups: Seq<RowGroupMetaData>, k: int) -> int
    decreases k,
{
    if k <= 0 {
        0
    } else {
        total_rows(row_groups, k - 1) + row_groups[k - 1].num_rows
    }
}

/// The size in bytes of the first `k` row groups.
pub open spec fn total_byte_size(row_groups: Seq<RowGroupMetaData>, k: int) -> int
    decreases k,
{
    if k <= 0 {
        0
    } else {
        total_byte_size(row_groups, k - 1) + row_groups[k - 1].total_byte_size
    }
}

/// The statistics that `row_group` offers to the table column `t`: those
/// of the column chunk at the column's position in the file, where the
/// file has the column and the chunk carries statistics.
pub open spec fn offered_statistics(
    file_fields: Seq<Field>,
    row_group: RowGroupMetaData,
    table_fields: Seq<Field>,
    t: int,
) -> Option<ParquetStatistics> {
    match column_index(table_fields, t, file_fields) {
        Some(j) => row_group.statistics_at(j),
        None => None,
    }
}

/// The nulls that `row_group` adds to the table column `t`: all its rows
/// where the file lacks the column, the null count of the column's chunk
/// where the chunk carries statistics, and nothing where it carries none.
pub open spec fn null_count_in(
    file_fields: Seq<Field>,
    row_group: RowGroupMetaData,
    table_fields: Seq<Field>,
    t: int,
) -> int {
    match column_index(table_fields, t, file_fields) {
        None => row_group.num_rows as int,
        Some(j) => match row_group.statistics_at(j) {
            Some(s) => s.spec_null_count() as int,
            None => 0,
        },
    }
}

/// The null count of the table column `t` after the first `k` row groups
/// of the file. A row group counts from the first one on that carries
/// statistics; the row groups before it add nothing.
pub open spec fn null_count(
    file_fields: Seq<Field>,
    row_groups: Seq<RowGroupMetaData>,
    table_fields: Seq<Field>,
    t: int,
    k: int,
) -> int
    decreases k,
{
    if k <= 0 {
        0
    } else {
        let before = null_count(file_fields, row_groups, table_fields, t, k - 1);
        if has_statistics(row_groups, k) {
            before + null_count_in(file_fields, row_groups[k - 1], table_fields, t)
        } else {
            before
        }
    }
}

/// The max accumulator of the table column `t` after the first `k` row
/// groups of the file: fresh at the start, then summarized with what each
/// row group offers to the column, from the first row group on that
/// carries statistics.
pub open spec fn max_accumulator(
    file_fields: Seq<Field>,
    row_groups: Seq<RowGroupMetaData>,
    table_fields: Seq<Field>,
    t: int,
    k: int,
) -> Option<MaxAccumulator>
    decreases k,
{
    if k <= 0 {
        MaxAccumulator::spec_try_new(table_fields[t].data_type)
    } else {
        let before = max_accumulator(file_fields, row_groups, table_fields, t, k - 1);
        if has_statistics(row_groups, k) {
            match offered_statistics(file_fields, row_groups[k - 1], table_fields, t) {
                Some(s) => summarized_max(before, table_fields[t].data_type, s),
                None => before,
            }
        } else {
            before
        }
    }
}

/// The min accumulator of the table column `t` after the first `k` row
/// groups of the file; see `max_accumulator`.
pub open spec fn min_accumulator(
    file_fields: Seq<Field>,
    row_groups: Seq<RowGroupMetaData>,
    table_fields: Seq<Field>,
    t: int,
    k: int,
) -> Option<MinAccumulator>
    decreases k,
{
    if k <= 0 {
        MinAccumulator::spec_try_new(table_fields[t].data_type)
    } else {
        let before = min_accumulator(file_fields, row_groups, table_fields, t, k - 1);
        if has_statistics(row_groups, k) {
            match offered_statistics(file_fields, row_groups[k - 1], table_fields, t) {
                Some(s) => summarized_min(before, table_fields[t].data_type, s),
                None => before,
            }
        } else {
            before
        }
    }
}

/// The upper bound that a column's max accumulator yields: the value it
/// holds, and none where the column is not tracked or no value was fed.
pub open spec fn max_bound(slot: Option<MaxAccumulator>) -> Option<ScalarValue> {
    match slot {
        Some(accumulator) if !accumulator.max.spec_is_null() => Some(accumulator.max),
        _ => None,
    }
}

/// The lower bound that a column's min accumulator yields; see `max_bound`.
pub open spec fn min_bound(slot: Option<MinAccumulator>) -> Option<ScalarValue> {
    match slot {
        Some(accumulator) if !accumulator.min.spec_is_null() => Some(accumulator.min),
        _ => None,
    }
}

/// The statistics of the table column `t` that the file yields.
pub open spec fn column_statistics_of(
    file_fields: Seq<Field>,
    row_groups: Seq<RowGroupMetaData>,
    table_fields: Seq<Field>,
    t: int,
) -> ColumnStatistics {
    let n = row_groups.len() as int;
    ColumnStatistics {
        null_count: Some(null_count(file_fields, row_groups, table_fields, t, n) as usize),
        max_value: max_bound(max_accumulator(file_fields, row_groups, table_fields, t, n)),
        min_value: min_bound(min_accumulator(file_fields, row_groups, table_fields, t, n)),
        distinct_count: None,
    }
}

/// Whether the totals of the file can be told in `usize`: its rows, its
/// bytes and the null count of each column of the table.
pub open spec fn counts_fit(
    file_fields: Seq<Field>,
    row_groups: Seq<RowGroupMetaData>,
    table_fields: Seq<Field>,
) -> bool {
    let n = row_groups.len() as int;
    &&& total_rows(row_groups, n) <= usize::MAX
    &&& total_byte_size(row_groups, n) <= usize::MAX
    &&& forall|t: int|
        0 <= t < table_fields.len() ==> #[trigger] null_count(
            file_fields,
            row_groups,
            table_fields,
            t,
            n,
        ) <= usize::MAX
}

/// Whether `statistics` are the statistics that the file with the fields
/// `file_fields` and the row groups `row_groups` yields for the table with
/// the fields `table_fields`.
///
/// The rows and bytes are the totals over the file's row groups. The
/// column statistics are present exactly where some row group of the file
/// carries statistics for some column; they then hold one entry for each
/// field of the table, entry `t` describing field `t`.
pub open spec fn describes(
    statistics: Statistics,
    file_fields: Seq<Field>,
    row_groups: Seq<RowGroupMetaData>,
    table_fields: Seq<Field>,
) -> bool {
    let n = row_groups.len() as int;
    &&& statistics.num_rows == Some(total_rows(row_groups, n) as usize)
    &&& statistics.total_byte_size == Some(total_byte_size(row_groups, n) as usize)
    &&& statistics.is_exact
    &&& match statistics.column_statistics {
        Some(columns) => {
            &&& has_statistics(row_groups, n)
            &&& columns@.len() == table_fields.len()
            &&& forall|t: int|
                0 <= t < table_fields.len() ==> #[trigger] columns@[t] == column_statistics_of(
                    file_fields,
                    row_groups,
                    table_fields,
                    t,
                )
        },
        None => !has_statistics(row_groups, n),
    }
}

/// A fresh max and a fresh min accumulator for each field, or `None` for a
/// field whose type is not tracked.
pub fn create_max_min_accs(fields: &[Field]) -> (accumulators: (
    Vec<Option<MaxAccumulator>>,
    Vec<Option<MinAccumulator>>,
))
    ensures
        accumulators.0@.len() == fields@.len(),
        accumulators.1@.len() == fields@.len(),
        forall|t: int|
            0 <= t < fields@.len() ==> #[trigger] accumulators.0@[t] == MaxAccumulator::spec_try_new(
                fields@[t].data_type,
            ),
        forall|t: int|
            0 <= t < fields@.len() ==> #[trigger] accumulators.1@[t] == MinAccumulator::spec_try_new(
                fields@[t].data_type,
            ),
{
    let mut max_values: Vec<Option<MaxAccumulator>> = Vec::new();
    let mut min_values: Vec<Option<MinAccumulator>> = Vec::new();
    let mut t: usize = 0;
    while t < fields.len()
        invariant
            t <= fields@.len(),
            max_values@.len() == t,
            min_values@.len() == t,
            forall|u: int|
                0 <= u < t ==> #[trigger] max_values@[u] == MaxAccumulator::spec_try_new(
                    fields@[u].data_type,
                ),
            forall|u: int|
                0 <= u < t ==> #[trigger] min_values@[u] == MinAccumulator::spec_try_new(
                    fields@[u].data_type,
                ),
        decreases fields@.len() - t,
    {
        max_values.push(MaxAccumulator::try_new(&fields[t].data_type));
        min_values.push(MinAccumulator::try_new(&fields[t].data_type));
        t += 1;
    }
    (max_values, min_values)
}

/// The statistics of each field's column: its null count and the bounds
/// that its accumulators yield. An accumulator that was never fed a value
/// yields no bound.
pub fn get_col_stats(
    fields: &[Field],
    null_counts: Vec<usize>,
    max_values: &Vec<Option<MaxAccumulator>>,
    min_values: &Vec<Option<MinAccumulator>>,
) -> (columns: Vec<ColumnStatistics>)
    requires
        fields@.len() <= null_counts@.len(),
        fields@.len() <= max_values@.len(),
        fields@.len() <= min_values@.len(),
    ensures
        columns@.len() == fields@.len(),
        forall|t: int|
            0 <= t < fields@.len() ==> #[trigger] columns@[t] == (ColumnStatistics {
                null_count: Some(null_counts@[t]),
                max_value: max_bound(max_values@[t]),
                min_value: min_bound(min_values@[t]),
                distinct_count: None,
            }),
{
    let mut columns: Vec<ColumnStatistics> = Vec::new();
    let mut t: usize = 0;
    while t < fields.len()
        invariant
            t <= fields@.len(),
            fields@.len() <= null_counts@.len(),
            fields@.len() <= max_values@.len(),
            fields@.len() <= min_values@.len(),
            columns@.len() == t,
            forall|u: int|
                0 <= u < t ==> #[trigger] columns@[u] == (ColumnStatistics {
                    null_count: Some(null_counts@[u]),
                    max_value: max_bound(max_values@[u]),
                    min_value: min_bound(min_values@[u]),
                    distinct_count: None,
                }),
        decreases fields@.len() - t,
    {
        let max_value = match &max_values[t] {
            Some(accumulator) => {
                let value = accumulator.evaluate();
                if value.is_null() {
                    None
                } else {
                    Some(value)
                }
            },
            None => None,
        };
        let min_value = match &min_values[t] {
            Some(accumulator) => {
                let value = accumulator.evaluate();
                if value.is_null() {
                    None
                } else {
                    Some(value)
                }
            },
            None => None,
        };
        columns.push(
            ColumnStatistics {
                null_count: Some(null_counts[t]),
                max_value,
                min_value,
                distinct_count: None,
            },
        );
        t += 1;
    }
    columns
}

/// The lookup of one row group: for each position whose column chunk
/// carries statistics, the chunk's null count and statistics. Also tells
/// whether any chunk carries statistics.
fn column_stats_of(row_group: &RowGroupMetaData) -> (found: (ColumnStatsLookup, bool))
    ensures
        found.1 == row_group.carries_statistics(),
        forall|p: usize|
            lookup_entries(found.0).contains_key(p) <==> row_group.statistics_at(p as int) is Some,
        forall|p: usize|
            row_group.statistics_at(p as int) is Some ==> lookup_entries(found.0)[p] == (
                row_group.statistics_at(p as int).unwrap().spec_null_count(),
                row_group.statistics_at(p as int).unwrap(),
            ),
{
    let mut column_stats = lookup_new();
    let mut any = false;
    let mut j: usize = 0;
    while j < row_group.columns.len()
        invariant
            j <= row_group.columns@.len(),
            any == exists|p: int|
                0 <= p < j && (#[trigger] row_group.columns@[p]).statistics is Some,
            forall|p: usize|
                lookup_entries(column_stats).contains_key(p) <==> p < j && row_group.statistics_at(
                    p as int,
                ) is Some,
            forall|p: usize|
                p < j && row_group.statistics_at(p as int) is Some ==> lookup_entries(
                    column_stats,
                )[p] == (
                    row_group.statistics_at(p as int).unwrap().spec_null_count(),
                    row_group.statistics_at(p as int).unwrap(),
                ),
        decreases row_group.columns@.len() - j,
    {
        if let Some(stat) = row_group.columns[j].statistics {
            any = true;
            lookup_insert(&mut column_stats, j, stat.null_count(), stat);
        }
        j += 1;
    }
    (column_stats, any)
}

/// Infers the statistics of the table with the fields `table_fields` from
/// the footer of one file: the fields of the file's schema and its row
/// groups.
///
/// The rows and the bytes of the file's row groups are summed up. From the
/// first row group on that carries statistics for any column, each row
/// group is summarized into each column of the table: a column that the
/// file lacks is taken to be null in all the row group's rows; a column
/// whose chunk carries statistics gets the chunk's null count, and its
/// bounds where they are usable; a column whose chunk carries none gets
/// nothing. A file without any statistics yields no column statistics,
/// but its rows and bytes all the same.
///
/// The totals have to fit in `usize`; `try_fetch_statistics` tells whether
/// they do.
pub fn fetch_statistics(
    file_fields: &[Field],
    row_groups: &[RowGroupMetaData],
    table_fields: &[Field],
) -> (statistics: Statistics)
    requires
        counts_fit(file_fields@, row_groups@, table_fields@),
    ensures
        describes(statistics, file_fields@, row_groups@, table_fields@),
{
    match try_fetch_statistics(file_fields, row_groups, table_fields) {
        Some(statistics) => statistics,
        None => vstd::pervasive::unreached(),
    }
}

/// Infers the statistics as `fetch_statistics` does, for any footer: where
/// one of the totals does not fit in `usize` there are no statistics to
/// tell, and the result is `None`.
pub fn try_fetch_statistics(
    file_fields: &[Field],
    row_groups: &[RowGroupMetaData],
    table_fields: &[Field],
) -> (outcome: Option<Statistics>)
    ensures
        counts_fit(file_fields@, row_groups@, table_fields@) ==> (outcome matches Some(statistics)
            && describes(statistics, file_fields@, row_groups@, table_fields@)),
        !counts_fit(file_fields@, row_groups@, table_fields@) ==> outcome is None,
{
    let num_fields = table_fields.len();
    let num_row_groups = row_groups.len();
    let schema_adapter = SchemaAdapter::new(table_fields);
    let (mut max_values, mut min_values) = create_max_min_accs(table_fields);

    let mut num_rows: u128 = 0;
    let mut total_bytes: u128 = 0;
    let mut null_counts: Vec<u128> = Vec::new();
    let mut t: usize = 0;
    while t < num_fields
        invariant
            t <= num_fields,
            null_counts@.len() == t,
            forall|u: int| 0 <= u < t ==> #[trigger] null_counts@[u] == 0,
        decreases num_fields - t,
    {
        null_counts.push(0u128);
        t += 1;
    }
    let mut has_stats = false;

    let mut r: usize = 0;
    while r < num_row_groups
        invariant
            r <= num_row_groups,
            num_row_groups == row_groups@.len(),
            num_fields == table_fields@.len(),
            schema_adapter.table_fields() == table_fields@,
            num_rows == total_rows(row_groups@, r as int),
            total_bytes == total_byte_size(row_groups@, r as int),
            num_rows <= r * 0xffff_ffff_ffff_ffff,
            total_bytes <= r * 0xffff_ffff_ffff_ffff,
            has_stats == has_statistics(row_groups@, r as int),
            null_counts@.len() == num_fields,
            max_values@.len() == num_fields,
            min_values@.len() == num_fields,
            forall|u: int|
                0 <= u < num_fields ==> #[trigger] null_counts@[u] == null_count(
                    file_fields@,
                    row_groups@,
                    table_fields@,
                    u,
                    r as int,
                ),
            forall|u: int|
                0 <= u < num_fields ==> #[trigger] null_counts@[u] <= r * 0xffff_ffff_ffff_ffff,
            forall|u: int|
                0 <= u < num_fields ==> #[trigger] max_values@[u] == max_accumulator(
                    file_fields@,
                    row_groups@,
                    table_fields@,
                    u,
                    r as int,
                ),
            forall|u: int|
                0 <= u < num_fields ==> #[trigger] min_values@[u] == min_accumulator(
                    file_fields@,
                    row_groups@,
                    table_fields@,
                    u,
                    r as int,
                ),
        decreases num_row_groups - r,
    {
        let row_group = &row_groups[r];
        num_rows = num_rows + row_group.num_rows as u128;
        total_bytes = total_bytes + row_group.total_byte_size as u128;

        let (column_stats, any) = column_stats_of(row_group);
        if any {
            has_stats = true;
        }

        if has_stats {
            let mut t: usize = 0;
            while t < num_fields
                invariant
                    t <= num_fields,
                    r < num_row_groups,
                    num_row_groups == row_groups@.len(),
                    num_fields == table_fields@.len(),
                    schema_adapter.table_fields() == table_fields@,
                    *row_group == row_groups@[r as int],
                    has_statistics(row_groups@, r + 1),
                    forall|p: usize|
                        lookup_entries(column_stats).contains_key(p) <==> row_group.statistics_at(
                            p as int,
                        ) is Some,
                    forall|p: usize|
                        row_group.statistics_at(p as int) is Some ==> lookup_entries(column_stats)[p]
                            == (
                            row_group.statistics_at(p as int).unwrap().spec_null_count(),
                            row_group.statistics_at(p as int).unwrap(),
                        ),
                    null_counts@.len() == num_fields,
                    max_values@.len() == num_fields,
                    min_values@.len() == num_fields,
                    forall|u: int|
                        0 <= u < num_fields ==> #[trigger] null_counts@[u] == null_count(
                            file_fields@,
                            row_groups@,
                            table_fields@,
                            u,
                            if u < t {
                                r + 1
                            } else {
                                r as int
                            },
                        ),
                    forall|u: int|
                        0 <= u < num_fields ==> #[trigger] null_counts@[u] <= (if u < t {
                            r + 1
                        } else {
                            r as int
                        }) * 0xffff_ffff_ffff_ffff,
                    forall|u: int|
                        0 <= u < num_fields ==> #[trigger] max_values@[u] == max_accumulator(
                            file_fields@,
                            row_groups@,
                            table_fields@,
                            u,
                            if u < t {
                                r + 1
                            } else {
                                r as int
                            },
                        ),
                    forall|u: int|
                        0 <= u < num_fields ==> #[trigger] min_values@[u] == min_accumulator(
                            file_fields@,
                            row_groups@,
                            table_fields@,
                            u,
                            if u < t {
                                r + 1
                            } else {
                                r as int
                            },
                        ),
                decreases num_fields - t,
            {
                match schema_adapter.map_column_index(t, file_fields) {
                    Some(file_idx) => {
                        if let Some((count, stat)) = lookup_get(&column_stats, file_idx) {
                            null_counts.set(t, null_counts[t] + count as u128);
                            summarize_min_max(
                                &mut max_values,
                                &mut min_values,
                                table_fields,
                                t,
                                &stat,
                            );
                        }
                    },
                    None => {
                        null_counts.set(t, null_counts[t] + row_group.num_rows as u128);
                    },
                }
                t += 1;
            }
        }
        r += 1;
    }

    let limit = usize::MAX as u128;
    if num_rows > limit || total_bytes > limit {
        return None;
    }
    let mut counts: Vec<usize> = Vec::new();
    let mut t: usize = 0;
    while t < num_fields
        invariant
            t <= num_fields,
            limit == usize::MAX,
            num_fields == table_fields@.len(),
            num_row_groups == row_groups@.len(),
            null_counts@.len() == num_fields,
            counts@.len() == t,
            forall|u: int|
                0 <= u < num_fields ==> #[trigger] null_counts@[u] == null_count(
                    file_fields@,
                    row_groups@,
                    table_fields@,
                    u,
                    num_row_groups as int,
                ),
            forall|u: int| 0 <= u < t ==> #[trigger] counts@[u] == null_counts@[u],
        decreases num_fields - t,
    {
        if null_counts[t] > limit {
            return None;
        }
        counts.push(null_counts[t] as usize);
        t += 1;
    }
    proof {
        assert forall|u: int| 0 <= u < table_fields@.len() implies #[trigger] null_count(
            file_fields@,
            row_groups@,
            table_fields@,
            u,
            num_row_groups as int,
        ) <= usize::MAX by {
            assert(counts@[u] == null_counts@[u]);
        }
    }

    let column_statistics = if has_stats {
        Some(get_col_stats(table_fields, counts, &max_values, &min_values))
    } else {
        None
    };
    Some(
        Statistics {
            num_rows: Some(num_rows as usize),
            total_byte_size: Some(total_bytes as usize),
            column_statistics,
            is_exact: true,
        },
    )
}

} // verus!
