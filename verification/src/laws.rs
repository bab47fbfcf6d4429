//! What holds of the inferred statistics and of merged schemas, whatever
//! the files.

use vstd::prelude::*;
use crate::datatypes::{column_index, DataType, Field};
use crate::metadata::{ParquetStatistics, RowGroupMetaData};
use crate::scalar::{MaxAccumulator, MinAccumulator, ScalarValue};
use crate::schema::{merged_names, union_names};
use crate::statistics::{
    column_statistics_of, has_statistics, max_accumulator, max_bound, min_accumulator, min_bound,
    null_count, offered_statistics, summarized_max, summarized_min, total_rows, usable_bounds,
};

verus! {

/// Once a row group has carried statistics, every longer run of row groups
/// has statistics too.
pub proof fn lemma_has_statistics_is_sticky(row_groups: Seq<RowGroupMetaData>, k: int, later: int)
    requires
        has_statistics(row_groups, k),
        k <= later,
    ensures
        has_statistics(row_groups, later),
{
}

/// Entry `t` of the column statistics describes field `t` of the table
/// and nothing else: it is settled by the field's name and type alone, so
/// that the same field gets the same statistics from a file in whatever
/// table, and at whatever position of it, the field stands.
pub proof fn lemma_entry_describes_its_field(
    file_fields: Seq<Field>,
    row_groups: Seq<RowGroupMetaData>,
    table_fields: Seq<Field>,
    t: int,
    other_table_fields: Seq<Field>,
    u: int,
)
    requires
        0 <= t < table_fields.len(),
        0 <= u < other_table_fields.len(),
        table_fields[t].name@ == other_table_fields[u].name@,
        table_fields[t].data_type == other_table_fields[u].data_type,
    ensures
        column_statistics_of(file_fields, row_groups, table_fields, t) == column_statistics_of(
            file_fields,
            row_groups,
            other_table_fields,
            u,
        ),
{
    lemma_same_field_same_summary(
        file_fields,
        row_groups,
        table_fields,
        t,
        other_table_fields,
        u,
        row_groups.len() as int,
    );
}

/// After any number of row groups, the same field has the same null count
/// and the same accumulators in whatever table it stands.
proof fn lemma_same_field_same_summary(
    file_fields: Seq<Field>,
    row_groups: Seq<RowGroupMetaData>,
    table_fields: Seq<Field>,
    t: int,
    other_table_fields: Seq<Field>,
    u: int,
    k: int,
)
    requires
        0 <= t < table_fields.len(),
        0 <= u < other_table_fields.len(),
        table_fields[t].name@ == other_table_fields[u].name@,
        table_fields[t].data_type == other_table_fields[u].data_type,
    ensures
        null_count(file_fields, row_groups, table_fields, t, k) == null_count(
            file_fields,
            row_groups,
            other_table_fields,
            u,
            k,
        ),
        max_accumulator(file_fields, row_groups, table_fields, t, k) == max_accumulator(
            file_fields,
            row_groups,
            other_table_fields,
            u,
            k,
        ),
        min_accumulator(file_fields, row_groups, table_fields, t, k) == min_accumulator(
            file_fields,
            row_groups,
            other_table_fields,
            u,
            k,
        ),
    decreases k,
{
    if k > 0 {
        lemma_same_field_same_summary(
            file_fields,
            row_groups,
            table_fields,
            t,
            other_table_fields,
            u,
            k - 1,
        );
    }
}

/// A column that the file lacks is null in every row: where the file has
/// statistics, and every row group that comes before the first one with
/// statistics is empty, the column's null count is the file's number of
/// rows.
///
/// Row groups before the first one with statistics are not summarized, so
/// their rows are not counted as nulls; hence the condition on them.
pub proof fn lemma_missing_column_is_null(
    file_fields: Seq<Field>,
    row_groups: Seq<RowGroupMetaData>,
    table_fields: Seq<Field>,
    t: int,
)
    requires
        0 <= t < table_fields.len(),
        column_index(table_fields, t, file_fields) is None,
        has_statistics(row_groups, row_groups.len() as int),
        forall|r: int|
            0 <= r < row_groups.len() && !has_statistics(row_groups, r + 1) ==> (
            #[trigger] row_groups[r]).num_rows == 0,
    ensures
        null_count(file_fields, row_groups, table_fields, t, row_groups.len() as int)
            == total_rows(row_groups, row_groups.len() as int),
{
    lemma_missing_column_counts_rows(
        file_fields,
        row_groups,
        table_fields,
        t,
        row_groups.len() as int,
    );
}

/// After any number of row groups, a column that the file lacks has been
/// counted null in all their rows, where the row groups that were not
/// summarized are empty.
proof fn lemma_missing_column_counts_rows(
    file_fields: Seq<Field>,
    row_groups: Seq<RowGroupMetaData>,
    table_fields: Seq<Field>,
    t: int,
    k: int,
)
    requires
        0 <= t < table_fields.len(),
        0 <= k <= row_groups.len(),
        column_index(table_fields, t, file_fields) is None,
        forall|r: int|
            0 <= r < row_groups.len() && !has_statistics(row_groups, r + 1) ==> (
            #[trigger] row_groups[r]).num_rows == 0,
    ensures
        null_count(file_fields, row_groups, table_fields, t, k) == total_rows(row_groups, k),
    decreases k,
{
    if k > 0 {
        lemma_missing_column_counts_rows(file_fields, row_groups, table_fields, t, k - 1);
    }
}

/// The greater of two values is not less than either of them.
pub proof fn lemma_greater_is_upper_bound(held: ScalarValue, value: ScalarValue)
    requires
        held.spec_data_type() == value.spec_data_type(),
        !value.spec_is_null(),
    ensures
        held.greater(value).spec_data_type() == held.spec_data_type(),
        !held.greater(value).spec_is_null(),
        held.greater(value).rank() >= value.rank(),
        !held.spec_is_null() ==> held.greater(value).rank() >= held.rank(),
{
}

/// The smaller of two values is not greater than either of them.
pub proof fn lemma_smaller_is_lower_bound(held: ScalarValue, value: ScalarValue)
    requires
        held.spec_data_type() == value.spec_data_type(),
        !value.spec_is_null(),
    ensures
        held.smaller(value).spec_data_type() == held.spec_data_type(),
        !held.smaller(value).spec_is_null(),
        held.smaller(value).rank() <= value.rank(),
        !held.spec_is_null() ==> held.smaller(value).rank() <= held.rank(),
{
}

/// The bounds that a chunk offers to a column are values of the column's
/// declared type, and neither is null.
pub proof fn lemma_usable_bounds_are_typed(declared: DataType, stat: ParquetStatistics)
    requires
        usable_bounds(declared, stat) is Some,
    ensures
        stat.encoded_type() == declared,
        declared != DataType::Other,
        usable_bounds(declared, stat).unwrap().0.spec_data_type() == declared,
        usable_bounds(declared, stat).unwrap().1.spec_data_type() == declared,
        !usable_bounds(declared, stat).unwrap().0.spec_is_null(),
        !usable_bounds(declared, stat).unwrap().1.spec_is_null(),
{
}

/// A chunk whose values the file encodes in another type than the column
/// declares changes nothing: both accumulators stay exactly as they were,
/// and the column's tracking is not turned off.
pub proof fn lemma_type_mismatch_changes_nothing(
    max_slot: Option<MaxAccumulator>,
    min_slot: Option<MinAccumulator>,
    declared: DataType,
    stat: ParquetStatistics,
)
    requires
        stat.encoded_type() != declared,
    ensures
        usable_bounds(declared, stat) is None,
        summarized_max(max_slot, declared, stat) == max_slot,
        summarized_min(min_slot, declared, stat) == min_slot,
{
}

/// A row group whose chunk for a column is encoded in another type than
/// the column declares leaves the column's accumulators as the row groups
/// before it left them.
pub proof fn lemma_mismatched_row_group_changes_no_bounds(
    file_fields: Seq<Field>,
    row_groups: Seq<RowGroupMetaData>,
    table_fields: Seq<Field>,
    t: int,
    k: int,
)
    requires
        0 <= t < table_fields.len(),
        0 < k <= row_groups.len(),
        offered_statistics(file_fields, row_groups[k - 1], table_fields, t) matches Some(s)
            && s.encoded_type() != table_fields[t].data_type,
    ensures
        max_accumulator(file_fields, row_groups, table_fields, t, k) == max_accumulator(
            file_fields,
            row_groups,
            table_fields,
            t,
            k - 1,
        ),
        min_accumulator(file_fields, row_groups, table_fields, t, k) == min_accumulator(
            file_fields,
            row_groups,
            table_fields,
            t,
            k - 1,
        ),
{
}

/// A column whose tracking is off stays off, whatever is summarized into
/// it.
pub proof fn lemma_disabled_stays_disabled(declared: DataType, stat: ParquetStatistics)
    ensures
        summarized_max(None, declared, stat) is None,
        summarized_min(None, declared, stat) is None,
{
}

/// An accumulator that holds a value never goes back to holding none:
/// whatever is summarized into it, it holds a value afterwards or the
/// column's tracking is off.
pub proof fn lemma_tracking_never_resets(
    max_slot: Option<MaxAccumulator>,
    min_slot: Option<MinAccumulator>,
    declared: DataType,
    stat: ParquetStatistics,
)
    requires
        max_slot matches Some(accumulator) && !accumulator.max.spec_is_null(),
        min_slot matches Some(accumulator) && !accumulator.min.spec_is_null(),
    ensures
        summarized_max(max_slot, declared, stat) matches Some(accumulator)
            ==> !accumulator.max.spec_is_null(),
        summarized_min(min_slot, declared, stat) matches Some(accumulator)
            ==> !accumulator.min.spec_is_null(),
{
}

/// The accumulators of a column of a tracked type are never turned off by
/// a file, and they hold values of the column's type.
pub proof fn lemma_accumulators_stay_on(
    file_fields: Seq<Field>,
    row_groups: Seq<RowGroupMetaData>,
    table_fields: Seq<Field>,
    t: int,
    k: int,
)
    requires
        0 <= t < table_fields.len(),
        0 <= k <= row_groups.len(),
        table_fields[t].data_type != DataType::Other,
    ensures
        max_accumulator(file_fields, row_groups, table_fields, t, k) matches Some(accumulator)
            && accumulator.max.spec_data_type() == table_fields[t].data_type,
        min_accumulator(file_fields, row_groups, table_fields, t, k) matches Some(accumulator)
            && accumulator.min.spec_data_type() == table_fields[t].data_type,
    decreases k,
{
    if k > 0 {
        lemma_accumulators_stay_on(file_fields, row_groups, table_fields, t, k - 1);
        if has_statistics(row_groups, k) {
            match offered_statistics(file_fields, row_groups[k - 1], table_fields, t) {
                Some(s) => {
                    if usable_bounds(table_fields[t].data_type, s) is Some {
                        lemma_usable_bounds_are_typed(table_fields[t].data_type, s);
                    }
                },
                None => {},
            }
        }
    }
}

/// The bounds of a column enclose every bound that a summarized row group
/// reported for it: the column's maximum is not less than the upper bound
/// of row group `r`, and its minimum not greater than the lower bound of
/// row group `r`, for every row group `r` among the first `k` that was
/// summarized and offered usable bounds to the column.
pub proof fn lemma_bounds_enclose_reported(
    file_fields: Seq<Field>,
    row_groups: Seq<RowGroupMetaData>,
    table_fields: Seq<Field>,
    t: int,
    k: int,
    r: int,
)
    requires
        0 <= t < table_fields.len(),
        0 <= r < k <= row_groups.len(),
        has_statistics(row_groups, r + 1),
        offered_statistics(file_fields, row_groups[r], table_fields, t) matches Some(s)
            && usable_bounds(table_fields[t].data_type, s) is Some,
    ensures
        ({
            let reported = usable_bounds(
                table_fields[t].data_type,
                offered_statistics(file_fields, row_groups[r], table_fields, t).unwrap(),
            ).unwrap();
            &&& max_bound(max_accumulator(file_fields, row_groups, table_fields, t, k)) matches Some(
                max,
            ) && max.spec_data_type() == reported.1.spec_data_type() && max.rank()
                >= reported.1.rank()
            &&& min_bound(min_accumulator(file_fields, row_groups, table_fields, t, k)) matches Some(
                min,
            ) && min.spec_data_type() == reported.0.spec_data_type() && min.rank()
                <= reported.0.rank()
        }),
    decreases k,
{
    let declared = table_fields[t].data_type;
    let reported = usable_bounds(
        declared,
        offered_statistics(file_fields, row_groups[r], table_fields, t).unwrap(),
    ).unwrap();
    lemma_usable_bounds_are_typed(
        declared,
        offered_statistics(file_fields, row_groups[r], table_fields, t).unwrap(),
    );
    lemma_accumulators_stay_on(file_fields, row_groups, table_fields, t, k - 1);
    lemma_accumulators_stay_on(file_fields, row_groups, table_fields, t, k);
    lemma_has_statistics_is_sticky(row_groups, r + 1, k);
    let max_before = max_accumulator(file_fields, row_groups, table_fields, t, k - 1).unwrap();
    let min_before = min_accumulator(file_fields, row_groups, table_fields, t, k - 1).unwrap();
    if r < k - 1 {
        lemma_bounds_enclose_reported(file_fields, row_groups, table_fields, t, k - 1, r);
        match offered_statistics(file_fields, row_groups[k - 1], table_fields, t) {
            Some(s) => {
                if usable_bounds(declared, s) is Some {
                    lemma_usable_bounds_are_typed(declared, s);
                    let last = usable_bounds(declared, s).unwrap();
                    lemma_greater_is_upper_bound(max_before.max, last.1);
                    lemma_smaller_is_lower_bound(min_before.min, last.0);
                }
            },
            None => {},
        }
    } else {
        lemma_greater_is_upper_bound(max_before.max, reported.1);
        lemma_smaller_is_lower_bound(min_before.min, reported.0);
    }
}

/// Uniting names with more names keeps the names that were there at their
/// places, and takes in every one of the others.
pub proof fn lemma_union_keeps_first_seen_order(names: Seq<Seq<char>>, more: Seq<Seq<char>>)
    ensures
        names.len() <= union_names(names, more).len(),
        union_names(names, more).take(names.len() as int) == names,
        forall|i: int|
            0 <= i < more.len() ==> union_names(names, more).contains(#[trigger] more[i]),
    decreases more.len(),
{
    if more.len() > 0 {
        let before = union_names(names, more.drop_last());
        let united = union_names(names, more);
        lemma_union_keeps_first_seen_order(names, more.drop_last());
        assert forall|i: int| 0 <= i < more.len() implies united.contains(#[trigger] more[i]) by {
            if i < more.len() - 1 {
                assert(before.contains(more.drop_last()[i]));
                let j = choose|j: int| 0 <= j < before.len() && before[j] == more[i];
                assert(united[j] == more[i]);
            } else if before.contains(more.last()) {
            } else {
                assert(united[before.len() as int] == more.last());
            }
        }
    }
}

/// Merging one more file never moves a field: the names merged from the
/// first `k` schemas stand, in the same order, at the start of the names
/// merged from any longer run of the schemas.
pub proof fn lemma_merge_never_reorders(schemas: Seq<Seq<Seq<char>>>, k: int, later: int)
    requires
        0 <= k <= later,
    ensures
        merged_names(schemas, k).len() <= merged_names(schemas, later).len(),
        merged_names(schemas, later).take(merged_names(schemas, k).len() as int) == merged_names(
            schemas,
            k,
        ),
    decreases later - k,
{
    if k < later {
        lemma_merge_never_reorders(schemas, k, later - 1);
        lemma_union_keeps_first_seen_order(merged_names(schemas, later - 1), schemas[later - 1]);
    }
}

} // verus!
