//! The per-row-group lookup from a column's position to its statistics.

use vstd::prelude::*;
use hashbrown::HashMap;
use crate::metadata::ParquetStatistics;

verus! {

/// The statistics that the column chunks of one row group carry, keyed by
/// the position of the column: a `hashbrown::HashMap` from the position to
/// the chunk's null count and statistics.
#[verifier::external_body]
pub struct ColumnStatsLookup {
    entries: HashMap<usize, (u64, ParquetStatistics)>,
}

/// What a lookup holds: for each position that was inserted, the null count
/// and the statistics that were inserted for it last.
pub uninterp spec fn lookup_entries(lookup: ColumnStatsLookup) -> Map<
    usize,
    (u64, ParquetStatistics),
>;

/// `hashbrown::HashMap::new`: the new map holds nothing.
#[verifier::external_body]
pub(crate) fn lookup_new() -> (lookup: ColumnStatsLookup)
    ensures
        lookup_entries(lookup).dom() == Set::<usize>::empty(),
{
    ColumnStatsLookup { entries: HashMap::new() }
}

/// `hashbrown::HashMap::insert`: afterwards the map holds the given null
/// count and statistics for `position`, in place of what it held for that
/// position before, and everything else that it held.
#[verifier::external_body]
pub(crate) fn lookup_insert(
    lookup: &mut ColumnStatsLookup,
    position: usize,
    null_count: u64,
    statistics: ParquetStatistics,
)
    ensures
        lookup_entries(*final(lookup)) == lookup_entries(*old(lookup)).insert(
            position,
            (null_count, statistics),
        ),
{
    lookup.entries.insert(position, (null_count, statistics));
}

/// `hashbrown::HashMap::get`: what the map holds for `position`, or `None`
/// where it holds nothing for it.
#[verifier::external_body]
pub(crate) fn lookup_get(lookup: &ColumnStatsLookup, position: usize) -> (found: Option<
    (u64, ParquetStatistics),
>)
    ensures
        found == if lookup_entries(*lookup).contains_key(position) {
            Some(lookup_entries(*lookup)[position])
        } else {
            None
        },
{
    lookup.entries.get(&position).copied()
}

} // verus!
