//! The part of a file's footer that statistics are inferred from.

use vstd::prelude::*;
use crate::datatypes::DataType;

verus! {

/// The bounds and the null count that a file records for one column chunk
/// whose values are of type `T`.
#[derive(Clone, Copy, Debug, PartialEq, Eq)]
pub struct ValueStatistics<T> {
    /// The smallest value of the chunk, where the file records it.
    pub min: Option<T>,
    /// The largest value of the chunk, where the file records it.
    pub max: Option<T>,
    /// The number of nulls in the chunk.
    pub null_count: u64,
}

/// The nulls that a chunk is taken to hold: the null count that the
/// footer records for it, and none where the footer records no count.
pub open spec fn recorded_nulls(null_count: Option<u64>) -> u64 {
    match null_count {
        Some(count) => count,
        None => 0,
    }
}

impl<T> ValueStatistics<T> {
    /// The statistics of a chunk for which the footer records the bounds
    /// `min` and `max` and the null count `null_count`, each as far as it
    /// records them. A chunk without a recorded null count is taken to
    /// hold no nulls.
    pub fn new(min: Option<T>, max: Option<T>, null_count: Option<u64>) -> (statistics: Self)
        ensures
            statistics == (ValueStatistics { min, max, null_count: recorded_nulls(null_count) }),
    {
        let null_count = match null_count {
            Some(count) => count,
            None => 0,
        };
        ValueStatistics { min, max, null_count }
    }

    /// Whether the file records both bounds.
    pub open spec fn spec_has_min_max_set(self) -> bool {
        self.min is Some && self.max is Some
    }

    /// Whether the file records both bounds.
    pub fn has_min_max_set(&self) -> (set: bool)
        ensures
            set == self.spec_has_min_max_set(),
    {
        self.min.is_some() && self.max.is_some()
    }
}

/// The statistics of one column chunk, tagged with the type in which the
/// file encodes the column's values.
///
/// A float is held as its IEEE 754 bit pattern.
#[derive(Clone, Copy, Debug, PartialEq, Eq)]
pub enum ParquetStatistics {
    Boolean(ValueStatistics<bool>),
    Int32(ValueStatistics<i32>),
    Int64(ValueStatistics<i64>),
    /// A 32 bit float column; the bounds are the floats' bits.
    Float(ValueStatistics<u32>),
    /// A 64 bit float column; the bounds are the floats' bits.
    Double(ValueStatistics<u64>),
    /// A column of any other encoded type: only its nulls are counted.
    Other { null_count: u64 },
}

impl ParquetStatistics {
    /// The statistics of a chunk of an encoded type that is not tracked,
    /// for which the footer records the null count `null_count`, or none.
    /// A chunk without a recorded null count is taken to hold no nulls.
    pub fn other(null_count: Option<u64>) -> (statistics: Self)
        ensures
            statistics == (ParquetStatistics::Other { null_count: recorded_nulls(null_count) }),
    {
        match null_count {
            Some(count) => ParquetStatistics::Other { null_count: count },
            None => ParquetStatistics::Other { null_count: 0 },
        }
    }

    /// The column type that corresponds to the type in which the file
    /// encodes the chunk's values.
    pub open spec fn encoded_type(self) -> DataType {
        match self {
            ParquetStatistics::Boolean(_) => DataType::Boolean,
            ParquetStatistics::Int32(_) => DataType::Int32,
            ParquetStatistics::Int64(_) => DataType::Int64,
            ParquetStatistics::Float(_) => DataType::Float32,
            ParquetStatistics::Double(_) => DataType::Float64,
            ParquetStatistics::Other { .. } => DataType::Other,
        }
    }

    /// The number of nulls in the chunk.
    pub open spec fn spec_null_count(self) -> u64 {
        match self {
            ParquetStatistics::Boolean(s) => s.null_count,
            ParquetStatistics::Int32(s) => s.null_count,
            ParquetStatistics::Int64(s) => s.null_count,
            ParquetStatistics::Float(s) => s.null_count,
            ParquetStatistics::Double(s) => s.null_count,
            ParquetStatistics::Other { null_count } => null_count,
        }
    }

    /// Whether the file records both bounds of the chunk. Of a column of
    /// another encoded type no bounds are kept.
    pub open spec fn spec_has_min_max_set(self) -> bool {
        match self {
            ParquetStatistics::Boolean(s) => s.spec_has_min_max_set(),
            ParquetStatistics::Int32(s) => s.spec_has_min_max_set(),
            ParquetStatistics::Int64(s) => s.spec_has_min_max_set(),
            ParquetStatistics::Float(s) => s.spec_has_min_max_set(),
            ParquetStatistics::Double(s) => s.spec_has_min_max_set(),
            ParquetStatistics::Other { .. } => false,
        }
    }

    /// The number of nulls in the chunk.
    pub fn null_count(&self) -> (count: u64)
        ensures
            count == self.spec_null_count(),
    {
        match self {
            ParquetStatistics::Boolean(s) => s.null_count,
            ParquetStatistics::Int32(s) => s.null_count,
            ParquetStatistics::Int64(s) => s.null_count,
            ParquetStatistics::Float(s) => s.null_count,
            ParquetStatistics::Double(s) => s.null_count,
            ParquetStatistics::Other { null_count } => *null_count,
        }
    }

    /// Whether the file records both bounds of the chunk.
    pub fn has_min_max_set(&self) -> (set: bool)
        ensures
            set == self.spec_has_min_max_set(),
    {
        match self {
            ParquetStatistics::Boolean(s) => s.has_min_max_set(),
            ParquetStatistics::Int32(s) => s.has_min_max_set(),
            ParquetStatistics::Int64(s) => s.has_min_max_set(),
            ParquetStatistics::Float(s) => s.has_min_max_set(),
            ParquetStatistics::Double(s) => s.has_min_max_set(),
            ParquetStatistics::Other { .. } => false,
        }
    }
}

/// What a file's footer says of one column chunk of a row group.
#[derive(Clone, Copy, Debug, PartialEq, Eq)]
pub struct ColumnChunkMetaData {
    /// The chunk's statistics, where the file carries any.
    pub statistics: Option<ParquetStatistics>,
}

/// What a file's footer says of one row group.
#[derive(Clone, Debug, PartialEq, Eq)]
pub struct RowGroupMetaData {
    /// The number of rows in the row group.
    pub num_rows: u64,
    /// The size of the row group's data in bytes.
    pub total_byte_size: u64,
    /// The row group's column chunks, by the position of the column in the
    /// file's schema.
    pub columns: Vec<ColumnChunkMetaData>,
}

impl RowGroupMetaData {
    /// The row group that a footer tells of, with the counts as the footer
    /// encodes them: signed. A footer that tells a negative number of rows
    /// or bytes is inconsistent and describes no row group.
    pub fn try_new(
        num_rows: i64,
        total_byte_size: i64,
        columns: Vec<ColumnChunkMetaData>,
    ) -> (row_group: Option<Self>)
        ensures
            num_rows >= 0 && total_byte_size >= 0 ==> row_group == Some(
                RowGroupMetaData {
                    num_rows: num_rows as u64,
                    total_byte_size: total_byte_size as u64,
                    columns,
                },
            ),
            num_rows < 0 || total_byte_size < 0 ==> row_group is None,
    {
        if num_rows < 0 || total_byte_size < 0 {
            None
        } else {
            Some(
                RowGroupMetaData {
                    num_rows: num_rows as u64,
                    total_byte_size: total_byte_size as u64,
                    columns,
                },
            )
        }
    }

    /// Whether any column chunk of the row group carries statistics.
    pub open spec fn carries_statistics(self) -> bool {
        exists|j: int|
            0 <= j < self.columns@.len() && (#[trigger] self.columns@[j]).statistics is Some
    }

    /// The statistics of the column chunk at `position`; `None` where the
    /// chunk carries none or the row group has no chunk there.
    pub open spec fn statistics_at(self, position: int) -> Option<ParquetStatistics> {
        if 0 <= position < self.columns@.len() {
            self.columns@[position].statistics
        } else {
            None
        }
    }
}

} // verus!
