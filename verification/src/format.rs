//! The Parquet file format and its pruning switch.

use vstd::prelude::*;
use arrow::datatypes::Schema;
use crate::datatypes::field_names;
use crate::error::FormatError;
use crate::metadata::RowGroupMetaData;
use crate::schema::{
    decoded_names, fields_of, first_unreadable, lemma_union_from_empty,
    lemma_union_no_duplicates, merge_schema, merged_names, schema_fields, seed_schema,
};
use crate::statistics::{counts_fit, describes, try_fetch_statistics, Statistics};

verus! {

/// The default file extension of Parquet files.
pub const DEFAULT_PARQUET_EXTENSION: &'static str = ".parquet";

/// The Apache Parquet file format.
#[derive(Debug)]
pub struct ParquetFormat {
    enable_pruning: bool,
}

impl Default for ParquetFormat {
    /// Pruning is enabled unless it is switched off.
    fn default() -> (format: Self)
        ensures
            format.pruning_enabled(),
    {
        ParquetFormat { enable_pruning: true }
    }
}

impl ParquetFormat {
    /// Whether row groups are pruned by their statistics.
    pub closed spec fn pruning_enabled(&self) -> bool {
        self.enable_pruning
    }

    /// Switches statistics based pruning of row groups on or off.
    pub fn with_enable_pruning(self, enable: bool) -> (format: Self)
        ensures
            format.pruning_enabled() == enable,
    {
        let mut format = self;
        format.enable_pruning = enable;
        format
    }

    /// Returns true if pruning is enabled.
    pub fn enable_pruning(&self) -> (enabled: bool)
        ensures
            enabled == self.pruning_enabled(),
    {
        self.enable_pruning
    }

    /// The predicate that a scan prunes with: the combined filters when
    /// pruning is enabled, none otherwise, so that a scan of a format with
    /// pruning switched off never skips a row group.
    pub fn pruning_predicate<P>(&self, combined_filters: Option<P>) -> (predicate: Option<P>)
        ensures
            predicate == if self.pruning_enabled() {
                combined_filters
            } else {
                None::<P>
            },
    {
        if self.enable_pruning {
            combined_filters
        } else {
            None
        }
    }

    /// Infers the schema of a table from the decoded schemas of its files,
    /// taken in file order.
    ///
    /// The inference starts from a schema without fields and hands the
    /// schema merged so far and the next file's schema to Arrow's merge,
    /// file after file. Without files the result is the schema without
    /// fields. The first file that cannot be taken in ends the inference:
    /// with its own error where it could not be read, with a merge error
    /// where Arrow refuses its schema. There is no partial schema: where
    /// any file could not be read the inference fails. Where it succeeds,
    /// the fields of the result stand in the order in which their names
    /// were first seen.
    pub fn infer_schema(&self, decoded: Vec<Result<Schema, FormatError>>) -> (outcome: Result<
        Schema,
        FormatError,
    >)
        ensures
            decoded@.len() == 0 ==> (outcome matches Ok(schema) && schema_fields(schema).len()
                == 0),
            outcome matches Ok(schema) ==> {
                &&& forall|i: int| 0 <= i < decoded@.len() ==> (#[trigger] decoded@[i]) is Ok
                &&& field_names(schema_fields(schema)) == merged_names(
                    decoded_names(decoded@),
                    decoded@.len() as int,
                )
            },
            outcome matches Err(e) ==> exists|i: int|
                {
                    &&& 0 <= i < decoded@.len()
                    &&& forall|j: int| 0 <= j < i ==> (#[trigger] decoded@[j]) is Ok
                    &&& match #[trigger] decoded@[i] {
                        Err(f) => e == f,
                        Ok(_) => e is Merge,
                    }
                },
            forall|i: int|
                #[trigger] first_unreadable(decoded@, i) ==> (outcome matches Err(e) && (e is Merge
                    || (decoded@[i] matches Err(f) && f == e))),
    {
        let mut merged = seed_schema();
        for next in files: decoded.into_iter()
            invariant
                files.seq() == decoded@,
                forall|i: int| 0 <= i < files.index() ==> (#[trigger] decoded@[i]) is Ok,
                field_names(schema_fields(merged)) == merged_names(
                    decoded_names(decoded@),
                    files.index() as int,
                ),
                field_names(schema_fields(merged)).no_duplicates(),
        {
            proof {
                lemma_union_from_empty(field_names(schema_fields(merged)));
                lemma_union_no_duplicates(
                    field_names(schema_fields(merged)),
                    decoded_names(decoded@)[files.index() as int],
                );
            }
            match merge_schema(merged, next) {
                Ok(schema) => {
                    merged = schema;
                },
                Err(e) => {
                    return Err(e);
                },
            }
        }
        Ok(merged)
    }

    /// Infers the statistics of the table with the schema `table_schema`
    /// from the footer of one file: its schema and its row groups.
    ///
    /// The statistics are those that `fetch_statistics` tells for the
    /// fields of the two schemas; where one of the totals does not fit in
    /// `usize` there are none.
    pub fn infer_stats(
        &self,
        file_schema: &Schema,
        row_groups: &[RowGroupMetaData],
        table_schema: &Schema,
    ) -> (outcome: Option<Statistics>)
        ensures
            counts_fit(schema_fields(*file_schema), row_groups@, schema_fields(*table_schema)) ==> (
            outcome matches Some(statistics) && describes(
                statistics,
                schema_fields(*file_schema),
                row_groups@,
                schema_fields(*table_schema),
            )),
            !counts_fit(schema_fields(*file_schema), row_groups@, schema_fields(*table_schema))
                ==> outcome is None,
    {
        let file_fields = fields_of(file_schema);
        let fields = fields_of(table_schema);
        try_fetch_statistics(file_fields.as_slice(), row_groups, fields.as_slice())
    }
}

} // verus!
