//! Schemas of files, and their merge into the schema of a table.
//!
//! Schemas are Arrow schemas. Merging two of them is Arrow's work; the
//! order in which the files' schemas are merged, and what a failure does
//! to the inference, is decided here.

use vstd::prelude::*;
use arrow::datatypes::Schema;
use arrow::error::ArrowError;
use crate::datatypes::{field_names, DataType, Field};
use crate::error::FormatError;

verus! {

/// Arrow's `Schema`. Nothing inside it is read but through the functions
/// below.
#[verifier::external_type_specification]
#[verifier::external_body]
pub struct ExSchema(Schema);

/// Arrow's `ArrowError`, which is carried and never looked into.
#[verifier::external_type_specification]
#[verifier::external_body]
pub struct ExArrowError(ArrowError);

/// The fields of a schema, in order: of each its name, its type as far as
/// statistics are tracked for it, and whether it may hold nulls.
pub uninterp spec fn schema_fields(schema: Schema) -> Seq<Field>;

/// `Schema::empty`: a schema without fields.
#[verifier::external_body]
pub(crate) fn empty_schema() -> (schema: Schema)
    ensures
        schema_fields(schema).len() == 0,
{
    Schema::empty()
}

/// `Schema::fields`, and the length of what it returns: the number of the
/// schema's fields.
#[verifier::external_body]
pub(crate) fn num_fields(schema: &Schema) -> (n: usize)
    ensures
        n == schema_fields(*schema).len(),
{
    schema.fields().len()
}

/// `Schema::field`, which panics beyond the last field: the field at
/// position `i`, with its name (`Field::name`), its nullability
/// (`Field::is_nullable`) and its type (`Field::data_type`), the latter
/// told apart into the five tracked types and `Other`.
#[verifier::external_body]
pub(crate) fn field_at(schema: &Schema, i: usize) -> (field: Field)
    requires
        i < schema_fields(*schema).len(),
    ensures
        field == schema_fields(*schema)[i as int],
{
    let f = schema.field(i);
    let data_type = match f.data_type() {
        arrow::datatypes::DataType::Boolean => DataType::Boolean,
        arrow::datatypes::DataType::Int32 => DataType::Int32,
        arrow::datatypes::DataType::Int64 => DataType::Int64,
        arrow::datatypes::DataType::Float32 => DataType::Float32,
        arrow::datatypes::DataType::Float64 => DataType::Float64,
        _ => DataType::Other,
    };
    Field { name: f.name().clone(), data_type, nullable: f.is_nullable() }
}

/// `Schema::try_merge` on `merged` and `next`, in this order. Whether the
/// merge succeeds is Arrow's answer, which depends on more than what the
/// two schemas hold, and nothing is said of it. Of a merged schema the
/// names are stated: Arrow starts from no fields and takes the fields of
/// `merged`, then those of `next`, one by one; a field whose name is
/// already there is merged into the first field of that name, which keeps
/// its place and its name, and any other field is appended.
#[verifier::external_body]
pub(crate) fn try_merge(merged: &Schema, next: &Schema) -> (outcome: Result<Schema, ArrowError>)
    ensures
        outcome matches Ok(schema) ==> field_names(schema_fields(schema)) == union_names(
            union_names(Seq::empty(), field_names(schema_fields(*merged))),
            field_names(schema_fields(*next)),
        ),
{
    Schema::try_merge([merged.clone(), next.clone()])
}

/// `names`, followed by those of `more` that are not yet there, each at
/// its first occurrence and in the order of `more`.
pub open spec fn union_names(names: Seq<Seq<char>>, more: Seq<Seq<char>>) -> Seq<Seq<char>>
    decreases more.len(),
{
    if more.len() == 0 {
        names
    } else {
        let before = union_names(names, more.drop_last());
        if before.contains(more.last()) {
            before
        } else {
            before.push(more.last())
        }
    }
}

/// The field names of the merge of the first `k` of `schemas`, in file
/// order: every name at the place where it was first seen.
pub open spec fn merged_names(schemas: Seq<Seq<Seq<char>>>, k: int) -> Seq<Seq<char>>
    decreases k,
{
    if k <= 0 {
        Seq::empty()
    } else {
        union_names(merged_names(schemas, k - 1), schemas[k - 1])
    }
}

/// The fields of `schema`, as the inference of statistics reads them.
pub fn fields_of(schema: &Schema) -> (fields: Vec<Field>)
    ensures
        fields@ == schema_fields(*schema),
{
    let n = num_fields(schema);
    let mut fields: Vec<Field> = Vec::new();
    let mut i: usize = 0;
    while i < n
        invariant
            i <= n,
            n == schema_fields(*schema).len(),
            fields@ == schema_fields(*schema).take(i as int),
        decreases n - i,
    {
        fields.push(field_at(schema, i));
        i += 1;
    }
    fields
}

/// The schema that an inference starts from: one without fields.
pub fn seed_schema() -> (seed: Schema)
    ensures
        schema_fields(seed).len() == 0,
{
    empty_schema()
}

/// What the inference makes of the outcome of a merge: the merged schema,
/// or the failure as a merge error.
pub fn merge_outcome(outcome: Result<Schema, ArrowError>) -> (merged: Result<Schema, FormatError>)
    ensures
        match outcome {
            Ok(schema) => merged matches Ok(m) && m == schema,
            Err(e) => merged matches Err(FormatError::Merge(f)) && f == e,
        },
{
    match outcome {
        Ok(schema) => Ok(schema),
        Err(e) => Err(FormatError::Merge(e)),
    }
}

/// Names that hold no name twice stay so when more names are united with
/// them.
pub proof fn lemma_union_no_duplicates(names: Seq<Seq<char>>, more: Seq<Seq<char>>)
    requires
        names.no_duplicates(),
    ensures
        union_names(names, more).no_duplicates(),
    decreases more.len(),
{
    if more.len() > 0 {
        lemma_union_no_duplicates(names, more.drop_last());
    }
}

/// Uniting names that hold no name twice with nothing before them gives
/// the same names.
pub proof fn lemma_union_from_empty(names: Seq<Seq<char>>)
    requires
        names.no_duplicates(),
    ensures
        union_names(Seq::empty(), names) == names,
    decreases names.len(),
{
    if names.len() > 0 {
        let before = names.drop_last();
        lemma_union_from_empty(before);
    }
}

/// The field names of each decoded schema; none for a file that could not
/// be read.
pub open spec fn decoded_names(decoded: Seq<Result<Schema, FormatError>>) -> Seq<Seq<Seq<char>>> {
    decoded.map_values(
        |d: Result<Schema, FormatError>|
            match d {
                Ok(schema) => field_names(schema_fields(schema)),
                Err(_) => Seq::empty(),
            },
    )
}

/// Whether `i` is the first of the decoded files that could not be read.
pub open spec fn first_unreadable(decoded: Seq<Result<Schema, FormatError>>, i: int) -> bool {
    &&& 0 <= i < decoded.len()
    &&& decoded[i] is Err
    &&& forall|j: int| 0 <= j < i ==> (#[trigger] decoded[j]) is Ok
}

/// Takes the next file into the schema merged so far: `merged` and the
/// file's schema, in this order, are handed to Arrow's merge.
///
/// A file that could not be read or decoded ends the inference with its
/// own error, and only such a file does so without a merge. For a file
/// that was read, Arrow's answer decides: a merged schema is handed on as
/// it is, and in it the fields of `merged` keep their places while the new
/// fields of the file follow in the file's order; a refusal ends the
/// inference with a merge error.
pub fn merge_schema(merged: Schema, next: Result<Schema, FormatError>) -> (outcome: Result<
    Schema,
    FormatError,
>)
    ensures
        match next {
            Err(e) => outcome matches Err(f) && f == e,
            Ok(schema) => match outcome {
                Ok(m) => field_names(schema_fields(m)) == union_names(
                    union_names(Seq::empty(), field_names(schema_fields(merged))),
                    field_names(schema_fields(schema)),
                ),
                Err(f) => f is Merge,
            },
        },
{
    match next {
        Err(e) => Err(e),
        Ok(schema) => merge_outcome(try_merge(&merged, &schema)),
    }
}

} // verus!
