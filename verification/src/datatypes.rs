//! Column types and fields of a table or file schema.

use vstd::prelude::*;

verus! {

/// The type that a schema declares for a column.
///
/// Statistics are tracked for booleans, 32 and 64 bit signed integers and
/// 32 and 64 bit floats; every other type is `Other`.
#[derive(Clone, Copy, Debug, PartialEq, Eq, Structural)]
pub enum DataType {
    Boolean,
    Int32,
    Int64,
    Float32,
    Float64,
    Other,
}

/// One column of a schema.
#[derive(Clone, Debug, PartialEq, Eq)]
pub struct Field {
    /// The column's name, by which a table column is found in a file.
    pub name: String,
    /// The column's declared type.
    pub data_type: DataType,
    /// Whether the column may hold nulls.
    pub nullable: bool,
}

/// The names of `fields`, in order.
pub open spec fn field_names(fields: Seq<Field>) -> Seq<Seq<char>> {
    fields.map_values(|f: Field| f.name@)
}

/// The position in `file_fields` of the first field that has the name of
/// `table_fields[index]`, or `None` where the file has no field of that name.
pub open spec fn column_index(table_fields: Seq<Field>, index: int, file_fields: Seq<Field>)
    -> Option<int> {
    field_names(file_fields).index_of_first(table_fields[index].name@)
}

/// What `column_index` returns, stated position by position: the field it
/// names has the wanted name and no earlier field of the file has it; it
/// is `None` only where no field of the file has it.
pub proof fn lemma_column_index(table_fields: Seq<Field>, index: int, file_fields: Seq<Field>)
    ensures
        match column_index(table_fields, index, file_fields) {
            Some(j) => {
                &&& 0 <= j < file_fields.len()
                &&& file_fields[j].name@ == table_fields[index].name@
                &&& forall|k: int| 0 <= k < j ==> file_fields[k].name@ != table_fields[index].name@
            },
            None => forall|k: int|
                0 <= k < file_fields.len() ==> file_fields[k].name@ != table_fields[index].name@,
        },
{
    let names = field_names(file_fields);
    let name = table_fields[index].name@;
    names.index_of_first_ensures(name);
    match names.index_of_first(name) {
        Some(j) => {
            assert forall|k: int| 0 <= k < j implies file_fields[k].name@ != name by {
                assert(names[k] == file_fields[k].name@);
            }
        },
        None => {
            assert forall|k: int| 0 <= k < file_fields.len() implies file_fields[k].name@
                != name by {
                assert(names.contains(names[k]));
            }
        },
    }
}

/// Maps the columns of a table, by name, to the columns of its files.
///
/// A file may lack a column that the table declares, or hold columns that
/// the table does not use; the adapter tells where each table column sits
/// in a given file.
#[derive(Clone, Copy, Debug)]
pub struct SchemaAdapter<'a> {
    table_fields: &'a [Field],
}

impl<'a> SchemaAdapter<'a> {
    /// The fields of the table that the adapter was built for.
    pub closed spec fn table_fields(&self) -> Seq<Field> {
        self.table_fields@
    }

    /// An adapter for the table with the fields `table_fields`.
    pub fn new(table_fields: &'a [Field]) -> (adapter: Self)
        ensures
            adapter.table_fields() == table_fields@,
    {
        SchemaAdapter { table_fields }
    }

    /// The position in `file_fields` of the table column `index`: that of
    /// the first field of the file with the column's name, or `None` where
    /// the file has no such field.
    pub fn map_column_index(&self, index: usize, file_fields: &[Field]) -> (position: Option<usize>)
        requires
            index < self.table_fields().len(),
        ensures
            column_index(self.table_fields(), index as int, file_fields@) == match position {
                Some(j) => Some(j as int),
                None => None,
            },
    {
        let name = &self.table_fields[index].name;
        let mut j: usize = 0;
        proof {
            lemma_column_index(self.table_fields@, index as int, file_fields@);
        }
        while j < file_fields.len()
            invariant
                j <= file_fields.len(),
                index < self.table_fields@.len(),
                *name == self.table_fields@[index as int].name,
                forall|k: int| 0 <= k < j ==> file_fields@[k].name@ != name@,
                match column_index(self.table_fields@, index as int, file_fields@) {
                    Some(f) => {
                        &&& 0 <= f < file_fields@.len()
                        &&& file_fields@[f].name@ == name@
                        &&& forall|k: int| 0 <= k < f ==> file_fields@[k].name@ != name@
                    },
                    None => forall|k: int|
                        0 <= k < file_fields@.len() ==> file_fields@[k].name@ != name@,
                },
            decreases file_fields.len() - j,
        {
            if file_fields[j].name == *name {
                return Some(j);
            }
            j += 1;
        }
        None
    }
}

} // verus!
