//! Column descriptors: what the header probe learns about a result set.

use vstd::prelude::*;
use crate::codec::{column_type_of, ColumnType};

verus! {

/// One column of the result set: its name and the type tag the driver
/// reported. The position of a descriptor in its sequence is the position
/// of the column's value in every row.
#[derive(Clone, Debug, PartialEq, Eq)]
pub struct ColumnDescriptor {
    pub name: String,
    pub declared_type: String,
}

impl ColumnDescriptor {
    /// A descriptor of a column called `name` whose type tag is
    /// `declared_type`.
    pub fn new(name: String, declared_type: String) -> (column: ColumnDescriptor)
        ensures
            column.name == name,
            column.declared_type == declared_type,
    {
        ColumnDescriptor { name, declared_type }
    }

    /// The group of types this column's tag belongs to.
    pub fn column_type(&self) -> (ty: ColumnType)
        ensures
            ty == column_type_of(self.declared_type@),
    {
        ColumnType::from_tag(self.declared_type.as_str())
    }
}

/// The column names, in column order.
pub open spec fn column_names(columns: Seq<ColumnDescriptor>) -> Seq<Seq<char>> {
    Seq::new(columns.len(), |i: int| columns[i].name@)
}

/// Whether some column is called `name`.
pub open spec fn has_column(columns: Seq<ColumnDescriptor>, name: Seq<char>) -> bool {
    exists|i: int| 0 <= i < columns.len() && #[trigger] columns[i].name@ == name
}

/// The position of the first column called `name` at or after `from`.
pub open spec fn first_named(columns: Seq<ColumnDescriptor>, name: Seq<char>, from: int) -> Option<
    int,
>
    decreases columns.len() - from,
{
    if from >= columns.len() {
        None
    } else if columns[from].name@ == name {
        Some(from)
    } else {
        first_named(columns, name, from + 1)
    }
}

/// What `first_named` finds: the least position at or after `from` whose
/// column carries the name, and nothing exactly when no such column is left.
pub proof fn lemma_first_named(columns: Seq<ColumnDescriptor>, name: Seq<char>, from: int)
    requires
        0 <= from,
    ensures
        match first_named(columns, name, from) {
            Some(i) => from <= i < columns.len() && columns[i].name@ == name && forall|j: int|
                from <= j < i ==> (#[trigger] columns[j]).name@ != name,
            None => forall|j: int| from <= j < columns.len() ==> (#[trigger] columns[j]).name@ != name,
        },
    decreases columns.len() - from,
{
    if from < columns.len() && columns[from].name@ != name {
        lemma_first_named(columns, name, from + 1);
    }
}

/// The position of the first column called `name`.
pub fn find_column(columns: &Vec<ColumnDescriptor>, name: &str) -> (position: Option<usize>)
    ensures
        match position {
            Some(i) => first_named(columns@, name@, 0) == Some(i as int),
            None => first_named(columns@, name@, 0) is None,
        },
        position is Some <==> has_column(columns@, name@),
{
    let mut i: usize = 0;
    while i < columns.len()
        invariant
            i <= columns.len(),
            first_named(columns@, name@, 0) == first_named(columns@, name@, i as int),
        decreases columns.len() - i,
    {
        if crate::text::same_text(columns[i].name.as_str(), name) {
            proof {
                lemma_first_named(columns@, name@, 0);
            }
            return Some(i);
        }
        i += 1;
    }
    proof {
        lemma_first_named(columns@, name@, 0);
    }
    None
}

} // verus!
