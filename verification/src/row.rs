//! A row of data returned from a query: an immutable ordered collection of
//! typed values, one per result column, in column order.

use crate::types::SqlValue;
use vstd::prelude::*;

verus! {

/// Represents a row of data returned from a SQL query.
#[derive(Clone, Debug, PartialEq)]
pub struct Row {
    columns: Vec<SqlValue>,
}

impl View for Row {
    type V = Seq<SqlValue>;

    closed spec fn view(&self) -> Seq<SqlValue> {
        self.columns@
    }
}

impl Row {
    pub fn new(columns: Vec<SqlValue>) -> (r: Row)
        ensures
            r@ == columns@,
    {
        Row { columns }
    }

    /// Returns the columns in the row.
    pub fn columns(&self) -> (r: &[SqlValue])
        ensures
            r@ == self@,
    {
        self.columns.as_slice()
    }

    /// The value at one column position, counted from zero.
    pub fn column(&self, index: usize) -> (r: &SqlValue)
        requires
            index < self@.len(),
        ensures
            *r == self@[index as int],
    {
        &self.columns[index]
    }
}

} // verus!
