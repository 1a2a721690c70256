//! The cell and row conventions of the log format.
//!
//! A cell arrives as raw text; an empty cell in a nullable column denotes
//! null, everything else denotes its own text. A row must have exactly one
//! cell per schema column, and a required (non-nullable) column must not be
//! empty; a violation is a parse error, never a silent coercion.

use vstd::prelude::*;
use crate::schema;

verus! {

/// Whether the raw text `cell` denotes null: empty, in a nullable column.
pub open spec fn cell_denotes_null(cell: Seq<char>, nullable: bool) -> bool {
    nullable && cell.len() == 0
}

/// The value a raw text cell denotes: `None` for null, otherwise the text.
pub open spec fn normalized_cell(cell: Seq<char>, nullable: bool) -> Option<Seq<char>> {
    if cell_denotes_null(cell, nullable) {
        None
    } else {
        Some(cell)
    }
}

/// The raw text that stands for a value: the empty cell for null,
/// otherwise the text itself.
pub open spec fn raw_cell(value: Option<Seq<char>>) -> Seq<char> {
    match value {
        None => Seq::empty(),
        Some(s) => s,
    }
}

/// Normalizing a raw cell and writing it back out returns the original
/// cell: the copy loses nothing.
pub proof fn lemma_cell_normalization_roundtrip(cell: Seq<char>, nullable: bool)
    ensures
        raw_cell(normalized_cell(cell, nullable)) == cell,
{
    if cell_denotes_null(cell, nullable) {
        assert(raw_cell(normalized_cell(cell, nullable)) =~= cell);
    }
}

/// Writing a value out as a raw cell and normalizing it again returns the
/// original value, for every value in normal form: a present value is
/// non-empty text, and null appears only in a nullable column.
pub proof fn lemma_value_normalization_roundtrip(value: Option<Seq<char>>, nullable: bool)
    requires
        value matches Some(s) ==> s.len() > 0,
        value is None ==> nullable,
    ensures
        normalized_cell(raw_cell(value), nullable) == value,
{
}

/// Turns one raw text cell into the value it denotes under the column's
/// nullability flag.
pub fn normalize_cell(cell: &str, nullable: bool) -> (r: Option<String>)
    ensures
        r is None <==> normalized_cell(cell@, nullable) is None,
        r matches Some(v) ==> normalized_cell(cell@, nullable) == Some(v@),
{
    if nullable && cell.is_empty() {
        None
    } else {
        Some(cell.to_owned())
    }
}

/// The reason a row does not fit the schema.
#[derive(Clone, Copy, PartialEq, Eq, Structural, Debug)]
pub enum RowError {
    /// The row has `found` cells instead of one per schema column.
    WrongColumnCount { found: usize },
    /// The required (non-nullable) column `column` holds an empty cell.
    MissingRequired { column: usize },
}

/// Whether a row of raw cells fits the schema: one cell per column, and no
/// empty cell in a required column.
pub open spec fn row_fits_schema(row: Seq<String>) -> bool {
    &&& row.len() == schema::schema_len()
    &&& forall|i: int|
        0 <= i < row.len() ==> (schema::column_nullable(i) || (#[trigger] row[i])@.len() > 0)
}

/// Checks one row of raw cells against the schema: accepts exactly the
/// rows that fit it, and points at the first violation otherwise.
pub fn check_row(row: &Vec<String>) -> (r: Result<(), RowError>)
    ensures
        r is Ok <==> row_fits_schema(row@),
        r matches Err(RowError::WrongColumnCount { found }) ==> found == row@.len()
            && row@.len() != schema::schema_len(),
        r matches Err(RowError::MissingRequired { column }) ==> {
            &&& row@.len() == schema::schema_len()
            &&& 0 <= column < row@.len()
            &&& !schema::column_nullable(column as int)
            &&& row@[column as int]@.len() == 0
            &&& forall|j: int|
                0 <= j < column ==> (schema::column_nullable(j) || (#[trigger] row@[j])@.len() > 0)
        },
{
    if row.len() != 16 {
        return Err(RowError::WrongColumnCount { found: row.len() });
    }
    let mut i: usize = 0;
    while i < 3
        invariant
            i <= 3,
            row@.len() == 16,
            forall|j: int| 0 <= j < i ==> (#[trigger] row@[j])@.len() > 0,
        decreases 3 - i,
    {
        if row[i].as_str().is_empty() {
            return Err(RowError::MissingRequired { column: i });
        }
        i = i + 1;
    }
    Ok(())
}

} // verus!
