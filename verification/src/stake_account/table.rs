//! The report as a `comfy_table::Table`, ready to be printed.

use crate::stake_account::report::{Row, RowText};
use comfy_table::presets::UTF8_FULL;
use comfy_table::{Attribute, Cell, Table};
use vstd::prelude::*;

verus! {

/// The table of `comfy_table`, kept as that crate builds it.
#[verifier::external_type_specification]
#[verifier::external_body]
pub struct ExTable(Table);

/// The texts of the cells of the header, where the table has one.
pub uninterp spec fn table_header(table: Table) -> Option<Seq<Seq<char>>>;

/// The texts of the cells of each row below the header, from the top.
pub uninterp spec fn table_rows(table: Table) -> Seq<Seq<Seq<char>>>;

/// The cells of the rows of a report: the label, then the value.
pub open spec fn row_cells(rows: Seq<RowText>) -> Seq<Seq<Seq<char>>> {
    Seq::new(rows.len(), |i: int| seq![rows[i].0, rows[i].1])
}

/// Calls `Table::new`. Trusted: the new table has no header and no rows.
#[verifier::external_body]
fn new_table() -> (table: Table)
    ensures
        table_header(table) is None,
        table_rows(table) == Seq::<Seq<Seq<char>>>::empty(),
{
    Table::new()
}

/// Calls `Table::load_preset` with the preset `UTF8_FULL`. Trusted: the call
/// changes how borders are drawn and leaves the header and the rows as they are.
#[verifier::external_body]
fn draw_utf8_borders(table: &mut Table)
    ensures
        table_header(*final(table)) == table_header(*old(table)),
        table_rows(*final(table)) == table_rows(*old(table)),
{
    table.load_preset(UTF8_FULL);
}

/// Calls `Table::set_header` with two cells made by `Cell::new` and set in bold
/// by `Cell::add_attribute`. Trusted: the header then holds the two texts, and
/// the rows are as they were.
#[verifier::external_body]
fn set_bold_header(table: &mut Table, first: &str, second: &str)
    ensures
        table_header(*final(table)) == Some(seq![first@, second@]),
        table_rows(*final(table)) == table_rows(*old(table)),
{
    table.set_header(vec![
        Cell::new(first).add_attribute(Attribute::Bold),
        Cell::new(second).add_attribute(Attribute::Bold),
    ]);
}

/// Calls `Table::add_row` with two cells made by `Cell::new`. Trusted: the row
/// comes last, holds the two texts, and nothing else changes.
#[verifier::external_body]
fn add_row(table: &mut Table, label: &str, value: &str)
    ensures
        table_header(*final(table)) == table_header(*old(table)),
        table_rows(*final(table)) == table_rows(*old(table)).push(seq![label@, value@]),
{
    table.add_row(vec![Cell::new(label), Cell::new(value)]);
}

/// Lays the rows of a report out as a table under the header `Field`, `Value`.
pub fn report_table(rows: &Vec<Row>) -> (table: Table)
    ensures
        table_header(table) == Some(seq!["Field"@, "Value"@]),
        table_rows(table) == row_cells(rows.deep_view()),
{
    let mut table = new_table();
    draw_utf8_borders(&mut table);
    set_bold_header(&mut table, "Field", "Value");
    let mut i: usize = 0;
    while i < rows.len()
        invariant
            i <= rows.len(),
            table_header(table) == Some(seq!["Field"@, "Value"@]),
            table_rows(table) == row_cells(rows.deep_view().take(i as int)),
        decreases rows.len() - i,
    {
        let row = &rows[i];
        add_row(&mut table, row.0.as_str(), row.1.as_str());
        assert(row_cells(rows.deep_view().take(i as int)).push(seq![row.0@, row.1@])
            =~= row_cells(rows.deep_view().take(i + 1)));
        i += 1;
    }
    assert(rows.deep_view().take(i as int) =~= rows.deep_view());
    table
}

} // verus!
