//! Printable tables, as the crate `prettytable` draws them.

use vstd::prelude::*;

verus! {

/// The type `prettytable::Cell`, of which nothing but its text is known
/// here.
#[verifier::external_type_specification]
#[verifier::external_body]
pub struct ExCell(prettytable::Cell);

/// The type `prettytable::Row`, of which nothing but its cells is known
/// here.
#[verifier::external_type_specification]
#[verifier::external_body]
pub struct ExRow(prettytable::Row);

/// The type `prettytable::Table`, of which nothing but its rows is known
/// here.
#[verifier::external_type_specification]
#[verifier::external_body]
pub struct ExTable(prettytable::Table);

/// The text of a cell: what `Cell::get_content` gives.
pub uninterp spec fn cell_text(c: prettytable::Cell) -> Seq<char>;

/// The texts of the cells of a row, in order.
pub uninterp spec fn row_cells(r: prettytable::Row) -> Seq<Seq<char>>;

/// The texts of the cells of a table, row by row. The titles, which a table
/// may have besides its rows, are not among them.
pub uninterp spec fn table_cells(t: prettytable::Table) -> Seq<Seq<Seq<char>>>;

/// The texts of cells.
pub open spec fn cell_texts(cells: Seq<prettytable::Cell>) -> Seq<Seq<char>> {
    cells.map_values(|c: prettytable::Cell| cell_text(c))
}

/// Calls `prettytable::Cell::new`, which cuts the text into its lines and
/// keeps those; `Cell::get_content` joins them again. A text without line
/// feed and carriage return is one line and comes back as it went in. The
/// call also measures the text, and counts what stands inside a terminal's
/// escape sequence apart; on some texts with an escape character that count
/// ends in a panic. Only a text without any of the three characters is taken
/// here.
#[verifier::external_body]
pub(crate) fn new_cell(text: &str) -> (c: prettytable::Cell)
    requires
        crate::text::plain_line(text@),
    ensures
        cell_text(c) == text@,
{
    prettytable::Cell::new(text)
}

/// Calls `prettytable::Row::new`, which makes a row of the given cells.
#[verifier::external_body]
pub(crate) fn new_row(cells: Vec<prettytable::Cell>) -> (r: prettytable::Row)
    ensures
        row_cells(r) == cell_texts(cells@),
{
    prettytable::Row::new(cells)
}

/// Calls `prettytable::Table::new`, which makes a table without rows.
#[verifier::external_body]
pub(crate) fn new_table() -> (t: prettytable::Table)
    ensures
        table_cells(t) == Seq::<Seq<Seq<char>>>::empty(),
{
    prettytable::Table::new()
}

/// Calls `prettytable::Table::add_row`, which appends the row to the
/// table.
#[verifier::external_body]
pub(crate) fn add_row(t: &mut prettytable::Table, row: prettytable::Row)
    ensures
        table_cells(*final(t)) == table_cells(*old(t)).push(row_cells(row)),
{
    t.add_row(row);
}

/// The row of the given texts, each of one line.
pub fn row_of(texts: &Vec<String>) -> (r: prettytable::Row)
    requires
        forall|i: int| 0 <= i < texts@.len() ==> crate::text::plain_line(#[trigger] texts@[i]@),
    ensures
        row_cells(r) == texts@.map_values(|text: String| text@),
{
    let mut cells: Vec<prettytable::Cell> = Vec::new();
    let mut i: usize = 0;
    while i < texts.len()
        invariant
            i <= texts@.len(),
            cells@.len() == i,
            forall|j: int| 0 <= j < texts@.len() ==> crate::text::plain_line(#[trigger] texts@[j]@),
            forall|j: int| 0 <= j < i ==> cell_text(#[trigger] cells@[j]) == texts@[j]@,
        decreases texts@.len() - i,
    {
        cells.push(new_cell(texts[i].as_str()));
        i += 1;
    }
    assert(cell_texts(cells@) =~= texts@.map_values(|text: String| text@));
    new_row(cells)
}

} // verus!
