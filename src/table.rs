//! Bordered tables, built with prettytable. A table is known by its title
//! row, its rows of cells and the style it is drawn in.
use vstd::prelude::*;

use prettytable::format::{FormatBuilder, LinePosition, LineSeparator};
use prettytable::{Cell, Row, Table};

verus! {

#[verifier::external_type_specification]
#[verifier::external_body]
pub struct ExTable(prettytable::Table);

/// How a table is drawn: separators between columns and at the borders, a
/// rule above and below, and the padding inside each cell.
#[derive(PartialEq, Eq, Structural, Clone, Copy, Debug)]
pub struct TableStyle {
    pub column_separator: char,
    pub border: char,
    pub line: char,
    pub junction: char,
    pub left_junction: char,
    pub right_junction: char,
    pub padding_left: usize,
    pub padding_right: usize,
}

/// The text of each cell of each row of a table, in order.
pub uninterp spec fn table_rows(t: Table) -> Seq<Seq<Seq<char>>>;

/// The text of each cell of a table's title row; empty where none is set.
pub uninterp spec fn table_titles(t: Table) -> Seq<Seq<char>>;

/// The style that a table was last given.
pub uninterp spec fn table_style(t: Table) -> TableStyle;

/// What a cell keeps of the text it was made from.
pub uninterp spec fn cell_text(s: Seq<char>) -> Seq<char>;

/// The cells made from `cells`.
pub open spec fn row_of(cells: Seq<Seq<char>>) -> Seq<Seq<char>> {
    cells.map_values(|c: Seq<char>| cell_text(c))
}

/// Relies on prettytable's `Table::new`: a table without rows or title row.
#[verifier::external_body]
pub(crate) fn new_table() -> (t: Table)
    ensures
        table_rows(t) == Seq::<Seq<Seq<char>>>::empty(),
        table_titles(t) == Seq::<Seq<char>>::empty(),
{
    Table::new()
}

/// Relies on prettytable's `Table::set_format`, given a format that
/// `FormatBuilder` builds from `style` with its rule above and below the
/// table: the style changes, the rows and the title row stay.
#[verifier::external_body]
pub(crate) fn set_table_style(t: &mut Table, style: &TableStyle)
    ensures
        table_style(*final(t)) == *style,
        table_rows(*final(t)) == table_rows(*old(t)),
        table_titles(*final(t)) == table_titles(*old(t)),
{
    let rule = LineSeparator::new(
        style.line,
        style.junction,
        style.left_junction,
        style.right_junction,
    );
    let format = FormatBuilder::new().column_separator(style.column_separator).borders(
        style.border,
    ).separators(&[LinePosition::Top, LinePosition::Bottom], rule).padding(
        style.padding_left,
        style.padding_right,
    ).build();
    t.set_format(format);
}

/// Relies on prettytable's `Table::set_titles`, with a row of `Cell::new`
/// cells: the title row becomes those cells, the rows and the style stay.
#[verifier::external_body]
pub(crate) fn set_table_titles(t: &mut Table, cells: &Vec<String>)
    ensures
        table_titles(*final(t)) == cells@.map_values(|c: String| cell_text(c@)),
        table_rows(*final(t)) == table_rows(*old(t)),
        table_style(*final(t)) == table_style(*old(t)),
{
    t.set_titles(Row::new(cells.iter().map(|c| Cell::new(c)).collect()));
}

/// Relies on prettytable's `Table::add_row`, with a row of `Cell::new`
/// cells: the row is appended, the title row and the style stay.
#[verifier::external_body]
pub(crate) fn add_table_row(t: &mut Table, cells: &Vec<String>)
    ensures
        table_rows(*final(t)) == table_rows(*old(t)).push(cells@.map_values(|c: String| cell_text(c@))),
        table_titles(*final(t)) == table_titles(*old(t)),
        table_style(*final(t)) == table_style(*old(t)),
{
    t.add_row(Row::new(cells.iter().map(|c| Cell::new(c)).collect()));
}

} // verus!
