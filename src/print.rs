//! The two table layouts: a borderless grid of names, and a bordered table
//! with one row of metadata columns per entry.
use vstd::prelude::*;

use prettytable::Table;

use crate::entry::{is_hidden_file, visible, Entry};
use crate::formatter::{
    file_text, format_dir_size, format_file, format_git, format_permissions, format_table_header,
    format_time, format_user_label, git_text, name_view, permissions_text, size_text, time_text,
    user_text,
};
use crate::options::CommandOptions;
use crate::table::{
    add_table_row, cell_text, new_table, row_of, set_table_style, table_rows, table_style,
    table_titles, TableStyle,
};
use crate::text::{decimal, decimal_string, styled};

verus! {

/// A laid-out listing: the table to print, then the line that follows it.
pub struct Listing {
    pub table: Table,
    /// The closing line, with the number of entries listed.
    pub footer: String,
    /// How many entries are listed.
    pub count: usize,
}

// ----- grid -----

/// The style of the grid: blanks for every separator, no padding.
pub open spec fn simple_style() -> TableStyle {
    TableStyle {
        column_separator: ' ',
        border: ' ',
        line: ' ',
        junction: ' ',
        left_junction: ' ',
        right_junction: ' ',
        padding_left: 0,
        padding_right: 0,
    }
}

/// How many names a grid row holds on a terminal `width` columns wide.
pub open spec fn columns_for_width(width: nat) -> nat {
    if width <= 150 {
        3
    } else if width >= 300 {
        8
    } else {
        5
    }
}

/// Chooses how many names a grid row holds.
pub fn max_columns(console_width: u16) -> (r: usize)
    ensures
        r == columns_for_width(console_width as nat),
{
    let mut max_cols: usize = 5;
    if console_width >= 300 {
        max_cols = 8;
    }
    if console_width <= 150 {
        max_cols = 3;
    }
    max_cols
}

/// `cells` laid left to right in rows of `k`; the last row holds what is left,
/// and there is one empty row where there are no cells.
pub open spec fn grid(cells: Seq<Seq<char>>, k: nat) -> Seq<Seq<Seq<char>>>
    decreases cells.len(),
{
    if cells.len() == 0 {
        seq![Seq::empty()]
    } else {
        let g = grid(cells.drop_last(), k);
        if g.len() > 0 && g.last().len() < k {
            g.update(g.len() - 1, g.last().push(cells.last()))
        } else {
            g.push(seq![cells.last()])
        }
    }
}

/// The rows of a grid read one after the other.
pub open spec fn joined(rows: Seq<Seq<Seq<char>>>) -> Seq<Seq<char>>
    decreases rows.len(),
{
    if rows.len() == 0 {
        Seq::empty()
    } else {
        joined(rows.drop_last()) + rows.last()
    }
}

/// A grid holds every cell exactly once, in order, and no row holds more
/// than `k` cells.
pub proof fn lemma_grid_keeps_every_cell(cells: Seq<Seq<char>>, k: nat)
    requires
        k > 0,
    ensures
        joined(grid(cells, k)) == cells,
        grid(cells, k).len() > 0,
        forall|r: int| 0 <= r < grid(cells, k).len() ==> #[trigger] grid(cells, k)[r].len() <= k,
    decreases cells.len(),
{
    if cells.len() == 0 {
        let g = grid(cells, k);
        assert(g.drop_last() =~= Seq::<Seq<Seq<char>>>::empty());
        assert(joined(g) == joined(g.drop_last()) + g.last());
        assert(joined(Seq::<Seq<Seq<char>>>::empty()) == Seq::<Seq<char>>::empty());
        assert(joined(g) =~= cells);
    } else {
        let p = cells.drop_last();
        let c = cells.last();
        lemma_grid_keeps_every_cell(p, k);
        let g = grid(p, k);
        assert(p.push(c) =~= cells);
        if g.last().len() < k {
            let g2 = g.update(g.len() - 1, g.last().push(c));
            assert(g2.drop_last() =~= g.drop_last());
            assert(joined(g) == joined(g.drop_last()) + g.last());
            assert(joined(g2) =~= joined(g).push(c));
            assert forall|r: int| 0 <= r < g2.len() implies #[trigger] g2[r].len() <= k by {
                if r < g.len() - 1 {
                    assert(g2[r] == g[r]);
                }
            }
        } else {
            let g2 = g.push(seq![c]);
            assert(g2.drop_last() =~= g);
            assert(joined(g2) =~= joined(g).push(c));
            assert forall|r: int| 0 <= r < g2.len() implies #[trigger] g2[r].len() <= k by {
                if r < g.len() {
                    assert(g2[r] == g[r]);
                }
            }
        }
    }
}

/// The grid cell of each entry.
pub open spec fn name_cells(vis: Seq<Entry>) -> Seq<Seq<char>> {
    vis.map_values(|e: Entry| cell_text(file_text(e.name@, e.is_dir)))
}

/// Lays the shown entries' names out in a grid as wide as a terminal of
/// `console_width` columns allows, and counts them.
pub fn print_files_simple(entries: &Vec<Entry>, console_width: u16, opts: &CommandOptions) -> (r:
    Listing)
    ensures
        r.count == visible(entries@, opts.show_hidden).len(),
        table_rows(r.table) == grid(
            name_cells(visible(entries@, opts.show_hidden)),
            columns_for_width(console_width as nat),
        ),
        table_titles(r.table) == Seq::<Seq<char>>::empty(),
        table_style(r.table) == simple_style(),
        r.footer@ == decimal(r.count as nat) + " files\n"@,
{
    let k = max_columns(console_width);
    let ghost kk = k as nat;
    let mut table = new_table();
    let style = TableStyle {
        column_separator: ' ',
        border: ' ',
        line: ' ',
        junction: ' ',
        left_junction: ' ',
        right_junction: ' ',
        padding_left: 0,
        padding_right: 0,
    };
    set_table_style(&mut table, &style);
    let mut current: Vec<String> = Vec::new();
    let mut count: usize = 0;
    let mut i: usize = 0;
    assert(entries@.take(0) =~= Seq::<Entry>::empty());
    assert(visible(entries@.take(0), opts.show_hidden) == Seq::<Entry>::empty());
    assert(name_cells(Seq::<Entry>::empty()) =~= Seq::<Seq<char>>::empty());
    assert(current@.map_values(|c: String| cell_text(c@)) =~= Seq::<Seq<char>>::empty());
    assert(table_rows(table).push(current@.map_values(|c: String| cell_text(c@))) =~= grid(
        name_cells(visible(entries@.take(0), opts.show_hidden)),
        kk,
    ));
    while i < entries.len()
        invariant
            k == kk,
            kk == columns_for_width(console_width as nat),
            i <= entries@.len(),
            count <= i,
            count == visible(entries@.take(i as int), opts.show_hidden).len(),
            current@.len() <= kk,
            table_rows(table).push(current@.map_values(|c: String| cell_text(c@))) == grid(
                name_cells(visible(entries@.take(i as int), opts.show_hidden)),
                kk,
            ),
            table_titles(table) == Seq::<Seq<char>>::empty(),
            table_style(table) == simple_style(),
        decreases entries@.len() - i,
    {
        let e = &entries[i];
        assert(entries@.take(i + 1).drop_last() =~= entries@.take(i as int));
        assert(entries@.take(i + 1).last() == *e);
        if opts.show_hidden || !is_hidden_file(e) {
            let ghost vis = visible(entries@.take(i as int), opts.show_hidden);
            let ghost rows = table_rows(table);
            let ghost cur = current@.map_values(|c: String| cell_text(c@));
            let ghost cells = name_cells(vis);
            let cell = format_file(e);
            let ghost c = cell_text(cell@);
            assert(name_cells(vis.push(*e)) =~= cells.push(c));
            assert(cells.push(c).drop_last() =~= cells);
            let ghost g = grid(cells, kk);
            assert(g == rows.push(cur));
            if current.len() == k {
                add_table_row(&mut table, &current);
                current = Vec::new();
                current.push(cell);
                assert(current@.map_values(|x: String| cell_text(x@)) =~= seq![c]);
                assert(table_rows(table).push(current@.map_values(|x: String| cell_text(x@)))
                    =~= g.push(seq![c]));
            } else {
                current.push(cell);
                assert(current@.map_values(|x: String| cell_text(x@)) =~= cur.push(c));
                assert(table_rows(table).push(current@.map_values(|x: String| cell_text(x@)))
                    =~= g.update(g.len() - 1, g.last().push(c)));
            }
            count = count + 1;
        }
        i = i + 1;
    }
    assert(entries@.take(entries@.len() as int) =~= entries@);
    add_table_row(&mut table, &current);
    let mut footer = decimal_string(count as u64);
    footer.append(" files\n");
    Listing { table, footer, count }
}

// ----- detailed table -----

/// The style of the detailed table: dotted rules and borders, one blank of padding.
pub open spec fn detailed_style() -> TableStyle {
    TableStyle {
        column_separator: '\u{250a}',
        border: '\u{250a}',
        line: '\u{2504}',
        junction: '\u{2504}',
        left_junction: '\u{2756}',
        right_junction: '\u{2756}',
        padding_left: 1,
        padding_right: 1,
    }
}

/// How many columns the detailed table has.
pub open spec fn column_count(opts: CommandOptions) -> nat {
    4 + (if opts.git {
        1nat
    } else {
        0nat
    }) + (if opts.size {
        1nat
    } else {
        0nat
    })
}

/// The column titles: Name, Git Status where git status is shown,
/// Permissions, Modified, User, and Size where sizes are shown.
pub open spec fn header_cells(opts: CommandOptions) -> Seq<Seq<char>> {
    let name = seq![styled(90, "Name"@)];
    let with_git = if opts.git {
        name.push(styled(90, "Git Status"@))
    } else {
        name
    };
    let base = with_git + seq![
        styled(90, "Permissions"@),
        styled(90, "Modified"@),
        styled(90, "User"@),
    ];
    if opts.size {
        base.push(styled(90, "Size"@))
    } else {
        base
    }
}

/// The row of one entry, in the order of `header_cells`, given the name
/// found for its owner.
pub open spec fn row_cells(e: Entry, user: Option<Seq<char>>, opts: CommandOptions) -> Seq<
    Seq<char>,
> {
    let name = seq![file_text(e.name@, e.is_dir)];
    let with_git = if opts.git {
        name.push(git_text(e, opts))
    } else {
        name
    };
    let base = with_git + seq![
        permissions_text(e.mode as nat),
        time_text(e.age_secs as nat),
        user_text(user),
    ];
    if opts.size {
        base.push(size_text(e.size as nat))
    } else {
        base
    }
}

/// Builds the column titles of the detailed table.
pub fn detailed_header(opts: &CommandOptions) -> (r: Vec<String>)
    ensures
        r@.map_values(|c: String| c@) == header_cells(*opts),
{
    let mut cells: Vec<String> = Vec::new();
    cells.push(format_table_header("Name", 90));
    if opts.git {
        cells.push(format_table_header("Git Status", 90));
    }
    cells.push(format_table_header("Permissions", 90));
    cells.push(format_table_header("Modified", 90));
    cells.push(format_table_header("User", 90));
    if opts.size {
        cells.push(format_table_header("Size", 90));
    }
    assert(cells@.map_values(|c: String| c@) =~= header_cells(*opts));
    cells
}

/// Builds the row of one entry, given the name found for its owner.
pub fn detailed_row(entry: &Entry, user_name: &Option<String>, opts: &CommandOptions) -> (r: Vec<
    String,
>)
    ensures
        r@.map_values(|c: String| c@) == row_cells(*entry, name_view(*user_name), *opts),
{
    let mut cells: Vec<String> = Vec::new();
    cells.push(format_file(entry));
    if opts.git {
        cells.push(format_git(entry, opts));
    }
    cells.push(format_permissions(entry.mode));
    cells.push(format_time(entry.age_secs));
    cells.push(format_user_label(user_name));
    if opts.size {
        cells.push(format_dir_size(entry.size));
    }
    assert(cells@.map_values(|c: String| c@) =~= row_cells(*entry, name_view(*user_name), *opts));
    cells
}

proof fn lemma_row_of_texts(cells: Seq<String>, texts: Seq<Seq<char>>)
    requires
        cells.map_values(|c: String| c@) == texts,
    ensures
        cells.map_values(|c: String| cell_text(c@)) == row_of(texts),
{
    assert forall|j: int| 0 <= j < cells.len() implies cells.map_values(
        |c: String| cell_text(c@),
    )[j] == row_of(texts)[j] by {
        assert(cells.map_values(|c: String| c@)[j] == texts[j]);
    }
    assert(cells.map_values(|c: String| cell_text(c@)) =~= row_of(texts));
}

/// Lays the shown entries out as a bordered table with a title row and one
/// row of metadata per entry, and counts them. The owner column holds
/// whatever name the host's user database gave for each entry.
pub fn print_files_detailed(entries: &Vec<Entry>, opts: &CommandOptions) -> (r: Listing)
    ensures
        r.count == visible(entries@, opts.show_hidden).len(),
        table_titles(r.table) == row_of(header_cells(*opts)),
        table_style(r.table) == detailed_style(),
        table_rows(r.table).len() == r.count,
        exists|users: Seq<Option<Seq<char>>>|
            users.len() == r.count && forall|j: int|
                0 <= j < r.count ==> #[trigger] table_rows(r.table)[j] == row_of(
                    row_cells(visible(entries@, opts.show_hidden)[j], users[j], *opts),
                ),
        r.footer@ == "Total: "@ + decimal(r.count as nat),
{
    let mut table = new_table();
    let style = TableStyle {
        column_separator: '\u{250a}',
        border: '\u{250a}',
        line: '\u{2504}',
        junction: '\u{2504}',
        left_junction: '\u{2756}',
        right_junction: '\u{2756}',
        padding_left: 1,
        padding_right: 1,
    };
    set_table_style(&mut table, &style);
    let header = detailed_header(opts);
    crate::table::set_table_titles(&mut table, &header);
    proof {
        lemma_row_of_texts(header@, header_cells(*opts));
    }
    let ghost mut users: Seq<Option<Seq<char>>> = Seq::empty();
    let mut count: usize = 0;
    let mut i: usize = 0;
    assert(entries@.take(0) =~= Seq::<Entry>::empty());
    while i < entries.len()
        invariant
            i <= entries@.len(),
            count <= i,
            count == visible(entries@.take(i as int), opts.show_hidden).len(),
            users.len() == count,
            table_rows(table).len() == count,
            forall|j: int|
                0 <= j < count ==> #[trigger] table_rows(table)[j] == row_of(
                    row_cells(visible(entries@.take(i as int), opts.show_hidden)[j], users[j], *opts),
                ),
            table_titles(table) == row_of(header_cells(*opts)),
            table_style(table) == detailed_style(),
        decreases entries@.len() - i,
    {
        let e = &entries[i];
        assert(entries@.take(i + 1).drop_last() =~= entries@.take(i as int));
        assert(entries@.take(i + 1).last() == *e);
        if opts.show_hidden || !is_hidden_file(e) {
            let ghost vis = visible(entries@.take(i as int), opts.show_hidden);
            let ghost rows = table_rows(table);
            let user_name = crate::formatter::lookup_user_name(e.uid);
            let cells = detailed_row(e, &user_name, opts);
            add_table_row(&mut table, &cells);
            proof {
                lemma_row_of_texts(cells@, row_cells(*e, name_view(user_name), *opts));
                users = users.push(name_view(user_name));
                let nvis = vis.push(*e);
                assert forall|j: int| 0 <= j < count + 1 implies #[trigger] table_rows(table)[j]
                    == row_of(row_cells(nvis[j], users[j], *opts)) by {
                    if j < count {
                        assert(table_rows(table)[j] == rows[j]);
                        assert(nvis[j] == vis[j]);
                    }
                }
            }
            count = count + 1;
        }
        i = i + 1;
    }
    assert(entries@.take(entries@.len() as int) =~= entries@);
    let mut footer = String::from_str("Total: ");
    let digits = decimal_string(count as u64);
    footer.append(digits.as_str());
    Listing { table, footer, count }
}

/// The detailed table's columns are fixed by the configuration alone: the
/// title row and every entry's row have the same number of cells, whatever
/// the entry and its owner; the last column is Size exactly when sizes are
/// shown, and otherwise User.
pub proof fn lemma_columns_fixed(e: Entry, user: Option<Seq<char>>, opts: CommandOptions)
    ensures
        header_cells(opts).len() == column_count(opts),
        row_cells(e, user, opts).len() == column_count(opts),
        opts.size ==> header_cells(opts).last() == styled(90, "Size"@) && row_cells(
            e,
            user,
            opts,
        ).last() == size_text(e.size as nat),
        !opts.size ==> header_cells(opts).last() == styled(90, "User"@) && row_cells(
            e,
            user,
            opts,
        ).last() == user_text(user),
{
}

} // verus!
