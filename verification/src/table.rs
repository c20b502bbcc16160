//! The table builder: a flat sequence of cells laid out as a grid.

use vstd::arithmetic::div_mod::lemma_fundamental_div_mod_converse;
use vstd::prelude::*;
use crate::markup::{attribute, element, plain, Attribute, Markup, MarkupNode};

verus! {

/// How many rows `len` cells fill at `width` cells a row: full rows, and one
/// more for what is left over.
pub open spec fn row_count(len: nat, width: nat) -> nat
    recommends
        width >= 1,
{
    if len % width == 0 {
        len / width
    } else {
        len / width + 1
    }
}

/// Where row `i` ends among the cells.
pub open spec fn row_end(len: nat, width: nat, i: int) -> int {
    if (i + 1) * width <= len {
        (i + 1) * width
    } else {
        len as int
    }
}

/// Row `i` of the grid: the cells from `i * width` on, `width` of them or as
/// many as are left.
pub open spec fn table_row(cells: Seq<Seq<char>>, width: nat, i: int) -> Seq<Seq<char>> {
    cells.subrange(i * width, row_end(cells.len(), width, i))
}

/// The cells in rows of `width`, in row-major order; the last row is shorter
/// where the cells do not fill it.
pub open spec fn table_rows(cells: Seq<Seq<char>>, width: nat) -> Seq<Seq<Seq<char>>>
    recommends
        width >= 1,
{
    Seq::new(row_count(cells.len(), width), |i: int| table_row(cells, width, i))
}

/// A cell of a table: `th` for the first of its row, `td` for the others.
pub open spec fn cell_markup(column: int, content: Seq<char>) -> Markup {
    element(
        if column == 0 {
            "th"@
        } else {
            "td"@
        },
        seq![attribute("scope"@, "col"@)],
        seq![Markup::Text(content)],
    )
}

/// The cells of one row.
pub open spec fn row_cells(row: Seq<Seq<char>>) -> Seq<Markup> {
    Seq::new(row.len(), |j: int| cell_markup(j, row[j]))
}

/// One row of a table.
pub open spec fn row_markup(row: Seq<Seq<char>>) -> Markup {
    plain("tr"@, row_cells(row))
}

/// The rows of a table's body.
pub open spec fn body_rows(cells: Seq<Seq<char>>, width: nat) -> Seq<Markup> {
    table_rows(cells, width).map_values(|row: Seq<Seq<char>>| row_markup(row))
}

/// The body of a table.
pub open spec fn table_body(cells: Seq<Seq<char>>, width: nat) -> Markup {
    plain("tbody"@, body_rows(cells, width))
}

/// A table: a header row where `header` is not empty, then the body.
pub open spec fn table_markup(header: Seq<Seq<char>>, cells: Seq<Seq<char>>, width: nat) -> Markup {
    element(
        "table"@,
        seq![attribute("class"@, "table table-sm table-striped font-monospace"@)],
        if header.len() > 0 {
            seq![plain("thead"@, seq![row_markup(header)]), table_body(cells, width)]
        } else {
            seq![table_body(cells, width)]
        },
    )
}

/// Cells that fill `k` rows and `r` cells more, `r` between 1 and `width`,
/// make `k + 1` rows.
pub proof fn lemma_row_count(len: nat, width: nat, k: nat, r: nat)
    requires
        width >= 1,
        len == k * width + r,
        0 < r <= width,
    ensures
        row_count(len, width) == k + 1,
{
    if r == width {
        assert(len == (k + 1) * width + 0) by (nonlinear_arith)
            requires
                len == k * width + r,
                r == width,
        ;
        lemma_fundamental_div_mod_converse(len as int, width as int, k as int + 1, 0);
    } else {
        lemma_fundamental_div_mod_converse(len as int, width as int, k as int, r as int);
    }
}

/// Table chunking: cells that fill `k` rows and leave `r` over, with
/// `0 < r < width`, are laid out in `k + 1` rows. Each of the first `k` has
/// `width` cells and the last has the `r` that were left: no row is dropped
/// and none is merged into another. A table without a header is its body
/// alone, so these are all its rows.
pub proof fn lemma_table_chunking(cells: Seq<Seq<char>>, width: nat, k: nat, r: nat)
    requires
        width >= 1,
        cells.len() == k * width + r,
        0 < r < width,
    ensures
        table_rows(cells, width).len() == k + 1,
        forall|i: int| 0 <= i < k ==> (#[trigger] table_rows(cells, width)[i]).len() == width,
        table_rows(cells, width).last() == cells.subrange((k * width) as int, cells.len() as int),
        table_rows(cells, width).last().len() == r,
        table_markup(Seq::empty(), cells, width).children() == seq![table_body(cells, width)],
        table_body(cells, width).children().len() == k + 1,
        table_body(cells, width).children().last().children().len() == r,
{
    lemma_row_count(cells.len(), width, k, r);
    let rows = table_rows(cells, width);
    assert forall|i: int| 0 <= i < k implies (#[trigger] rows[i]).len() == width by {
        assert((i + 1) * width <= k * width) by (nonlinear_arith)
            requires
                i + 1 <= k,
                width >= 1,
        ;
        assert((i + 1) * width == i * width + width) by (nonlinear_arith);
        assert(0 <= i * width) by (nonlinear_arith)
            requires
                0 <= i,
                width >= 1,
        ;
    }
    assert((k + 1) * width > cells.len()) by (nonlinear_arith)
        requires
            cells.len() == k * width + r,
            r < width,
    ;
    assert(0 <= k * width) by (nonlinear_arith);
}

/// Every cell stands in the grid, at the row and column that row-major
/// order gives it.
pub proof fn lemma_table_rows_hold_every_cell(cells: Seq<Seq<char>>, width: nat, j: int)
    requires
        width >= 1,
        0 <= j < cells.len(),
    ensures
        0 <= j / (width as int) < table_rows(cells, width).len(),
        0 <= j % (width as int) < table_rows(cells, width)[j / (width as int)].len(),
        table_rows(cells, width)[j / (width as int)][j % (width as int)] == cells[j],
{
    let w: int = width as int;
    let len: int = cells.len() as int;
    let q: int = j / w;
    let m: int = j % w;
    assert(j == w * q + m && 0 <= m < w) by {
        vstd::arithmetic::div_mod::lemma_fundamental_div_mod(j, w);
    }
    assert(0 <= q) by (nonlinear_arith)
        requires
            j == w * q + m,
            0 <= j,
            m < w,
            w >= 1,
    ;
    let full: int = len / w;
    let rest: int = len % w;
    assert(len == w * full + rest && 0 <= rest < w) by {
        vstd::arithmetic::div_mod::lemma_fundamental_div_mod(len, w);
    }
    assert(q < row_count(cells.len(), width)) by (nonlinear_arith)
        requires
            j == w * q + m,
            len == w * full + rest,
            0 <= m < w,
            0 <= rest < w,
            j < len,
            row_count(cells.len(), width) == (if rest == 0 {
                full
            } else {
                full + 1
            }),
    ;
    assert(q * w == w * q) by (nonlinear_arith);
    assert((q + 1) * w == w * q + w) by (nonlinear_arith);
}

/// A row sets each attribute of each of its cells once.
pub proof fn lemma_row_well_formed(row: Seq<Seq<char>>)
    ensures
        row_markup(row).well_formed(),
{
    reveal_with_fuel(Markup::well_formed, 3);
}

/// A table sets each attribute of each of its elements once.
pub proof fn lemma_table_well_formed(header: Seq<Seq<char>>, cells: Seq<Seq<char>>, width: nat)
    ensures
        table_markup(header, cells, width).well_formed(),
{
    reveal_with_fuel(Markup::well_formed, 3);
    let body = table_body(cells, width);
    assert(body.well_formed()) by {
        assert forall|i: int| 0 <= i < body_rows(cells, width).len() implies (#[trigger] body_rows(
            cells,
            width,
        )[i]).well_formed() by {
            lemma_row_well_formed(table_rows(cells, width)[i]);
        }
    }
    if header.len() > 0 {
        lemma_row_well_formed(header);
    }
}

/// Builds one row from the cells `from..to`.
fn build_row(cells: &Vec<&str>, from: usize, to: usize) -> (row: MarkupNode)
    requires
        from <= to <= cells.len(),
    ensures
        row@ == row_markup(cells.deep_view().subrange(from as int, to as int)),
{
    let ghost wanted = cells.deep_view().subrange(from as int, to as int);
    let mut out: Vec<MarkupNode> = Vec::new();
    let mut j: usize = from;
    while j < to
        invariant
            from <= j <= to <= cells.len(),
            wanted == cells.deep_view().subrange(from as int, to as int),
            out.deep_view() == row_cells(wanted).take(j - from),
        decreases to - j,
    {
        let tag = if j == from {
            "th"
        } else {
            "td"
        };
        let mut attrs: Vec<Attribute> = Vec::new();
        attrs.push(Attribute::new("scope", "col"));
        let mut content: Vec<MarkupNode> = Vec::new();
        content.push(MarkupNode::text(cells[j]));
        let cell = MarkupNode::element(tag, attrs, content);
        let ghost before = out.deep_view();
        out.push(cell);
        proof {
            assert(attrs.deep_view() =~= seq![attribute("scope"@, "col"@)]);
            assert(content.deep_view() =~= seq![Markup::Text(cells[j as int]@)]);
            assert(out.deep_view() =~= before.push(cell@));
        }
        j = j + 1;
    }
    assert(out.deep_view() =~= row_cells(wanted));
    MarkupNode::plain("tr", out)
}

/// Builds the body of a table from its cells.
fn build_table_body(cells: &Vec<&str>, width: usize) -> (body: MarkupNode)
    requires
        width >= 1,
    ensures
        body@ == table_body(cells.deep_view(), width as nat),
{
    let ghost all = cells.deep_view();
    let ghost w: nat = width as nat;
    let len: usize = cells.len();
    let mut rows: Vec<MarkupNode> = Vec::new();
    let mut start: usize = 0;
    proof {
        if len == 0 {
            assert(row_count(0, w) == 0) by {
                lemma_fundamental_div_mod_converse(0, w as int, 0, 0);
            }
        }
        assert(rows.len() * w == 0) by (nonlinear_arith)
            requires
                rows.len() == 0,
        ;
    }
    while start < len
        invariant
            width >= 1,
            w == width,
            len == cells.len(),
            all == cells.deep_view(),
            start <= len,
            start < len ==> start == rows.len() * w,
            start == len ==> rows.len() == row_count(all.len(), w),
            rows.len() <= row_count(all.len(), w),
            rows.deep_view() == body_rows(all, w).take(rows.len() as int),
        decreases len - start,
    {
        let ghost k: nat = rows.len() as nat;
        let end: usize = if len - start <= width {
            len
        } else {
            start + width
        };
        let row = build_row(cells, start, end);
        rows.push(row);
        proof {
            assert((k + 1) * w == k * w + w) by (nonlinear_arith);
            if end == len {
                lemma_row_count(all.len(), w, k, (len - start) as nat);
            } else {
                let rest: nat = (len - end) as nat;
                let full: nat = all.len() / w;
                let left: nat = all.len() % w;
                assert(all.len() == w * full + left && 0 <= left < w) by {
                    vstd::arithmetic::div_mod::lemma_fundamental_div_mod(all.len() as int, w as int);
                }
                assert(k + 1 <= full) by (nonlinear_arith)
                    requires
                        all.len() == (k + 1) * w + rest,
                        all.len() == w * full + left,
                        0 <= left < w,
                        rest > 0,
                        w >= 1,
                ;
            }
        }
        start = end;
    }
    assert(rows.deep_view() =~= body_rows(all, w));
    MarkupNode::plain("tbody", rows)
}

/// Builds a table: a header row where `header` is not empty, and the cells
/// in rows of `width`. The first cell of every row is a row-header cell.
/// The last row holds what the cells leave over where they do not fill it.
pub fn build_table(header: &Vec<&str>, cells: &Vec<&str>, width: usize) -> (table: MarkupNode)
    requires
        width >= 1,
    ensures
        table@ == table_markup(header.deep_view(), cells.deep_view(), width as nat),
{
    let mut attrs: Vec<Attribute> = Vec::new();
    attrs.push(Attribute::new("class", "table table-sm table-striped font-monospace"));
    let mut parts: Vec<MarkupNode> = Vec::new();
    if header.len() > 0 {
        let row = build_row(header, 0, header.len());
        assert(header.deep_view().subrange(0, header.len() as int) =~= header.deep_view());
        let mut head: Vec<MarkupNode> = Vec::new();
        head.push(row);
        assert(head.deep_view() =~= seq![row_markup(header.deep_view())]);
        parts.push(MarkupNode::plain("thead", head));
    }
    let body = build_table_body(cells, width);
    parts.push(body);
    proof {
        assert(attrs.deep_view() =~= seq![
            attribute("class"@, "table table-sm table-striped font-monospace"@),
        ]);
        if header.len() > 0 {
            assert(parts.deep_view() =~= seq![
                plain("thead"@, seq![row_markup(header.deep_view())]),
                table_body(cells.deep_view(), width as nat),
            ]);
        } else {
            assert(parts.deep_view() =~= seq![table_body(cells.deep_view(), width as nat)]);
        }
    }
    MarkupNode::element("table", attrs, parts)
}

} // verus!
