//! Height measurement of boxes.
//!
//! A paragraph occupies one text line: its height is the line height of
//! its resolved font size plus its vertical margins.  A cell is as tall
//! as its explicit height override, or the sum of its items; a row is as
//! tall as its tallest cell; a table is the sum of its row heights.
//!
//! Every accumulation step is clamped at [`HEIGHT_CEILING`]: a box can
//! never measure taller than the ceiling, which keeps all layout
//! arithmetic exact.  The ceiling is far taller than any page, so a
//! clamped box overflows a page exactly as the unclamped one would.

use vstd::prelude::*;

use crate::style::overlay;
use crate::style::ResolvedStyle;
use crate::table::BoxContent;
use crate::table::Cell;
use crate::table::CellItem;
use crate::table::Paragraph;
use crate::table::Row;
use crate::table::Table;

verus! {

/// No box measures taller than this many layout units.
pub const HEIGHT_CEILING: u64 = 0x1000_0000;

/// Clamp a height at the measurement ceiling.
pub open spec fn clamp_h(x: int) -> int {
    if x > HEIGHT_CEILING {
        HEIGHT_CEILING as int
    } else {
        x
    }
}

/// The line height rendered for a font size: the size plus half-size
/// leading.
pub open spec fn spec_line_height(s: int) -> int {
    s + s / 2
}

/// The line height rendered for a font size.
pub fn line_height(s: u32) -> (h: u64)
    ensures
        h == spec_line_height(s as int),
{
    s as u64 + s as u64 / 2
}

/// Height of one cell item inside a cell whose resolved style is
/// `cell_ctx`.
pub open spec fn spec_item_height(it: CellItem, cell_ctx: ResolvedStyle) -> int {
    match it {
        CellItem::Text(p) => clamp_h(
            p.margin_top + spec_line_height(overlay(p.style, cell_ctx).font_size as int)
                + p.margin_bottom,
        ),
        CellItem::Image(img) => clamp_h(img.display_h as int),
    }
}

/// Height of the first `k` items of a cell, accumulated with clamping.
pub open spec fn spec_items_height(items: Seq<CellItem>, k: int, cell_ctx: ResolvedStyle) -> int
    decreases k,
{
    if k <= 0 {
        0
    } else {
        clamp_h(spec_items_height(items, k - 1, cell_ctx) + spec_item_height(items[k - 1], cell_ctx))
    }
}

/// Height of a cell inside a table whose resolved style is `table_ctx`:
/// the explicit override if set, else the accumulated item heights.
pub open spec fn spec_cell_height(c: Cell, table_ctx: ResolvedStyle) -> int {
    match c.height {
        Some(h) => clamp_h(h as int),
        None => spec_items_height(c.items@, c.items@.len() as int, overlay(c.style, table_ctx)),
    }
}

/// Height of the tallest of the first `k` cells of a row.
pub open spec fn spec_row_height_upto(cells: Seq<Cell>, k: int, table_ctx: ResolvedStyle) -> int
    decreases k,
{
    if k <= 0 {
        0
    } else {
        let prev = spec_row_height_upto(cells, k - 1, table_ctx);
        let cur = spec_cell_height(cells[k - 1], table_ctx);
        if cur > prev {
            cur
        } else {
            prev
        }
    }
}

/// Height of a row: its tallest cell.
pub open spec fn spec_row_height(r: Row, table_ctx: ResolvedStyle) -> int {
    spec_row_height_upto(r.cells@, r.cells@.len() as int, table_ctx)
}

/// Height of the first `k` rows of a table, accumulated with clamping.
pub open spec fn spec_rows_height(rows: Seq<Row>, k: int, table_ctx: ResolvedStyle) -> int
    decreases k,
{
    if k <= 0 {
        0
    } else {
        clamp_h(spec_rows_height(rows, k - 1, table_ctx) + spec_row_height(rows[k - 1], table_ctx))
    }
}

/// Height of a table under the document defaults `base`: the sum of its
/// row heights.
pub open spec fn spec_table_height(t: Table, base: ResolvedStyle) -> int {
    spec_rows_height(t.rows@, t.rows@.len() as int, overlay(t.style, base))
}

/// Height of a free paragraph under the document defaults `base`.
pub open spec fn spec_paragraph_height(p: Paragraph, base: ResolvedStyle) -> int {
    clamp_h(p.margin_top + spec_line_height(overlay(p.style, base).font_size as int)
        + p.margin_bottom)
}

/// Height of a content box under the document defaults `base`.
pub open spec fn spec_content_height(b: BoxContent, base: ResolvedStyle) -> int {
    match b {
        BoxContent::Table(t) => spec_table_height(t, base),
        BoxContent::Paragraph(p) => spec_paragraph_height(p, base),
        BoxContent::Image(img) => clamp_h(img.display_h as int),
    }
}

/// Clamp an accumulated height at the ceiling.
pub fn clamp_height(x: u64) -> (r: u64)
    ensures
        r == clamp_h(x as int),
        r <= HEIGHT_CEILING,
{
    if x > HEIGHT_CEILING {
        HEIGHT_CEILING
    } else {
        x
    }
}

/// Measure one cell item.
pub fn measure_item(it: &CellItem, cell_ctx: &ResolvedStyle) -> (h: u64)
    ensures
        h == spec_item_height(*it, *cell_ctx),
        h <= HEIGHT_CEILING,
{
    match it {
        CellItem::Text(p) => {
            let size: u32 = match p.style.font_size {
                Some(s) => s,
                None => cell_ctx.font_size,
            };
            let raw: u64 = p.margin_top as u64 + line_height(size) + p.margin_bottom as u64;
            clamp_height(raw)
        },
        CellItem::Image(img) => clamp_height(img.display_h as u64),
    }
}

/// Measure a cell.
pub fn measure_cell(c: &Cell, table_ctx: &ResolvedStyle) -> (h: u64)
    ensures
        h == spec_cell_height(*c, *table_ctx),
        h <= HEIGHT_CEILING,
{
    match c.height {
        Some(h) => clamp_height(h as u64),
        None => {
            let cell_ctx = crate::style::resolved_style(&c.style, table_ctx);
            let mut acc: u64 = 0;
            let mut k: usize = 0;
            while k < c.items.len()
                invariant
                    k <= c.items@.len(),
                    cell_ctx == overlay(c.style, *table_ctx),
                    acc == spec_items_height(c.items@, k as int, cell_ctx),
                    acc <= HEIGHT_CEILING,
                decreases c.items@.len() - k,
            {
                let ih = measure_item(&c.items[k], &cell_ctx);
                acc = clamp_height(acc + ih);
                k = k + 1;
            }
            acc
        },
    }
}

/// Measure a row: its tallest cell.
pub fn measure_row(r: &Row, table_ctx: &ResolvedStyle) -> (h: u64)
    ensures
        h == spec_row_height(*r, *table_ctx),
        h <= HEIGHT_CEILING,
{
    let mut acc: u64 = 0;
    let mut k: usize = 0;
    while k < r.cells.len()
        invariant
            k <= r.cells@.len(),
            acc == spec_row_height_upto(r.cells@, k as int, *table_ctx),
            acc <= HEIGHT_CEILING,
        decreases r.cells@.len() - k,
    {
        let ch = measure_cell(&r.cells[k], table_ctx);
        if ch > acc {
            acc = ch;
        }
        k = k + 1;
    }
    acc
}

/// Measure a table under the document defaults.
pub fn measure_table(t: &Table, base: &ResolvedStyle) -> (h: u64)
    ensures
        h == spec_table_height(*t, *base),
        h <= HEIGHT_CEILING,
{
    let table_ctx = crate::style::resolved_style(&t.style, base);
    let mut acc: u64 = 0;
    let mut k: usize = 0;
    while k < t.rows.len()
        invariant
            k <= t.rows@.len(),
            table_ctx == overlay(t.style, *base),
            acc == spec_rows_height(t.rows@, k as int, table_ctx),
            acc <= HEIGHT_CEILING,
        decreases t.rows@.len() - k,
    {
        let rh = measure_row(&t.rows[k], &table_ctx);
        acc = clamp_height(acc + rh);
        k = k + 1;
    }
    acc
}

/// Measure a content box under the document defaults.
pub fn measure_content(b: &BoxContent, base: &ResolvedStyle) -> (h: u64)
    ensures
        h == spec_content_height(*b, *base),
        h <= HEIGHT_CEILING,
{
    match b {
        BoxContent::Table(t) => measure_table(t, base),
        BoxContent::Paragraph(p) => {
            let size: u32 = match p.style.font_size {
                Some(s) => s,
                None => base.font_size,
            };
            clamp_height(p.margin_top as u64 + line_height(size) + p.margin_bottom as u64)
        },
        BoxContent::Image(img) => clamp_height(img.display_h as u64),
    }
}

} // verus!
