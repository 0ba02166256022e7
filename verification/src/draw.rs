//! The draw-command stream: the engine's output.
//!
//! A finished document is serialized into an ordered sequence of draw
//! commands — page starts, cell frames, text runs, image placements —
//! plus embedded resources.  An external byte-format encoder turns the
//! stream into the final artifact; the stream itself is a pure function
//! of the finished document, so serialization is deterministic.
//!
//! Coordinates are in layout units from the top-left page corner.

use vstd::prelude::*;

use crate::style::BorderSpec;
use crate::style::ResolvedStyle;
use crate::style::overlay;
use crate::table::BoxContent;
use crate::table::Cell;
use crate::table::CellItem;
use crate::table::Paragraph;
use crate::table::Row;
use crate::table::Table;
use crate::table::weights_wf;
use crate::measure::spec_items_height;
use crate::measure::spec_rows_height;
use crate::measure::spec_row_height;
use crate::measure::HEIGHT_CEILING;
use vstd::arithmetic::div_mod::lemma_div_is_ordered;
use vstd::arithmetic::div_mod::lemma_div_multiples_vanish;
use vstd::arithmetic::mul::lemma_mul_inequality;
use vstd::arithmetic::mul::lemma_mul_is_commutative;

verus! {

/// Positions handed to the emitters stay far below the arithmetic range:
/// every coordinate accumulation below stays exact.
pub const POS_LIMIT: u128 = 0x1_0000_0000_0000_0000_0000_0000_0000;

/// One drawing instruction for the external encoder.
#[derive(Debug, Clone, PartialEq, Eq)]
pub enum DrawCmd {
    /// Open a new page of the given size.
    BeginPage { width: u32, height: u32 },
    /// The frame of a table cell: its rectangle and its four borders.
    CellFrame {
        x: u64,
        y: u64,
        width: u64,
        height: u64,
        border_top: BorderSpec,
        border_right: BorderSpec,
        border_bottom: BorderSpec,
        border_left: BorderSpec,
    },
    /// One line of text in a fully resolved style.
    TextRun { x: u64, y: u64, style: ResolvedStyle, text: String },
    /// An image placement referencing an embedded resource.
    ImageDraw { x: u64, y: u64, width: u64, height: u32, resource: usize },
}

/// The mathematical value of a draw command.
pub enum DrawView {
    BeginPage { width: u32, height: u32 },
    CellFrame {
        x: u64,
        y: u64,
        width: u64,
        height: u64,
        border_top: BorderSpec,
        border_right: BorderSpec,
        border_bottom: BorderSpec,
        border_left: BorderSpec,
    },
    TextRun { x: u64, y: u64, style: ResolvedStyle, text: Seq<char> },
    ImageDraw { x: u64, y: u64, width: u64, height: u32, resource: usize },
}

impl View for DrawCmd {
    type V = DrawView;

    open spec fn view(&self) -> DrawView {
        match self {
            DrawCmd::BeginPage { width, height } => DrawView::BeginPage {
                width: *width,
                height: *height,
            },
            DrawCmd::CellFrame {
                x,
                y,
                width,
                height,
                border_top,
                border_right,
                border_bottom,
                border_left,
            } => DrawView::CellFrame {
                x: *x,
                y: *y,
                width: *width,
                height: *height,
                border_top: *border_top,
                border_right: *border_right,
                border_bottom: *border_bottom,
                border_left: *border_left,
            },
            DrawCmd::TextRun { x, y, style, text } => DrawView::TextRun {
                x: *x,
                y: *y,
                style: *style,
                text: text@,
            },
            DrawCmd::ImageDraw { x, y, width, height, resource } => DrawView::ImageDraw {
                x: *x,
                y: *y,
                width: *width,
                height: *height,
                resource: *resource,
            },
        }
    }
}

/// The views of a command sequence.
pub open spec fn views_of(s: Seq<DrawCmd>) -> Seq<DrawView> {
    s.map_values(|c: DrawCmd| c@)
}

/// The sum of the first `k` column weights.
pub open spec fn weight_sum(ws: Seq<u32>, k: int) -> int
    decreases k,
{
    if k <= 0 {
        0
    } else {
        weight_sum(ws, k - 1) + ws[k - 1]
    }
}

/// The width of column `j`: its weight's share of the available width,
/// rounded down.
pub open spec fn spec_col_width(ws: Seq<u32>, avail: int, j: int) -> int {
    (avail * ws[j]) / weight_sum(ws, ws.len() as int)
}

/// The x offset of column `j` from the table's left edge.
pub open spec fn spec_col_x(ws: Seq<u32>, avail: int, j: int) -> int
    decreases j,
{
    if j <= 0 {
        0
    } else {
        spec_col_x(ws, avail, j - 1) + spec_col_width(ws, avail, j - 1)
    }
}

/// The total of a non-empty prefix of positive weights is positive.
proof fn lemma_weight_sum_pos(ws: Seq<u32>, k: int)
    requires
        weights_wf(ws),
        1 <= k <= ws.len(),
    ensures
        weight_sum(ws, k) >= 1,
    decreases k,
{
    assert(ws[k - 1] > 0);
    assert(weight_sum(ws, k) == weight_sum(ws, k - 1) + ws[k - 1]);
    if k > 1 {
        lemma_weight_sum_pos(ws, k - 1);
    } else {
        assert(weight_sum(ws, k - 1) == 0);
    }
}

/// Weight sums only grow along the prefix.
proof fn lemma_weight_sum_mono(ws: Seq<u32>, a: int, b: int)
    requires
        0 <= a <= b <= ws.len(),
    ensures
        weight_sum(ws, a) <= weight_sum(ws, b),
    decreases b - a,
{
    if a < b {
        lemma_weight_sum_mono(ws, a, b - 1);
    }
}

/// Each weight is at most the total.
proof fn lemma_weight_le_sum(ws: Seq<u32>, j: int)
    requires
        0 <= j < ws.len(),
    ensures
        ws[j] <= weight_sum(ws, ws.len() as int),
    decreases ws.len() - j,
{
    lemma_weight_sum_mono(ws, 0, j);
    lemma_weight_sum_mono(ws, j + 1, ws.len() as int);
}

/// No column is wider than the available width.
proof fn lemma_col_width_bounds(ws: Seq<u32>, avail: int, j: int)
    requires
        weights_wf(ws),
        avail >= 0,
        0 <= j < ws.len(),
    ensures
        0 <= spec_col_width(ws, avail, j) <= avail,
{
    let total = weight_sum(ws, ws.len() as int);
    lemma_weight_sum_pos(ws, ws.len() as int);
    lemma_weight_le_sum(ws, j);
    lemma_mul_inequality(ws[j] as int, total, avail);
    lemma_mul_is_commutative(avail, ws[j] as int);
    lemma_mul_is_commutative(avail, total);
    lemma_div_is_ordered(avail * ws[j], avail * total, total);
    lemma_div_multiples_vanish(avail, total);
    vstd::arithmetic::div_mod::lemma_div_pos_is_pos(avail * ws[j], total);
    vstd::arithmetic::mul::lemma_mul_nonnegative(avail, ws[j] as int);
}

/// A column's left offset is bounded by the columns before it.
proof fn lemma_col_x_bounds(ws: Seq<u32>, avail: int, j: int)
    requires
        weights_wf(ws),
        avail >= 0,
        0 <= j <= ws.len(),
    ensures
        0 <= spec_col_x(ws, avail, j) <= j * avail,
    decreases j,
{
    if j > 0 {
        lemma_col_x_bounds(ws, avail, j - 1);
        lemma_col_width_bounds(ws, avail, j - 1);
        assert(j * avail == (j - 1) * avail + avail) by (nonlinear_arith);
    }
}

/// Compute every column width of a table from its weights and the
/// available width.
pub fn column_widths(ws: &Vec<u32>, avail: u64) -> (v: Vec<u64>)
    requires
        weights_wf(ws@),
        avail <= 0xffff_ffff,
    ensures
        v@.len() == ws@.len(),
        forall|j: int|
            0 <= j < ws@.len() ==> #[trigger] v@[j] == spec_col_width(ws@, avail as int, j),
        forall|j: int| 0 <= j < ws@.len() ==> #[trigger] v@[j] <= avail,
{
    let n = ws.len();
    let mut total: u128 = 0;
    let mut k: usize = 0;
    while k < n
        invariant
            n == ws@.len(),
            k <= n,
            total == weight_sum(ws@, k as int),
            total <= k as int * 0xffff_ffff,
        decreases n - k,
    {
        proof {
            assert((k as int + 1) * 0xffff_ffff == k as int * 0xffff_ffff + 0xffff_ffff)
                by (nonlinear_arith);
        }
        total = total + ws[k] as u128;
        k = k + 1;
    }
    proof {
        lemma_weight_sum_pos(ws@, n as int);
    }
    let mut v: Vec<u64> = Vec::new();
    let mut j: usize = 0;
    while j < n
        invariant
            n == ws@.len(),
            weights_wf(ws@),
            avail <= 0xffff_ffff,
            j <= n,
            total == weight_sum(ws@, n as int),
            total >= 1,
            v@.len() == j,
            forall|i: int|
                0 <= i < j ==> #[trigger] v@[i] == spec_col_width(ws@, avail as int, i),
            forall|i: int| 0 <= i < j ==> #[trigger] v@[i] <= avail,
        decreases n - j,
    {
        proof {
            vstd::arithmetic::mul::lemma_mul_upper_bound(
                avail as int,
                0xffff_ffff,
                ws@[j as int] as int,
                0xffff_ffff,
            );
        }
        let num: u128 = avail as u128 * ws[j] as u128;
        let q: u128 = num / total;
        proof {
            lemma_col_width_bounds(ws@, avail as int, j as int);
            vstd::arithmetic::div_mod::lemma_div_nonincreasing(num as int, total as int);
        }
        v.push(q as u64);
        j = j + 1;
    }
    v
}

/// The commands of one cell item placed at `(x, y)` inside a cell whose
/// resolved style is `cell_ctx`.
pub open spec fn spec_item_cmds(it: CellItem, x: int, y: int, cell_ctx: ResolvedStyle) -> Seq<
    DrawView,
> {
    match it {
        CellItem::Text(p) => seq![
            DrawView::TextRun {
                x: x as u64,
                y: (y + p.margin_top) as u64,
                style: overlay(p.style, cell_ctx),
                text: p.text@,
            },
        ],
        CellItem::Image(img) => seq![
            DrawView::ImageDraw {
                x: x as u64,
                y: y as u64,
                width: img.display_w,
                height: img.display_h,
                resource: img.resource,
            },
        ],
    }
}

/// The commands of the first `k` items of a cell, each item starting
/// where the previous items' accumulated height ends.
pub open spec fn spec_items_cmds(
    items: Seq<CellItem>,
    k: int,
    x: int,
    y: int,
    cell_ctx: ResolvedStyle,
) -> Seq<DrawView>
    decreases k,
{
    if k <= 0 {
        Seq::empty()
    } else {
        spec_items_cmds(items, k - 1, x, y, cell_ctx) + spec_item_cmds(
            items[k - 1],
            x,
            y + spec_items_height(items, k - 1, cell_ctx),
            cell_ctx,
        )
    }
}

/// The commands of one cell: its frame, then its content items.
pub open spec fn spec_cell_cmds(
    c: Cell,
    x: int,
    y: int,
    w: int,
    h: int,
    table_ctx: ResolvedStyle,
) -> Seq<DrawView> {
    seq![
        DrawView::CellFrame {
            x: x as u64,
            y: y as u64,
            width: w as u64,
            height: h as u64,
            border_top: c.border_top,
            border_right: c.border_right,
            border_bottom: c.border_bottom,
            border_left: c.border_left,
        },
    ] + spec_items_cmds(c.items@, c.items@.len() as int, x, y, overlay(c.style, table_ctx))
}

/// The commands of the first `j` cells of a row whose top edge is at
/// `y` and whose uniform height is `h`.
pub open spec fn spec_row_cmds(
    cells: Seq<Cell>,
    j: int,
    ws: Seq<u32>,
    avail: int,
    x0: int,
    y: int,
    h: int,
    table_ctx: ResolvedStyle,
) -> Seq<DrawView>
    decreases j,
{
    if j <= 0 {
        Seq::empty()
    } else {
        spec_row_cmds(cells, j - 1, ws, avail, x0, y, h, table_ctx) + spec_cell_cmds(
            cells[j - 1],
            x0 + spec_col_x(ws, avail, j - 1),
            y,
            spec_col_width(ws, avail, j - 1),
            h,
            table_ctx,
        )
    }
}

/// The commands of the first `i` rows of a table whose top edge is at
/// `y0`.
pub open spec fn spec_rows_cmds(
    rows: Seq<Row>,
    i: int,
    ws: Seq<u32>,
    avail: int,
    x0: int,
    y0: int,
    table_ctx: ResolvedStyle,
) -> Seq<DrawView>
    decreases i,
{
    if i <= 0 {
        Seq::empty()
    } else {
        spec_rows_cmds(rows, i - 1, ws, avail, x0, y0, table_ctx) + spec_row_cmds(
            rows[i - 1].cells@,
            rows[i - 1].cells@.len() as int,
            ws,
            avail,
            x0,
            y0 + spec_rows_height(rows, i - 1, table_ctx),
            spec_row_height(rows[i - 1], table_ctx),
            table_ctx,
        )
    }
}

/// The commands of a whole table at `(x0, y0)` spanning `avail` units.
pub open spec fn spec_table_cmds(
    t: Table,
    x0: int,
    y0: int,
    avail: int,
    base: ResolvedStyle,
) -> Seq<DrawView> {
    spec_rows_cmds(
        t.rows@,
        t.rows@.len() as int,
        t.weights@,
        avail,
        x0,
        y0,
        overlay(t.style, base),
    )
}

/// The commands of a free paragraph at `(x, y)`.
pub open spec fn spec_paragraph_cmds(p: Paragraph, x: int, y: int, base: ResolvedStyle) -> Seq<
    DrawView,
> {
    seq![
        DrawView::TextRun {
            x: x as u64,
            y: (y + p.margin_top) as u64,
            style: overlay(p.style, base),
            text: p.text@,
        },
    ]
}

/// The commands of a content box at `(x, y)` spanning `avail` units.
pub open spec fn spec_content_cmds(
    b: BoxContent,
    x: int,
    y: int,
    avail: int,
    base: ResolvedStyle,
) -> Seq<DrawView> {
    match b {
        BoxContent::Table(t) => spec_table_cmds(t, x, y, avail, base),
        BoxContent::Paragraph(p) => spec_paragraph_cmds(p, x, y, base),
        BoxContent::Image(img) => seq![
            DrawView::ImageDraw {
                x: x as u64,
                y: y as u64,
                width: img.display_w,
                height: img.display_h,
                resource: img.resource,
            },
        ],
    }
}

/// How many page starts a command sequence holds.
pub open spec fn begin_page_count(s: Seq<DrawView>) -> int
    decreases s.len(),
{
    if s.len() == 0 {
        0
    } else {
        begin_page_count(s.drop_last()) + if s.last() is BeginPage {
            1int
        } else {
            0int
        }
    }
}

/// The page-start count of a single command.
pub proof fn lemma_begin_page_count_single(v: DrawView)
    ensures
        begin_page_count(seq![v]) == if v is BeginPage {
            1int
        } else {
            0int
        },
{
    let s = seq![v];
    assert(s.drop_last() =~= Seq::<DrawView>::empty());
    assert(begin_page_count(Seq::<DrawView>::empty()) == 0);
    assert(s.last() == v);
}

/// Page starts count across concatenation.
pub proof fn lemma_begin_page_count_concat(a: Seq<DrawView>, b: Seq<DrawView>)
    ensures
        begin_page_count(a + b) == begin_page_count(a) + begin_page_count(b),
    decreases b.len(),
{
    if b.len() == 0 {
        assert(a + b =~= a);
    } else {
        lemma_begin_page_count_concat(a, b.drop_last());
        assert((a + b).drop_last() =~= a + b.drop_last());
        assert((a + b).last() == b.last());
    }
}

/// Box content opens no pages: the items of a cell hold no page start.
proof fn lemma_items_cmds_no_pages(items: Seq<CellItem>, k: int, x: int, y: int, ctx: ResolvedStyle)
    ensures
        begin_page_count(spec_items_cmds(items, k, x, y, ctx)) == 0,
    decreases k,
{
    if k > 0 {
        let prev = spec_items_cmds(items, k - 1, x, y, ctx);
        let item = spec_item_cmds(items[k - 1], x, y + spec_items_height(items, k - 1, ctx), ctx);
        lemma_items_cmds_no_pages(items, k - 1, x, y, ctx);
        match items[k - 1] {
            CellItem::Text(p) => {
                lemma_begin_page_count_single(
                    DrawView::TextRun {
                        x: x as u64,
                        y: (y + spec_items_height(items, k - 1, ctx) + p.margin_top) as u64,
                        style: overlay(p.style, ctx),
                        text: p.text@,
                    },
                );
            },
            CellItem::Image(img) => {
                lemma_begin_page_count_single(
                    DrawView::ImageDraw {
                        x: x as u64,
                        y: (y + spec_items_height(items, k - 1, ctx)) as u64,
                        width: img.display_w,
                        height: img.display_h,
                        resource: img.resource,
                    },
                );
            },
        }
        assert(begin_page_count(item) == 0);
        lemma_begin_page_count_concat(prev, item);
    }
}

/// A cell's commands hold no page start.
proof fn lemma_cell_cmds_no_pages(c: Cell, x: int, y: int, w: int, h: int, ctx: ResolvedStyle)
    ensures
        begin_page_count(spec_cell_cmds(c, x, y, w, h, ctx)) == 0,
{
    let frame = seq![
        DrawView::CellFrame {
            x: x as u64,
            y: y as u64,
            width: w as u64,
            height: h as u64,
            border_top: c.border_top,
            border_right: c.border_right,
            border_bottom: c.border_bottom,
            border_left: c.border_left,
        },
    ];
    let items = spec_items_cmds(c.items@, c.items@.len() as int, x, y, overlay(c.style, ctx));
    lemma_begin_page_count_single(frame[0]);
    assert(frame =~= seq![frame[0]]);
    assert(begin_page_count(frame) == 0);
    lemma_items_cmds_no_pages(c.items@, c.items@.len() as int, x, y, overlay(c.style, ctx));
    lemma_begin_page_count_concat(frame, items);
}

/// A row's commands hold no page start.
proof fn lemma_row_cmds_no_pages(
    cells: Seq<Cell>,
    j: int,
    ws: Seq<u32>,
    avail: int,
    x0: int,
    y: int,
    h: int,
    ctx: ResolvedStyle,
)
    ensures
        begin_page_count(spec_row_cmds(cells, j, ws, avail, x0, y, h, ctx)) == 0,
    decreases j,
{
    if j > 0 {
        lemma_row_cmds_no_pages(cells, j - 1, ws, avail, x0, y, h, ctx);
        lemma_cell_cmds_no_pages(
            cells[j - 1],
            x0 + spec_col_x(ws, avail, j - 1),
            y,
            spec_col_width(ws, avail, j - 1),
            h,
            ctx,
        );
        lemma_begin_page_count_concat(
            spec_row_cmds(cells, j - 1, ws, avail, x0, y, h, ctx),
            spec_cell_cmds(
                cells[j - 1],
                x0 + spec_col_x(ws, avail, j - 1),
                y,
                spec_col_width(ws, avail, j - 1),
                h,
                ctx,
            ),
        );
    }
}

/// A table's rows hold no page start.
proof fn lemma_rows_cmds_no_pages(
    rows: Seq<Row>,
    i: int,
    ws: Seq<u32>,
    avail: int,
    x0: int,
    y0: int,
    ctx: ResolvedStyle,
)
    ensures
        begin_page_count(spec_rows_cmds(rows, i, ws, avail, x0, y0, ctx)) == 0,
    decreases i,
{
    if i > 0 {
        lemma_rows_cmds_no_pages(rows, i - 1, ws, avail, x0, y0, ctx);
        lemma_row_cmds_no_pages(
            rows[i - 1].cells@,
            rows[i - 1].cells@.len() as int,
            ws,
            avail,
            x0,
            y0 + spec_rows_height(rows, i - 1, ctx),
            spec_row_height(rows[i - 1], ctx),
            ctx,
        );
        lemma_begin_page_count_concat(
            spec_rows_cmds(rows, i - 1, ws, avail, x0, y0, ctx),
            spec_row_cmds(
                rows[i - 1].cells@,
                rows[i - 1].cells@.len() as int,
                ws,
                avail,
                x0,
                y0 + spec_rows_height(rows, i - 1, ctx),
                spec_row_height(rows[i - 1], ctx),
                ctx,
            ),
        );
    }
}

/// A content box's commands hold no page start: pages are opened only by
/// the document-level pagination.
pub proof fn lemma_content_cmds_no_pages(
    b: BoxContent,
    x: int,
    y: int,
    avail: int,
    base: ResolvedStyle,
)
    ensures
        begin_page_count(spec_content_cmds(b, x, y, avail, base)) == 0,
{
    match b {
        BoxContent::Table(t) => {
            lemma_rows_cmds_no_pages(
                t.rows@,
                t.rows@.len() as int,
                t.weights@,
                avail,
                x,
                y,
                overlay(t.style, base),
            );
        },
        BoxContent::Paragraph(p) => {
            lemma_begin_page_count_single(
                DrawView::TextRun {
                    x: x as u64,
                    y: (y + p.margin_top) as u64,
                    style: overlay(p.style, base),
                    text: p.text@,
                },
            );
        },
        BoxContent::Image(img) => {
            lemma_begin_page_count_single(
                DrawView::ImageDraw {
                    x: x as u64,
                    y: y as u64,
                    width: img.display_w,
                    height: img.display_h,
                    resource: img.resource,
                },
            );
        },
    }
}

/// Emit the items of one cell.
fn emit_items(
    out: &mut Vec<DrawCmd>,
    items: &Vec<CellItem>,
    x: u128,
    y: u128,
    cell_ctx: &ResolvedStyle,
)
    requires
        x < POS_LIMIT,
        y < POS_LIMIT,
    ensures
        views_of(final(out)@) =~= views_of(old(out)@) + spec_items_cmds(
            items@,
            items@.len() as int,
            x as int,
            y as int,
            *cell_ctx,
        ),
{
    let mut k: usize = 0;
    let mut acc: u64 = 0;
    while k < items.len()
        invariant
            x < POS_LIMIT,
            y < POS_LIMIT,
            k <= items@.len(),
            acc == spec_items_height(items@, k as int, *cell_ctx),
            acc <= HEIGHT_CEILING,
            views_of(out@) =~= views_of(old(out)@) + spec_items_cmds(
                items@,
                k as int,
                x as int,
                y as int,
                *cell_ctx,
            ),
        decreases items@.len() - k,
    {
        let iy: u128 = y + acc as u128;
        let ghost prev = out@;
        let cmd: DrawCmd = match &items[k] {
            CellItem::Text(p) => {
                let style = crate::style::resolved_style(&p.style, cell_ctx);
                let ty: u128 = iy + p.margin_top as u128;
                DrawCmd::TextRun { x: x as u64, y: ty as u64, style, text: p.text.clone() }
            },
            CellItem::Image(img) => {
                DrawCmd::ImageDraw {
                    x: x as u64,
                    y: iy as u64,
                    width: img.display_w,
                    height: img.display_h,
                    resource: img.resource,
                }
            },
        };
        proof {
            assert(seq![cmd@] =~= spec_item_cmds(
                items@[k as int],
                x as int,
                y as int + spec_items_height(items@, k as int, *cell_ctx),
                *cell_ctx,
            ));
        }
        out.push(cmd);
        let ih = crate::measure::measure_item(&items[k], cell_ctx);
        acc = crate::measure::clamp_height(acc + ih);
        k = k + 1;
        proof {
            assert(views_of(out@) =~= views_of(prev).push(out@.last()@));
            assert(spec_items_cmds(items@, k as int, x as int, y as int, *cell_ctx)
                =~= spec_items_cmds(items@, k as int - 1, x as int, y as int, *cell_ctx)
                + spec_item_cmds(
                    items@[k as int - 1],
                    x as int,
                    y as int + spec_items_height(items@, k as int - 1, *cell_ctx),
                    *cell_ctx,
                ));
            assert(views_of(out@) =~= views_of(old(out)@) + spec_items_cmds(
                items@,
                k as int,
                x as int,
                y as int,
                *cell_ctx,
            ));
        }
    }
}

/// Emit one cell: its frame, then its items.
fn emit_cell(
    out: &mut Vec<DrawCmd>,
    c: &Cell,
    x: u128,
    y: u128,
    w: u64,
    h: u64,
    table_ctx: &ResolvedStyle,
)
    requires
        x < POS_LIMIT,
        y < POS_LIMIT,
    ensures
        views_of(final(out)@) =~= views_of(old(out)@) + spec_cell_cmds(
            *c,
            x as int,
            y as int,
            w as int,
            h as int,
            *table_ctx,
        ),
{
    out.push(
        DrawCmd::CellFrame {
            x: x as u64,
            y: y as u64,
            width: w,
            height: h,
            border_top: c.border_top,
            border_right: c.border_right,
            border_bottom: c.border_bottom,
            border_left: c.border_left,
        },
    );
    let cell_ctx = crate::style::resolved_style(&c.style, table_ctx);
    emit_items(out, &c.items, x, y, &cell_ctx);
}

/// Emit a whole table at `(x0, y0)` spanning `avail` units of width.
pub fn emit_table(
    out: &mut Vec<DrawCmd>,
    t: &Table,
    x0: u128,
    y0: u128,
    avail: u64,
    base: &ResolvedStyle,
)
    requires
        t.wf(),
        t.complete(),
        avail <= 0xffff_ffff,
        x0 < POS_LIMIT / 2,
        y0 < POS_LIMIT / 2,
    ensures
        views_of(final(out)@) =~= views_of(old(out)@) + spec_table_cmds(
            *t,
            x0 as int,
            y0 as int,
            avail as int,
            *base,
        ),
{
    let table_ctx = crate::style::resolved_style(&t.style, base);
    let widths = column_widths(&t.weights, avail);
    let mut i: usize = 0;
    let mut yacc: u64 = 0;
    while i < t.rows.len()
        invariant
            t.wf(),
            t.complete(),
            avail <= 0xffff_ffff,
            x0 < POS_LIMIT / 2,
            y0 < POS_LIMIT / 2,
            i <= t.rows@.len(),
            widths@.len() == t.weights@.len(),
            forall|j: int|
                0 <= j < t.weights@.len() ==> #[trigger] widths@[j] == spec_col_width(
                    t.weights@,
                    avail as int,
                    j,
                ),
            forall|j: int| 0 <= j < t.weights@.len() ==> #[trigger] widths@[j] <= avail,
            table_ctx == overlay(t.style, *base),
            yacc == spec_rows_height(t.rows@, i as int, table_ctx),
            yacc <= HEIGHT_CEILING,
            views_of(out@) =~= views_of(old(out)@) + spec_rows_cmds(
                t.rows@,
                i as int,
                t.weights@,
                avail as int,
                x0 as int,
                y0 as int,
                table_ctx,
            ),
        decreases t.rows@.len() - i,
    {
        let rh = crate::measure::measure_row(&t.rows[i], &table_ctx);
        let ry: u128 = y0 + yacc as u128;
        let ncells = t.rows[i].cells.len();
        let mut j: usize = 0;
        let mut xacc: u128 = 0;
        while j < ncells
            invariant
                t.wf(),
                t.complete(),
                avail <= 0xffff_ffff,
                x0 < POS_LIMIT / 2,
                y0 < POS_LIMIT / 2,
                i < t.rows@.len(),
                ncells == t.rows@[i as int].cells@.len(),
                ncells == t.weights@.len(),
                j <= ncells,
                widths@.len() == t.weights@.len(),
                forall|jj: int|
                    0 <= jj < t.weights@.len() ==> #[trigger] widths@[jj] == spec_col_width(
                        t.weights@,
                        avail as int,
                        jj,
                    ),
                forall|jj: int| 0 <= jj < t.weights@.len() ==> #[trigger] widths@[jj] <= avail,
                table_ctx == overlay(t.style, *base),
                xacc == spec_col_x(t.weights@, avail as int, j as int),
                xacc <= j as int * avail as int,
                rh == spec_row_height(t.rows@[i as int], table_ctx),
                ry == y0 + spec_rows_height(t.rows@, i as int, table_ctx),
                ry < POS_LIMIT,
                views_of(out@) =~= views_of(old(out)@) + spec_rows_cmds(
                    t.rows@,
                    i as int,
                    t.weights@,
                    avail as int,
                    x0 as int,
                    y0 as int,
                    table_ctx,
                ) + spec_row_cmds(
                    t.rows@[i as int].cells@,
                    j as int,
                    t.weights@,
                    avail as int,
                    x0 as int,
                    ry as int,
                    rh as int,
                    table_ctx,
                ),
            decreases ncells - j,
        {
            proof {
                lemma_col_x_bounds(t.weights@, avail as int, j as int);
                assert(j as int * avail as int <= 0xffff_ffff_ffff_ffff * 0x1_0000_0000)
                    by (nonlinear_arith)
                    requires
                        0 <= j as int <= 0xffff_ffff_ffff_ffff,
                        0 <= avail as int <= 0x1_0000_0000,
                ;
            }
            let w: u64 = widths[j];
            emit_cell(out, &t.rows[i].cells[j], x0 + xacc, ry, w, rh, &table_ctx);
            proof {
                assert((j as int + 1) * avail as int == j as int * avail as int + avail as int)
                    by (nonlinear_arith);
            }
            xacc = xacc + w as u128;
            j = j + 1;
        }
        yacc = crate::measure::clamp_height(yacc + rh);
        i = i + 1;
        proof {
            assert(views_of(out@) =~= views_of(old(out)@) + spec_rows_cmds(
                t.rows@,
                i as int,
                t.weights@,
                avail as int,
                x0 as int,
                y0 as int,
                table_ctx,
            ));
        }
    }
}

/// Emit a content box at `(x, y)` spanning `avail` units of width.
pub fn emit_content(
    out: &mut Vec<DrawCmd>,
    b: &BoxContent,
    x: u128,
    y: u128,
    avail: u64,
    base: &ResolvedStyle,
)
    requires
        b matches BoxContent::Table(t) ==> t.wf() && t.complete(),
        avail <= 0xffff_ffff,
        x < POS_LIMIT / 2,
        y < POS_LIMIT / 2,
    ensures
        views_of(final(out)@) =~= views_of(old(out)@) + spec_content_cmds(
            *b,
            x as int,
            y as int,
            avail as int,
            *base,
        ),
{
    match b {
        BoxContent::Table(t) => emit_table(out, t, x, y, avail, base),
        BoxContent::Paragraph(p) => {
            let style = crate::style::resolved_style(&p.style, base);
            let ty: u128 = y + p.margin_top as u128;
            out.push(DrawCmd::TextRun { x: x as u64, y: ty as u64, style, text: p.text.clone() });
        },
        BoxContent::Image(img) => {
            out.push(
                DrawCmd::ImageDraw {
                    x: x as u64,
                    y: y as u64,
                    width: img.display_w,
                    height: img.display_h,
                    resource: img.resource,
                },
            );
        },
    }
}

} // verus!
