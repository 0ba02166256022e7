//! The box model: paragraphs, cells, rows and weighted-column tables.
//!
//! A table is created open, filled row by row, and finalized exactly once.
//! Finalization pads every incomplete row with empty unbordered cells so
//! that the grid is complete — each row holds exactly one cell per column
//! weight — and seals the table: any later mutation fails with
//! `ImmutableBoxError`.

use vstd::prelude::*;

use crate::error::Error;
use crate::geometry::FixedPos;
use crate::image::ImageBox;
use crate::style::BorderSpec;
use crate::style::StyleSet;
use crate::style::TextAlign;
use crate::color::Rgb;
use vstd::string::StringExecFns;

verus! {

/// How a fixed-position box is repeated across pages.
#[derive(Debug, Clone, Copy, PartialEq, Eq, Structural)]
pub enum FixedScope {
    /// Re-rendered identically on every page (footers).
    EveryPage,
    /// Placed only on the page holding the final flowed content (totals).
    FinalPage,
}

/// A single line of text with sparse style overrides and optional
/// vertical margins.
#[derive(Debug, Clone, PartialEq, Eq)]
pub struct Paragraph {
    pub text: String,
    pub style: StyleSet,
    pub margin_top: u32,
    pub margin_bottom: u32,
}

/// Content a cell can hold.
#[derive(Debug, Clone, PartialEq, Eq)]
pub enum CellItem {
    Text(Paragraph),
    Image(ImageBox),
}

/// A table cell: per-edge borders, sparse style, an optional explicit
/// height, and its content items.
#[derive(Debug, Clone, PartialEq, Eq)]
pub struct Cell {
    pub style: StyleSet,
    pub border_top: BorderSpec,
    pub border_right: BorderSpec,
    pub border_bottom: BorderSpec,
    pub border_left: BorderSpec,
    pub height: Option<u32>,
    pub items: Vec<CellItem>,
}

/// One table row.
#[derive(Debug, Clone, PartialEq, Eq)]
pub struct Row {
    pub cells: Vec<Cell>,
}

/// A table with relative column weights.
#[derive(Debug, Clone, PartialEq, Eq)]
pub struct Table {
    pub weights: Vec<u32>,
    pub style: StyleSet,
    pub fixed: Option<(FixedPos, FixedScope)>,
    pub sealed: bool,
    pub rows: Vec<Row>,
}

impl Paragraph {
    /// A paragraph of the given text with no explicit style.
    pub fn new_with_text(text: &str) -> (p: Paragraph)
        ensures
            p.text@ == text@,
            p.style == StyleSet::spec_empty(),
            p.margin_top == 0,
            p.margin_bottom == 0,
    {
        Paragraph {
            text: text.to_owned(),
            style: StyleSet::empty(),
            margin_top: 0,
            margin_bottom: 0,
        }
    }

    /// A paragraph owning the given text, with no explicit style.
    pub fn from_string(text: String) -> (p: Paragraph)
        ensures
            p.text == text,
            p.style == StyleSet::spec_empty(),
            p.margin_top == 0,
            p.margin_bottom == 0,
    {
        Paragraph { text, style: StyleSet::empty(), margin_top: 0, margin_bottom: 0 }
    }

    pub fn set_bold(&mut self)
        ensures
            final(self).style == (StyleSet { bold: Some(true), ..old(self).style }),
            final(self).text == old(self).text,
            final(self).margin_top == old(self).margin_top,
            final(self).margin_bottom == old(self).margin_bottom,
    {
        self.style.bold = Some(true);
    }

    pub fn set_italic(&mut self)
        ensures
            final(self).style == (StyleSet { italic: Some(true), ..old(self).style }),
            final(self).text == old(self).text,
            final(self).margin_top == old(self).margin_top,
            final(self).margin_bottom == old(self).margin_bottom,
    {
        self.style.italic = Some(true);
    }

    pub fn set_font_size(&mut self, size: u32)
        ensures
            final(self).style == (StyleSet { font_size: Some(size), ..old(self).style }),
            final(self).text == old(self).text,
            final(self).margin_top == old(self).margin_top,
            final(self).margin_bottom == old(self).margin_bottom,
    {
        self.style.font_size = Some(size);
    }

    pub fn set_font_color(&mut self, color: Rgb)
        ensures
            final(self).style == (StyleSet { font_color: Some(color), ..old(self).style }),
            final(self).text == old(self).text,
            final(self).margin_top == old(self).margin_top,
            final(self).margin_bottom == old(self).margin_bottom,
    {
        self.style.font_color = Some(color);
    }

    pub fn set_text_alignment(&mut self, align: TextAlign)
        ensures
            final(self).style == (StyleSet { align: Some(align), ..old(self).style }),
            final(self).text == old(self).text,
            final(self).margin_top == old(self).margin_top,
            final(self).margin_bottom == old(self).margin_bottom,
    {
        self.style.align = Some(align);
    }

    pub fn set_margin_top(&mut self, m: u32)
        ensures
            *final(self) == (Paragraph { margin_top: m, ..*old(self) }),
    {
        self.margin_top = m;
    }

    pub fn set_margin_bottom(&mut self, m: u32)
        ensures
            *final(self) == (Paragraph { margin_bottom: m, ..*old(self) }),
    {
        self.margin_bottom = m;
    }
}

/// A cell that sets nothing: no border on any edge, no explicit height,
/// no style overrides, no content.  Incomplete rows are padded with these.
pub open spec fn is_empty_cell(c: Cell) -> bool {
    &&& c.style == StyleSet::spec_empty()
    &&& c.border_top == BorderSpec::NoBorder
    &&& c.border_right == BorderSpec::NoBorder
    &&& c.border_bottom == BorderSpec::NoBorder
    &&& c.border_left == BorderSpec::NoBorder
    &&& c.height.is_none()
    &&& c.items@.len() == 0
}

/// An unbordered cell holding exactly one unstyled paragraph of text `s`.
pub open spec fn is_plain_text_cell(c: Cell, s: Seq<char>) -> bool {
    &&& c.style == StyleSet::spec_empty()
    &&& c.border_top == BorderSpec::NoBorder
    &&& c.border_right == BorderSpec::NoBorder
    &&& c.border_bottom == BorderSpec::NoBorder
    &&& c.border_left == BorderSpec::NoBorder
    &&& c.height.is_none()
    &&& c.items@.len() == 1
    &&& c.items@[0] matches CellItem::Text(p) && p.text@ == s && p.style
        == StyleSet::spec_empty() && p.margin_top == 0 && p.margin_bottom == 0
}

/// `ft` is `t` with its grid completed and sealed: every row padded to
/// one cell per column with empty unbordered cells, everything else
/// unchanged.
pub open spec fn is_padded_form(ft: Table, t: Table) -> bool {
    &&& ft.sealed
    &&& ft.complete()
    &&& ft.weights == t.weights
    &&& ft.style == t.style
    &&& ft.fixed == t.fixed
    &&& ft.rows@.len() == t.rows@.len()
    &&& forall|i: int|
        0 <= i < t.rows@.len() ==> {
            &&& #[trigger] ft.rows@[i].cells@.len() == t.weights@.len()
            &&& forall|j: int|
                0 <= j < t.rows@[i].cells@.len() ==> #[trigger] ft.rows@[i].cells@[j]
                    == t.rows@[i].cells@[j]
            &&& forall|j: int|
                t.rows@[i].cells@.len() <= j < t.weights@.len() ==> is_empty_cell(
                    #[trigger] ft.rows@[i].cells@[j],
                )
        }
}

impl Cell {
    /// A fresh cell: no borders, no height override, no content.
    pub fn new() -> (c: Cell)
        ensures
            is_empty_cell(c),
    {
        Cell {
            style: StyleSet::empty(),
            border_top: BorderSpec::NoBorder,
            border_right: BorderSpec::NoBorder,
            border_bottom: BorderSpec::NoBorder,
            border_left: BorderSpec::NoBorder,
            height: None,
            items: Vec::new(),
        }
    }

    /// Set all four border edges at once.
    pub fn set_border(&mut self, b: BorderSpec)
        ensures
            *final(self) == (Cell {
                border_top: b,
                border_right: b,
                border_bottom: b,
                border_left: b,
                ..*old(self)
            }),
    {
        self.border_top = b;
        self.border_right = b;
        self.border_bottom = b;
        self.border_left = b;
    }

    pub fn set_border_top(&mut self, b: BorderSpec)
        ensures
            *final(self) == (Cell { border_top: b, ..*old(self) }),
    {
        self.border_top = b;
    }

    pub fn set_border_bottom(&mut self, b: BorderSpec)
        ensures
            *final(self) == (Cell { border_bottom: b, ..*old(self) }),
    {
        self.border_bottom = b;
    }

    /// Override the measured height of the cell.
    pub fn set_height(&mut self, h: u32)
        ensures
            *final(self) == (Cell { height: Some(h), ..*old(self) }),
    {
        self.height = Some(h);
    }

    pub fn set_font_size(&mut self, size: u32)
        ensures
            *final(self) == (Cell {
                style: (StyleSet { font_size: Some(size), ..old(self).style }),
                ..*old(self)
            }),
    {
        self.style.font_size = Some(size);
    }

    pub fn set_horizontal_alignment(&mut self, align: TextAlign)
        ensures
            *final(self) == (Cell {
                style: (StyleSet { align: Some(align), ..old(self).style }),
                ..*old(self)
            }),
    {
        self.style.align = Some(align);
    }

    /// Append a paragraph to the cell's content.
    pub fn add(&mut self, p: Paragraph)
        ensures
            *final(self) == (Cell {
                items: final(self).items,
                ..*old(self)
            }),
            final(self).items@ == old(self).items@.push(CellItem::Text(p)),
    {
        self.items.push(CellItem::Text(p));
    }

    /// Append an image to the cell's content.
    pub fn add_image(&mut self, img: ImageBox)
        ensures
            *final(self) == (Cell {
                items: final(self).items,
                ..*old(self)
            }),
            final(self).items@ == old(self).items@.push(CellItem::Image(img)),
    {
        self.items.push(CellItem::Image(img));
    }
}

/// The column weights are usable: at least one column, every weight
/// positive.
pub open spec fn weights_wf(ws: Seq<u32>) -> bool {
    &&& ws.len() > 0
    &&& forall|j: int| 0 <= j < ws.len() ==> #[trigger] ws[j] > 0
}

/// How many chunks of size at most `m` a run of `f` items fills:
/// `ceil(f / m)`.
pub open spec fn chunk_count(f: int, m: int) -> int
    recommends
        m > 0,
{
    (f + m - 1) / m
}

impl Table {
    /// Every row holds exactly one cell per declared column.
    pub open spec fn complete(self) -> bool {
        forall|i: int|
            0 <= i < self.rows@.len() ==> #[trigger] self.rows@[i].cells@.len()
                == self.weights@.len()
    }

    /// No row holds more cells than there are columns, and the weights
    /// are usable.  Established by `new` and preserved by every method.
    pub open spec fn wf(self) -> bool {
        &&& weights_wf(self.weights@)
        &&& forall|i: int|
            0 <= i < self.rows@.len() ==> #[trigger] self.rows@[i].cells@.len()
                <= self.weights@.len()
    }

    /// Declare a table by its relative column weights.  Fails with
    /// `InvalidColumnSpec` if and only if the weights are empty or any
    /// weight is zero.
    pub fn new(weights: Vec<u32>) -> (r: Result<Table, Error>)
        ensures
            match r {
                Ok(t) => {
                    &&& weights_wf(weights@)
                    &&& t.wf()
                    &&& t.weights@ == weights@
                    &&& t.style == StyleSet::spec_empty()
                    &&& t.fixed.is_none()
                    &&& !t.sealed
                    &&& t.rows@.len() == 0
                },
                Err(e) => e == Error::InvalidColumnSpec && !weights_wf(weights@),
            },
    {
        if weights.len() == 0 {
            return Err(Error::InvalidColumnSpec);
        }
        let mut j: usize = 0;
        while j < weights.len()
            invariant
                j <= weights@.len(),
                forall|k: int| 0 <= k < j ==> #[trigger] weights@[k] > 0,
            decreases weights@.len() - j,
        {
            if weights[j] == 0 {
                return Err(Error::InvalidColumnSpec);
            }
            j = j + 1;
        }
        Ok(Table {
            weights,
            style: StyleSet::empty(),
            fixed: None,
            sealed: false,
            rows: Vec::new(),
        })
    }

    /// Begin a new (initially empty) row.  Fails with `ImmutableBoxError`
    /// if and only if the table is sealed; the table is then unchanged.
    pub fn start_new_row(&mut self) -> (r: Result<(), Error>)
        ensures
            match r {
                Ok(()) => {
                    &&& !old(self).sealed
                    &&& final(self).rows@.len() == old(self).rows@.len() + 1
                    &&& forall|i: int|
                        0 <= i < old(self).rows@.len() ==> #[trigger] final(self).rows@[i]
                            == old(self).rows@[i]
                    &&& final(self).rows@.last().cells@.len() == 0
                    &&& final(self).weights == old(self).weights
                    &&& final(self).style == old(self).style
                    &&& final(self).fixed == old(self).fixed
                    &&& final(self).sealed == old(self).sealed
                },
                Err(e) => {
                    &&& e == Error::ImmutableBoxError
                    &&& old(self).sealed
                    &&& *final(self) == *old(self)
                },
            },
            old(self).wf() ==> final(self).wf(),
    {
        if self.sealed {
            return Err(Error::ImmutableBoxError);
        }
        self.rows.push(Row { cells: Vec::new() });
        Ok(())
    }

    /// Append a cell to the current (last started) row.  Fails with
    /// `ImmutableBoxError` on a sealed table, and with `RowOverflow` if
    /// and only if no row is open or the row already holds one cell per
    /// column; the table is then unchanged.
    pub fn add_cell(&mut self, c: Cell) -> (r: Result<(), Error>)
        ensures
            match r {
                Ok(()) => {
                    &&& !old(self).sealed
                    &&& old(self).rows@.len() > 0
                    &&& old(self).rows@.last().cells@.len() < old(self).weights@.len()
                    &&& final(self).rows@.len() == old(self).rows@.len()
                    &&& forall|i: int|
                        0 <= i < old(self).rows@.len() - 1 ==> #[trigger] final(self).rows@[i]
                            == old(self).rows@[i]
                    &&& final(self).rows@.last().cells@ == old(self).rows@.last().cells@.push(c)
                    &&& final(self).weights == old(self).weights
                    &&& final(self).style == old(self).style
                    &&& final(self).fixed == old(self).fixed
                    &&& final(self).sealed == old(self).sealed
                },
                Err(e) => {
                    &&& *final(self) == *old(self)
                    &&& if old(self).sealed {
                        e == Error::ImmutableBoxError
                    } else {
                        e == Error::RowOverflow && (old(self).rows@.len() == 0 || old(
                            self,
                        ).rows@.last().cells@.len() >= old(self).weights@.len())
                    }
                },
            },
            old(self).wf() ==> final(self).wf(),
    {
        if self.sealed {
            return Err(Error::ImmutableBoxError);
        }
        let n = self.rows.len();
        if n == 0 {
            return Err(Error::RowOverflow);
        }
        if self.rows[n - 1].cells.len() >= self.weights.len() {
            return Err(Error::RowOverflow);
        }
        let mut row = match self.rows.pop() {
            Some(row) => row,
            None => {
                return Err(Error::RowOverflow);
            },
        };
        row.cells.push(c);
        self.rows.push(row);
        Ok(())
    }

    /// Set the table-level font size (inherited by its cells).  Fails
    /// with `ImmutableBoxError` if and only if the table is sealed.
    pub fn set_font_size(&mut self, size: u32) -> (r: Result<(), Error>)
        ensures
            match r {
                Ok(()) => {
                    &&& !old(self).sealed
                    &&& *final(self) == (Table {
                        style: (StyleSet { font_size: Some(size), ..old(self).style }),
                        ..*old(self)
                    })
                },
                Err(e) => e == Error::ImmutableBoxError && old(self).sealed && *final(self)
                    == *old(self),
            },
            old(self).wf() ==> final(self).wf(),
    {
        if self.sealed {
            return Err(Error::ImmutableBoxError);
        }
        self.style.font_size = Some(size);
        Ok(())
    }

    /// Set the table-level font color (inherited by its cells).  Fails
    /// with `ImmutableBoxError` if and only if the table is sealed.
    pub fn set_font_color(&mut self, color: Rgb) -> (r: Result<(), Error>)
        ensures
            match r {
                Ok(()) => {
                    &&& !old(self).sealed
                    &&& *final(self) == (Table {
                        style: (StyleSet { font_color: Some(color), ..old(self).style }),
                        ..*old(self)
                    })
                },
                Err(e) => e == Error::ImmutableBoxError && old(self).sealed && *final(self)
                    == *old(self),
            },
            old(self).wf() ==> final(self).wf(),
    {
        if self.sealed {
            return Err(Error::ImmutableBoxError);
        }
        self.style.font_color = Some(color);
        Ok(())
    }

    /// Anchor the table at an absolute page position, removing it from
    /// normal flow.  Fails with `ImmutableBoxError` if and only if the
    /// table is sealed.
    pub fn set_fixed_position(&mut self, pos: FixedPos, scope: FixedScope) -> (r: Result<
        (),
        Error,
    >)
        ensures
            match r {
                Ok(()) => {
                    &&& !old(self).sealed
                    &&& *final(self) == (Table { fixed: Some((pos, scope)), ..*old(self) })
                },
                Err(e) => e == Error::ImmutableBoxError && old(self).sealed && *final(self)
                    == *old(self),
            },
            old(self).wf() ==> final(self).wf(),
    {
        if self.sealed {
            return Err(Error::ImmutableBoxError);
        }
        self.fixed = Some((pos, scope));
        Ok(())
    }

    /// Complete the grid and seal the table.
    ///
    /// Every incomplete row is padded with empty unbordered cells until it
    /// holds one cell per column; afterwards the table refuses every
    /// mutation.  Fails with `ImmutableBoxError` if and only if the table
    /// was already sealed.
    pub fn finalize(&mut self) -> (r: Result<(), Error>)
        requires
            old(self).wf(),
        ensures
            final(self).wf(),
            match r {
                Ok(()) => !old(self).sealed && is_padded_form(*final(self), *old(self)),
                Err(e) => e == Error::ImmutableBoxError && old(self).sealed && *final(self)
                    == *old(self),
            },
    {
        if self.sealed {
            return Err(Error::ImmutableBoxError);
        }
        let m = self.weights.len();
        let ghost n = self.rows@.len() as int;
        let mut out: Vec<Row> = Vec::new();
        while self.rows.len() > 0
            invariant
                m == self.weights@.len(),
                self.weights == old(self).weights,
                self.style == old(self).style,
                self.fixed == old(self).fixed,
                self.sealed == old(self).sealed,
                !self.sealed,
                old(self).wf(),
                n == old(self).rows@.len(),
                out@.len() + self.rows@.len() == n,
                self.rows@ =~= old(self).rows@.subrange(out@.len() as int, n),
                forall|k: int|
                    0 <= k < out@.len() ==> {
                        &&& #[trigger] out@[k].cells@.len() == m
                        &&& forall|j: int|
                            0 <= j < old(self).rows@[k].cells@.len() ==> #[trigger] out@[k].cells@[j]
                                == old(self).rows@[k].cells@[j]
                        &&& forall|j: int|
                            old(self).rows@[k].cells@.len() <= j < m ==> is_empty_cell(
                                #[trigger] out@[k].cells@[j],
                            )
                    },
            decreases self.rows@.len(),
        {
            let mut row = self.rows.remove(0);
            let ghost k = out@.len() as int;
            let ghost orig_cells = row.cells@;
            proof {
                assert(old(self).rows@.subrange(k, n)[0] == old(self).rows@[k]);
                assert(row == old(self).rows@[k]);
            }
            while row.cells.len() < m
                invariant
                    m == self.weights@.len(),
                    orig_cells.len() <= row.cells@.len() <= m,
                    orig_cells.len() <= m,
                    forall|j: int|
                        0 <= j < orig_cells.len() ==> #[trigger] row.cells@[j] == orig_cells[j],
                    forall|j: int|
                        orig_cells.len() <= j < row.cells@.len() ==> is_empty_cell(
                            #[trigger] row.cells@[j],
                        ),
                decreases m - row.cells@.len(),
            {
                row.cells.push(Cell::new());
            }
            out.push(row);
            proof {
                assert(self.rows@ =~= old(self).rows@.subrange(out@.len() as int, n));
            }
        }
        self.rows = out;
        self.sealed = true;
        Ok(())
    }

    /// Lay a run of text fields out as rows of exactly one cell per
    /// column: the fields fill the grid left to right, `ceil(F / M)` rows
    /// for `F` fields over `M` columns, and the trailing slots of the
    /// last row are padded with empty unbordered cells.  Fails with
    /// `ImmutableBoxError` if and only if the table is sealed.
    pub fn add_chunked_text_rows(&mut self, fields: &Vec<String>) -> (r: Result<(), Error>)
        requires
            old(self).wf(),
        ensures
            final(self).wf(),
            match r {
                Ok(()) => {
                    &&& !old(self).sealed
                    &&& final(self).weights == old(self).weights
                    &&& final(self).style == old(self).style
                    &&& final(self).fixed == old(self).fixed
                    &&& final(self).sealed == old(self).sealed
                    &&& final(self).rows@.len() == old(self).rows@.len() + chunk_count(
                        fields@.len() as int,
                        old(self).weights@.len() as int,
                    )
                    &&& forall|i: int|
                        0 <= i < old(self).rows@.len() ==> #[trigger] final(self).rows@[i] == old(
                            self,
                        ).rows@[i]
                    &&& forall|i: int|
                        old(self).rows@.len() <= i < final(self).rows@.len()
                            ==> #[trigger] final(self).rows@[i].cells@.len() == old(
                            self,
                        ).weights@.len()
                    &&& forall|i: int, j: int|
                        old(self).rows@.len() <= i < final(self).rows@.len() && 0 <= j < old(
                            self,
                        ).weights@.len() ==> {
                            let k = (i - old(self).rows@.len()) * old(self).weights@.len() + j;
                            if k < fields@.len() {
                                is_plain_text_cell(
                                    #[trigger] final(self).rows@[i].cells@[j],
                                    fields@[k]@,
                                )
                            } else {
                                is_empty_cell(final(self).rows@[i].cells@[j])
                            }
                        }
                },
                Err(e) => e == Error::ImmutableBoxError && old(self).sealed && *final(self)
                    == *old(self),
            },
    {
        if self.sealed {
            return Err(Error::ImmutableBoxError);
        }
        let m = self.weights.len();
        let f = fields.len();
        let cc: usize = if f == 0 {
            0
        } else {
            1 + (f - 1) / m
        };
        proof {
            if f > 0 {
                lemma_chunk_count_form(f as int, m as int);
            } else {
                assert(chunk_count(0, m as int) == 0) by {
                    vstd::arithmetic::div_mod::lemma_basic_div(m as int - 1, m as int);
                };
            }
        }
        let ghost old_len = self.rows@.len() as int;
        let mut c: usize = 0;
        while c < cc
            invariant
                old(self).wf(),
                !old(self).sealed,
                m == self.weights@.len(),
                f == fields@.len(),
                cc == chunk_count(f as int, m as int),
                f == 0 ==> cc == 0,
                f > 0 ==> cc == 1 + (f - 1) as int / m as int,
                m > 0,
                c <= cc,
                self.weights == old(self).weights,
                self.style == old(self).style,
                self.fixed == old(self).fixed,
                self.sealed == old(self).sealed,
                old_len == old(self).rows@.len(),
                self.rows@.len() == old_len + c,
                forall|i: int|
                    0 <= i < old_len ==> #[trigger] self.rows@[i] == old(self).rows@[i],
                forall|i: int|
                    old_len <= i < self.rows@.len() ==> #[trigger] self.rows@[i].cells@.len() == m,
                forall|i: int, j: int|
                    old_len <= i < self.rows@.len() && 0 <= j < m ==> {
                        let k = (i - old_len) * m + j;
                        if k < f {
                            is_plain_text_cell(#[trigger] self.rows@[i].cells@[j], fields@[k]@)
                        } else {
                            is_empty_cell(self.rows@[i].cells@[j])
                        }
                    },
            decreases cc - c,
        {
            proof {
                lemma_chunk_base_in_range(f as int, m as int, c as int);
            }
            let base: usize = c * m;
            let mut row = Row { cells: Vec::new() };
            let mut j: usize = 0;
            while j < m
                invariant
                    m > 0,
                    f == fields@.len(),
                    base == c * m,
                    base < f,
                    j <= m,
                    row.cells@.len() == j,
                    forall|jj: int|
                        0 <= jj < j ==> {
                            if base + jj < f {
                                is_plain_text_cell(
                                    #[trigger] row.cells@[jj],
                                    fields@[base + jj]@,
                                )
                            } else {
                                is_empty_cell(row.cells@[jj])
                            }
                        },
                decreases m - j,
            {
                if j < f - base {
                    row.cells.push(plain_text_cell(&fields[base + j]));
                } else {
                    row.cells.push(Cell::new());
                }
                j = j + 1;
            }
            self.rows.push(row);
            c = c + 1;
        }
        Ok(())
    }
}

/// An unbordered cell holding one unstyled paragraph of the given text.
pub fn plain_text_cell(s: &String) -> (c: Cell)
    ensures
        is_plain_text_cell(c, s@),
{
    let mut c = Cell::new();
    c.add(Paragraph::new_with_text(s.as_str()));
    c
}

/// For a positive run of fields, the chunk count is one more than the
/// full chunks before the last, and every chunk's base index lies inside
/// the run.
proof fn lemma_chunk_count_form(f: int, m: int)
    requires
        f > 0,
        m > 0,
    ensures
        chunk_count(f, m) == 1 + (f - 1) / m,
        chunk_count(f, m) >= 1,
{
    let q = (f - 1) / m;
    let r = (f - 1) % m;
    vstd::arithmetic::div_mod::lemma_fundamental_div_mod(f - 1, m);
    vstd::arithmetic::div_mod::lemma_mod_bound(f - 1, m);
    assert(f + m - 1 == (q + 1) * m + r) by (nonlinear_arith)
        requires
            f - 1 == q * m + r,
    ;
    vstd::arithmetic::div_mod::lemma_fundamental_div_mod_converse(f + m - 1, m, q + 1, r);
}

/// Every chunk's base index lies inside the run of fields.
proof fn lemma_chunk_base_in_range(f: int, m: int, c: int)
    requires
        f > 0,
        m > 0,
        0 <= c < chunk_count(f, m),
    ensures
        c * m < f,
        c * m <= f - 1,
{
    lemma_chunk_count_form(f, m);
    let q = (f - 1) / m;
    assert(c <= q);
    vstd::arithmetic::div_mod::lemma_fundamental_div_mod(f - 1, m);
    vstd::arithmetic::div_mod::lemma_mod_bound(f - 1, m);
    assert(c * m <= q * m) by (nonlinear_arith)
        requires
            c <= q,
            m > 0,
    ;
    assert(q * m <= f - 1);
}

/// Footer field chunking: `F` fields at most `M` per row make exactly
/// `ceil(F / M)` rows, and the number of empty padding cells in the last
/// row is `M - (F mod M)` when `F mod M != 0` and `0` when `F mod M == 0`.
/// The padding count equals the total grid slots minus the fields.
pub proof fn lemma_footer_chunking(f: int, m: int)
    requires
        f > 0,
        m > 0,
    ensures
        chunk_count(f, m) == (f + m - 1) / m,
        f <= chunk_count(f, m) * m < f + m,
        f % m == 0 ==> chunk_count(f, m) * m - f == 0,
        f % m != 0 ==> chunk_count(f, m) * m - f == m - f % m,
{
    let q = f / m;
    let s = f % m;
    vstd::arithmetic::div_mod::lemma_fundamental_div_mod(f, m);
    vstd::arithmetic::div_mod::lemma_mod_bound(f, m);
    if s == 0 {
        assert(f + m - 1 == q * m + (m - 1)) by (nonlinear_arith)
            requires
                f == q * m + s,
                s == 0,
        ;
        vstd::arithmetic::div_mod::lemma_fundamental_div_mod_converse(f + m - 1, m, q, m - 1);
        assert(chunk_count(f, m) == q);
        assert(q * m == f);
    } else {
        assert(f + m - 1 == (q + 1) * m + (s - 1)) by (nonlinear_arith)
            requires
                f == q * m + s,
        ;
        vstd::arithmetic::div_mod::lemma_fundamental_div_mod_converse(f + m - 1, m, q + 1, s - 1);
        assert(chunk_count(f, m) == q + 1);
        assert((q + 1) * m - f == m - s) by (nonlinear_arith)
            requires
                f == q * m + s,
        ;
    }
}

/// A text item carrying `s` with the explicit style `style` and no
/// margins.
pub open spec fn is_text_item(it: CellItem, s: Seq<char>, style: StyleSet) -> bool {
    it matches CellItem::Text(p) && p.text@ == s && p.style == style && p.margin_top == 0
        && p.margin_bottom == 0
}

/// A cell with the given top and bottom borders, holding exactly one
/// paragraph of text `s` in the explicit style `style`.
pub open spec fn is_styled_text_cell(
    c: Cell,
    s: Seq<char>,
    style: StyleSet,
    border_top: BorderSpec,
    border_bottom: BorderSpec,
) -> bool {
    &&& c.style == StyleSet::spec_empty()
    &&& c.border_top == border_top
    &&& c.border_right == BorderSpec::NoBorder
    &&& c.border_bottom == border_bottom
    &&& c.border_left == BorderSpec::NoBorder
    &&& c.height.is_none()
    &&& c.items@.len() == 1
    &&& c.items@[0] matches CellItem::Text(p) && p.text@ == s && p.style == style && p.margin_top
        == 0 && p.margin_bottom == 0
}

/// A content-free cell with the given top and bottom borders.
pub open spec fn is_bordered_empty_cell(c: Cell, border_top: BorderSpec, border_bottom: BorderSpec) -> bool {
    &&& c.style == StyleSet::spec_empty()
    &&& c.border_top == border_top
    &&& c.border_right == BorderSpec::NoBorder
    &&& c.border_bottom == border_bottom
    &&& c.border_left == BorderSpec::NoBorder
    &&& c.height.is_none()
    &&& c.items@.len() == 0
}

/// An unbordered, content-free cell one unit tall, used as row spacing.
pub open spec fn is_spacer_cell(c: Cell) -> bool {
    &&& c.style == StyleSet::spec_empty()
    &&& c.border_top == BorderSpec::NoBorder
    &&& c.border_right == BorderSpec::NoBorder
    &&& c.border_bottom == BorderSpec::NoBorder
    &&& c.border_left == BorderSpec::NoBorder
    &&& c.height == Some(1u32)
    &&& c.items@.len() == 0
}

/// A cell with the given borders holding one paragraph of `text` in the
/// explicit style `style`.
pub fn styled_text_cell(text: &str, style: StyleSet, bt: BorderSpec, bb: BorderSpec) -> (c: Cell)
    ensures
        is_styled_text_cell(c, text@, style, bt, bb),
{
    let mut c = Cell::new();
    c.set_border_top(bt);
    c.set_border_bottom(bb);
    c.add(
        Paragraph { text: text.to_owned(), style, margin_top: 0, margin_bottom: 0 },
    );
    c
}

/// A content-free cell with the given borders.
pub fn empty_bordered_cell(bt: BorderSpec, bb: BorderSpec) -> (c: Cell)
    ensures
        is_bordered_empty_cell(c, bt, bb),
{
    let mut c = Cell::new();
    c.set_border_top(bt);
    c.set_border_bottom(bb);
    c
}

/// An unbordered, content-free cell one unit tall.
pub fn spacer_cell() -> (c: Cell)
    ensures
        is_spacer_cell(c),
{
    let mut c = Cell::new();
    c.set_height(1);
    c
}

/// A top-level content box: a table, a free paragraph, or an image.
#[derive(Debug, Clone, PartialEq, Eq)]
pub enum BoxContent {
    Table(Table),
    Paragraph(Paragraph),
    Image(ImageBox),
}

/// The padding property: in a complete table — as every table is after
/// `finalize` — every row holds exactly one cell per column weight.
pub proof fn lemma_padding_property(t: Table, i: int)
    requires
        t.complete(),
        0 <= i < t.rows@.len(),
    ensures
        t.rows@[i].cells@.len() == t.weights@.len(),
{
}

} // verus!
