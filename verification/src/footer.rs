//! A document's footer: the company name and a grid of company fields,
//! anchored to the bottom margin of every page.

use vstd::prelude::*;

use crate::color::light_gray;
use crate::color::spec_light_gray;
use crate::color::spec_parse_hex_color;
use crate::color::valid_hex_color;
use crate::error::Error;
use crate::render_target::RenderTarget;
use crate::style::BorderSpec;
use crate::style::StyleSet;
use crate::table::chunk_count;
use crate::table::is_empty_cell;
use crate::table::is_plain_text_cell;
use crate::table::is_styled_text_cell;
use crate::table::BoxContent;
use crate::table::FixedScope;
use crate::table::Table;
use crate::table::is_padded_form;

verus! {

/// The maximum amount of fields per row in the footer.
pub const MAX_FIELD_H: usize = 4;

/// A document's footer.
#[derive(Debug)]
pub struct Footer {
    /// The fields to be included in the footer.
    pub fields: Vec<String>,
    /// The name of the company.
    pub company_name: String,
    /// Hexadecimal `#RRGGBB` color for the company name.
    pub company_name_color: String,
}

/// `t` is the footer table for `f`: four equal columns in small light
/// gray type; a first row carrying the company name in size 9 and its
/// configured color beside three empty cells; then the footer fields
/// chunked four to a row, the last row padded with empty unbordered
/// cells.
pub open spec fn is_footer_table(t: Table, f: Footer) -> bool {
    &&& t.weights@ == seq![1u32, 1u32, 1u32, 1u32]
    &&& t.style == (StyleSet {
        font_size: Some(7u32),
        font_color: Some(spec_light_gray()),
        bold: None,
        italic: None,
        align: None,
    })
    &&& t.sealed
    &&& t.complete()
    &&& t.rows@.len() == 1 + chunk_count(f.fields@.len() as int, MAX_FIELD_H as int)
    &&& t.rows@[0].cells@.len() == 4
    &&& is_styled_text_cell(
        t.rows@[0].cells@[0],
        f.company_name@,
        (StyleSet {
            font_size: Some(9u32),
            font_color: Some(spec_parse_hex_color(f.company_name_color@)),
            bold: None,
            italic: None,
            align: None,
        }),
        BorderSpec::NoBorder,
        BorderSpec::NoBorder,
    )
    &&& forall|j: int| 1 <= j < 4 ==> is_empty_cell(#[trigger] t.rows@[0].cells@[j])
    &&& forall|i: int, j: int|
        1 <= i < t.rows@.len() && 0 <= j < 4 ==> {
            let k = (i - 1) * 4 + j;
            if k < f.fields@.len() {
                is_plain_text_cell(#[trigger] t.rows@[i].cells@[j], f.fields@[k]@)
            } else {
                is_empty_cell(t.rows@[i].cells@[j])
            }
        }
}

impl Footer {
    /// Render the footer: a fixed-position table at the bottom margin,
    /// re-rendered on every page.
    ///
    /// Fails with `InvalidColorFormat` if and only if the company-name
    /// color is not of the form `#RRGGBB`, and otherwise with
    /// `DocumentClosedError` if and only if the document is closed; the
    /// document is then unchanged.
    pub fn render(&self, target: &mut RenderTarget) -> (r: Result<(), Error>)
        requires
            old(target).wf(),
        ensures
            final(target).wf(),
            match r {
                Ok(()) => {
                    &&& valid_hex_color(self.company_name_color@)
                    &&& !old(target).closed
                    &&& final(target).flow == old(target).flow
                    &&& final(target).geom == old(target).geom
                    &&& final(target).base_style == old(target).base_style
                    &&& final(target).font == old(target).font
                    &&& final(target).images == old(target).images
                    &&& final(target).closed == old(target).closed
                    &&& final(target).fixed@.len() == old(target).fixed@.len() + 1
                    &&& forall|i: int|
                        0 <= i < old(target).fixed@.len()
                            ==> #[trigger] final(target).fixed@[i] == old(target).fixed@[i]
                    &&& final(target).fixed@.last().1.offset_left == old(
                        target,
                    ).geom.margin_left
                    &&& final(target).fixed@.last().1.offset_bottom == old(
                        target,
                    ).geom.margin_bottom
                    &&& final(target).fixed@.last().1.width == old(
                        target,
                    ).geom.spec_content_width()
                    &&& final(target).fixed@.last().2 == FixedScope::EveryPage
                    &&& final(target).fixed@.last().0 matches BoxContent::Table(ft)
                        && is_footer_table(ft, *self)
                },
                Err(e) => {
                    &&& *final(target) == *old(target)
                    &&& if !valid_hex_color(self.company_name_color@) {
                        e == Error::InvalidColorFormat
                    } else {
                        e == Error::DocumentClosedError && old(target).closed
                    }
                },
            },
    {
        let company_name_color = match crate::color::parse_hex_color(
            self.company_name_color.as_str(),
        ) {
            Ok(c) => c,
            Err(e) => {
                return Err(e);
            },
        };
        let mut weights: Vec<u32> = Vec::new();
        weights.push(1);
        weights.push(1);
        weights.push(1);
        weights.push(1);
        proof {
            assert(weights@ =~= seq![1u32, 1u32, 1u32, 1u32]);
        }
        let mut footer = match Table::new(weights) {
            Ok(t) => t,
            Err(e) => {
                return Err(e);
            },
        };
        if let Err(e) = footer.set_font_size(7) {
            return Err(e);
        }
        if let Err(e) = footer.set_font_color(light_gray()) {
            return Err(e);
        }
        let pos = target.geom.footer_position();
        if let Err(e) = footer.set_fixed_position(pos, FixedScope::EveryPage) {
            return Err(e);
        }
        self.render_company_name(&mut footer, company_name_color)?;
        self.render_footer_fields(&mut footer)?;
        let ghost fsnap = footer;
        match target.add(footer) {
            Ok(()) => {
                proof {
                    let ft = target.fixed@.last().0->Table_0;
                    assert(is_padded_form(ft, fsnap));
                    assert(ft.rows@[0].cells@.len() == 4);
                    assert(ft.rows@[0].cells@[0] == fsnap.rows@[0].cells@[0]);
                    assert forall|j: int| 1 <= j < 4 implies is_empty_cell(
                        #[trigger] ft.rows@[0].cells@[j],
                    ) by {
                        assert(ft.rows@[0].cells@[j] == fsnap.rows@[0].cells@[j]);
                    };
                    assert forall|i: int, j: int|
                        1 <= i < ft.rows@.len() && 0 <= j < 4 implies {
                            let k = (i - 1) * 4 + j;
                            if k < self.fields@.len() {
                                is_plain_text_cell(
                                    #[trigger] ft.rows@[i].cells@[j],
                                    self.fields@[k]@,
                                )
                            } else {
                                is_empty_cell(ft.rows@[i].cells@[j])
                            }
                        } by {
                        assert(fsnap.rows@[i].cells@.len() == 4);
                        assert(ft.rows@[i].cells@.len() == fsnap.weights@.len());
                        assert(ft.rows@[i].cells@[j] == fsnap.rows@[i].cells@[j]);
                    };
                }
                Ok(())
            },
            Err(e) => Err(e),
        }
    }

    /// Add the company-name row: the name in size 9 and the given color,
    /// followed by three empty unbordered cells.
    fn render_company_name(&self, footer: &mut Table, color: crate::color::Rgb) -> (r: Result<
        (),
        Error,
    >)
        requires
            old(footer).wf(),
            !old(footer).sealed,
            old(footer).weights@.len() == 4,
        ensures
            final(footer).wf(),
            r is Ok,
            r matches Ok(()) ==> {
                &&& final(footer).rows@.len() == old(footer).rows@.len() + 1
                &&& forall|i: int|
                    0 <= i < old(footer).rows@.len() ==> #[trigger] final(footer).rows@[i] == old(
                        footer,
                    ).rows@[i]
                &&& final(footer).rows@.last().cells@.len() == 4
                &&& is_styled_text_cell(
                    final(footer).rows@.last().cells@[0],
                    self.company_name@,
                    (StyleSet {
                        font_size: Some(9u32),
                        font_color: Some(color),
                        bold: None,
                        italic: None,
                        align: None,
                    }),
                    BorderSpec::NoBorder,
                    BorderSpec::NoBorder,
                )
                &&& forall|j: int|
                    1 <= j < 4 ==> is_empty_cell(#[trigger] final(footer).rows@.last().cells@[j])
                &&& final(footer).weights == old(footer).weights
                &&& final(footer).style == old(footer).style
                &&& final(footer).fixed == old(footer).fixed
                &&& final(footer).sealed == old(footer).sealed
            },
    {
        footer.start_new_row()?;
        let name_cell = crate::table::styled_text_cell(
            self.company_name.as_str(),
            crate::style::style_with(Some(9), Some(color), None, None, None),
            BorderSpec::NoBorder,
            BorderSpec::NoBorder,
        );
        footer.add_cell(name_cell)?;
        let mut filled: usize = 1;
        while filled < 4
            invariant
                old(footer).wf(),
                footer.wf(),
                !footer.sealed,
                1 <= filled <= 4,
                footer.weights@.len() == 4,
                footer.weights == old(footer).weights,
                footer.style == old(footer).style,
                footer.fixed == old(footer).fixed,
                footer.sealed == old(footer).sealed,
                footer.rows@.len() == old(footer).rows@.len() + 1,
                forall|i: int|
                    0 <= i < old(footer).rows@.len() ==> #[trigger] footer.rows@[i] == old(
                        footer,
                    ).rows@[i],
                footer.rows@.last().cells@.len() == filled,
                is_styled_text_cell(
                    footer.rows@.last().cells@[0],
                    self.company_name@,
                    (StyleSet {
                        font_size: Some(9u32),
                        font_color: Some(color),
                        bold: None,
                        italic: None,
                        align: None,
                    }),
                    BorderSpec::NoBorder,
                    BorderSpec::NoBorder,
                ),
                forall|j: int|
                    1 <= j < filled ==> is_empty_cell(#[trigger] footer.rows@.last().cells@[j]),
            decreases 4 - filled,
        {
            footer.add_cell(crate::table::Cell::new())?;
            filled = filled + 1;
        }
        Ok(())
    }

    /// Add all footer fields, four to a row, padding the last row with
    /// empty unbordered cells.
    fn render_footer_fields(&self, footer: &mut Table) -> (r: Result<(), Error>)
        requires
            old(footer).wf(),
            !old(footer).sealed,
            old(footer).weights@.len() == 4,
        ensures
            final(footer).wf(),
            r is Ok,
            r matches Ok(()) ==> {
                &&& final(footer).rows@.len() == old(footer).rows@.len() + chunk_count(
                    self.fields@.len() as int,
                    4,
                )
                &&& forall|i: int|
                    0 <= i < old(footer).rows@.len() ==> #[trigger] final(footer).rows@[i] == old(
                        footer,
                    ).rows@[i]
                &&& forall|i: int|
                    old(footer).rows@.len() <= i < final(footer).rows@.len()
                        ==> #[trigger] final(footer).rows@[i].cells@.len() == 4
                &&& forall|i: int, j: int|
                    old(footer).rows@.len() <= i < final(footer).rows@.len() && 0 <= j < 4 ==> {
                        let k = (i - old(footer).rows@.len()) * 4 + j;
                        if k < self.fields@.len() {
                            is_plain_text_cell(
                                #[trigger] final(footer).rows@[i].cells@[j],
                                self.fields@[k]@,
                            )
                        } else {
                            is_empty_cell(final(footer).rows@[i].cells@[j])
                        }
                    }
                &&& final(footer).weights == old(footer).weights
                &&& final(footer).style == old(footer).style
                &&& final(footer).fixed == old(footer).fixed
                &&& final(footer).sealed == old(footer).sealed
            },
    {
        footer.add_chunked_text_rows(&self.fields)
    }
}

} // verus!
