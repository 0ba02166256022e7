//! The document header: addressee and seller information beside the
//! company logo, with the document label underneath.

use vstd::prelude::*;

use crate::error::Error;
use crate::geometry::spec_scaled_width;
use crate::image::be32;
use crate::image::is_png;
use crate::image::ImageBox;
use crate::render_target::RenderTarget;
use crate::style::BorderSpec;
use crate::style::StyleSet;
use crate::style::TextAlign;
use crate::table::is_spacer_cell;
use crate::table::is_styled_text_cell;
use crate::table::is_text_item;
use crate::table::BoxContent;
use crate::table::Cell;
use crate::table::CellItem;
use crate::table::Paragraph;
use crate::table::Table;
use crate::table::is_padded_form;
use crate::text::concat2;
use crate::text::concat3;

verus! {

/// The height of the logo on the document.  The width is derived from
/// the logo's intrinsic aspect ratio.
pub const LOGO_HEIGHT: u32 = 100;

/// The header of the document.
#[derive(Debug)]
pub struct Header {
    /// The logo's bytes (a PNG payload).
    pub logo: Vec<u8>,
    /// The type of document, e.g. 'Invoice'.
    pub label: String,
    /// The addressee of the document.
    pub addressed_to: AddressableParty,
    /// The seller.
    pub seller: AddressableParty,
}

/// An entity which has an address.
#[derive(Debug)]
pub struct AddressableParty {
    /// The company name.
    pub name: String,
    /// The department.
    pub department: Option<String>,
    /// The address of the entity.
    pub address: Address,
    /// The VAT number of the company.
    pub vat_number: Option<String>,
}

/// An address.
#[derive(Debug)]
pub struct Address {
    /// Street name.
    pub street: String,
    /// House number and optional extension.
    pub number: String,
    /// The ZIP/Postal code.
    pub zipcode: String,
    /// The city.
    pub city: String,
    /// The country.
    pub country: String,
}

/// The single-line seller summary shown at the foot of the address
/// block.
pub open spec fn seller_line(p: AddressableParty) -> Seq<char> {
    p.name@ + ", "@ + p.address.street@ + " "@ + p.address.number@ + ", "@ + p.address.zipcode@
        + ", "@ + p.address.city@
}

/// `c` is the address-block cell of header `h`: the addressee's name in
/// bold, the optional department line, street, zip and city, country,
/// the optional VAT number, and the seller summary in small italics.
pub open spec fn is_header_info_cell(c: Cell, h: Header) -> bool {
    let d: int = if h.addressed_to.department is Some {
        1
    } else {
        0
    };
    let v: int = if h.addressed_to.vat_number is Some {
        1
    } else {
        0
    };
    &&& c.style == StyleSet::spec_empty()
    &&& c.border_top == BorderSpec::NoBorder
    &&& c.border_right == BorderSpec::NoBorder
    &&& c.border_bottom == BorderSpec::NoBorder
    &&& c.border_left == BorderSpec::NoBorder
    &&& c.height.is_none()
    &&& c.items@.len() == 5 + d + v
    &&& is_text_item(
        c.items@[0],
        h.addressed_to.name@,
        (StyleSet { bold: Some(true), ..StyleSet::spec_empty() }),
    )
    &&& h.addressed_to.department matches Some(dep) ==> is_text_item(
        c.items@[1],
        "T.a.v"@ + " "@ + dep@,
        StyleSet::spec_empty(),
    )
    &&& is_text_item(
        c.items@[1 + d],
        h.addressed_to.address.street@ + " "@ + h.addressed_to.address.number@,
        StyleSet::spec_empty(),
    )
    &&& is_text_item(
        c.items@[2 + d],
        h.addressed_to.address.zipcode@ + " "@ + h.addressed_to.address.city@,
        StyleSet::spec_empty(),
    )
    &&& is_text_item(c.items@[3 + d], h.addressed_to.address.country@, StyleSet::spec_empty())
    &&& h.addressed_to.vat_number matches Some(vat) ==> is_text_item(
        c.items@[4 + d],
        vat@,
        StyleSet::spec_empty(),
    )
    &&& is_text_item(
        c.items@[4 + d + v],
        seller_line(h.seller),
        (StyleSet { font_size: Some(9u32), italic: Some(true), ..StyleSet::spec_empty() }),
    )
}

/// `c` is the logo cell: right-aligned, unbordered, holding one image
/// box that references resource `resource` and scales the intrinsic
/// size `(iw, ih)` to the document logo height.
pub open spec fn is_logo_cell(c: Cell, resource: int, iw: int, ih: int) -> bool {
    &&& c.style == (StyleSet { align: Some(TextAlign::Right), ..StyleSet::spec_empty() })
    &&& c.border_top == BorderSpec::NoBorder
    &&& c.border_right == BorderSpec::NoBorder
    &&& c.border_bottom == BorderSpec::NoBorder
    &&& c.border_left == BorderSpec::NoBorder
    &&& c.height.is_none()
    &&& c.items@.len() == 1
    &&& c.items@[0] matches CellItem::Image(img) && img.resource == resource && img.intrinsic_w
        == iw && img.intrinsic_h == ih && img.display_h == LOGO_HEIGHT && img.display_w
        == spec_scaled_width(iw, ih, LOGO_HEIGHT as int)
}

/// `t` is the header table of `h`: an 8:2 grid whose first row holds the
/// address block beside the logo, and whose second row holds a spacer
/// beside the document label in large bold right-aligned type.
pub open spec fn is_header_table(t: Table, h: Header, resource: int) -> bool {
    &&& t.weights@ == seq![8u32, 2u32]
    &&& t.style == StyleSet::spec_empty()
    &&& t.fixed.is_none()
    &&& t.sealed
    &&& t.complete()
    &&& t.rows@.len() == 2
    &&& t.rows@[0].cells@.len() == 2
    &&& t.rows@[1].cells@.len() == 2
    &&& is_header_info_cell(t.rows@[0].cells@[0], h)
    &&& is_logo_cell(t.rows@[0].cells@[1], resource, be32(h.logo@, 16), be32(h.logo@, 20))
    &&& is_spacer_cell(t.rows@[1].cells@[0])
    &&& is_styled_text_cell(
        t.rows@[1].cells@[1],
        h.label@,
        (StyleSet {
            font_size: Some(24u32),
            bold: Some(true),
            align: Some(TextAlign::Right),
            ..StyleSet::spec_empty()
        }),
        BorderSpec::NoBorder,
        BorderSpec::NoBorder,
    )
}

impl Header {
    /// The scaled display size of the logo: its intrinsic size read from
    /// the PNG header, scaled to the document logo height.
    ///
    /// Fails with `UnsupportedImageFormat` if and only if the logo bytes
    /// are not a PNG payload, and with `DivisionByZero` if and only if
    /// they report an intrinsic height of zero.
    fn calculate_logo_size(&self) -> (r: Result<(u64, u32), Error>)
        ensures
            match r {
                Ok(wh) => {
                    &&& is_png(self.logo@)
                    &&& be32(self.logo@, 20) != 0
                    &&& wh.0 == spec_scaled_width(
                        be32(self.logo@, 16),
                        be32(self.logo@, 20),
                        LOGO_HEIGHT as int,
                    )
                    &&& wh.1 == LOGO_HEIGHT
                },
                Err(e) => {
                    &&& if !is_png(self.logo@) {
                        e == Error::UnsupportedImageFormat
                    } else {
                        e == Error::DivisionByZero && be32(self.logo@, 20) == 0
                    }
                },
            },
    {
        let (w, h) = match crate::image::png_dimensions(&self.logo) {
            Ok(wh) => wh,
            Err(e) => {
                return Err(e);
            },
        };
        crate::geometry::scale_to_height(w, h, LOGO_HEIGHT)
    }

    /// Build the address-block cell.
    fn render_document_info(&self) -> (c: Cell)
        ensures
            is_header_info_cell(c, *self),
    {
        let mut cell = Cell::new();
        let mut name_p = Paragraph::new_with_text(self.addressed_to.name.as_str());
        name_p.set_bold();
        cell.add(name_p);
        if let Some(department) = &self.addressed_to.department {
            let line = concat3("T.a.v", " ", department.as_str());
            cell.add(Paragraph::from_string(line));
        }
        let street_line = concat3(
            self.addressed_to.address.street.as_str(),
            " ",
            self.addressed_to.address.number.as_str(),
        );
        cell.add(Paragraph::from_string(street_line));
        let city_line = concat3(
            self.addressed_to.address.zipcode.as_str(),
            " ",
            self.addressed_to.address.city.as_str(),
        );
        cell.add(Paragraph::from_string(city_line));
        cell.add(Paragraph::new_with_text(self.addressed_to.address.country.as_str()));
        if let Some(vat) = &self.addressed_to.vat_number {
            cell.add(Paragraph::new_with_text(vat.as_str()));
        }
        let mut s = concat2(self.seller.name.as_str(), ", ");
        s.append(self.seller.address.street.as_str());
        s.append(" ");
        s.append(self.seller.address.number.as_str());
        s.append(", ");
        s.append(self.seller.address.zipcode.as_str());
        s.append(", ");
        s.append(self.seller.address.city.as_str());
        let mut seller_p = Paragraph::from_string(s);
        seller_p.set_font_size(9);
        seller_p.set_italic();
        cell.add(seller_p);
        cell
    }

    /// Build the logo cell around the registered image resource.
    fn render_logo(&self, resource: usize) -> (r: Result<Cell, Error>)
        ensures
            match r {
                Ok(c) => {
                    &&& is_png(self.logo@)
                    &&& be32(self.logo@, 20) != 0
                    &&& is_logo_cell(
                        c,
                        resource as int,
                        be32(self.logo@, 16),
                        be32(self.logo@, 20),
                    )
                },
                Err(e) => {
                    &&& if !is_png(self.logo@) {
                        e == Error::UnsupportedImageFormat
                    } else {
                        e == Error::DivisionByZero && be32(self.logo@, 20) == 0
                    }
                },
            },
    {
        let (w, h) = match crate::image::png_dimensions(&self.logo) {
            Ok(wh) => wh,
            Err(e) => {
                return Err(e);
            },
        };
        let img = match ImageBox::new(resource, w, h, LOGO_HEIGHT) {
            Ok(img) => img,
            Err(e) => {
                return Err(e);
            },
        };
        let mut cell = Cell::new();
        cell.add_image(img);
        cell.set_horizontal_alignment(TextAlign::Right);
        Ok(cell)
    }

    /// Build the document-label cell: the label in large bold type,
    /// right-aligned.
    fn render_document_label(&self) -> (c: Cell)
        ensures
            is_styled_text_cell(
                c,
                self.label@,
                (StyleSet {
                    font_size: Some(24u32),
                    bold: Some(true),
                    align: Some(TextAlign::Right),
                    ..StyleSet::spec_empty()
                }),
                BorderSpec::NoBorder,
                BorderSpec::NoBorder,
            ),
    {
        let mut p = Paragraph::new_with_text(self.label.as_str());
        p.set_bold();
        p.set_text_alignment(TextAlign::Right);
        p.set_font_size(24);
        let mut cell = Cell::new();
        cell.add(p);
        cell
    }

    /// Render the header: register the logo bytes as an image resource
    /// and append the 8:2 header table to the document flow.
    ///
    /// Fails with `UnsupportedImageFormat` if and only if the logo is
    /// not a PNG payload, then with `DivisionByZero` if and only if its
    /// intrinsic height is zero, then with `DocumentClosedError` if and
    /// only if the document is closed; the document is then unchanged.
    pub fn render(&self, target: &mut RenderTarget) -> (r: Result<(), Error>)
        requires
            old(target).wf(),
        ensures
            final(target).wf(),
            match r {
                Ok(()) => {
                    &&& is_png(self.logo@)
                    &&& be32(self.logo@, 20) != 0
                    &&& !old(target).closed
                    &&& final(target).geom == old(target).geom
                    &&& final(target).base_style == old(target).base_style
                    &&& final(target).font == old(target).font
                    &&& final(target).closed == old(target).closed
                    &&& final(target).fixed == old(target).fixed
                    &&& final(target).images@.len() == old(target).images@.len() + 1
                    &&& forall|i: int|
                        0 <= i < old(target).images@.len()
                            ==> #[trigger] final(target).images@[i] == old(target).images@[i]
                    &&& final(target).images@.last()@ == self.logo@
                    &&& final(target).flow@.len() == old(target).flow@.len() + 1
                    &&& forall|i: int|
                        0 <= i < old(target).flow@.len() ==> #[trigger] final(target).flow@[i]
                            == old(target).flow@[i]
                    &&& final(target).flow@.last() matches BoxContent::Table(ft)
                        && is_header_table(ft, *self, old(target).images@.len() as int)
                },
                Err(e) => {
                    &&& *final(target) == *old(target)
                    &&& if !is_png(self.logo@) {
                        e == Error::UnsupportedImageFormat
                    } else if be32(self.logo@, 20) == 0 {
                        e == Error::DivisionByZero
                    } else {
                        e == Error::DocumentClosedError && old(target).closed
                    }
                },
            },
    {
        match self.calculate_logo_size() {
            Ok(_) => (),
            Err(e) => {
                return Err(e);
            },
        }
        let logo_bytes = vstd::slice::slice_to_vec(self.logo.as_slice());
        let resource = match target.add_image_resource(logo_bytes) {
            Ok(idx) => idx,
            Err(e) => {
                return Err(e);
            },
        };
        let mut weights: Vec<u32> = Vec::new();
        weights.push(8);
        weights.push(2);
        proof {
            assert(weights@ =~= seq![8u32, 2u32]);
        }
        let mut table = match Table::new(weights) {
            Ok(t) => t,
            Err(e) => {
                return Err(e);
            },
        };
        if let Err(e) = table.start_new_row() {
            return Err(e);
        }
        if let Err(e) = table.add_cell(self.render_document_info()) {
            return Err(e);
        }
        let logo_cell = match self.render_logo(resource) {
            Ok(c) => c,
            Err(e) => {
                return Err(e);
            },
        };
        if let Err(e) = table.add_cell(logo_cell) {
            return Err(e);
        }
        if let Err(e) = table.start_new_row() {
            return Err(e);
        }
        if let Err(e) = table.add_cell(crate::table::spacer_cell()) {
            return Err(e);
        }
        if let Err(e) = table.add_cell(self.render_document_label()) {
            return Err(e);
        }
        let ghost tsnap = table;
        match target.add(table) {
            Ok(()) => {
                proof {
                    let ft = target.flow@.last()->Table_0;
                    assert(is_padded_form(ft, tsnap));
                    assert(ft.rows@[0].cells@.len() == 2);
                    assert(ft.rows@[1].cells@.len() == 2);
                    assert(ft.rows@[0].cells@[0] == tsnap.rows@[0].cells@[0]);
                    assert(ft.rows@[0].cells@[1] == tsnap.rows@[0].cells@[1]);
                    assert(ft.rows@[1].cells@[0] == tsnap.rows@[1].cells@[0]);
                    assert(ft.rows@[1].cells@[1] == tsnap.rows@[1].cells@[1]);
                }
                Ok(())
            },
            Err(e) => Err(e),
        }
    }
}

} // verus!
