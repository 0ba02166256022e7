//! Shipment notices: a self-contained document — customer block and
//! logo, shipment reference block, articles table, and a seller footer —
//! laid out and serialized in one call.

use vstd::prelude::*;

use crate::color::gray;
use crate::color::spec_gray;
use crate::color::spec_parse_hex_color;
use crate::color::valid_hex_color;
use crate::error::Error;
use crate::geometry::spec_scaled_width;
use crate::image::be32;
use crate::image::is_png;
use crate::image::ImageBox;
use crate::invoice::black_border;
use crate::invoice::bold_style;
use crate::invoice::is_bold_text_cell;
use crate::render_target::spec_document_cmds;
use crate::render_target::DocumentConfiguration;
use crate::render_target::FinishedDocument;
use crate::render_target::RenderTarget;
use crate::render_target::DEFAULT_FONT_SIZE;
use crate::style::BorderSpec;
use crate::style::StyleSet;
use crate::style::TextAlign;
use crate::table::is_bordered_empty_cell;
use crate::table::is_empty_cell;
use crate::table::is_padded_form;
use crate::table::is_plain_text_cell;
use crate::table::is_spacer_cell;
use crate::table::is_styled_text_cell;
use crate::table::is_text_item;
use crate::table::plain_text_cell;
use crate::table::spacer_cell;
use crate::table::styled_text_cell;
use crate::table::BoxContent;
use crate::table::Cell;
use crate::table::CellItem;
use crate::table::FixedScope;
use crate::table::Paragraph;
use crate::table::Table;
use crate::text::concat3;
use crate::text::dec_rep;
use crate::draw::views_of;

verus! {

/// The height of the logo on the document.
pub const SHIPMENT_LOGO_HEIGHT: u32 = 100;

/// The font size of the footer's company information.
pub const FOOTER_FONT_SIZE: u32 = 7;

/// A shipment notice.
#[derive(Debug)]
pub struct Shipment {
    /// The shipped articles.
    pub items: Vec<Article>,
    /// The customer the shipment goes to.
    pub customer: CustomerInfo,
    /// The seller sending the shipment.
    pub seller: SellerInfo,
    /// The date of the notice.
    pub date: String,
    /// The seller's reference.
    pub reference_id: String,
    /// The order ID.
    pub order_id: String,
    /// The ID of this shipment.
    pub shipment_id: String,
    /// The expected delivery date.
    pub deliver_date: String,
}

/// The customer address block.
#[derive(Debug)]
pub struct CustomerInfo {
    pub company_name: String,
    pub customer_name: String,
    pub address1: String,
    pub address2: String,
}

/// The seller's company information.
#[derive(Debug)]
pub struct SellerInfo {
    pub company_name: String,
    pub address: String,
    pub telephone: String,
    pub email: String,
    pub website: String,
    pub iban: String,
    pub bic: String,
    pub kvk: String,
    pub btw: String,
    pub mailbox: String,
    /// The company logo (a PNG payload).
    pub logo: Vec<u8>,
    /// Hexadecimal `#RRGGBB` color for the company name in the footer.
    pub footer_company_name_color_hex: String,
}

/// An article in the shipment.
#[derive(Debug)]
pub struct Article {
    pub identifier: String,
    pub description: String,
    pub quantity_ordered: u32,
    pub quantity_delivered: u32,
    pub quantity_backorder: u32,
}

/// The explicit style of footer company-information text: small and
/// gray.
pub open spec fn footer_info_style() -> StyleSet {
    StyleSet {
        font_size: Some(FOOTER_FONT_SIZE),
        font_color: Some(spec_gray()),
        ..StyleSet::spec_empty()
    }
}

/// `c` is the customer block: the customer's company name in bold, two
/// address lines, and the seller summary in small italics.
pub open spec fn is_customer_cell(c: Cell, s: Shipment) -> bool {
    &&& c.style == StyleSet::spec_empty()
    &&& c.border_top == BorderSpec::NoBorder
    &&& c.border_right == BorderSpec::NoBorder
    &&& c.border_bottom == BorderSpec::NoBorder
    &&& c.border_left == BorderSpec::NoBorder
    &&& c.height.is_none()
    &&& c.items@.len() == 4
    &&& is_text_item(c.items@[0], s.customer.company_name@, bold_style())
    &&& is_text_item(c.items@[1], s.customer.address1@, StyleSet::spec_empty())
    &&& is_text_item(c.items@[2], s.customer.address2@, StyleSet::spec_empty())
    &&& is_text_item(
        c.items@[3],
        s.seller.company_name@ + ", "@ + s.seller.address@,
        (StyleSet { font_size: Some(9u32), italic: Some(true), ..StyleSet::spec_empty() }),
    )
}

/// `c` is the logo cell of the shipment head.
pub open spec fn is_shipment_logo_cell(c: Cell, s: Shipment, resource: int) -> bool {
    &&& c.style == (StyleSet { align: Some(TextAlign::Right), ..StyleSet::spec_empty() })
    &&& c.border_top == BorderSpec::NoBorder
    &&& c.border_right == BorderSpec::NoBorder
    &&& c.border_bottom == BorderSpec::NoBorder
    &&& c.border_left == BorderSpec::NoBorder
    &&& c.height.is_none()
    &&& c.items@.len() == 1
    &&& c.items@[0] matches CellItem::Image(img) && img.resource == resource && img.intrinsic_w
        == be32(s.seller.logo@, 16) && img.intrinsic_h == be32(s.seller.logo@, 20)
        && img.display_h == SHIPMENT_LOGO_HEIGHT && img.display_w == spec_scaled_width(
        be32(s.seller.logo@, 16),
        be32(s.seller.logo@, 20),
        SHIPMENT_LOGO_HEIGHT as int,
    )
}

/// `t` is the head table: the customer block beside the logo, then a
/// spacer beside the document label.
pub open spec fn is_shipment_head_table(t: Table, s: Shipment, resource: int) -> bool {
    &&& t.weights@ == seq![8u32, 2u32]
    &&& t.style == StyleSet::spec_empty()
    &&& t.fixed.is_none()
    &&& t.sealed
    &&& t.complete()
    &&& t.rows@.len() == 2
    &&& t.rows@[0].cells@.len() == 2
    &&& t.rows@[1].cells@.len() == 2
    &&& is_customer_cell(t.rows@[0].cells@[0], s)
    &&& is_shipment_logo_cell(t.rows@[0].cells@[1], s, resource)
    &&& is_spacer_cell(t.rows@[1].cells@[0])
    &&& is_styled_text_cell(
        t.rows@[1].cells@[1],
        "Pakbon"@,
        (StyleSet {
            font_size: Some(24u32),
            bold: Some(true),
            align: Some(TextAlign::Right),
            ..StyleSet::spec_empty()
        }),
        BorderSpec::NoBorder,
        BorderSpec::NoBorder,
    )
}

/// `t` is the shipment reference block: a ruled five-column block
/// carrying the order reference, delivery date, order number and
/// shipment number, closed by a spacer row.
pub open spec fn is_shipment_info_table(t: Table, s: Shipment) -> bool {
    &&& t.weights@ == seq![1u32, 1u32, 1u32, 1u32, 1u32]
    &&& t.style == StyleSet::spec_empty()
    &&& t.fixed.is_none()
    &&& t.sealed
    &&& t.complete()
    &&& t.rows@.len() == 4
    &&& t.rows@[0].cells@.len() == 5
    &&& t.rows@[1].cells@.len() == 5
    &&& t.rows@[2].cells@.len() == 5
    &&& t.rows@[3].cells@.len() == 5
    &&& is_bold_text_cell(t.rows@[0].cells@[0], "Betreft: "@)
    &&& is_plain_text_cell(t.rows@[0].cells@[1], "Bestelling #:"@ + " "@ + s.reference_id@)
    &&& is_bordered_empty_cell(t.rows@[0].cells@[2], BorderSpec::NoBorder, BorderSpec::NoBorder)
    &&& is_bordered_empty_cell(t.rows@[0].cells@[3], BorderSpec::NoBorder, BorderSpec::NoBorder)
    &&& is_bordered_empty_cell(t.rows@[0].cells@[4], BorderSpec::NoBorder, BorderSpec::NoBorder)
    &&& is_styled_text_cell(
        t.rows@[1].cells@[0],
        "Onze referentie"@,
        bold_style(),
        black_border(),
        BorderSpec::NoBorder,
    )
    &&& is_bordered_empty_cell(t.rows@[1].cells@[1], black_border(), BorderSpec::NoBorder)
    &&& is_styled_text_cell(
        t.rows@[1].cells@[2],
        "Afleverdatum"@,
        bold_style(),
        black_border(),
        BorderSpec::NoBorder,
    )
    &&& is_styled_text_cell(
        t.rows@[1].cells@[3],
        "Ordernummer"@,
        bold_style(),
        black_border(),
        BorderSpec::NoBorder,
    )
    &&& is_styled_text_cell(
        t.rows@[1].cells@[4],
        "Pakbonnummer"@,
        bold_style(),
        black_border(),
        BorderSpec::NoBorder,
    )
    &&& is_styled_text_cell(
        t.rows@[2].cells@[0],
        "Bestelling #:"@ + " "@ + s.reference_id@,
        StyleSet::spec_empty(),
        BorderSpec::NoBorder,
        black_border(),
    )
    &&& is_bordered_empty_cell(t.rows@[2].cells@[1], BorderSpec::NoBorder, black_border())
    &&& is_styled_text_cell(
        t.rows@[2].cells@[2],
        s.deliver_date@,
        StyleSet::spec_empty(),
        BorderSpec::NoBorder,
        black_border(),
    )
    &&& is_styled_text_cell(
        t.rows@[2].cells@[3],
        s.order_id@,
        StyleSet::spec_empty(),
        BorderSpec::NoBorder,
        black_border(),
    )
    &&& is_styled_text_cell(
        t.rows@[2].cells@[4],
        s.shipment_id@,
        StyleSet::spec_empty(),
        BorderSpec::NoBorder,
        black_border(),
    )
    &&& forall|j: int| 0 <= j < 5 ==> is_spacer_cell(#[trigger] t.rows@[3].cells@[j])
}

/// `cells` is one article row of the shipment.
pub open spec fn is_shipment_article_row(cells: Seq<Cell>, order_id: Seq<char>, a: Article) -> bool {
    &&& cells.len() == 6
    &&& is_plain_text_cell(cells[0], order_id)
    &&& is_plain_text_cell(cells[1], a.identifier@)
    &&& is_plain_text_cell(cells[2], a.description@)
    &&& is_plain_text_cell(cells[3], dec_rep(a.quantity_delivered as nat))
    &&& is_plain_text_cell(cells[4], dec_rep(a.quantity_ordered as nat))
    &&& is_plain_text_cell(cells[5], dec_rep(a.quantity_backorder as nat))
}

/// `t` is the shipment articles table: a ruled header row and one row
/// per article.
pub open spec fn is_shipment_articles_table(t: Table, s: Shipment) -> bool {
    &&& t.weights@ == seq![1u32, 1u32, 2u32, 1u32, 1u32, 1u32]
    &&& t.style == StyleSet::spec_empty()
    &&& t.fixed.is_none()
    &&& t.sealed
    &&& t.complete()
    &&& t.rows@.len() == 1 + s.items@.len()
    &&& is_styled_text_cell(
        t.rows@[0].cells@[0],
        "Order nummer"@,
        bold_style(),
        BorderSpec::NoBorder,
        black_border(),
    )
    &&& is_styled_text_cell(
        t.rows@[0].cells@[1],
        "Artikel"@,
        bold_style(),
        BorderSpec::NoBorder,
        black_border(),
    )
    &&& is_styled_text_cell(
        t.rows@[0].cells@[2],
        "Omschrijving"@,
        bold_style(),
        BorderSpec::NoBorder,
        black_border(),
    )
    &&& is_styled_text_cell(
        t.rows@[0].cells@[3],
        "Aantal geleverd"@,
        bold_style(),
        BorderSpec::NoBorder,
        black_border(),
    )
    &&& is_styled_text_cell(
        t.rows@[0].cells@[4],
        "Aantal besteld"@,
        bold_style(),
        BorderSpec::NoBorder,
        black_border(),
    )
    &&& is_styled_text_cell(
        t.rows@[0].cells@[5],
        "Aantal backorder"@,
        bold_style(),
        BorderSpec::NoBorder,
        black_border(),
    )
    &&& forall|i: int|
        1 <= i < t.rows@.len() ==> is_shipment_article_row(
            #[trigger] t.rows@[i].cells@,
            s.order_id@,
            s.items@[i - 1],
        )
}

/// `t` is the seller footer: the company name in size 9 and its
/// configured color over two rows of small gray company information.
pub open spec fn is_shipment_footer_table(t: Table, s: Shipment) -> bool {
    &&& t.weights@ == seq![1u32, 1u32, 1u32, 1u32]
    &&& t.style == StyleSet::spec_empty()
    &&& t.sealed
    &&& t.complete()
    &&& t.rows@.len() == 3
    &&& t.rows@[0].cells@.len() == 4
    &&& t.rows@[1].cells@.len() == 4
    &&& t.rows@[2].cells@.len() == 4
    &&& is_styled_text_cell(
        t.rows@[0].cells@[0],
        s.seller.company_name@,
        (StyleSet {
            font_size: Some((FOOTER_FONT_SIZE + 2) as u32),
            font_color: Some(spec_parse_hex_color(s.seller.footer_company_name_color_hex@)),
            ..StyleSet::spec_empty()
        }),
        BorderSpec::NoBorder,
        BorderSpec::NoBorder,
    )
    &&& forall|j: int| 1 <= j < 4 ==> is_empty_cell(#[trigger] t.rows@[0].cells@[j])
    &&& is_styled_text_cell(
        t.rows@[1].cells@[0],
        "Postbus"@ + " "@ + s.seller.mailbox@,
        footer_info_style(),
        BorderSpec::NoBorder,
        BorderSpec::NoBorder,
    )
    &&& is_styled_text_cell(
        t.rows@[1].cells@[1],
        s.seller.email@,
        footer_info_style(),
        BorderSpec::NoBorder,
        BorderSpec::NoBorder,
    )
    &&& is_styled_text_cell(
        t.rows@[1].cells@[2],
        "IBAN"@ + " "@ + s.seller.iban@,
        footer_info_style(),
        BorderSpec::NoBorder,
        BorderSpec::NoBorder,
    )
    &&& is_styled_text_cell(
        t.rows@[1].cells@[3],
        "KvK"@ + " "@ + s.seller.kvk@,
        footer_info_style(),
        BorderSpec::NoBorder,
        BorderSpec::NoBorder,
    )
    &&& is_styled_text_cell(
        t.rows@[2].cells@[0],
        "T"@ + " "@ + s.seller.telephone@,
        footer_info_style(),
        BorderSpec::NoBorder,
        BorderSpec::NoBorder,
    )
    &&& is_styled_text_cell(
        t.rows@[2].cells@[1],
        s.seller.website@,
        footer_info_style(),
        BorderSpec::NoBorder,
        BorderSpec::NoBorder,
    )
    &&& is_styled_text_cell(
        t.rows@[2].cells@[2],
        "BIC"@ + " "@ + s.seller.bic@,
        footer_info_style(),
        BorderSpec::NoBorder,
        BorderSpec::NoBorder,
    )
    &&& is_styled_text_cell(
        t.rows@[2].cells@[3],
        "BTW"@ + " "@ + s.seller.btw@,
        footer_info_style(),
        BorderSpec::NoBorder,
        BorderSpec::NoBorder,
    )
}

/// `t` is the complete shipment document: default page and defaults, no
/// embedded font, the seller logo as the only image resource, the head,
/// reference and articles tables in flow, and the seller footer anchored
/// to the bottom margin of every page.
pub open spec fn shipment_target_shape(s: Shipment, t: RenderTarget) -> bool {
    &&& t.geom == (crate::geometry::PageGeometry {
        page_width: crate::geometry::PAGE_WIDTH,
        page_height: crate::geometry::PAGE_HEIGHT,
        margin_top: crate::render_target::DEFAULT_MARGIN_TOP,
        margin_right: crate::render_target::DEFAULT_MARGIN_RIGHT,
        margin_bottom: crate::render_target::DEFAULT_MARGIN_BOTTOM,
        margin_left: crate::render_target::DEFAULT_MARGIN_LEFT,
    })
    &&& t.base_style == (crate::style::ResolvedStyle {
        font_size: DEFAULT_FONT_SIZE,
        font_color: crate::color::spec_black(),
        bold: false,
        italic: false,
        align: TextAlign::Left,
    })
    &&& t.font.is_none()
    &&& t.images@.len() == 1
    &&& t.images@[0]@ == s.seller.logo@
    &&& t.flow@.len() == 3
    &&& t.flow@[0] matches BoxContent::Table(ht) && is_shipment_head_table(ht, s, 0)
    &&& t.flow@[1] matches BoxContent::Table(it) && is_shipment_info_table(it, s)
    &&& t.flow@[2] matches BoxContent::Table(at) && is_shipment_articles_table(at, s)
    &&& t.fixed@.len() == 1
    &&& t.fixed@[0].0 matches BoxContent::Table(ftb) && is_shipment_footer_table(ftb, s)
    &&& t.fixed@[0].1.offset_left == t.geom.margin_left
    &&& t.fixed@[0].1.offset_bottom == t.geom.margin_bottom
    &&& t.fixed@[0].1.width == t.geom.spec_content_width()
    &&& t.fixed@[0].2 == FixedScope::EveryPage
}

impl Shipment {
    /// Build the head table: customer block and logo, then the document
    /// label.
    fn build_head_table(&self, target: &mut RenderTarget) -> (r: Result<(), Error>)
        requires
            old(target).wf(),
            !old(target).closed,
        ensures
            final(target).wf(),
            final(target).geom == old(target).geom,
            final(target).base_style == old(target).base_style,
            final(target).font == old(target).font,
            final(target).closed == old(target).closed,
            final(target).fixed == old(target).fixed,
            match r {
                Ok(()) => {
                    &&& is_png(self.seller.logo@)
                    &&& be32(self.seller.logo@, 20) != 0
                    &&& final(target).images@.len() == old(target).images@.len() + 1
                    &&& forall|i: int|
                        0 <= i < old(target).images@.len()
                            ==> #[trigger] final(target).images@[i] == old(target).images@[i]
                    &&& final(target).images@.last()@ == self.seller.logo@
                    &&& final(target).flow@.len() == old(target).flow@.len() + 1
                    &&& forall|i: int|
                        0 <= i < old(target).flow@.len() ==> #[trigger] final(target).flow@[i]
                            == old(target).flow@[i]
                    &&& final(target).flow@.last() matches BoxContent::Table(ft)
                        && is_shipment_head_table(ft, *self, old(target).images@.len() as int)
                },
                Err(e) => {
                    &&& *final(target) == *old(target)
                    &&& if !is_png(self.seller.logo@) {
                        e == Error::UnsupportedImageFormat
                    } else {
                        e == Error::DivisionByZero && be32(self.seller.logo@, 20) == 0
                    }
                },
            },
    {
        let (w, h) = match crate::image::png_dimensions(&self.seller.logo) {
            Ok(wh) => wh,
            Err(e) => {
                return Err(e);
            },
        };
        if h == 0 {
            return Err(Error::DivisionByZero);
        }
        let logo_bytes = vstd::slice::slice_to_vec(self.seller.logo.as_slice());
        let resource = match target.add_image_resource(logo_bytes) {
            Ok(idx) => idx,
            Err(e) => {
                return Err(e);
            },
        };
        let img = match ImageBox::new(resource, w, h, SHIPMENT_LOGO_HEIGHT) {
            Ok(img) => img,
            Err(e) => {
                return Err(e);
            },
        };
        let mut customer_cell = Cell::new();
        let mut name_p = Paragraph::new_with_text(self.customer.company_name.as_str());
        name_p.set_bold();
        customer_cell.add(name_p);
        customer_cell.add(Paragraph::new_with_text(self.customer.address1.as_str()));
        customer_cell.add(Paragraph::new_with_text(self.customer.address2.as_str()));
        let seller_line = concat3(
            self.seller.company_name.as_str(),
            ", ",
            self.seller.address.as_str(),
        );
        let mut seller_p = Paragraph::from_string(seller_line);
        seller_p.set_font_size(9);
        seller_p.set_italic();
        customer_cell.add(seller_p);
        let mut logo_cell = Cell::new();
        logo_cell.add_image(img);
        logo_cell.set_horizontal_alignment(TextAlign::Right);
        let mut label_p = Paragraph::new_with_text("Pakbon");
        label_p.set_bold();
        label_p.set_text_alignment(TextAlign::Right);
        label_p.set_font_size(24);
        let mut label_cell = Cell::new();
        label_cell.add(label_p);
        let mut weights: Vec<u32> = Vec::new();
        weights.push(8);
        weights.push(2);
        proof {
            assert(weights@ =~= seq![8u32, 2u32]);
        }
        let mut table = match Table::new(weights) {
            Ok(t) => t,
            Err(e) => {
                return Err(e);
            },
        };
        if let Err(e) = table.start_new_row() {
            return Err(e);
        }
        if let Err(e) = table.add_cell(customer_cell) {
            return Err(e);
        }
        if let Err(e) = table.add_cell(logo_cell) {
            return Err(e);
        }
        if let Err(e) = table.start_new_row() {
            return Err(e);
        }
        if let Err(e) = table.add_cell(spacer_cell()) {
            return Err(e);
        }
        if let Err(e) = table.add_cell(label_cell) {
            return Err(e);
        }
        let ghost tsnap = table;
        match target.add(table) {
            Ok(()) => {
                proof {
                    let ft = target.flow@.last()->Table_0;
                    assert(is_padded_form(ft, tsnap));
                    assert(ft.rows@[0].cells@.len() == 2);
                    assert(ft.rows@[1].cells@.len() == 2);
                    assert(ft.rows@[0].cells@[0] == tsnap.rows@[0].cells@[0]);
                    assert(ft.rows@[0].cells@[1] == tsnap.rows@[0].cells@[1]);
                    assert(ft.rows@[1].cells@[0] == tsnap.rows@[1].cells@[0]);
                    assert(ft.rows@[1].cells@[1] == tsnap.rows@[1].cells@[1]);
                }
                Ok(())
            },
            Err(e) => Err(e),
        }
    }

    /// Build the ruled shipment reference block.
    fn build_info_table(&self, target: &mut RenderTarget) -> (r: Result<(), Error>)
        requires
            old(target).wf(),
            !old(target).closed,
        ensures
            final(target).wf(),
            r is Ok,
            final(target).geom == old(target).geom,
            final(target).base_style == old(target).base_style,
            final(target).font == old(target).font,
            final(target).images == old(target).images,
            final(target).closed == old(target).closed,
            final(target).fixed == old(target).fixed,
            final(target).flow@.len() == old(target).flow@.len() + 1,
            forall|i: int|
                0 <= i < old(target).flow@.len() ==> #[trigger] final(target).flow@[i] == old(
                    target,
                ).flow@[i],
            final(target).flow@.last() matches BoxContent::Table(ft) && is_shipment_info_table(
                ft,
                *self,
            ),
    {
        let border = BorderSpec::Solid { color: crate::color::black(), width: 1 };
        let nb = BorderSpec::NoBorder;
        let bold = crate::style::style_with(None, None, Some(true), None, None);
        let empty = crate::style::StyleSet::empty();
        let mut weights: Vec<u32> = Vec::new();
        weights.push(1);
        weights.push(1);
        weights.push(1);
        weights.push(1);
        weights.push(1);
        proof {
            assert(weights@ =~= seq![1u32, 1u32, 1u32, 1u32, 1u32]);
        }
        let mut table = match Table::new(weights) {
            Ok(t) => t,
            Err(e) => {
                return Err(e);
            },
        };
        let reference = concat3("Bestelling #:", " ", self.reference_id.as_str());
        if let Err(e) = table.start_new_row() {
            return Err(e);
        }
        if let Err(e) = table.add_cell(styled_text_cell("Betreft: ", bold, nb, nb)) {
            return Err(e);
        }
        if let Err(e) = table.add_cell(styled_text_cell(reference.as_str(), empty, nb, nb)) {
            return Err(e);
        }
        if let Err(e) = table.add_cell(crate::table::empty_bordered_cell(nb, nb)) {
            return Err(e);
        }
        if let Err(e) = table.add_cell(crate::table::empty_bordered_cell(nb, nb)) {
            return Err(e);
        }
        if let Err(e) = table.add_cell(crate::table::empty_bordered_cell(nb, nb)) {
            return Err(e);
        }
        if let Err(e) = table.start_new_row() {
            return Err(e);
        }
        if let Err(e) = table.add_cell(styled_text_cell("Onze referentie", bold, border, nb)) {
            return Err(e);
        }
        if let Err(e) = table.add_cell(crate::table::empty_bordered_cell(border, nb)) {
            return Err(e);
        }
        if let Err(e) = table.add_cell(styled_text_cell("Afleverdatum", bold, border, nb)) {
            return Err(e);
        }
        if let Err(e) = table.add_cell(styled_text_cell("Ordernummer", bold, border, nb)) {
            return Err(e);
        }
        if let Err(e) = table.add_cell(styled_text_cell("Pakbonnummer", bold, border, nb)) {
            return Err(e);
        }
        if let Err(e) = table.start_new_row() {
            return Err(e);
        }
        if let Err(e) = table.add_cell(styled_text_cell(reference.as_str(), empty, nb, border)) {
            return Err(e);
        }
        if let Err(e) = table.add_cell(crate::table::empty_bordered_cell(nb, border)) {
            return Err(e);
        }
        if let Err(e) = table.add_cell(
            styled_text_cell(self.deliver_date.as_str(), empty, nb, border),
        ) {
            return Err(e);
        }
        if let Err(e) = table.add_cell(styled_text_cell(self.order_id.as_str(), empty, nb, border))
            {
            return Err(e);
        }
        if let Err(e) = table.add_cell(
            styled_text_cell(self.shipment_id.as_str(), empty, nb, border),
        ) {
            return Err(e);
        }
        if let Err(e) = table.start_new_row() {
            return Err(e);
        }
        if let Err(e) = table.add_cell(spacer_cell()) {
            return Err(e);
        }
        if let Err(e) = table.add_cell(spacer_cell()) {
            return Err(e);
        }
        if let Err(e) = table.add_cell(spacer_cell()) {
            return Err(e);
        }
        if let Err(e) = table.add_cell(spacer_cell()) {
            return Err(e);
        }
        if let Err(e) = table.add_cell(spacer_cell()) {
            return Err(e);
        }
        let ghost tsnap = table;
        match target.add(table) {
            Ok(()) => {
                proof {
                    let ft = target.flow@.last()->Table_0;
                    assert(is_padded_form(ft, tsnap));
                    assert(ft.rows@[0].cells@.len() == 5);
                    assert(ft.rows@[1].cells@.len() == 5);
                    assert(ft.rows@[2].cells@.len() == 5);
                    assert(ft.rows@[3].cells@.len() == 5);
                    assert forall|i: int, j: int|
                        0 <= i < 4 && 0 <= j < 5 implies #[trigger] ft.rows@[i].cells@[j]
                        == tsnap.rows@[i].cells@[j] by {
                        assert(tsnap.rows@[i].cells@.len() == 5);
                    };
                }
                Ok(())
            },
            Err(e) => Err(e),
        }
    }

    /// Build the articles table.
    fn build_articles_table(&self, target: &mut RenderTarget) -> (r: Result<(), Error>)
        requires
            old(target).wf(),
            !old(target).closed,
        ensures
            final(target).wf(),
            r is Ok,
            final(target).geom == old(target).geom,
            final(target).base_style == old(target).base_style,
            final(target).font == old(target).font,
            final(target).images == old(target).images,
            final(target).closed == old(target).closed,
            final(target).fixed == old(target).fixed,
            final(target).flow@.len() == old(target).flow@.len() + 1,
            forall|i: int|
                0 <= i < old(target).flow@.len() ==> #[trigger] final(target).flow@[i] == old(
                    target,
                ).flow@[i],
            final(target).flow@.last() matches BoxContent::Table(ft) && is_shipment_articles_table(
                ft,
                *self,
            ),
    {
        let border = BorderSpec::Solid { color: crate::color::black(), width: 1 };
        let nb = BorderSpec::NoBorder;
        let bold = crate::style::style_with(None, None, Some(true), None, None);
        let mut weights: Vec<u32> = Vec::new();
        weights.push(1);
        weights.push(1);
        weights.push(2);
        weights.push(1);
        weights.push(1);
        weights.push(1);
        proof {
            assert(weights@ =~= seq![1u32, 1u32, 2u32, 1u32, 1u32, 1u32]);
        }
        let mut table = match Table::new(weights) {
            Ok(t) => t,
            Err(e) => {
                return Err(e);
            },
        };
        if let Err(e) = table.start_new_row() {
            return Err(e);
        }
        if let Err(e) = table.add_cell(styled_text_cell("Order nummer", bold, nb, border)) {
            return Err(e);
        }
        if let Err(e) = table.add_cell(styled_text_cell("Artikel", bold, nb, border)) {
            return Err(e);
        }
        if let Err(e) = table.add_cell(styled_text_cell("Omschrijving", bold, nb, border)) {
            return Err(e);
        }
        if let Err(e) = table.add_cell(styled_text_cell("Aantal geleverd", bold, nb, border)) {
            return Err(e);
        }
        if let Err(e) = table.add_cell(styled_text_cell("Aantal besteld", bold, nb, border)) {
            return Err(e);
        }
        if let Err(e) = table.add_cell(styled_text_cell("Aantal backorder", bold, nb, border)) {
            return Err(e);
        }
        let mut i: usize = 0;
        while i < self.items.len()
            invariant
                table.wf(),
                !table.sealed,
                table.fixed.is_none(),
                table.style == StyleSet::spec_empty(),
                table.weights@ == seq![1u32, 1u32, 2u32, 1u32, 1u32, 1u32],
                i <= self.items@.len(),
                table.rows@.len() == 1 + i,
                table.rows@[0].cells@.len() == 6,
                is_styled_text_cell(
                    table.rows@[0].cells@[0],
                    "Order nummer"@,
                    bold_style(),
                    BorderSpec::NoBorder,
                    black_border(),
                ),
                is_styled_text_cell(
                    table.rows@[0].cells@[1],
                    "Artikel"@,
                    bold_style(),
                    BorderSpec::NoBorder,
                    black_border(),
                ),
                is_styled_text_cell(
                    table.rows@[0].cells@[2],
                    "Omschrijving"@,
                    bold_style(),
                    BorderSpec::NoBorder,
                    black_border(),
                ),
                is_styled_text_cell(
                    table.rows@[0].cells@[3],
                    "Aantal geleverd"@,
                    bold_style(),
                    BorderSpec::NoBorder,
                    black_border(),
                ),
                is_styled_text_cell(
                    table.rows@[0].cells@[4],
                    "Aantal besteld"@,
                    bold_style(),
                    BorderSpec::NoBorder,
                    black_border(),
                ),
                is_styled_text_cell(
                    table.rows@[0].cells@[5],
                    "Aantal backorder"@,
                    bold_style(),
                    BorderSpec::NoBorder,
                    black_border(),
                ),
                forall|k: int|
                    1 <= k < table.rows@.len() ==> is_shipment_article_row(
                        #[trigger] table.rows@[k].cells@,
                        self.order_id@,
                        self.items@[k - 1],
                    ),
            decreases self.items@.len() - i,
        {
            if let Err(e) = table.start_new_row() {
                return Err(e);
            }
            if let Err(e) = table.add_cell(plain_text_cell(&self.order_id)) {
                return Err(e);
            }
            if let Err(e) = table.add_cell(plain_text_cell(&self.items[i].identifier)) {
                return Err(e);
            }
            if let Err(e) = table.add_cell(plain_text_cell(&self.items[i].description)) {
                return Err(e);
            }
            let delivered = crate::text::u64_to_string(self.items[i].quantity_delivered as u64);
            if let Err(e) = table.add_cell(plain_text_cell(&delivered)) {
                return Err(e);
            }
            let ordered = crate::text::u64_to_string(self.items[i].quantity_ordered as u64);
            if let Err(e) = table.add_cell(plain_text_cell(&ordered)) {
                return Err(e);
            }
            let backorder = crate::text::u64_to_string(self.items[i].quantity_backorder as u64);
            if let Err(e) = table.add_cell(plain_text_cell(&backorder)) {
                return Err(e);
            }
            i = i + 1;
        }
        let ghost tsnap = table;
        match target.add(table) {
            Ok(()) => {
                proof {
                    let ft = target.flow@.last()->Table_0;
                    assert(is_padded_form(ft, tsnap));
                    assert(ft.rows@[0].cells@.len() == 6);
                    assert forall|j: int| 0 <= j < 6 implies #[trigger] ft.rows@[0].cells@[j]
                        == tsnap.rows@[0].cells@[j] by {
                        assert(tsnap.rows@[0].cells@.len() == 6);
                    };
                    assert forall|k: int| 1 <= k < ft.rows@.len() implies is_shipment_article_row(
                        #[trigger] ft.rows@[k].cells@,
                        self.order_id@,
                        self.items@[k - 1],
                    ) by {
                        assert(tsnap.rows@[k].cells@.len() == 6);
                        assert(ft.rows@[k].cells@.len() == 6);
                        assert forall|j: int| 0 <= j < 6 implies #[trigger] ft.rows@[k].cells@[j]
                            == tsnap.rows@[k].cells@[j] by {};
                        assert(ft.rows@[k].cells@ =~= tsnap.rows@[k].cells@);
                    };
                }
                Ok(())
            },
            Err(e) => Err(e),
        }
    }

    /// Build the seller footer, anchored to the bottom margin of every
    /// page.
    fn build_footer_table(&self, target: &mut RenderTarget) -> (r: Result<(), Error>)
        requires
            old(target).wf(),
            !old(target).closed,
        ensures
            final(target).wf(),
            final(target).geom == old(target).geom,
            final(target).base_style == old(target).base_style,
            final(target).font == old(target).font,
            final(target).images == old(target).images,
            final(target).closed == old(target).closed,
            final(target).flow == old(target).flow,
            match r {
                Ok(()) => {
                    &&& valid_hex_color(self.seller.footer_company_name_color_hex@)
                    &&& final(target).fixed@.len() == old(target).fixed@.len() + 1
                    &&& forall|i: int|
                        0 <= i < old(target).fixed@.len() ==> #[trigger] final(target).fixed@[i]
                            == old(target).fixed@[i]
                    &&& final(target).fixed@.last().1.offset_left == old(target).geom.margin_left
                    &&& final(target).fixed@.last().1.offset_bottom == old(
                        target,
                    ).geom.margin_bottom
                    &&& final(target).fixed@.last().1.width == old(
                        target,
                    ).geom.spec_content_width()
                    &&& final(target).fixed@.last().2 == FixedScope::EveryPage
                    &&& final(target).fixed@.last().0 matches BoxContent::Table(ft)
                        && is_shipment_footer_table(ft, *self)
                },
                Err(e) => {
                    &&& *final(target) == *old(target)
                    &&& e == Error::InvalidColorFormat && !valid_hex_color(
                        self.seller.footer_company_name_color_hex@,
                    )
                },
            },
    {
        let company_name_color = match crate::color::parse_hex_color(
            self.seller.footer_company_name_color_hex.as_str(),
        ) {
            Ok(c) => c,
            Err(e) => {
                return Err(e);
            },
        };
        let nb = BorderSpec::NoBorder;
        let info = crate::style::style_with(Some(FOOTER_FONT_SIZE), Some(gray()), None, None, None);
        let mut weights: Vec<u32> = Vec::new();
        weights.push(1);
        weights.push(1);
        weights.push(1);
        weights.push(1);
        proof {
            assert(weights@ =~= seq![1u32, 1u32, 1u32, 1u32]);
        }
        let mut table = match Table::new(weights) {
            Ok(t) => t,
            Err(e) => {
                return Err(e);
            },
        };
        let pos = target.geom.footer_position();
        if let Err(e) = table.set_fixed_position(pos, FixedScope::EveryPage) {
            return Err(e);
        }
        if let Err(e) = table.start_new_row() {
            return Err(e);
        }
        if let Err(e) = table.add_cell(
            styled_text_cell(
                self.seller.company_name.as_str(),
                crate::style::style_with(
                    Some(FOOTER_FONT_SIZE + 2),
                    Some(company_name_color),
                    None,
                    None,
                    None,
                ),
                nb,
                nb,
            ),
        ) {
            return Err(e);
        }
        if let Err(e) = table.add_cell(Cell::new()) {
            return Err(e);
        }
        if let Err(e) = table.add_cell(Cell::new()) {
            return Err(e);
        }
        if let Err(e) = table.add_cell(Cell::new()) {
            return Err(e);
        }
        if let Err(e) = table.start_new_row() {
            return Err(e);
        }
        let postbus = concat3("Postbus", " ", self.seller.mailbox.as_str());
        if let Err(e) = table.add_cell(styled_text_cell(postbus.as_str(), info, nb, nb)) {
            return Err(e);
        }
        if let Err(e) = table.add_cell(styled_text_cell(self.seller.email.as_str(), info, nb, nb))
            {
            return Err(e);
        }
        let iban = concat3("IBAN", " ", self.seller.iban.as_str());
        if let Err(e) = table.add_cell(styled_text_cell(iban.as_str(), info, nb, nb)) {
            return Err(e);
        }
        let kvk = concat3("KvK", " ", self.seller.kvk.as_str());
        if let Err(e) = table.add_cell(styled_text_cell(kvk.as_str(), info, nb, nb)) {
            return Err(e);
        }
        if let Err(e) = table.start_new_row() {
            return Err(e);
        }
        let telephone = concat3("T", " ", self.seller.telephone.as_str());
        if let Err(e) = table.add_cell(styled_text_cell(telephone.as_str(), info, nb, nb)) {
            return Err(e);
        }
        if let Err(e) = table.add_cell(
            styled_text_cell(self.seller.website.as_str(), info, nb, nb),
        ) {
            return Err(e);
        }
        let bic = concat3("BIC", " ", self.seller.bic.as_str());
        if let Err(e) = table.add_cell(styled_text_cell(bic.as_str(), info, nb, nb)) {
            return Err(e);
        }
        let btw = concat3("BTW", " ", self.seller.btw.as_str());
        if let Err(e) = table.add_cell(styled_text_cell(btw.as_str(), info, nb, nb)) {
            return Err(e);
        }
        let ghost tsnap = table;
        match target.add(table) {
            Ok(()) => {
                proof {
                    let ft = target.fixed@.last().0->Table_0;
                    assert(is_padded_form(ft, tsnap));
                    assert(ft.rows@[0].cells@.len() == 4);
                    assert(ft.rows@[1].cells@.len() == 4);
                    assert(ft.rows@[2].cells@.len() == 4);
                    assert forall|i: int, j: int|
                        0 <= i < 3 && 0 <= j < 4 implies #[trigger] ft.rows@[i].cells@[j]
                        == tsnap.rows@[i].cells@[j] by {
                        assert(tsnap.rows@[i].cells@.len() == 4);
                    };
                }
                Ok(())
            },
            Err(e) => Err(e),
        }
    }

    /// Assemble the complete shipment document on a fresh default render
    /// target.
    ///
    /// Fails with `UnsupportedImageFormat` if and only if the seller
    /// logo is not a PNG payload, then with `DivisionByZero` if and only
    /// if its intrinsic height is zero, then with `InvalidColorFormat`
    /// if and only if the footer color is not of the form `#RRGGBB`.
    pub fn build_document(&self) -> (r: Result<RenderTarget, Error>)
        ensures
            match r {
                Ok(t) => t.wf() && !t.closed && shipment_target_shape(*self, t),
                Err(e) => {
                    ||| (e == Error::UnsupportedImageFormat && !is_png(self.seller.logo@))
                    ||| (e == Error::DivisionByZero && is_png(self.seller.logo@) && be32(
                        self.seller.logo@,
                        20,
                    ) == 0)
                    ||| (e == Error::InvalidColorFormat && !valid_hex_color(
                        self.seller.footer_company_name_color_hex@,
                    ))
                },
            },
    {
        let config = DocumentConfiguration { font_family: None, font_size: None };
        let mut target = match RenderTarget::new(config) {
            Ok(t) => t,
            Err(e) => {
                return Err(e);
            },
        };
        if let Err(e) = self.build_head_table(&mut target) {
            return Err(e);
        }
        if let Err(e) = self.build_info_table(&mut target) {
            return Err(e);
        }
        if let Err(e) = self.build_articles_table(&mut target) {
            return Err(e);
        }
        if let Err(e) = self.build_footer_table(&mut target) {
            return Err(e);
        }
        Ok(target)
    }

    /// Render the shipment notice: assemble the document, close it, and
    /// serialize it into the draw-command stream with the seller logo as
    /// its embedded image resource.
    ///
    /// Fails with `UnsupportedImageFormat` if and only if the seller
    /// logo is not a PNG payload, then with `DivisionByZero` if and only
    /// if its intrinsic height is zero, then with `InvalidColorFormat`
    /// if and only if the footer color is not of the form `#RRGGBB`.
    pub fn render(&self) -> (r: Result<FinishedDocument, Error>)
        ensures
            match r {
                Ok(d) => exists|t: RenderTarget|
                    {
                        &&& #[trigger] shipment_target_shape(*self, t)
                        &&& views_of(d.commands@) == spec_document_cmds(
                            t.flow@,
                            t.fixed@,
                            t.geom,
                            t.base_style,
                        )
                        &&& d.font == t.font
                        &&& d.images == t.images
                    },
                Err(e) => {
                    ||| (e == Error::UnsupportedImageFormat && !is_png(self.seller.logo@))
                    ||| (e == Error::DivisionByZero && is_png(self.seller.logo@) && be32(
                        self.seller.logo@,
                        20,
                    ) == 0)
                    ||| (e == Error::InvalidColorFormat && !valid_hex_color(
                        self.seller.footer_company_name_color_hex@,
                    ))
                },
            },
    {
        let mut target = match self.build_document() {
            Ok(t) => t,
            Err(e) => {
                return Err(e);
            },
        };
        let ghost witness = target;
        if let Err(e) = target.close() {
            return Err(e);
        }
        let d = target.finish();
        proof {
            assert(shipment_target_shape(*self, witness));
            assert(views_of(d.commands@) == spec_document_cmds(
                witness.flow@,
                witness.fixed@,
                witness.geom,
                witness.base_style,
            ));
        }
        Ok(d)
    }
}

} // verus!
