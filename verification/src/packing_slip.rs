//! Packing slips: delivery reference block and the articles table with
//! ordered, delivered and backorder quantities.

use vstd::prelude::*;

use crate::error::Error;
use crate::footer::is_footer_table;
use crate::footer::Footer;
use crate::header::is_header_table;
use crate::header::Header;
use crate::image::be32;
use crate::image::is_png;
use crate::invoice::black_border;
use crate::invoice::bold_style;
use crate::invoice::is_bold_text_cell;
use crate::render_target::RenderTarget;
use crate::style::BorderSpec;
use crate::style::StyleSet;
use crate::table::is_bordered_empty_cell;
use crate::table::is_padded_form;
use crate::table::is_plain_text_cell;
use crate::table::is_spacer_cell;
use crate::table::is_styled_text_cell;
use crate::table::plain_text_cell;
use crate::table::spacer_cell;
use crate::table::styled_text_cell;
use crate::table::BoxContent;
use crate::table::FixedScope;
use crate::table::Table;
use crate::table::Cell;
use crate::text::dec_rep;
use crate::color::valid_hex_color;

verus! {

/// A packing slip to be laid out.
#[derive(Debug)]
pub struct PackingSlip {
    /// Items to be included in the shipment.
    pub items: Vec<ArticlePackingInfo>,
    /// The document header.
    pub header: Header,
    /// The document footer.
    pub footer: Footer,
    /// The seller's reference.
    pub reference_id: String,
    /// The order ID.
    pub order_id: String,
    /// The ID of this packing slip.
    pub packing_slip_id: String,
    /// The expected delivery date.
    pub delivery_date: String,
}

/// Information about an article included in the shipment.
#[derive(Debug)]
pub struct ArticlePackingInfo {
    /// The article ID.
    pub identifier: String,
    /// Short description of the item (the item's name).
    pub description: String,
    /// The amount ordered by the customer.
    pub quantity_ordered: u32,
    /// The amount that will be delivered in this shipment.
    pub quantity_delivered: u32,
    /// The amount on backorder.
    pub quantity_backorder: u32,
}

/// `t` is the delivery reference block of `ps`: a ruled five-column
/// block carrying the order reference, delivery date, order number and
/// packing slip number, closed by a spacer row.
pub open spec fn is_packing_info_table(t: Table, ps: PackingSlip) -> bool {
    &&& t.weights@ == seq![1u32, 1u32, 1u32, 1u32, 1u32]
    &&& t.style == StyleSet::spec_empty()
    &&& t.fixed.is_none()
    &&& t.sealed
    &&& t.complete()
    &&& t.rows@.len() == 4
    &&& t.rows@[0].cells@.len() == 5
    &&& t.rows@[1].cells@.len() == 5
    &&& t.rows@[2].cells@.len() == 5
    &&& t.rows@[3].cells@.len() == 5
    &&& is_bold_text_cell(t.rows@[0].cells@[0], "Betreft: "@)
    &&& is_plain_text_cell(t.rows@[0].cells@[1], "Bestelling #:"@ + " "@ + ps.reference_id@)
    &&& is_bordered_empty_cell(t.rows@[0].cells@[2], BorderSpec::NoBorder, BorderSpec::NoBorder)
    &&& is_bordered_empty_cell(t.rows@[0].cells@[3], BorderSpec::NoBorder, BorderSpec::NoBorder)
    &&& is_bordered_empty_cell(t.rows@[0].cells@[4], BorderSpec::NoBorder, BorderSpec::NoBorder)
    &&& is_styled_text_cell(
        t.rows@[1].cells@[0],
        "Onze referentie"@,
        bold_style(),
        black_border(),
        BorderSpec::NoBorder,
    )
    &&& is_bordered_empty_cell(t.rows@[1].cells@[1], black_border(), BorderSpec::NoBorder)
    &&& is_styled_text_cell(
        t.rows@[1].cells@[2],
        "Afleverdatum"@,
        bold_style(),
        black_border(),
        BorderSpec::NoBorder,
    )
    &&& is_styled_text_cell(
        t.rows@[1].cells@[3],
        "Order nummer"@,
        bold_style(),
        black_border(),
        BorderSpec::NoBorder,
    )
    &&& is_styled_text_cell(
        t.rows@[1].cells@[4],
        "Pakbonnummer"@,
        bold_style(),
        black_border(),
        BorderSpec::NoBorder,
    )
    &&& is_styled_text_cell(
        t.rows@[2].cells@[0],
        "Bestelling #:"@ + " : "@ + ps.reference_id@,
        StyleSet::spec_empty(),
        BorderSpec::NoBorder,
        black_border(),
    )
    &&& is_bordered_empty_cell(t.rows@[2].cells@[1], BorderSpec::NoBorder, black_border())
    &&& is_styled_text_cell(
        t.rows@[2].cells@[2],
        ps.delivery_date@,
        StyleSet::spec_empty(),
        BorderSpec::NoBorder,
        black_border(),
    )
    &&& is_styled_text_cell(
        t.rows@[2].cells@[3],
        ps.order_id@,
        StyleSet::spec_empty(),
        BorderSpec::NoBorder,
        black_border(),
    )
    &&& is_styled_text_cell(
        t.rows@[2].cells@[4],
        ps.packing_slip_id@,
        StyleSet::spec_empty(),
        BorderSpec::NoBorder,
        black_border(),
    )
    &&& forall|j: int| 0 <= j < 5 ==> is_spacer_cell(#[trigger] t.rows@[3].cells@[j])
}

/// `cells` is the articles-table header row: six bottom-ruled bold
/// labels.
pub open spec fn is_articles_header_row(cells: Seq<Cell>) -> bool {
    &&& cells.len() == 6
    &&& is_styled_text_cell(
        cells[0],
        "Order nummer"@,
        bold_style(),
        BorderSpec::NoBorder,
        black_border(),
    )
    &&& is_styled_text_cell(
        cells[1],
        "Artikel"@,
        bold_style(),
        BorderSpec::NoBorder,
        black_border(),
    )
    &&& is_styled_text_cell(
        cells[2],
        "Omschrijving"@,
        bold_style(),
        BorderSpec::NoBorder,
        black_border(),
    )
    &&& is_styled_text_cell(
        cells[3],
        "Aantal geleverd"@,
        bold_style(),
        BorderSpec::NoBorder,
        black_border(),
    )
    &&& is_styled_text_cell(
        cells[4],
        "Aantal besteld"@,
        bold_style(),
        BorderSpec::NoBorder,
        black_border(),
    )
    &&& is_styled_text_cell(
        cells[5],
        "Aantal backorder"@,
        bold_style(),
        BorderSpec::NoBorder,
        black_border(),
    )
}

/// `cells` is one article row: the order number, the article, its
/// description, and the delivered, ordered and backorder quantities in
/// decimal.
pub open spec fn is_article_row(cells: Seq<Cell>, order_id: Seq<char>, a: ArticlePackingInfo) -> bool {
    &&& cells.len() == 6
    &&& is_plain_text_cell(cells[0], order_id)
    &&& is_plain_text_cell(cells[1], a.identifier@)
    &&& is_plain_text_cell(cells[2], a.description@)
    &&& is_plain_text_cell(cells[3], dec_rep(a.quantity_delivered as nat))
    &&& is_plain_text_cell(cells[4], dec_rep(a.quantity_ordered as nat))
    &&& is_plain_text_cell(cells[5], dec_rep(a.quantity_backorder as nat))
}

/// `t` is the articles table of `ps`: the ruled header row and one row
/// per article.
pub open spec fn is_articles_table(t: Table, ps: PackingSlip) -> bool {
    &&& t.weights@ == seq![1u32, 1u32, 2u32, 1u32, 1u32, 1u32]
    &&& t.style == StyleSet::spec_empty()
    &&& t.fixed.is_none()
    &&& t.sealed
    &&& t.complete()
    &&& t.rows@.len() == 1 + ps.items@.len()
    &&& is_articles_header_row(t.rows@[0].cells@)
    &&& forall|i: int|
        1 <= i < t.rows@.len() ==> is_article_row(
            #[trigger] t.rows@[i].cells@,
            ps.order_id@,
            ps.items@[i - 1],
        )
}

impl PackingSlip {
    /// Build the ruled delivery reference block and append it to the
    /// flow.
    fn render_document_info(&self, target: &mut RenderTarget) -> (r: Result<(), Error>)
        requires
            old(target).wf(),
            !old(target).closed,
        ensures
            final(target).wf(),
            r is Ok,
            final(target).geom == old(target).geom,
            final(target).base_style == old(target).base_style,
            final(target).font == old(target).font,
            final(target).images == old(target).images,
            final(target).closed == old(target).closed,
            final(target).fixed == old(target).fixed,
            final(target).flow@.len() == old(target).flow@.len() + 1,
            forall|i: int|
                0 <= i < old(target).flow@.len() ==> #[trigger] final(target).flow@[i] == old(
                    target,
                ).flow@[i],
            final(target).flow@.last() matches BoxContent::Table(ft) && is_packing_info_table(
                ft,
                *self,
            ),
    {
        let border = BorderSpec::Solid { color: crate::color::black(), width: 1 };
        let nb = BorderSpec::NoBorder;
        let bold = crate::style::style_with(None, None, Some(true), None, None);
        let empty = crate::style::StyleSet::empty();
        let mut weights: Vec<u32> = Vec::new();
        weights.push(1);
        weights.push(1);
        weights.push(1);
        weights.push(1);
        weights.push(1);
        proof {
            assert(weights@ =~= seq![1u32, 1u32, 1u32, 1u32, 1u32]);
        }
        let mut table = match Table::new(weights) {
            Ok(t) => t,
            Err(e) => {
                return Err(e);
            },
        };
        let reference = crate::text::concat3("Bestelling #:", " ", self.reference_id.as_str());
        let reference_ruled = crate::text::concat3(
            "Bestelling #:",
            " : ",
            self.reference_id.as_str(),
        );
        if let Err(e) = table.start_new_row() {
            return Err(e);
        }
        if let Err(e) = table.add_cell(styled_text_cell("Betreft: ", bold, nb, nb)) {
            return Err(e);
        }
        if let Err(e) = table.add_cell(styled_text_cell(reference.as_str(), empty, nb, nb)) {
            return Err(e);
        }
        if let Err(e) = table.add_cell(crate::table::empty_bordered_cell(nb, nb)) {
            return Err(e);
        }
        if let Err(e) = table.add_cell(crate::table::empty_bordered_cell(nb, nb)) {
            return Err(e);
        }
        if let Err(e) = table.add_cell(crate::table::empty_bordered_cell(nb, nb)) {
            return Err(e);
        }
        if let Err(e) = table.start_new_row() {
            return Err(e);
        }
        if let Err(e) = table.add_cell(styled_text_cell("Onze referentie", bold, border, nb)) {
            return Err(e);
        }
        if let Err(e) = table.add_cell(crate::table::empty_bordered_cell(border, nb)) {
            return Err(e);
        }
        if let Err(e) = table.add_cell(styled_text_cell("Afleverdatum", bold, border, nb)) {
            return Err(e);
        }
        if let Err(e) = table.add_cell(styled_text_cell("Order nummer", bold, border, nb)) {
            return Err(e);
        }
        if let Err(e) = table.add_cell(styled_text_cell("Pakbonnummer", bold, border, nb)) {
            return Err(e);
        }
        if let Err(e) = table.start_new_row() {
            return Err(e);
        }
        if let Err(e) = table.add_cell(
            styled_text_cell(reference_ruled.as_str(), empty, nb, border),
        ) {
            return Err(e);
        }
        if let Err(e) = table.add_cell(crate::table::empty_bordered_cell(nb, border)) {
            return Err(e);
        }
        if let Err(e) = table.add_cell(
            styled_text_cell(self.delivery_date.as_str(), empty, nb, border),
        ) {
            return Err(e);
        }
        if let Err(e) = table.add_cell(styled_text_cell(self.order_id.as_str(), empty, nb, border))
            {
            return Err(e);
        }
        if let Err(e) = table.add_cell(
            styled_text_cell(self.packing_slip_id.as_str(), empty, nb, border),
        ) {
            return Err(e);
        }
        if let Err(e) = table.start_new_row() {
            return Err(e);
        }
        if let Err(e) = table.add_cell(spacer_cell()) {
            return Err(e);
        }
        if let Err(e) = table.add_cell(spacer_cell()) {
            return Err(e);
        }
        if let Err(e) = table.add_cell(spacer_cell()) {
            return Err(e);
        }
        if let Err(e) = table.add_cell(spacer_cell()) {
            return Err(e);
        }
        if let Err(e) = table.add_cell(spacer_cell()) {
            return Err(e);
        }
        let ghost tsnap = table;
        match target.add(table) {
            Ok(()) => {
                proof {
                    let ft = target.flow@.last()->Table_0;
                    assert(is_padded_form(ft, tsnap));
                    assert(ft.rows@[0].cells@.len() == 5);
                    assert(ft.rows@[1].cells@.len() == 5);
                    assert(ft.rows@[2].cells@.len() == 5);
                    assert(ft.rows@[3].cells@.len() == 5);
                    assert forall|i: int, j: int|
                        0 <= i < 4 && 0 <= j < 5 implies #[trigger] ft.rows@[i].cells@[j]
                        == tsnap.rows@[i].cells@[j] by {
                        assert(tsnap.rows@[i].cells@.len() == 5);
                    };
                }
                Ok(())
            },
            Err(e) => Err(e),
        }
    }

    /// Build the ruled header row of the articles table.
    fn render_articles_header(&self, table: &mut Table) -> (r: Result<(), Error>)
        requires
            old(table).wf(),
            !old(table).sealed,
            old(table).rows@.len() > 0,
            old(table).rows@.last().cells@.len() == 0,
            old(table).weights@.len() == 6,
        ensures
            final(table).wf(),
            r is Ok,
            final(table).weights == old(table).weights,
            final(table).style == old(table).style,
            final(table).fixed == old(table).fixed,
            final(table).sealed == old(table).sealed,
            final(table).rows@.len() == old(table).rows@.len(),
            forall|i: int|
                0 <= i < old(table).rows@.len() - 1 ==> #[trigger] final(table).rows@[i] == old(
                    table,
                ).rows@[i],
            is_articles_header_row(final(table).rows@.last().cells@),
    {
        let border = BorderSpec::Solid { color: crate::color::black(), width: 1 };
        let nb = BorderSpec::NoBorder;
        let bold = crate::style::style_with(None, None, Some(true), None, None);
        if let Err(e) = table.add_cell(styled_text_cell("Order nummer", bold, nb, border)) {
            return Err(e);
        }
        if let Err(e) = table.add_cell(styled_text_cell("Artikel", bold, nb, border)) {
            return Err(e);
        }
        if let Err(e) = table.add_cell(styled_text_cell("Omschrijving", bold, nb, border)) {
            return Err(e);
        }
        if let Err(e) = table.add_cell(styled_text_cell("Aantal geleverd", bold, nb, border)) {
            return Err(e);
        }
        if let Err(e) = table.add_cell(styled_text_cell("Aantal besteld", bold, nb, border)) {
            return Err(e);
        }
        if let Err(e) = table.add_cell(styled_text_cell("Aantal backorder", bold, nb, border)) {
            return Err(e);
        }
        Ok(())
    }

    /// Build one article row.
    fn render_article(&self, table: &mut Table, article: &ArticlePackingInfo) -> (r: Result<
        (),
        Error,
    >)
        requires
            old(table).wf(),
            !old(table).sealed,
            old(table).rows@.len() > 0,
            old(table).rows@.last().cells@.len() == 0,
            old(table).weights@.len() == 6,
        ensures
            final(table).wf(),
            r is Ok,
            final(table).weights == old(table).weights,
            final(table).style == old(table).style,
            final(table).fixed == old(table).fixed,
            final(table).sealed == old(table).sealed,
            final(table).rows@.len() == old(table).rows@.len(),
            forall|i: int|
                0 <= i < old(table).rows@.len() - 1 ==> #[trigger] final(table).rows@[i] == old(
                    table,
                ).rows@[i],
            is_article_row(final(table).rows@.last().cells@, self.order_id@, *article),
    {
        if let Err(e) = table.add_cell(plain_text_cell(&self.order_id)) {
            return Err(e);
        }
        if let Err(e) = table.add_cell(plain_text_cell(&article.identifier)) {
            return Err(e);
        }
        if let Err(e) = table.add_cell(plain_text_cell(&article.description)) {
            return Err(e);
        }
        let delivered = crate::text::u64_to_string(article.quantity_delivered as u64);
        if let Err(e) = table.add_cell(plain_text_cell(&delivered)) {
            return Err(e);
        }
        let ordered = crate::text::u64_to_string(article.quantity_ordered as u64);
        if let Err(e) = table.add_cell(plain_text_cell(&ordered)) {
            return Err(e);
        }
        let backorder = crate::text::u64_to_string(article.quantity_backorder as u64);
        if let Err(e) = table.add_cell(plain_text_cell(&backorder)) {
            return Err(e);
        }
        Ok(())
    }

    /// Build the articles table — the ruled header row plus one row per
    /// article — and append it to the flow.
    fn render_articles_section(&self, target: &mut RenderTarget) -> (r: Result<(), Error>)
        requires
            old(target).wf(),
            !old(target).closed,
        ensures
            final(target).wf(),
            r is Ok,
            final(target).geom == old(target).geom,
            final(target).base_style == old(target).base_style,
            final(target).font == old(target).font,
            final(target).images == old(target).images,
            final(target).closed == old(target).closed,
            final(target).fixed == old(target).fixed,
            final(target).flow@.len() == old(target).flow@.len() + 1,
            forall|i: int|
                0 <= i < old(target).flow@.len() ==> #[trigger] final(target).flow@[i] == old(
                    target,
                ).flow@[i],
            final(target).flow@.last() matches BoxContent::Table(ft) && is_articles_table(
                ft,
                *self,
            ),
    {
        let mut weights: Vec<u32> = Vec::new();
        weights.push(1);
        weights.push(1);
        weights.push(2);
        weights.push(1);
        weights.push(1);
        weights.push(1);
        proof {
            assert(weights@ =~= seq![1u32, 1u32, 2u32, 1u32, 1u32, 1u32]);
        }
        let mut table = match Table::new(weights) {
            Ok(t) => t,
            Err(e) => {
                return Err(e);
            },
        };
        if let Err(e) = table.start_new_row() {
            return Err(e);
        }
        if let Err(e) = self.render_articles_header(&mut table) {
            return Err(e);
        }
        let mut i: usize = 0;
        while i < self.items.len()
            invariant
                table.wf(),
                !table.sealed,
                table.fixed.is_none(),
                table.style == StyleSet::spec_empty(),
                table.weights@ == seq![1u32, 1u32, 2u32, 1u32, 1u32, 1u32],
                i <= self.items@.len(),
                table.rows@.len() == 1 + i,
                is_articles_header_row(table.rows@[0].cells@),
                forall|k: int|
                    1 <= k < table.rows@.len() ==> is_article_row(
                        #[trigger] table.rows@[k].cells@,
                        self.order_id@,
                        self.items@[k - 1],
                    ),
            decreases self.items@.len() - i,
        {
            if let Err(e) = table.start_new_row() {
                return Err(e);
            }
            if let Err(e) = self.render_article(&mut table, &self.items[i]) {
                return Err(e);
            }
            i = i + 1;
        }
        let ghost tsnap = table;
        match target.add(table) {
            Ok(()) => {
                proof {
                    let ft = target.flow@.last()->Table_0;
                    assert(is_padded_form(ft, tsnap));
                    assert(ft.rows@[0].cells@.len() == 6);
                    assert forall|j: int| 0 <= j < 6 implies #[trigger] ft.rows@[0].cells@[j]
                        == tsnap.rows@[0].cells@[j] by {
                        assert(tsnap.rows@[0].cells@.len() == 6);
                    };
                    assert(ft.rows@[0].cells@ =~= tsnap.rows@[0].cells@);
                    assert forall|k: int| 1 <= k < ft.rows@.len() implies is_article_row(
                        #[trigger] ft.rows@[k].cells@,
                        self.order_id@,
                        self.items@[k - 1],
                    ) by {
                        assert(tsnap.rows@[k].cells@.len() == 6);
                        assert(ft.rows@[k].cells@.len() == 6);
                        assert forall|j: int| 0 <= j < 6 implies #[trigger] ft.rows@[k].cells@[j]
                            == tsnap.rows@[k].cells@[j] by {};
                        assert(ft.rows@[k].cells@ =~= tsnap.rows@[k].cells@);
                    };
                }
                Ok(())
            },
            Err(e) => Err(e),
        }
    }

    /// Render the complete packing slip: header, delivery reference
    /// block, articles table, and footer.
    ///
    /// Fails with `UnsupportedImageFormat` if and only if the header
    /// logo is not a PNG payload, then with `DivisionByZero` if and only
    /// if the logo's intrinsic height is zero, then with
    /// `DocumentClosedError` if and only if the document is closed; and
    /// with `InvalidColorFormat` if and only if the footer color is not
    /// of the form `#RRGGBB`.
    pub fn render(&self, target: &mut RenderTarget) -> (r: Result<(), Error>)
        requires
            old(target).wf(),
        ensures
            final(target).wf(),
            final(target).geom == old(target).geom,
            final(target).base_style == old(target).base_style,
            final(target).font == old(target).font,
            final(target).closed == old(target).closed,
            match r {
                Ok(()) => {
                    &&& is_png(self.header.logo@)
                    &&& be32(self.header.logo@, 20) != 0
                    &&& valid_hex_color(self.footer.company_name_color@)
                    &&& !old(target).closed
                    &&& final(target).images@.len() == old(target).images@.len() + 1
                    &&& final(target).flow@.len() == old(target).flow@.len() + 3
                    &&& final(target).fixed@.len() == old(target).fixed@.len() + 1
                    &&& forall|i: int|
                        0 <= i < old(target).flow@.len() ==> #[trigger] final(target).flow@[i]
                            == old(target).flow@[i]
                    &&& forall|i: int|
                        0 <= i < old(target).fixed@.len() ==> #[trigger] final(target).fixed@[i]
                            == old(target).fixed@[i]
                    &&& final(target).flow@[old(target).flow@.len() as int] matches
                        BoxContent::Table(ht) && is_header_table(
                        ht,
                        self.header,
                        old(target).images@.len() as int,
                    )
                    &&& final(target).flow@[old(target).flow@.len() as int + 1] matches
                        BoxContent::Table(it) && is_packing_info_table(it, *self)
                    &&& final(target).flow@[old(target).flow@.len() as int + 2] matches
                        BoxContent::Table(at) && is_articles_table(at, *self)
                    &&& final(target).fixed@.last().0 matches BoxContent::Table(ftb)
                        && is_footer_table(ftb, self.footer)
                    &&& final(target).fixed@.last().2 == FixedScope::EveryPage
                },
                Err(e) => {
                    ||| (e == Error::UnsupportedImageFormat && !is_png(self.header.logo@)
                        && *final(target) == *old(target))
                    ||| (e == Error::DivisionByZero && is_png(self.header.logo@) && be32(
                        self.header.logo@,
                        20,
                    ) == 0 && *final(target) == *old(target))
                    ||| (e == Error::DocumentClosedError && old(target).closed && *final(target)
                        == *old(target))
                    ||| (e == Error::InvalidColorFormat && !valid_hex_color(
                        self.footer.company_name_color@,
                    ))
                },
            },
    {
        if let Err(e) = self.header.render(target) {
            return Err(e);
        }
        if let Err(e) = self.render_document_info(target) {
            return Err(e);
        }
        if let Err(e) = self.render_articles_section(target) {
            return Err(e);
        }
        match self.footer.render(target) {
            Ok(()) => Ok(()),
            Err(e) => Err(e),
        }
    }
}

} // verus!
