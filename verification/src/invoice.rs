//! Invoices: reference block, conditional-column items table, totals
//! block anchored above the bottom margin of the final page.
//!
//! Money amounts are carried in hundredths (cents) and rendered with two
//! decimal places; discount percentages are carried in hundredths of a
//! percent.

use vstd::prelude::*;

use crate::color::spec_black;
use crate::error::Error;
use crate::footer::is_footer_table;
use crate::footer::Footer;
use crate::geometry::FixedPos;
use crate::header::is_header_table;
use crate::header::Header;
use crate::image::be32;
use crate::image::is_png;
use crate::render_target::RenderTarget;
use crate::style::BorderSpec;
use crate::style::StyleSet;
use crate::style::TextAlign;
use crate::table::is_bordered_empty_cell;
use crate::table::is_padded_form;
use crate::table::is_plain_text_cell;
use crate::table::is_styled_text_cell;
use crate::table::styled_text_cell;
use crate::table::plain_text_cell;
use crate::table::BoxContent;
use crate::table::Cell;
use crate::table::FixedScope;
use crate::table::Table;
use crate::text::money_rep;
use crate::text::signed_money_rep;
use crate::color::valid_hex_color;

verus! {

/// An invoice to be laid out.
#[derive(Debug)]
pub struct Invoice {
    /// The invoice header.
    pub header: Header,
    /// The invoice footer.
    pub footer: Footer,
    /// The reference ID.
    pub reference_id: String,
    /// The invoice ID.
    pub invoice_id: String,
    /// The invoice date.
    pub invoice_date: String,
    /// Date at which the invoice expires.
    pub expiration_date: String,
    /// Invoice totals.
    pub totals: InvoiceTotals,
    /// Items to be invoiced.
    pub items: Vec<InvoiceItem>,
    /// Optional note to customer.
    pub note: Option<String>,
    /// Currency of the invoice.
    pub currency: Currency,
}

/// The invoice currency.
#[derive(Debug)]
pub enum Currency {
    Euro,
}

/// One invoiced item.  Prices are in hundredths of the currency unit;
/// the discount is in hundredths of a percent.
#[derive(Debug)]
pub struct InvoiceItem {
    /// The item ID.
    pub identifier: String,
    /// A short description of the item.
    pub description: String,
    /// The item quantity.
    pub quantity: i32,
    /// The price per unit, in hundredths.
    pub price_per_unit: i64,
    /// The discount, in hundredths of a percent.  The discount and
    /// subtotal columns are omitted if all items lack a discount.
    pub discount_percentage: u32,
    /// The price per unit taking into account the discount, in
    /// hundredths.
    pub subtotal_price_per_unit: i64,
    /// Total price of the item, in hundredths.
    pub total_price: i64,
}

/// Invoice totals, displayed at the bottom of the invoice, in
/// hundredths.
#[derive(Debug)]
pub struct InvoiceTotals {
    /// The total price excluding VAT.
    pub total_excluding_vat: i64,
    /// The total amount of VAT.
    pub total_vat: i64,
    /// The total price to be paid including VAT.
    pub total_including_vat: i64,
}

/// The symbol a currency is rendered as.
pub open spec fn currency_symbol(c: Currency) -> Seq<char> {
    "€"@
}

impl Currency {
    /// The currency's symbol.
    pub fn to_string(&self) -> (s: String)
        ensures
            s@ == currency_symbol(*self),
    {
        match self {
            Currency::Euro => "€".to_owned(),
        }
    }
}

/// Whether any of `items` carries a nonzero discount.
pub open spec fn spec_any_discount(items: Seq<InvoiceItem>) -> bool {
    exists|i: int| 0 <= i < items.len() && #[trigger] items[i].discount_percentage > 0
}

/// The text a quantity is rendered as: two decimal places.
pub open spec fn qty_text(q: int) -> Seq<char> {
    signed_money_rep(q * 100)
}

/// The text a discount is rendered as: two decimal places and a percent
/// sign.
pub open spec fn pct_text(bp: int) -> Seq<char> {
    money_rep(bp as nat) + "%"@
}

/// The explicit style of a right-aligned plain cell.
pub open spec fn right_style() -> StyleSet {
    StyleSet { align: Some(TextAlign::Right), ..StyleSet::spec_empty() }
}

/// The explicit style of a bold label cell.
pub open spec fn bold_style() -> StyleSet {
    StyleSet { bold: Some(true), ..StyleSet::spec_empty() }
}

/// The solid black hairline used to rule the reference and totals
/// blocks.
pub open spec fn black_border() -> BorderSpec {
    BorderSpec::Solid { color: spec_black(), width: 1u32 }
}

/// An unbordered right-aligned text cell.
pub open spec fn is_right_text_cell(c: Cell, s: Seq<char>) -> bool {
    is_styled_text_cell(c, s, right_style(), BorderSpec::NoBorder, BorderSpec::NoBorder)
}

/// An unbordered bold label cell.
pub open spec fn is_bold_text_cell(c: Cell, s: Seq<char>) -> bool {
    is_styled_text_cell(c, s, bold_style(), BorderSpec::NoBorder, BorderSpec::NoBorder)
}

/// `cells` is one laid-out item row: identifier, description, quantity,
/// currency and price always; discount, currency and discounted price
/// only when the discount columns are shown; then currency and total.
pub open spec fn is_item_row(cells: Seq<Cell>, item: InvoiceItem, cur: Currency, disc: bool) -> bool {
    if disc {
        &&& cells.len() == 10
        &&& is_plain_text_cell(cells[0], item.identifier@)
        &&& is_plain_text_cell(cells[1], item.description@)
        &&& is_plain_text_cell(cells[2], qty_text(item.quantity as int))
        &&& is_plain_text_cell(cells[3], currency_symbol(cur))
        &&& is_right_text_cell(cells[4], signed_money_rep(item.price_per_unit as int))
        &&& is_right_text_cell(cells[5], pct_text(item.discount_percentage as int))
        &&& is_right_text_cell(cells[6], currency_symbol(cur))
        &&& is_right_text_cell(cells[7], signed_money_rep(item.subtotal_price_per_unit as int))
        &&& is_plain_text_cell(cells[8], currency_symbol(cur))
        &&& is_right_text_cell(cells[9], signed_money_rep(item.total_price as int))
    } else {
        &&& cells.len() == 7
        &&& is_plain_text_cell(cells[0], item.identifier@)
        &&& is_plain_text_cell(cells[1], item.description@)
        &&& is_plain_text_cell(cells[2], qty_text(item.quantity as int))
        &&& is_plain_text_cell(cells[3], currency_symbol(cur))
        &&& is_right_text_cell(cells[4], signed_money_rep(item.price_per_unit as int))
        &&& is_plain_text_cell(cells[5], currency_symbol(cur))
        &&& is_right_text_cell(cells[6], signed_money_rep(item.total_price as int))
    }
}

/// `cells` is the items-table header row, matching the item rows column
/// for column.
pub open spec fn is_items_header_row(cells: Seq<Cell>, disc: bool) -> bool {
    if disc {
        &&& cells.len() == 10
        &&& is_bold_text_cell(cells[0], "Artikelnummer"@)
        &&& is_bold_text_cell(cells[1], "Omschrijving"@)
        &&& is_bold_text_cell(cells[2], "Aantal"@)
        &&& is_bordered_empty_cell(cells[3], BorderSpec::NoBorder, BorderSpec::NoBorder)
        &&& is_bold_text_cell(cells[4], "Prijs"@)
        &&& is_bold_text_cell(cells[5], "Korting"@)
        &&& is_bordered_empty_cell(cells[6], BorderSpec::NoBorder, BorderSpec::NoBorder)
        &&& is_bold_text_cell(cells[7], "Bedrag"@)
        &&& is_bordered_empty_cell(cells[8], BorderSpec::NoBorder, BorderSpec::NoBorder)
        &&& is_bold_text_cell(cells[9], "Totaalbedrag"@)
    } else {
        &&& cells.len() == 7
        &&& is_bold_text_cell(cells[0], "Artikelnummer"@)
        &&& is_bold_text_cell(cells[1], "Omschrijving"@)
        &&& is_bold_text_cell(cells[2], "Aantal"@)
        &&& is_bordered_empty_cell(cells[3], BorderSpec::NoBorder, BorderSpec::NoBorder)
        &&& is_bold_text_cell(cells[4], "Prijs"@)
        &&& is_bordered_empty_cell(cells[5], BorderSpec::NoBorder, BorderSpec::NoBorder)
        &&& is_bold_text_cell(cells[6], "Totaalbedrag"@)
    }
}

/// `t` is the items table of `inv`: the discount and subtotal columns
/// appear in the header and in every item row exactly when some item
/// carries a nonzero discount, so header and body always agree on the
/// column count.
pub open spec fn is_items_table(t: Table, inv: Invoice) -> bool {
    let disc = spec_any_discount(inv.items@);
    &&& t.weights@ == if disc {
        seq![1u32, 2u32, 1u32, 1u32, 1u32, 1u32, 1u32, 1u32, 1u32, 1u32]
    } else {
        seq![1u32, 2u32, 1u32, 1u32, 1u32, 1u32, 1u32]
    }
    &&& t.style == StyleSet::spec_empty()
    &&& t.fixed.is_none()
    &&& t.sealed
    &&& t.complete()
    &&& t.rows@.len() == 1 + inv.items@.len()
    &&& is_items_header_row(t.rows@[0].cells@, disc)
    &&& forall|i: int|
        1 <= i < t.rows@.len() ==> is_item_row(
            #[trigger] t.rows@[i].cells@,
            inv.items@[i - 1],
            inv.currency,
            disc,
        )
}

/// `t` is the reference block of `inv`: a ruled five-column block
/// carrying the order reference, invoice date, expiry date and invoice
/// number.
pub open spec fn is_invoice_info_table(t: Table, inv: Invoice) -> bool {
    &&& t.weights@ == seq![1u32, 1u32, 1u32, 1u32, 1u32]
    &&& t.style == StyleSet::spec_empty()
    &&& t.fixed.is_none()
    &&& t.sealed
    &&& t.complete()
    &&& t.rows@.len() == 3
    &&& t.rows@[0].cells@.len() == 5
    &&& t.rows@[1].cells@.len() == 5
    &&& t.rows@[2].cells@.len() == 5
    &&& is_bold_text_cell(t.rows@[0].cells@[0], "Betreft"@)
    &&& is_plain_text_cell(t.rows@[0].cells@[1], "Bestelling #:"@ + " "@ + inv.reference_id@)
    &&& is_bordered_empty_cell(t.rows@[0].cells@[2], BorderSpec::NoBorder, BorderSpec::NoBorder)
    &&& is_bordered_empty_cell(t.rows@[0].cells@[3], BorderSpec::NoBorder, BorderSpec::NoBorder)
    &&& is_bordered_empty_cell(t.rows@[0].cells@[4], BorderSpec::NoBorder, BorderSpec::NoBorder)
    &&& is_styled_text_cell(
        t.rows@[1].cells@[0],
        "Onze referentie"@,
        bold_style(),
        black_border(),
        BorderSpec::NoBorder,
    )
    &&& is_bordered_empty_cell(t.rows@[1].cells@[1], black_border(), BorderSpec::NoBorder)
    &&& is_styled_text_cell(
        t.rows@[1].cells@[2],
        "Factuurdatum"@,
        bold_style(),
        black_border(),
        BorderSpec::NoBorder,
    )
    &&& is_styled_text_cell(
        t.rows@[1].cells@[3],
        "Vervaldatum"@,
        bold_style(),
        black_border(),
        BorderSpec::NoBorder,
    )
    &&& is_styled_text_cell(
        t.rows@[1].cells@[4],
        "Factuurnummer"@,
        bold_style(),
        black_border(),
        BorderSpec::NoBorder,
    )
    &&& is_styled_text_cell(
        t.rows@[2].cells@[0],
        "Bestelling #:"@ + " "@ + inv.reference_id@,
        StyleSet::spec_empty(),
        BorderSpec::NoBorder,
        black_border(),
    )
    &&& is_bordered_empty_cell(t.rows@[2].cells@[1], BorderSpec::NoBorder, black_border())
    &&& is_styled_text_cell(
        t.rows@[2].cells@[2],
        inv.invoice_date@,
        StyleSet::spec_empty(),
        BorderSpec::NoBorder,
        black_border(),
    )
    &&& is_styled_text_cell(
        t.rows@[2].cells@[3],
        inv.expiration_date@,
        StyleSet::spec_empty(),
        BorderSpec::NoBorder,
        black_border(),
    )
    &&& is_styled_text_cell(
        t.rows@[2].cells@[4],
        inv.invoice_id@,
        StyleSet::spec_empty(),
        BorderSpec::NoBorder,
        black_border(),
    )
}

/// `t` is the totals block of `inv`: three ruled rows of label, currency
/// and right-aligned amount, for the total excluding VAT, the VAT, and
/// the total to be paid.
pub open spec fn is_invoice_totals_table(t: Table, inv: Invoice) -> bool {
    &&& t.weights@ == seq![1u32, 1u32, 1u32]
    &&& t.style == StyleSet::spec_empty()
    &&& t.sealed
    &&& t.complete()
    &&& t.rows@.len() == 3
    &&& t.rows@[0].cells@.len() == 3
    &&& t.rows@[1].cells@.len() == 3
    &&& t.rows@[2].cells@.len() == 3
    &&& is_plain_text_cell(t.rows@[0].cells@[0], "Totaal excl. BTW"@)
    &&& is_plain_text_cell(t.rows@[0].cells@[1], currency_symbol(inv.currency))
    &&& is_right_text_cell(
        t.rows@[0].cells@[2],
        signed_money_rep(inv.totals.total_excluding_vat as int),
    )
    &&& is_styled_text_cell(
        t.rows@[1].cells@[0],
        "BTW"@,
        StyleSet::spec_empty(),
        BorderSpec::NoBorder,
        black_border(),
    )
    &&& is_styled_text_cell(
        t.rows@[1].cells@[1],
        currency_symbol(inv.currency),
        StyleSet::spec_empty(),
        BorderSpec::NoBorder,
        black_border(),
    )
    &&& is_styled_text_cell(
        t.rows@[1].cells@[2],
        signed_money_rep(inv.totals.total_vat as int),
        right_style(),
        BorderSpec::NoBorder,
        black_border(),
    )
    &&& is_plain_text_cell(t.rows@[2].cells@[0], "Totaal te voldoen"@)
    &&& is_plain_text_cell(t.rows@[2].cells@[1], currency_symbol(inv.currency))
    &&& is_right_text_cell(
        t.rows@[2].cells@[2],
        signed_money_rep(inv.totals.total_including_vat as int),
    )
}

/// The distance between the bottom margin and the totals block.
pub const TOTALS_BOTTOM_OFFSET: u32 = 100;

/// The conditional-column invariant: in an items table the discount and
/// subtotal columns are present — in the header and in every body row
/// alike — exactly when some item carries a nonzero discount, and absent
/// from both otherwise; header and body never disagree on the column
/// count.
pub proof fn lemma_conditional_columns(t: Table, inv: Invoice, i: int)
    requires
        is_items_table(t, inv),
        0 <= i < t.rows@.len(),
    ensures
        t.rows@[i].cells@.len() == t.weights@.len(),
        spec_any_discount(inv.items@) ==> t.weights@.len() == 10,
        !spec_any_discount(inv.items@) ==> t.weights@.len() == 7,
{
}

impl Invoice {
    /// Whether any of the items on the invoice has a discount.
    pub fn any_item_has_discount(&self) -> (r: bool)
        ensures
            r == spec_any_discount(self.items@),
    {
        let mut i: usize = 0;
        while i < self.items.len()
            invariant
                i <= self.items@.len(),
                forall|k: int| 0 <= k < i ==> #[trigger] self.items@[k].discount_percentage == 0,
            decreases self.items@.len() - i,
        {
            if self.items[i].discount_percentage > 0 {
                return true;
            }
            i = i + 1;
        }
        false
    }

    /// Build the ruled reference block and append it to the flow.
    fn render_invoice_information(&self, target: &mut RenderTarget) -> (r: Result<(), Error>)
        requires
            old(target).wf(),
            !old(target).closed,
        ensures
            final(target).wf(),
            r is Ok,
            final(target).geom == old(target).geom,
            final(target).base_style == old(target).base_style,
            final(target).font == old(target).font,
            final(target).images == old(target).images,
            final(target).closed == old(target).closed,
            final(target).fixed == old(target).fixed,
            final(target).flow@.len() == old(target).flow@.len() + 1,
            forall|i: int|
                0 <= i < old(target).flow@.len() ==> #[trigger] final(target).flow@[i] == old(
                    target,
                ).flow@[i],
            final(target).flow@.last() matches BoxContent::Table(ft) && is_invoice_info_table(
                ft,
                *self,
            ),
    {
        let border = BorderSpec::Solid { color: crate::color::black(), width: 1 };
        let nb = BorderSpec::NoBorder;
        let mut weights: Vec<u32> = Vec::new();
        weights.push(1);
        weights.push(1);
        weights.push(1);
        weights.push(1);
        weights.push(1);
        proof {
            assert(weights@ =~= seq![1u32, 1u32, 1u32, 1u32, 1u32]);
        }
        let mut table = match Table::new(weights) {
            Ok(t) => t,
            Err(e) => {
                return Err(e);
            },
        };
        let reference = crate::text::concat3("Bestelling #:", " ", self.reference_id.as_str());
        if let Err(e) = table.start_new_row() {
            return Err(e);
        }
        if let Err(e) = table.add_cell(
            styled_text_cell("Betreft", crate::style::style_with(None, None, Some(true), None, None), nb, nb),
        ) {
            return Err(e);
        }
        if let Err(e) = table.add_cell(
            styled_text_cell(reference.as_str(), crate::style::StyleSet::empty(), nb, nb),
        ) {
            return Err(e);
        }
        if let Err(e) = table.add_cell(crate::table::empty_bordered_cell(nb, nb)) {
            return Err(e);
        }
        if let Err(e) = table.add_cell(crate::table::empty_bordered_cell(nb, nb)) {
            return Err(e);
        }
        if let Err(e) = table.add_cell(crate::table::empty_bordered_cell(nb, nb)) {
            return Err(e);
        }
        if let Err(e) = table.start_new_row() {
            return Err(e);
        }
        if let Err(e) = table.add_cell(
            styled_text_cell(
                "Onze referentie",
                crate::style::style_with(None, None, Some(true), None, None),
                border,
                nb,
            ),
        ) {
            return Err(e);
        }
        if let Err(e) = table.add_cell(crate::table::empty_bordered_cell(border, nb)) {
            return Err(e);
        }
        if let Err(e) = table.add_cell(
            styled_text_cell(
                "Factuurdatum",
                crate::style::style_with(None, None, Some(true), None, None),
                border,
                nb,
            ),
        ) {
            return Err(e);
        }
        if let Err(e) = table.add_cell(
            styled_text_cell(
                "Vervaldatum",
                crate::style::style_with(None, None, Some(true), None, None),
                border,
                nb,
            ),
        ) {
            return Err(e);
        }
        if let Err(e) = table.add_cell(
            styled_text_cell(
                "Factuurnummer",
                crate::style::style_with(None, None, Some(true), None, None),
                border,
                nb,
            ),
        ) {
            return Err(e);
        }
        if let Err(e) = table.start_new_row() {
            return Err(e);
        }
        if let Err(e) = table.add_cell(
            styled_text_cell(reference.as_str(), crate::style::StyleSet::empty(), nb, border),
        ) {
            return Err(e);
        }
        if let Err(e) = table.add_cell(crate::table::empty_bordered_cell(nb, border)) {
            return Err(e);
        }
        if let Err(e) = table.add_cell(
            styled_text_cell(
                self.invoice_date.as_str(),
                crate::style::StyleSet::empty(),
                nb,
                border,
            ),
        ) {
            return Err(e);
        }
        if let Err(e) = table.add_cell(
            styled_text_cell(
                self.expiration_date.as_str(),
                crate::style::StyleSet::empty(),
                nb,
                border,
            ),
        ) {
            return Err(e);
        }
        if let Err(e) = table.add_cell(
            styled_text_cell(self.invoice_id.as_str(), crate::style::StyleSet::empty(), nb, border),
        ) {
            return Err(e);
        }
        let ghost tsnap = table;
        match target.add(table) {
            Ok(()) => {
                proof {
                    let ft = target.flow@.last()->Table_0;
                    assert(is_padded_form(ft, tsnap));
                    assert(ft.rows@[0].cells@.len() == 5);
                    assert(ft.rows@[1].cells@.len() == 5);
                    assert(ft.rows@[2].cells@.len() == 5);
                    assert forall|i: int, j: int|
                        0 <= i < 3 && 0 <= j < 5 implies #[trigger] ft.rows@[i].cells@[j]
                        == tsnap.rows@[i].cells@[j] by {
                        assert(tsnap.rows@[i].cells@.len() == 5);
                    };
                }
                Ok(())
            },
            Err(e) => Err(e),
        }
    }

    /// Build the header row of the items table.
    fn render_items_header(&self, table: &mut Table, disc: bool) -> (r: Result<(), Error>)
        requires
            old(table).wf(),
            !old(table).sealed,
            old(table).rows@.len() > 0,
            old(table).rows@.last().cells@.len() == 0,
            old(table).weights@.len() == if disc {
                10int
            } else {
                7int
            },
        ensures
            final(table).wf(),
            r is Ok,
            final(table).weights == old(table).weights,
            final(table).style == old(table).style,
            final(table).fixed == old(table).fixed,
            final(table).sealed == old(table).sealed,
            final(table).rows@.len() == old(table).rows@.len(),
            forall|i: int|
                0 <= i < old(table).rows@.len() - 1 ==> #[trigger] final(table).rows@[i] == old(
                    table,
                ).rows@[i],
            is_items_header_row(final(table).rows@.last().cells@, disc),
    {
        let nb = BorderSpec::NoBorder;
        let bold = crate::style::style_with(None, None, Some(true), None, None);
        if let Err(e) = table.add_cell(styled_text_cell("Artikelnummer", bold, nb, nb)) {
            return Err(e);
        }
        if let Err(e) = table.add_cell(styled_text_cell("Omschrijving", bold, nb, nb)) {
            return Err(e);
        }
        if let Err(e) = table.add_cell(styled_text_cell("Aantal", bold, nb, nb)) {
            return Err(e);
        }
        if let Err(e) = table.add_cell(crate::table::empty_bordered_cell(nb, nb)) {
            return Err(e);
        }
        if let Err(e) = table.add_cell(styled_text_cell("Prijs", bold, nb, nb)) {
            return Err(e);
        }
        if disc {
            if let Err(e) = table.add_cell(styled_text_cell("Korting", bold, nb, nb)) {
                return Err(e);
            }
            if let Err(e) = table.add_cell(crate::table::empty_bordered_cell(nb, nb)) {
                return Err(e);
            }
            if let Err(e) = table.add_cell(styled_text_cell("Bedrag", bold, nb, nb)) {
                return Err(e);
            }
            if let Err(e) = table.add_cell(crate::table::empty_bordered_cell(nb, nb)) {
                return Err(e);
            }
            if let Err(e) = table.add_cell(styled_text_cell("Totaalbedrag", bold, nb, nb)) {
                return Err(e);
            }
        } else {
            if let Err(e) = table.add_cell(crate::table::empty_bordered_cell(nb, nb)) {
                return Err(e);
            }
            if let Err(e) = table.add_cell(styled_text_cell("Totaalbedrag", bold, nb, nb)) {
                return Err(e);
            }
        }
        Ok(())
    }

    /// Build one item row of the items table.
    fn render_item(&self, table: &mut Table, item: &InvoiceItem, disc: bool) -> (r: Result<
        (),
        Error,
    >)
        requires
            old(table).wf(),
            !old(table).sealed,
            old(table).rows@.len() > 0,
            old(table).rows@.last().cells@.len() == 0,
            old(table).weights@.len() == if disc {
                10int
            } else {
                7int
            },
        ensures
            final(table).wf(),
            r is Ok,
            final(table).weights == old(table).weights,
            final(table).style == old(table).style,
            final(table).fixed == old(table).fixed,
            final(table).sealed == old(table).sealed,
            final(table).rows@.len() == old(table).rows@.len(),
            forall|i: int|
                0 <= i < old(table).rows@.len() - 1 ==> #[trigger] final(table).rows@[i] == old(
                    table,
                ).rows@[i],
            is_item_row(final(table).rows@.last().cells@, *item, self.currency, disc),
    {
        let nb = BorderSpec::NoBorder;
        let right = crate::style::style_with(None, None, None, None, Some(TextAlign::Right));
        let qty = crate::text::format_signed_hundredths(item.quantity as i64 * 100);
        if let Err(e) = table.add_cell(plain_text_cell(&item.identifier)) {
            return Err(e);
        }
        if let Err(e) = table.add_cell(plain_text_cell(&item.description)) {
            return Err(e);
        }
        if let Err(e) = table.add_cell(
            styled_text_cell(qty.as_str(), crate::style::StyleSet::empty(), nb, nb),
        ) {
            return Err(e);
        }
        if let Err(e) = table.add_cell(plain_text_cell(&self.currency.to_string())) {
            return Err(e);
        }
        let price = crate::text::format_signed_hundredths(item.price_per_unit);
        if let Err(e) = table.add_cell(styled_text_cell(price.as_str(), right, nb, nb)) {
            return Err(e);
        }
        if disc {
            let mut pct = crate::text::format_hundredths(item.discount_percentage as u64);
            proof {
                reveal_strlit("%");
            }
            pct.append("%");
            proof {
                assert(pct@ =~= pct_text(item.discount_percentage as int));
            }
            if let Err(e) = table.add_cell(styled_text_cell(pct.as_str(), right, nb, nb)) {
                return Err(e);
            }
            if let Err(e) = table.add_cell(
                styled_text_cell(self.currency.to_string().as_str(), right, nb, nb),
            ) {
                return Err(e);
            }
            let sub = crate::text::format_signed_hundredths(item.subtotal_price_per_unit);
            if let Err(e) = table.add_cell(styled_text_cell(sub.as_str(), right, nb, nb)) {
                return Err(e);
            }
        }
        if let Err(e) = table.add_cell(plain_text_cell(&self.currency.to_string())) {
            return Err(e);
        }
        let total = crate::text::format_signed_hundredths(item.total_price);
        if let Err(e) = table.add_cell(styled_text_cell(total.as_str(), right, nb, nb)) {
            return Err(e);
        }
        Ok(())
    }

    /// Build the items table — header row plus one row per item, with
    /// the discount columns shown exactly when some item carries a
    /// discount — and append it to the flow.
    fn render_items_section(&self, target: &mut RenderTarget) -> (r: Result<(), Error>)
        requires
            old(target).wf(),
            !old(target).closed,
        ensures
            final(target).wf(),
            r is Ok,
            final(target).geom == old(target).geom,
            final(target).base_style == old(target).base_style,
            final(target).font == old(target).font,
            final(target).images == old(target).images,
            final(target).closed == old(target).closed,
            final(target).fixed == old(target).fixed,
            final(target).flow@.len() == old(target).flow@.len() + 1,
            forall|i: int|
                0 <= i < old(target).flow@.len() ==> #[trigger] final(target).flow@[i] == old(
                    target,
                ).flow@[i],
            final(target).flow@.last() matches BoxContent::Table(ft) && is_items_table(ft, *self),
    {
        let disc = self.any_item_has_discount();
        let mut weights: Vec<u32> = Vec::new();
        weights.push(1);
        weights.push(2);
        weights.push(1);
        weights.push(1);
        weights.push(1);
        weights.push(1);
        weights.push(1);
        if disc {
            weights.push(1);
            weights.push(1);
            weights.push(1);
        }
        proof {
            if disc {
                assert(weights@ =~= seq![1u32, 2u32, 1u32, 1u32, 1u32, 1u32, 1u32, 1u32, 1u32, 1u32]);
            } else {
                assert(weights@ =~= seq![1u32, 2u32, 1u32, 1u32, 1u32, 1u32, 1u32]);
            }
        }
        let mut table = match Table::new(weights) {
            Ok(t) => t,
            Err(e) => {
                return Err(e);
            },
        };
        if let Err(e) = table.start_new_row() {
            return Err(e);
        }
        if let Err(e) = self.render_items_header(&mut table, disc) {
            return Err(e);
        }
        let mut i: usize = 0;
        while i < self.items.len()
            invariant
                old(target).wf(),
                table.wf(),
                !table.sealed,
                table.fixed.is_none(),
                table.style == StyleSet::spec_empty(),
                table.weights@ == if spec_any_discount(self.items@) {
                    seq![1u32, 2u32, 1u32, 1u32, 1u32, 1u32, 1u32, 1u32, 1u32, 1u32]
                } else {
                    seq![1u32, 2u32, 1u32, 1u32, 1u32, 1u32, 1u32]
                },
                disc == spec_any_discount(self.items@),
                i <= self.items@.len(),
                table.rows@.len() == 1 + i,
                is_items_header_row(table.rows@[0].cells@, disc),
                forall|k: int|
                    1 <= k < table.rows@.len() ==> is_item_row(
                        #[trigger] table.rows@[k].cells@,
                        self.items@[k - 1],
                        self.currency,
                        disc,
                    ),
            decreases self.items@.len() - i,
        {
            if let Err(e) = table.start_new_row() {
                return Err(e);
            }
            if let Err(e) = self.render_item(&mut table, &self.items[i], disc) {
                return Err(e);
            }
            i = i + 1;
        }
        let ghost tsnap = table;
        match target.add(table) {
            Ok(()) => {
                proof {
                    let ft = target.flow@.last()->Table_0;
                    assert(is_padded_form(ft, tsnap));
                    let m = tsnap.weights@.len() as int;
                    assert(ft.rows@[0].cells@.len() == m);
                    assert forall|j: int| 0 <= j < m implies #[trigger] ft.rows@[0].cells@[j]
                        == tsnap.rows@[0].cells@[j] by {
                        assert(tsnap.rows@[0].cells@.len() == m);
                    };
                    assert(ft.rows@[0].cells@ =~= tsnap.rows@[0].cells@);
                    assert forall|k: int| 1 <= k < ft.rows@.len() implies is_item_row(
                        #[trigger] ft.rows@[k].cells@,
                        self.items@[k - 1],
                        self.currency,
                        spec_any_discount(self.items@),
                    ) by {
                        assert(tsnap.rows@[k].cells@.len() == m);
                        assert(ft.rows@[k].cells@.len() == m);
                        assert forall|j: int| 0 <= j < m implies #[trigger] ft.rows@[k].cells@[j]
                            == tsnap.rows@[k].cells@[j] by {};
                        assert(ft.rows@[k].cells@ =~= tsnap.rows@[k].cells@);
                    };
                }
                Ok(())
            },
            Err(e) => Err(e),
        }
    }

    /// Build the totals block, anchored a constant offset above the
    /// bottom margin of the page holding the final flowed content.
    fn render_invoice_totals(&self, target: &mut RenderTarget) -> (r: Result<(), Error>)
        requires
            old(target).wf(),
            !old(target).closed,
        ensures
            final(target).wf(),
            r is Ok,
            final(target).geom == old(target).geom,
            final(target).base_style == old(target).base_style,
            final(target).font == old(target).font,
            final(target).images == old(target).images,
            final(target).closed == old(target).closed,
            final(target).flow == old(target).flow,
            final(target).fixed@.len() == old(target).fixed@.len() + 1,
            forall|i: int|
                0 <= i < old(target).fixed@.len() ==> #[trigger] final(target).fixed@[i] == old(
                    target,
                ).fixed@[i],
            final(target).fixed@.last().1 == (FixedPos {
                offset_left: (old(target).geom.margin_left + old(target).geom.margin_right + old(
                    target,
                ).geom.page_width / 2) as u32,
                offset_bottom: (old(target).geom.margin_bottom + TOTALS_BOTTOM_OFFSET) as u32,
                width: (old(target).geom.page_width - old(target).geom.margin_left - old(
                    target,
                ).geom.margin_right) as u32,
            }),
            final(target).fixed@.last().2 == FixedScope::FinalPage,
            final(target).fixed@.last().0 matches BoxContent::Table(ft)
                && is_invoice_totals_table(ft, *self),
    {
        let border = BorderSpec::Solid { color: crate::color::black(), width: 1 };
        let nb = BorderSpec::NoBorder;
        let right = crate::style::style_with(None, None, None, None, Some(TextAlign::Right));
        let mut weights: Vec<u32> = Vec::new();
        weights.push(1);
        weights.push(1);
        weights.push(1);
        proof {
            assert(weights@ =~= seq![1u32, 1u32, 1u32]);
        }
        let mut table = match Table::new(weights) {
            Ok(t) => t,
            Err(e) => {
                return Err(e);
            },
        };
        let x64: u64 = target.geom.margin_left as u64 + target.geom.margin_right as u64
            + (target.geom.page_width / 2) as u64;
        let x: u32 = x64 as u32;
        let bottom64: u64 = target.geom.margin_bottom as u64 + TOTALS_BOTTOM_OFFSET as u64;
        let bottom: u32 = bottom64 as u32;
        let width = target.geom.page_width - target.geom.margin_left - target.geom.margin_right;
        let pos = crate::geometry::fixed_position(x, bottom, width);
        proof {
            assert(x == (old(target).geom.margin_left + old(target).geom.margin_right + old(
                target,
            ).geom.page_width / 2) as u32);
            assert(bottom == (old(target).geom.margin_bottom + TOTALS_BOTTOM_OFFSET) as u32);
        }
        if let Err(e) = table.set_fixed_position(pos, FixedScope::FinalPage) {
            return Err(e);
        }
        if let Err(e) = table.start_new_row() {
            return Err(e);
        }
        if let Err(e) = table.add_cell(
            styled_text_cell("Totaal excl. BTW", crate::style::StyleSet::empty(), nb, nb),
        ) {
            return Err(e);
        }
        if let Err(e) = table.add_cell(plain_text_cell(&self.currency.to_string())) {
            return Err(e);
        }
        let excl = crate::text::format_signed_hundredths(self.totals.total_excluding_vat);
        if let Err(e) = table.add_cell(styled_text_cell(excl.as_str(), right, nb, nb)) {
            return Err(e);
        }
        if let Err(e) = table.start_new_row() {
            return Err(e);
        }
        if let Err(e) = table.add_cell(
            styled_text_cell("BTW", crate::style::StyleSet::empty(), nb, border),
        ) {
            return Err(e);
        }
        if let Err(e) = table.add_cell(
            styled_text_cell(
                self.currency.to_string().as_str(),
                crate::style::StyleSet::empty(),
                nb,
                border,
            ),
        ) {
            return Err(e);
        }
        let vat = crate::text::format_signed_hundredths(self.totals.total_vat);
        if let Err(e) = table.add_cell(styled_text_cell(vat.as_str(), right, nb, border)) {
            return Err(e);
        }
        if let Err(e) = table.start_new_row() {
            return Err(e);
        }
        if let Err(e) = table.add_cell(
            styled_text_cell("Totaal te voldoen", crate::style::StyleSet::empty(), nb, nb),
        ) {
            return Err(e);
        }
        if let Err(e) = table.add_cell(plain_text_cell(&self.currency.to_string())) {
            return Err(e);
        }
        let incl = crate::text::format_signed_hundredths(self.totals.total_including_vat);
        if let Err(e) = table.add_cell(styled_text_cell(incl.as_str(), right, nb, nb)) {
            return Err(e);
        }
        let ghost tsnap = table;
        match target.add(table) {
            Ok(()) => {
                proof {
                    let ft = target.fixed@.last().0->Table_0;
                    assert(is_padded_form(ft, tsnap));
                    assert(ft.rows@[0].cells@.len() == 3);
                    assert(ft.rows@[1].cells@.len() == 3);
                    assert(ft.rows@[2].cells@.len() == 3);
                    assert forall|i: int, j: int|
                        0 <= i < 3 && 0 <= j < 3 implies #[trigger] ft.rows@[i].cells@[j]
                        == tsnap.rows@[i].cells@[j] by {
                        assert(tsnap.rows@[i].cells@.len() == 3);
                    };
                }
                Ok(())
            },
            Err(e) => Err(e),
        }
    }

    /// Render the complete invoice: header, reference block, items
    /// table, the optional note, the totals block, and the footer.
    ///
    /// Fails with `UnsupportedImageFormat` if and only if the header
    /// logo is not a PNG payload, then with `DivisionByZero` if and only
    /// if the logo's intrinsic height is zero, then with
    /// `DocumentClosedError` if and only if the document is closed; and
    /// with `InvalidColorFormat` if and only if the footer color is not
    /// of the form `#RRGGBB`.
    pub fn render(&self, target: &mut RenderTarget) -> (r: Result<(), Error>)
        requires
            old(target).wf(),
        ensures
            final(target).wf(),
            final(target).geom == old(target).geom,
            final(target).base_style == old(target).base_style,
            final(target).font == old(target).font,
            final(target).closed == old(target).closed,
            match r {
                Ok(()) => {
                    &&& is_png(self.header.logo@)
                    &&& be32(self.header.logo@, 20) != 0
                    &&& valid_hex_color(self.footer.company_name_color@)
                    &&& !old(target).closed
                    &&& final(target).images@.len() == old(target).images@.len() + 1
                    &&& final(target).flow@.len() == old(target).flow@.len() + 3 + (
                    if self.note is Some {
                        1int
                    } else {
                        0int
                    })
                    &&& final(target).fixed@.len() == old(target).fixed@.len() + 2
                    &&& forall|i: int|
                        0 <= i < old(target).flow@.len() ==> #[trigger] final(target).flow@[i]
                            == old(target).flow@[i]
                    &&& forall|i: int|
                        0 <= i < old(target).fixed@.len() ==> #[trigger] final(target).fixed@[i]
                            == old(target).fixed@[i]
                    &&& final(target).flow@[old(target).flow@.len() as int] matches
                        BoxContent::Table(ht) && is_header_table(
                        ht,
                        self.header,
                        old(target).images@.len() as int,
                    )
                    &&& final(target).flow@[old(target).flow@.len() as int + 1] matches BoxContent::Table(
                        it,
                    ) && is_invoice_info_table(it, *self)
                    &&& final(target).flow@[old(target).flow@.len() as int + 2] matches BoxContent::Table(
                        itt,
                    ) && is_items_table(itt, *self)
                    &&& self.note matches Some(n) ==> final(target).flow@[old(
                        target,
                    ).flow@.len() as int + 3] matches BoxContent::Paragraph(p) && p.text@ == n@
                        && p.margin_top == 30 && p.margin_bottom == 30 && p.style
                        == StyleSet::spec_empty()
                    &&& final(target).fixed@[old(target).fixed@.len() as int].0 matches
                        BoxContent::Table(tt) && is_invoice_totals_table(tt, *self)
                    &&& final(target).fixed@[old(target).fixed@.len() as int].2
                        == FixedScope::FinalPage
                    &&& final(target).fixed@.last().0 matches BoxContent::Table(ftb)
                        && is_footer_table(ftb, self.footer)
                    &&& final(target).fixed@.last().2 == FixedScope::EveryPage
                },
                Err(e) => {
                    ||| (e == Error::UnsupportedImageFormat && !is_png(self.header.logo@)
                        && *final(target) == *old(target))
                    ||| (e == Error::DivisionByZero && is_png(self.header.logo@) && be32(
                        self.header.logo@,
                        20,
                    ) == 0 && *final(target) == *old(target))
                    ||| (e == Error::DocumentClosedError && old(target).closed && *final(target)
                        == *old(target))
                    ||| (e == Error::InvalidColorFormat && !valid_hex_color(
                        self.footer.company_name_color@,
                    ))
                },
            },
    {
        if let Err(e) = self.header.render(target) {
            return Err(e);
        }
        if let Err(e) = self.render_invoice_information(target) {
            return Err(e);
        }
        if let Err(e) = self.render_items_section(target) {
            return Err(e);
        }
        if let Some(note) = &self.note {
            let mut paragraph = crate::table::Paragraph::new_with_text(note.as_str());
            paragraph.set_margin_top(30);
            paragraph.set_margin_bottom(30);
            if let Err(e) = target.add_paragraph(paragraph) {
                return Err(e);
            }
        }
        if let Err(e) = self.render_invoice_totals(target) {
            return Err(e);
        }
        match self.footer.render(target) {
            Ok(()) => Ok(()),
            Err(e) => Err(e),
        }
    }
}

} // verus!
