use docpress::error::Error;
use docpress::footer::Footer;
use docpress::header::{Address, AddressableParty, Header};
use docpress::invoice::{Currency, Invoice, InvoiceItem, InvoiceTotals};
use docpress::table::BoxContent;
use docpress::{DocumentConfiguration, RenderTarget};

fn sample_png() -> Vec<u8> {
    let mut png = vec![137u8, 80, 78, 71, 13, 10, 26, 10, 0, 0, 0, 13, 73, 72, 68, 82];
    png.extend_from_slice(&640u32.to_be_bytes());
    png.extend_from_slice(&480u32.to_be_bytes());
    png
}

fn sample_party(name: &str) -> AddressableParty {
    AddressableParty {
        name: name.to_string(),
        department: None,
        address: Address {
            street: "Dorpsstraat".to_string(),
            number: "1a".to_string(),
            zipcode: "1234 AB".to_string(),
            city: "Utrecht".to_string(),
            country: "Nederland".to_string(),
        },
        vat_number: Some("NL000000000B01".to_string()),
    }
}

fn sample_invoice(discount: u32) -> Invoice {
    Invoice {
        header: Header {
            logo: sample_png(),
            label: "Factuur".to_string(),
            addressed_to: sample_party("Koper BV"),
            seller: sample_party("Verkoper BV"),
        },
        footer: Footer {
            fields: vec!["A".to_string(), "B".to_string(), "C".to_string()],
            company_name: "Verkoper BV".to_string(),
            company_name_color: "#336699".to_string(),
        },
        reference_id: "REF-1".to_string(),
        invoice_id: "F-2024-001".to_string(),
        invoice_date: "2024-01-02".to_string(),
        expiration_date: "2024-02-01".to_string(),
        totals: InvoiceTotals {
            total_excluding_vat: 10000,
            total_vat: 2100,
            total_including_vat: 12100,
        },
        items: vec![InvoiceItem {
            identifier: "ART-1".to_string(),
            description: "Ding".to_string(),
            quantity: 2,
            price_per_unit: 5000,
            discount_percentage: discount,
            subtotal_price_per_unit: 5000,
            total_price: 10000,
        }],
        note: None,
        currency: Currency::Euro,
    }
}

fn fresh_target() -> RenderTarget {
    RenderTarget::new(DocumentConfiguration { font_family: None, font_size: None }).unwrap()
}

#[test]
fn the_euro_symbol_is_rendered() {
    assert_eq!(Currency::Euro.to_string(), "€");
}

#[test]
fn discount_detection_looks_at_every_item() {
    assert!(!sample_invoice(0).any_item_has_discount());
    assert!(sample_invoice(500).any_item_has_discount());
}

#[test]
fn without_discounts_the_items_table_has_seven_columns() {
    let mut target = fresh_target();
    sample_invoice(0).render(&mut target).unwrap();
    let items_table = match &target.flow[2] {
        BoxContent::Table(t) => t,
        _ => panic!("expected the items table"),
    };
    assert_eq!(items_table.weights.len(), 7);
    for row in &items_table.rows {
        assert_eq!(row.cells.len(), 7);
    }
    assert_eq!(items_table.rows.len(), 2);
}

#[test]
fn with_a_discount_the_items_table_has_ten_columns() {
    let mut target = fresh_target();
    sample_invoice(500).render(&mut target).unwrap();
    let items_table = match &target.flow[2] {
        BoxContent::Table(t) => t,
        _ => panic!("expected the items table"),
    };
    assert_eq!(items_table.weights.len(), 10);
    for row in &items_table.rows {
        assert_eq!(row.cells.len(), 10);
    }
}

#[test]
fn an_invoice_renders_three_flow_blocks_and_two_fixed_blocks() {
    let mut target = fresh_target();
    sample_invoice(0).render(&mut target).unwrap();
    assert_eq!(target.flow.len(), 3);
    assert_eq!(target.fixed.len(), 2);
    assert_eq!(target.images.len(), 1);
}

#[test]
fn a_note_becomes_a_flowed_paragraph_with_margins() {
    let mut inv = sample_invoice(0);
    inv.note = Some("Met dank voor uw bestelling.".to_string());
    let mut target = fresh_target();
    inv.render(&mut target).unwrap();
    assert_eq!(target.flow.len(), 4);
    match &target.flow[3] {
        BoxContent::Paragraph(p) => {
            assert_eq!(p.text, "Met dank voor uw bestelling.");
            assert_eq!(p.margin_top, 30);
            assert_eq!(p.margin_bottom, 30);
        },
        _ => panic!("expected the note paragraph"),
    }
}

#[test]
fn the_totals_block_sits_a_fixed_offset_above_the_bottom_margin() {
    let mut target = fresh_target();
    sample_invoice(0).render(&mut target).unwrap();
    let (_, pos, _) = &target.fixed[0];
    assert_eq!(pos.offset_bottom, 40 + 100);
}

#[test]
fn a_bad_footer_color_aborts_the_invoice() {
    let mut inv = sample_invoice(0);
    inv.footer.company_name_color = "#33669".to_string();
    let mut target = fresh_target();
    assert_eq!(inv.render(&mut target).unwrap_err(), Error::InvalidColorFormat);
}

#[test]
fn a_bad_logo_aborts_the_invoice_untouched() {
    let mut inv = sample_invoice(0);
    inv.header.logo = vec![1, 2, 3];
    let mut target = fresh_target();
    assert_eq!(inv.render(&mut target).unwrap_err(), Error::UnsupportedImageFormat);
    assert!(target.flow.is_empty());
    assert!(target.fixed.is_empty());
}

#[test]
fn a_zero_height_logo_is_division_by_zero() {
    let mut inv = sample_invoice(0);
    let mut png = vec![137u8, 80, 78, 71, 13, 10, 26, 10, 0, 0, 0, 13, 73, 72, 68, 82];
    png.extend_from_slice(&640u32.to_be_bytes());
    png.extend_from_slice(&0u32.to_be_bytes());
    inv.header.logo = png;
    let mut target = fresh_target();
    assert_eq!(inv.render(&mut target).unwrap_err(), Error::DivisionByZero);
}
