use docpress::draw::DrawCmd;
use docpress::error::Error;
use docpress::footer::Footer;
use docpress::header::{Address, AddressableParty, Header};
use docpress::packing_slip::{ArticlePackingInfo, PackingSlip};
use docpress::shipment::{Article, CustomerInfo, SellerInfo, Shipment};
use docpress::table::{BoxContent, CellItem};
use docpress::{DocumentConfiguration, RenderTarget};

fn logo_png() -> Vec<u8> {
    let mut png = vec![137u8, 80, 78, 71, 13, 10, 26, 10, 0, 0, 0, 13, 73, 72, 68, 82];
    png.extend_from_slice(&200u32.to_be_bytes());
    png.extend_from_slice(&50u32.to_be_bytes());
    png
}

fn sample_packing_slip() -> PackingSlip {
    PackingSlip {
        items: vec![
            ArticlePackingInfo {
                identifier: "ART-1".to_string(),
                description: "Ding".to_string(),
                quantity_ordered: 10,
                quantity_delivered: 7,
                quantity_backorder: 3,
            },
            ArticlePackingInfo {
                identifier: "ART-2".to_string(),
                description: "Ander ding".to_string(),
                quantity_ordered: 1,
                quantity_delivered: 1,
                quantity_backorder: 0,
            },
        ],
        header: Header {
            logo: logo_png(),
            label: "Pakbon".to_string(),
            addressed_to: AddressableParty {
                name: "Koper BV".to_string(),
                department: Some("Inkoop".to_string()),
                address: Address {
                    street: "Dorpsstraat".to_string(),
                    number: "1a".to_string(),
                    zipcode: "1234 AB".to_string(),
                    city: "Utrecht".to_string(),
                    country: "Nederland".to_string(),
                },
                vat_number: None,
            },
            seller: AddressableParty {
                name: "Verkoper BV".to_string(),
                department: None,
                address: Address {
                    street: "Kade".to_string(),
                    number: "2".to_string(),
                    zipcode: "5678 CD".to_string(),
                    city: "Rotterdam".to_string(),
                    country: "Nederland".to_string(),
                },
                vat_number: None,
            },
        },
        footer: Footer {
            fields: vec!["A".to_string(), "B".to_string(), "C".to_string(), "D".to_string(), "E".to_string()],
            company_name: "Verkoper BV".to_string(),
            company_name_color: "#00AA55".to_string(),
        },
        reference_id: "REF-9".to_string(),
        order_id: "ORD-9".to_string(),
        packing_slip_id: "PB-9".to_string(),
        delivery_date: "2024-03-04".to_string(),
    }
}

fn sample_shipment() -> Shipment {
    Shipment {
        items: vec![Article {
            identifier: "ART-1".to_string(),
            description: "Ding".to_string(),
            quantity_ordered: 4,
            quantity_delivered: 4,
            quantity_backorder: 0,
        }],
        customer: CustomerInfo {
            company_name: "Koper BV".to_string(),
            customer_name: "J. Jansen".to_string(),
            address1: "Dorpsstraat 1a".to_string(),
            address2: "1234 AB Utrecht".to_string(),
        },
        seller: SellerInfo {
            company_name: "Verkoper BV".to_string(),
            address: "Kade 2, Rotterdam".to_string(),
            telephone: "010-1234567".to_string(),
            email: "info@verkoper.example".to_string(),
            website: "verkoper.example".to_string(),
            iban: "NL00BANK0123456789".to_string(),
            bic: "BANKNL2A".to_string(),
            kvk: "12345678".to_string(),
            btw: "NL000000000B01".to_string(),
            mailbox: "99".to_string(),
            logo: logo_png(),
            footer_company_name_color_hex: "#112233".to_string(),
        },
        date: "2024-03-01".to_string(),
        reference_id: "REF-9".to_string(),
        order_id: "ORD-9".to_string(),
        shipment_id: "ZD-9".to_string(),
        deliver_date: "2024-03-04".to_string(),
    }
}

#[test]
fn a_packing_slip_renders_three_flow_blocks_and_the_footer() {
    let mut target =
        RenderTarget::new(DocumentConfiguration { font_family: None, font_size: None }).unwrap();
    sample_packing_slip().render(&mut target).unwrap();
    assert_eq!(target.flow.len(), 3);
    assert_eq!(target.fixed.len(), 1);
    let articles = match &target.flow[2] {
        BoxContent::Table(t) => t,
        _ => panic!("expected the articles table"),
    };
    // Header row plus one row per article, six cells each.
    assert_eq!(articles.rows.len(), 3);
    for row in &articles.rows {
        assert_eq!(row.cells.len(), 6);
    }
    match &articles.rows[1].cells[3].items[0] {
        CellItem::Text(p) => assert_eq!(p.text, "7"),
        _ => panic!("expected the delivered quantity"),
    }
}

#[test]
fn a_shipment_serializes_to_commands_with_its_logo_embedded() {
    let doc = sample_shipment().render().unwrap();
    assert!(doc.font.is_none());
    assert_eq!(doc.images.len(), 1);
    assert_eq!(doc.images[0], logo_png());
    match &doc.commands[0] {
        DrawCmd::BeginPage { width, height } => assert_eq!((*width, *height), (595, 842)),
        _ => panic!("the stream must open a page first"),
    }
    // The logo is placed once, scaled to the document logo height with
    // its aspect ratio preserved: 200/50 * 100 = 400 wide.
    let images: Vec<_> = doc
        .commands
        .iter()
        .filter_map(|c| match c {
            DrawCmd::ImageDraw { width, height, resource, .. } => Some((*width, *height, *resource)),
            _ => None,
        })
        .collect();
    assert_eq!(images, vec![(400, 100, 0)]);
}

#[test]
fn shipment_serialization_is_deterministic() {
    let a = sample_shipment().render().unwrap();
    let b = sample_shipment().render().unwrap();
    assert_eq!(a.commands, b.commands);
}

#[test]
fn the_shipment_footer_text_is_drawn() {
    let doc = sample_shipment().render().unwrap();
    let texts: Vec<String> = doc
        .commands
        .iter()
        .filter_map(|c| match c {
            DrawCmd::TextRun { text, .. } => Some(text.clone()),
            _ => None,
        })
        .collect();
    assert!(texts.iter().any(|t| t == "Postbus 99"));
    assert!(texts.iter().any(|t| t == "IBAN NL00BANK0123456789"));
    assert!(texts.iter().any(|t| t == "Pakbon"));
    assert!(texts.iter().any(|t| t == "Bestelling #: REF-9"));
}

#[test]
fn a_bad_shipment_logo_is_unsupported() {
    let mut s = sample_shipment();
    s.seller.logo = vec![0, 1, 2];
    assert_eq!(s.render().unwrap_err(), Error::UnsupportedImageFormat);
}

#[test]
fn a_bad_shipment_footer_color_is_refused() {
    let mut s = sample_shipment();
    s.seller.footer_company_name_color_hex = "groen".to_string();
    assert_eq!(s.render().unwrap_err(), Error::InvalidColorFormat);
}
