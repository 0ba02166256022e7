use docpress::draw::DrawCmd;
use docpress::error::Error;
use docpress::style::{resolved_style, ResolvedStyle, StyleSet, TextAlign};
use docpress::style::BorderSpec;
use docpress::table::{plain_text_cell, styled_text_cell, Table};
use docpress::{DocumentConfiguration, RenderTarget};

fn default_target() -> RenderTarget {
    RenderTarget::new(DocumentConfiguration { font_family: None, font_size: None }).unwrap()
}

#[test]
fn defaults_are_a4_with_eleven_point_type() {
    let t = default_target();
    assert_eq!(t.geom.page_width, 595);
    assert_eq!(t.geom.page_height, 842);
    assert_eq!(t.geom.margin_top, 40);
    assert_eq!(t.geom.margin_right, 30);
    assert_eq!(t.geom.margin_bottom, 40);
    assert_eq!(t.geom.margin_left, 30);
    assert_eq!(t.base_style.font_size, 11);
}

#[test]
fn a_zero_font_size_is_refused() {
    let r = RenderTarget::new(DocumentConfiguration { font_family: None, font_size: Some(0) });
    assert_eq!(r.unwrap_err(), Error::InvalidFontSize);
}

#[test]
fn font_bytes_need_a_known_header() {
    let r = RenderTarget::new(DocumentConfiguration {
        font_family: Some(vec![1, 2, 3, 4]),
        font_size: None,
    });
    assert_eq!(r.unwrap_err(), Error::InvalidFontProgram);
    let ok = RenderTarget::new(DocumentConfiguration {
        font_family: Some(vec![0, 1, 0, 0, 9, 9]),
        font_size: Some(12),
    })
    .unwrap();
    assert_eq!(ok.base_style.font_size, 12);
    assert_eq!(ok.font, Some(vec![0, 1, 0, 0, 9, 9]));
}

#[test]
fn closing_is_terminal() {
    let mut t = default_target();
    t.close().unwrap();
    assert_eq!(t.close().unwrap_err(), Error::DocumentClosedError);
    let table = Table::new(vec![1]).unwrap();
    assert_eq!(t.add(table).unwrap_err(), Error::DocumentClosedError);
}

#[test]
fn style_resolution_is_idempotent() {
    let base = ResolvedStyle {
        font_size: 11,
        font_color: docpress::color::black(),
        bold: false,
        italic: false,
        align: TextAlign::Left,
    };
    let mut inner = StyleSet::empty();
    inner.font_size = Some(7);
    let first = resolved_style(&inner, &base);
    let second = resolved_style(&inner, &base);
    assert_eq!(first, second);
    assert_eq!(first.font_size, 7);
    // Unset attributes fall back to the document defaults.
    assert_eq!(first.align, TextAlign::Left);
    assert!(!first.bold);
}

#[test]
fn five_columns_and_five_cells_serialize_without_padding() {
    let mut target = default_target();
    let mut table = Table::new(vec![1, 1, 1, 1, 1]).unwrap();
    table.start_new_row().unwrap();
    for label in ["Nr", "Naam", "Aantal", "Korting", "Totaal"] {
        table
            .add_cell(styled_text_cell(
                label,
                StyleSet::empty(),
                BorderSpec::NoBorder,
                BorderSpec::NoBorder,
            ))
            .unwrap();
    }
    table.start_new_row().unwrap();
    for value in ["1", "Foo", "2", "0", "3"] {
        table.add_cell(plain_text_cell(&value.to_string())).unwrap();
    }
    target.add(table).unwrap();
    let doc = target.finish();
    let mut pages = 0;
    let mut frames = 0;
    let mut texts = 0;
    for cmd in &doc.commands {
        match cmd {
            DrawCmd::BeginPage { width, height } => {
                pages += 1;
                assert_eq!((*width, *height), (595, 842));
            },
            DrawCmd::CellFrame { .. } => frames += 1,
            DrawCmd::TextRun { .. } => texts += 1,
            DrawCmd::ImageDraw { .. } => panic!("no images in this document"),
        }
    }
    assert_eq!(pages, 1);
    // Exactly 2 rows x 5 cells, and every cell carries its text:
    // 5 == 5, so no padding was added.
    assert_eq!(frames, 10);
    assert_eq!(texts, 10);
}

#[test]
fn serialization_is_deterministic() {
    let build = || {
        let mut target = default_target();
        let mut table = Table::new(vec![2, 1]).unwrap();
        table.start_new_row().unwrap();
        table.add_cell(plain_text_cell(&"links".to_string())).unwrap();
        table.add_cell(plain_text_cell(&"rechts".to_string())).unwrap();
        target.add(table).unwrap();
        target.finish()
    };
    let a = build();
    let b = build();
    assert_eq!(a.commands, b.commands);
}

#[test]
fn tall_content_breaks_onto_a_second_page() {
    // Each row of a one-column table holds one 11-point line: 16 units.
    // 48 rows x 16 = 768 > 762 of content height, so the table overflows
    // and lands, whole, on a fresh second page.
    let mut target = default_target();
    let mut first = Table::new(vec![1]).unwrap();
    first.start_new_row().unwrap();
    first.add_cell(plain_text_cell(&"kop".to_string())).unwrap();
    target.add(first).unwrap();
    let mut tall = Table::new(vec![1]).unwrap();
    for i in 0..48 {
        tall.start_new_row().unwrap();
        tall.add_cell(plain_text_cell(&i.to_string())).unwrap();
    }
    target.add(tall).unwrap();
    let doc = target.finish();
    let pages = doc
        .commands
        .iter()
        .filter(|c| matches!(c, DrawCmd::BeginPage { .. }))
        .count();
    assert_eq!(pages, 2);
}
