use docpress::color::{parse_hex_color, Rgb};
use docpress::error::Error;
use docpress::geometry::{scale_to_height, PageGeometry};

#[test]
fn content_area_of_default_page() {
    let g = PageGeometry::new(595, 842, 40, 30, 40, 30).unwrap();
    assert_eq!(g.content_width(), 535);
    assert_eq!(g.content_height(), 762);
}

#[test]
fn margins_consuming_the_page_are_refused() {
    assert_eq!(
        PageGeometry::new(100, 842, 40, 50, 40, 50).unwrap_err(),
        Error::InvalidMargins
    );
    assert_eq!(
        PageGeometry::new(595, 80, 40, 30, 40, 30).unwrap_err(),
        Error::InvalidMargins
    );
}

#[test]
fn scaling_preserves_the_aspect_ratio_exactly() {
    let (w, h) = scale_to_height(800, 600, 300).unwrap();
    assert_eq!((w, h), (400, 300));
    // The displayed ratio equals the intrinsic ratio.
    assert!(((w as f64 / h as f64) - (800.0f64 / 600.0)).abs() < 1e-4);
}

#[test]
fn scaling_rounds_down_within_one_denominator_unit() {
    let (w, h) = scale_to_height(1024, 768, 100).unwrap();
    assert_eq!(h, 100);
    // w == floor(1024 * 100 / 768)
    assert_eq!(w, 133);
    assert!(w * 768 <= 1024 * 100);
    assert!(1024 * 100 < (w + 1) * 768);
}

#[test]
fn zero_intrinsic_height_is_division_by_zero() {
    assert_eq!(scale_to_height(800, 0, 300).unwrap_err(), Error::DivisionByZero);
}

#[test]
fn hex_colors_parse_exactly() {
    assert_eq!(
        parse_hex_color("#1A2b3C").unwrap(),
        Rgb { red: 26, green: 43, blue: 60 }
    );
    assert_eq!(
        parse_hex_color("#ffffff").unwrap(),
        Rgb { red: 255, green: 255, blue: 255 }
    );
    assert_eq!(
        parse_hex_color("#000000").unwrap(),
        Rgb { red: 0, green: 0, blue: 0 }
    );
}

#[test]
fn malformed_hex_colors_are_refused() {
    assert_eq!(parse_hex_color("1A2b3C").unwrap_err(), Error::InvalidColorFormat);
    assert_eq!(parse_hex_color("#1A2b3").unwrap_err(), Error::InvalidColorFormat);
    assert_eq!(parse_hex_color("#1A2b3CD").unwrap_err(), Error::InvalidColorFormat);
    assert_eq!(parse_hex_color("#1A2b3G").unwrap_err(), Error::InvalidColorFormat);
    assert_eq!(parse_hex_color("").unwrap_err(), Error::InvalidColorFormat);
}

#[test]
fn footer_anchor_sits_on_the_margins() {
    let g = PageGeometry::new(595, 842, 40, 30, 40, 30).unwrap();
    let p = g.footer_position();
    assert_eq!(p.offset_left, 30);
    assert_eq!(p.offset_bottom, 40);
    assert_eq!(p.width, 535);
}

#[test]
fn every_error_describes_itself() {
    for e in [
        Error::InvalidMargins,
        Error::InvalidColumnSpec,
        Error::InvalidColorFormat,
        Error::InvalidFontSize,
        Error::RowOverflow,
        Error::ImmutableBoxError,
        Error::DocumentClosedError,
        Error::InvalidFontProgram,
        Error::UnsupportedImageFormat,
        Error::DivisionByZero,
        Error::SerializationError,
        Error::EngineUnavailable,
    ] {
        assert!(!e.describe().is_empty());
    }
    assert_eq!(Error::DivisionByZero.describe(), "division by zero");
}
