use docpress::error::Error;
use docpress::image::{png_dimensions, ImageBox};
use docpress::text::{concat2, concat3, format_hundredths, format_signed_hundredths, u64_to_string};

#[test]
fn decimal_rendering_is_exact() {
    assert_eq!(u64_to_string(0), "0");
    assert_eq!(u64_to_string(7), "7");
    assert_eq!(u64_to_string(90), "90");
    assert_eq!(u64_to_string(1234567890), "1234567890");
}

#[test]
fn money_rendering_keeps_two_decimals() {
    assert_eq!(format_hundredths(123456), "1234.56");
    assert_eq!(format_hundredths(5), "0.05");
    assert_eq!(format_hundredths(100), "1.00");
    assert_eq!(format_hundredths(0), "0.00");
}

#[test]
fn negative_amounts_carry_a_sign() {
    assert_eq!(format_signed_hundredths(-123456), "-1234.56");
    assert_eq!(format_signed_hundredths(123456), "1234.56");
    assert_eq!(format_signed_hundredths(-1), "-0.01");
}

#[test]
fn concatenation_is_plain_joining() {
    assert_eq!(concat2("foo", "bar"), "foobar");
    assert_eq!(concat3("Bestelling #:", " ", "A-17"), "Bestelling #: A-17");
}

#[test]
fn png_dimensions_read_the_header() {
    let mut png = vec![137u8, 80, 78, 71, 13, 10, 26, 10, 0, 0, 0, 13, 73, 72, 68, 82];
    png.extend_from_slice(&640u32.to_be_bytes());
    png.extend_from_slice(&480u32.to_be_bytes());
    assert_eq!(png_dimensions(&png).unwrap(), (640, 480));
}

#[test]
fn non_png_bytes_are_unsupported() {
    assert_eq!(
        png_dimensions(&vec![1, 2, 3]).unwrap_err(),
        Error::UnsupportedImageFormat
    );
    let mut jpegish = vec![0xFFu8, 0xD8, 0xFF, 0xE0];
    jpegish.resize(32, 0);
    assert_eq!(png_dimensions(&jpegish).unwrap_err(), Error::UnsupportedImageFormat);
}

#[test]
fn image_boxes_scale_to_the_requested_height() {
    let b = ImageBox::new(0, 640, 480, 100).unwrap();
    assert_eq!(b.display_h, 100);
    assert_eq!(b.display_w, 640 * 100 / 480);
    assert_eq!(ImageBox::new(0, 640, 0, 100).unwrap_err(), Error::DivisionByZero);
}
