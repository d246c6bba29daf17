use zune_workflow::color::ColorSpace;
use zune_workflow::errors::{QoiEncodeErrors, QoiErrors};

#[test]
fn wrong_magic_bytes_message() {
    assert_eq!(
        QoiErrors::WrongMagicBytes.message(),
        "Wrong magic bytes, expected `qoif` as image start"
    );
}

#[test]
fn insufficient_data_names_both_counts() {
    assert_eq!(
        QoiErrors::InsufficientData(1024, 17).message(),
        "Insufficient data required 1024 but remaining stream has 17"
    );
}

#[test]
fn unknown_channels_names_the_count() {
    assert_eq!(
        QoiErrors::UnknownChannels(5).message(),
        "Unknown channel number 5, expected either 3 or 4"
    );
}

#[test]
fn unknown_colorspace_names_the_tag() {
    assert_eq!(
        QoiErrors::UnknownColorspace(2).message(),
        "Unknown colorspace number 2, expected either 0 or 1"
    );
}

#[test]
fn generic_messages_pass_through() {
    assert_eq!(
        QoiErrors::Generic("decoder hiccup".to_string()).message(),
        "decoder hiccup"
    );
    assert_eq!(QoiErrors::GenericStatic("static text").message(), "static text");
}

#[test]
fn static_strings_convert_into_the_static_variant() {
    let e: QoiErrors = "short read".into();
    assert_eq!(e, QoiErrors::GenericStatic("short read"));
}

#[test]
fn encode_errors_carry_their_context() {
    let e = QoiEncodeErrors::UnsupportedColorspace(
        ColorSpace::Cmyk,
        vec![ColorSpace::Rgb, ColorSpace::Rgba],
    );
    assert!(matches!(
        e,
        QoiEncodeErrors::UnsupportedColorspace(ColorSpace::Cmyk, _)
    ));
    let d = QoiEncodeErrors::TooLargeDimensions(5_000_000_000);
    assert!(matches!(d, QoiEncodeErrors::TooLargeDimensions(5_000_000_000)));
}
