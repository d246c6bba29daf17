use zune_workflow::format::{encoder_for_extension, guess_format, ImageFormat};

#[test]
fn sniffs_jpeg_sample() {
    let r = guess_format(&[0xff, 0xd8, 0xff, 0xe0]);
    assert_eq!(r, Some((ImageFormat::Jpeg, 3)));
}

#[test]
fn sniffs_png_sample() {
    let r = guess_format(&[0x89, 0x50, 0x4e, 0x47, 0x0d, 0x0a, 0x1a, 0x0a, 0x00]);
    assert_eq!(r, Some((ImageFormat::Png, 8)));
}

#[test]
fn sniffs_ppm_sample() {
    assert_eq!(guess_format(b"P6 2 2 255 "), Some((ImageFormat::Ppm, 2)));
    assert_eq!(guess_format(b"P1"), Some((ImageFormat::Ppm, 2)));
    assert_eq!(guess_format(b"P7"), Some((ImageFormat::Ppm, 2)));
    assert_eq!(guess_format(b"P8"), None);
}

#[test]
fn sniffs_psd_sample() {
    assert_eq!(guess_format(b"8BPS...."), Some((ImageFormat::Psd, 4)));
}

#[test]
fn sniffs_farbfeld_sample() {
    assert_eq!(guess_format(b"farbfeldwwhh"), Some((ImageFormat::Farbfeld, 8)));
}

#[test]
fn sniffs_qoi_sample() {
    assert_eq!(guess_format(b"qoif"), Some((ImageFormat::Qoi, 4)));
}

#[test]
fn sniffs_hdr_sample() {
    assert_eq!(guess_format(b"#?RADIANCE\n"), Some((ImageFormat::Hdr, 10)));
}

#[test]
fn sniffs_bmp_sample() {
    assert_eq!(guess_format(b"BMxxxx"), Some((ImageFormat::Bmp, 2)));
}

#[test]
fn sniffs_jpegxl_codestream_without_decoder() {
    let r = guess_format(&[0xff, 0x0a, 0x00]);
    assert_eq!(r, Some((ImageFormat::JpegXl, 2)));
    assert!(!ImageFormat::JpegXl.has_decoder());
    assert!(ImageFormat::JpegXl.has_encoder());
}

#[test]
fn every_decoder_format_sniffs_its_own_sample() {
    let samples: Vec<(ImageFormat, Vec<u8>)> = vec![
        (ImageFormat::Jpeg, vec![0xff, 0xd8, 0xff]),
        (ImageFormat::Png, vec![0x89, 0x50, 0x4e, 0x47, 0x0d, 0x0a, 0x1a, 0x0a]),
        (ImageFormat::Ppm, vec![0x50, 0x36]),
        (ImageFormat::Psd, vec![0x38, 0x42, 0x50, 0x53]),
        (ImageFormat::Farbfeld, b"farbfeld".to_vec()),
        (ImageFormat::Qoi, b"qoif".to_vec()),
        (ImageFormat::Hdr, b"#?RADIANCE".to_vec()),
        (ImageFormat::Bmp, vec![0x42, 0x4d]),
    ];
    for (format, sample) in samples {
        assert!(format.has_decoder());
        let sniffed = guess_format(&sample).map(|(f, _)| f);
        assert_eq!(sniffed, Some(format));
    }
}

#[test]
fn unmatched_bytes_sniff_to_none() {
    assert_eq!(guess_format(b"not an image at all"), None);
    assert_eq!(guess_format(&[0x00, 0x01, 0x02, 0x03]), None);
}

#[test]
fn empty_input_sniffs_to_none() {
    assert_eq!(guess_format(&[]), None);
}

#[test]
fn extension_registry_resolves_known_encoders() {
    assert_eq!(encoder_for_extension("png"), Some(ImageFormat::Png));
    assert_eq!(encoder_for_extension("jpg"), Some(ImageFormat::Jpeg));
    assert_eq!(encoder_for_extension("jpeg"), Some(ImageFormat::Jpeg));
    assert_eq!(encoder_for_extension("ppm"), Some(ImageFormat::Ppm));
    assert_eq!(encoder_for_extension("pam"), Some(ImageFormat::Ppm));
    assert_eq!(encoder_for_extension("ff"), Some(ImageFormat::Farbfeld));
    assert_eq!(encoder_for_extension("qoi"), Some(ImageFormat::Qoi));
    assert_eq!(encoder_for_extension("jxl"), Some(ImageFormat::JpegXl));
    assert_eq!(encoder_for_extension("hdr"), Some(ImageFormat::Hdr));
}

#[test]
fn extension_registry_is_case_sensitive_and_closed() {
    assert_eq!(encoder_for_extension("PNG"), None);
    assert_eq!(encoder_for_extension("txt"), None);
    assert_eq!(encoder_for_extension(""), None);
    assert_eq!(encoder_for_extension("psd"), None);
    assert_eq!(encoder_for_extension("bmp"), None);
}

#[test]
fn resolved_extensions_always_have_encoders() {
    for ext in ["png", "jpg", "jpeg", "ppm", "pam", "pgm", "pbm", "ff", "qoi", "jxl", "hdr"] {
        let f = encoder_for_extension(ext).unwrap();
        assert!(f.has_encoder());
    }
}

#[test]
fn known_formats_carry_a_capability() {
    let all = [
        ImageFormat::Jpeg,
        ImageFormat::Png,
        ImageFormat::Ppm,
        ImageFormat::Psd,
        ImageFormat::Farbfeld,
        ImageFormat::Qoi,
        ImageFormat::JpegXl,
        ImageFormat::Hdr,
        ImageFormat::Bmp,
    ];
    for f in all {
        assert!(f.has_decoder() || f.has_encoder());
    }
    assert!(!ImageFormat::Unknown.has_decoder());
    assert!(!ImageFormat::Unknown.has_encoder());
}
