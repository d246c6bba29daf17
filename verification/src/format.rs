//! The format registry: a closed set of image formats, the magic-byte
//! signatures that identify them, the file extensions that select an
//! encoder, and per-format decode/encode capability flags.

use vstd::prelude::*;

verus! {

/// A closed tag identifying an image encoding, with independent decode and
/// encode capability flags. A format with neither capability is never
/// constructed except as the explicit `Unknown` sentinel.
#[derive(Clone, Copy, PartialEq, Eq, Structural, Debug)]
pub enum ImageFormat {
    Jpeg,
    Png,
    Ppm,
    Psd,
    Farbfeld,
    Qoi,
    JpegXl,
    Hdr,
    Bmp,
    Unknown,
}

impl ImageFormat {
    /// Which formats a decoder is registered for.
    pub open spec fn spec_has_decoder(self) -> bool {
        match self {
            ImageFormat::Jpeg => true,
            ImageFormat::Png => true,
            ImageFormat::Ppm => true,
            ImageFormat::Psd => true,
            ImageFormat::Farbfeld => true,
            ImageFormat::Qoi => true,
            ImageFormat::JpegXl => false,
            ImageFormat::Hdr => true,
            ImageFormat::Bmp => true,
            ImageFormat::Unknown => false,
        }
    }

    /// Which formats an encoder is registered for.
    pub open spec fn spec_has_encoder(self) -> bool {
        match self {
            ImageFormat::Jpeg => true,
            ImageFormat::Png => true,
            ImageFormat::Ppm => true,
            ImageFormat::Psd => false,
            ImageFormat::Farbfeld => true,
            ImageFormat::Qoi => true,
            ImageFormat::JpegXl => true,
            ImageFormat::Hdr => true,
            ImageFormat::Bmp => false,
            ImageFormat::Unknown => false,
        }
    }

    /// Pure capability query: is a decoder registered for this format?
    pub fn has_decoder(&self) -> (r: bool)
        ensures
            r == self.spec_has_decoder(),
    {
        matches!(
            self,
            ImageFormat::Jpeg
                | ImageFormat::Png
                | ImageFormat::Ppm
                | ImageFormat::Psd
                | ImageFormat::Farbfeld
                | ImageFormat::Qoi
                | ImageFormat::Hdr
                | ImageFormat::Bmp
        )
    }

    /// Pure capability query: is an encoder registered for this format?
    pub fn has_encoder(&self) -> (r: bool)
        ensures
            r == self.spec_has_encoder(),
    {
        matches!(
            self,
            ImageFormat::Jpeg
                | ImageFormat::Png
                | ImageFormat::Ppm
                | ImageFormat::Farbfeld
                | ImageFormat::Qoi
                | ImageFormat::JpegXl
                | ImageFormat::Hdr
        )
    }
}

/// Whether the leading bytes of `s` carry the magic signature of format `f`.
/// Only formats with a registered decoder have a signature.
pub open spec fn spec_sig_matches(f: ImageFormat, s: Seq<u8>) -> bool {
    match f {
        ImageFormat::Jpeg => s.len() >= 3 && s[0] == 0xffu8 && s[1] == 0xd8u8 && s[2] == 0xffu8,
        ImageFormat::Png => s.len() >= 8 && s[0] == 0x89u8 && s[1] == 0x50u8 && s[2] == 0x4eu8
            && s[3] == 0x47u8 && s[4] == 0x0du8 && s[5] == 0x0au8 && s[6] == 0x1au8
            && s[7] == 0x0au8,
        ImageFormat::Ppm => s.len() >= 2 && s[0] == 0x50u8 && 0x31u8 <= s[1] && s[1] <= 0x37u8,
        ImageFormat::Psd => s.len() >= 4 && s[0] == 0x38u8 && s[1] == 0x42u8 && s[2] == 0x50u8
            && s[3] == 0x53u8,
        ImageFormat::Farbfeld => s.len() >= 8 && s[0] == 0x66u8 && s[1] == 0x61u8 && s[2] == 0x72u8
            && s[3] == 0x62u8 && s[4] == 0x66u8 && s[5] == 0x65u8 && s[6] == 0x6cu8
            && s[7] == 0x64u8,
        ImageFormat::Qoi => s.len() >= 4 && s[0] == 0x71u8 && s[1] == 0x6fu8 && s[2] == 0x69u8
            && s[3] == 0x66u8,
        ImageFormat::Hdr => s.len() >= 10 && s[0] == 0x23u8 && s[1] == 0x3fu8 && s[2] == 0x52u8
            && s[3] == 0x41u8 && s[4] == 0x44u8 && s[5] == 0x49u8 && s[6] == 0x41u8
            && s[7] == 0x4eu8 && s[8] == 0x43u8 && s[9] == 0x45u8,
        ImageFormat::Bmp => s.len() >= 2 && s[0] == 0x42u8 && s[1] == 0x4du8,
        ImageFormat::JpegXl => s.len() >= 2 && s[0] == 0xffu8 && s[1] == 0x0au8,
        ImageFormat::Unknown => false,
    }
}

/// The length of the signature window that identifies format `f`; the
/// confidence marker a successful sniff reports.
pub open spec fn spec_sig_len(f: ImageFormat) -> usize {
    match f {
        ImageFormat::Jpeg => 3usize,
        ImageFormat::Png => 8usize,
        ImageFormat::Ppm => 2usize,
        ImageFormat::Psd => 4usize,
        ImageFormat::Farbfeld => 8usize,
        ImageFormat::Qoi => 4usize,
        ImageFormat::Hdr => 10usize,
        ImageFormat::Bmp => 2usize,
        ImageFormat::JpegXl => 2usize,
        ImageFormat::Unknown => 0usize,
    }
}

/// The sniffing relation: the first format, in the stable registry order,
/// whose signature matches the leading bytes; `None` when no registered
/// signature matches.
pub open spec fn spec_guess_format(s: Seq<u8>) -> Option<ImageFormat> {
    if spec_sig_matches(ImageFormat::Jpeg, s) {
        Some(ImageFormat::Jpeg)
    } else if spec_sig_matches(ImageFormat::Png, s) {
        Some(ImageFormat::Png)
    } else if spec_sig_matches(ImageFormat::Ppm, s) {
        Some(ImageFormat::Ppm)
    } else if spec_sig_matches(ImageFormat::Psd, s) {
        Some(ImageFormat::Psd)
    } else if spec_sig_matches(ImageFormat::Farbfeld, s) {
        Some(ImageFormat::Farbfeld)
    } else if spec_sig_matches(ImageFormat::Qoi, s) {
        Some(ImageFormat::Qoi)
    } else if spec_sig_matches(ImageFormat::Hdr, s) {
        Some(ImageFormat::Hdr)
    } else if spec_sig_matches(ImageFormat::Bmp, s) {
        Some(ImageFormat::Bmp)
    } else if spec_sig_matches(ImageFormat::JpegXl, s) {
        Some(ImageFormat::JpegXl)
    } else {
        None
    }
}

/// Inspects a leading window of bytes against each known format's magic
/// signature, in the stable registry order, and returns the first match
/// together with the length of the matched signature window. Returns `None`
/// when no registered signature matches.
pub fn guess_format(bytes: &[u8]) -> (r: Option<(ImageFormat, usize)>)
    ensures
        match r {
            Some((f, c)) => spec_guess_format(bytes@) == Some(f) && c == spec_sig_len(f)
                && spec_sig_matches(f, bytes@),
            None => spec_guess_format(bytes@) is None,
        },
{
    let n = bytes.len();
    if n >= 3 && bytes[0] == 0xff && bytes[1] == 0xd8 && bytes[2] == 0xff {
        return Some((ImageFormat::Jpeg, 3));
    }
    if n >= 8 && bytes[0] == 0x89 && bytes[1] == 0x50 && bytes[2] == 0x4e && bytes[3] == 0x47
        && bytes[4] == 0x0d && bytes[5] == 0x0a && bytes[6] == 0x1a && bytes[7] == 0x0a {
        return Some((ImageFormat::Png, 8));
    }
    if n >= 2 && bytes[0] == 0x50 && 0x31 <= bytes[1] && bytes[1] <= 0x37 {
        return Some((ImageFormat::Ppm, 2));
    }
    if n >= 4 && bytes[0] == 0x38 && bytes[1] == 0x42 && bytes[2] == 0x50 && bytes[3] == 0x53 {
        return Some((ImageFormat::Psd, 4));
    }
    if n >= 8 && bytes[0] == 0x66 && bytes[1] == 0x61 && bytes[2] == 0x72 && bytes[3] == 0x62
        && bytes[4] == 0x66 && bytes[5] == 0x65 && bytes[6] == 0x6c && bytes[7] == 0x64 {
        return Some((ImageFormat::Farbfeld, 8));
    }
    if n >= 4 && bytes[0] == 0x71 && bytes[1] == 0x6f && bytes[2] == 0x69 && bytes[3] == 0x66 {
        return Some((ImageFormat::Qoi, 4));
    }
    if n >= 10 && bytes[0] == 0x23 && bytes[1] == 0x3f && bytes[2] == 0x52 && bytes[3] == 0x41
        && bytes[4] == 0x44 && bytes[5] == 0x49 && bytes[6] == 0x41 && bytes[7] == 0x4e
        && bytes[8] == 0x43 && bytes[9] == 0x45 {
        return Some((ImageFormat::Hdr, 10));
    }
    if n >= 2 && bytes[0] == 0x42 && bytes[1] == 0x4d {
        return Some((ImageFormat::Bmp, 2));
    }
    if n >= 2 && bytes[0] == 0xff && bytes[1] == 0x0a {
        return Some((ImageFormat::JpegXl, 2));
    }
    None
}

/// A minimal sample of format `f`: exactly the bytes of its magic signature.
pub open spec fn spec_signature_sample(f: ImageFormat) -> Seq<u8> {
    match f {
        ImageFormat::Jpeg => seq![0xffu8, 0xd8u8, 0xffu8],
        ImageFormat::Png => seq![0x89u8, 0x50u8, 0x4eu8, 0x47u8, 0x0du8, 0x0au8, 0x1au8, 0x0au8],
        ImageFormat::Ppm => seq![0x50u8, 0x36u8],
        ImageFormat::Psd => seq![0x38u8, 0x42u8, 0x50u8, 0x53u8],
        ImageFormat::Farbfeld => seq![0x66u8, 0x61u8, 0x72u8, 0x62u8, 0x66u8, 0x65u8, 0x6cu8, 0x64u8],
        ImageFormat::Qoi => seq![0x71u8, 0x6fu8, 0x69u8, 0x66u8],
        ImageFormat::Hdr => seq![
            0x23u8, 0x3fu8, 0x52u8, 0x41u8, 0x44u8, 0x49u8, 0x41u8, 0x4eu8, 0x43u8, 0x45u8,
        ],
        ImageFormat::Bmp => seq![0x42u8, 0x4du8],
        ImageFormat::JpegXl => seq![0xffu8, 0x0au8],
        ImageFormat::Unknown => Seq::empty(),
    }
}

/// Law: sniffing a minimal well-formed sample of any format with a
/// registered decoder identifies exactly that format.
pub proof fn lemma_sniff_identifies_sample(f: ImageFormat)
    requires
        f.spec_has_decoder(),
    ensures
        spec_guess_format(spec_signature_sample(f)) == Some(f),
{
    let s = spec_signature_sample(f);
    match f {
        ImageFormat::Jpeg => assert(spec_sig_matches(ImageFormat::Jpeg, s)),
        ImageFormat::Png => assert(spec_sig_matches(ImageFormat::Png, s)),
        ImageFormat::Ppm => assert(spec_sig_matches(ImageFormat::Ppm, s)),
        ImageFormat::Psd => assert(spec_sig_matches(ImageFormat::Psd, s)),
        ImageFormat::Farbfeld => assert(spec_sig_matches(ImageFormat::Farbfeld, s)),
        ImageFormat::Qoi => assert(spec_sig_matches(ImageFormat::Qoi, s)),
        ImageFormat::Hdr => assert(spec_sig_matches(ImageFormat::Hdr, s)),
        ImageFormat::Bmp => assert(spec_sig_matches(ImageFormat::Bmp, s)),
        _ => assert(false),
    }
}

/// Law: sniffing returns `None` exactly when no registered signature
/// matches the leading bytes.
pub proof fn lemma_guess_format_none(s: Seq<u8>)
    ensures
        (spec_guess_format(s) is None) <==> (forall|f: ImageFormat| !spec_sig_matches(f, s)),
{
    if spec_guess_format(s) is None {
        assert forall|f: ImageFormat| !spec_sig_matches(f, s) by {
            assert(!spec_sig_matches(ImageFormat::Jpeg, s));
        }
    }
}

/// Law: an empty byte stream matches no signature, so it sniffs to `None`.
pub proof fn lemma_empty_prefix_unrecognised()
    ensures
        spec_guess_format(Seq::<u8>::empty()) is None,
{
}

/// Law: a format other than the `Unknown` sentinel always carries at least
/// one of the two capabilities.
pub proof fn lemma_known_format_has_capability(f: ImageFormat)
    requires
        f != ImageFormat::Unknown,
    ensures
        f.spec_has_decoder() || f.spec_has_encoder(),
{
}

/// The extension registry: maps a file extension, matched case-sensitively
/// in lower case, to the format whose encoder handles it.
pub open spec fn spec_encoder_for_extension(e: Seq<char>) -> Option<ImageFormat> {
    if e == "jpeg"@ || e == "jpg"@ {
        Some(ImageFormat::Jpeg)
    } else if e == "png"@ {
        Some(ImageFormat::Png)
    } else if e == "ppm"@ || e == "pam"@ || e == "pgm"@ || e == "pbm"@ {
        Some(ImageFormat::Ppm)
    } else if e == "ff"@ {
        Some(ImageFormat::Farbfeld)
    } else if e == "qoi"@ {
        Some(ImageFormat::Qoi)
    } else if e == "jxl"@ {
        Some(ImageFormat::JpegXl)
    } else if e == "hdr"@ {
        Some(ImageFormat::Hdr)
    } else {
        None
    }
}

/// Maps a file extension string to the format whose encoder handles it.
/// Matching is case-sensitive: only lower-case extensions are registered.
/// Returns `None` for an unrecognised extension.
pub fn encoder_for_extension(ext: &str) -> (r: Option<ImageFormat>)
    ensures
        r == spec_encoder_for_extension(ext@),
{
    if crate::text::str_eq(ext, "jpeg") || crate::text::str_eq(ext, "jpg") {
        Some(ImageFormat::Jpeg)
    } else if crate::text::str_eq(ext, "png") {
        Some(ImageFormat::Png)
    } else if crate::text::str_eq(ext, "ppm") || crate::text::str_eq(ext, "pam")
        || crate::text::str_eq(ext, "pgm") || crate::text::str_eq(ext, "pbm") {
        Some(ImageFormat::Ppm)
    } else if crate::text::str_eq(ext, "ff") {
        Some(ImageFormat::Farbfeld)
    } else if crate::text::str_eq(ext, "qoi") {
        Some(ImageFormat::Qoi)
    } else if crate::text::str_eq(ext, "jxl") {
        Some(ImageFormat::JpegXl)
    } else if crate::text::str_eq(ext, "hdr") {
        Some(ImageFormat::Hdr)
    } else {
        None
    }
}

/// Law: every format the extension registry resolves has an encoder.
pub proof fn lemma_extension_resolves_to_encoder(e: Seq<char>, f: ImageFormat)
    requires
        spec_encoder_for_extension(e) == Some(f),
    ensures
        f.spec_has_encoder(),
{
}

} // verus!
