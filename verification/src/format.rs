//! Image format tags and the canonical mapping from file extensions to
//! formats.
//!
//! The mapping mirrors, entry for entry, the extension table of the `image`
//! crate (`ImageFormat::from_extension`), so that the envelope's format
//! resolution agrees with what the encoder will later accept; the dependency
//! on `image` is pinned to keep the two tables in step.

use vstd::prelude::*;

verus! {

/// A known image file format. The variant names are the debug-style names
/// that inspection reports print.
#[derive(Debug, Clone, Copy, PartialEq, Eq)]
pub enum ImgFormat {
    Png,
    Jpeg,
    Gif,
    WebP,
    Pnm,
    Tiff,
    Tga,
    Dds,
    Bmp,
    Ico,
    Hdr,
    OpenExr,
    Farbfeld,
    Avif,
    Qoi,
}

/// The code point of `c` with ASCII upper-case letters folded to lower case.
pub open spec fn spec_lower_code(c: char) -> int {
    if 65 <= c as u32 && c as u32 <= 90 {
        c as u32 + 32
    } else {
        c as u32 as int
    }
}

/// Whether `ext`, compared ASCII-case-insensitively, spells the lower-case
/// word `lit`.
pub open spec fn spec_ext_eq(ext: Seq<char>, lit: Seq<char>) -> bool {
    ext.len() == lit.len() && forall|i: int|
        0 <= i < ext.len() ==> spec_lower_code(ext[i]) == lit[i] as u32
}

/// The format named by the extension `ext`, if any.
pub open spec fn spec_format_from_extension(ext: Seq<char>) -> Option<ImgFormat> {
    if spec_ext_eq(ext, "avif"@) {
        Some(ImgFormat::Avif)
    } else if spec_ext_eq(ext, "jpg"@) || spec_ext_eq(ext, "jpeg"@) || spec_ext_eq(ext, "jfif"@) {
        Some(ImgFormat::Jpeg)
    } else if spec_ext_eq(ext, "png"@) || spec_ext_eq(ext, "apng"@) {
        Some(ImgFormat::Png)
    } else if spec_ext_eq(ext, "gif"@) {
        Some(ImgFormat::Gif)
    } else if spec_ext_eq(ext, "webp"@) {
        Some(ImgFormat::WebP)
    } else if spec_ext_eq(ext, "tif"@) || spec_ext_eq(ext, "tiff"@) {
        Some(ImgFormat::Tiff)
    } else if spec_ext_eq(ext, "tga"@) {
        Some(ImgFormat::Tga)
    } else if spec_ext_eq(ext, "dds"@) {
        Some(ImgFormat::Dds)
    } else if spec_ext_eq(ext, "bmp"@) {
        Some(ImgFormat::Bmp)
    } else if spec_ext_eq(ext, "ico"@) {
        Some(ImgFormat::Ico)
    } else if spec_ext_eq(ext, "hdr"@) {
        Some(ImgFormat::Hdr)
    } else if spec_ext_eq(ext, "exr"@) {
        Some(ImgFormat::OpenExr)
    } else if spec_ext_eq(ext, "pbm"@) || spec_ext_eq(ext, "pam"@) || spec_ext_eq(ext, "ppm"@)
        || spec_ext_eq(ext, "pgm"@) || spec_ext_eq(ext, "pnm"@) {
        Some(ImgFormat::Pnm)
    } else if spec_ext_eq(ext, "ff"@) {
        Some(ImgFormat::Farbfeld)
    } else if spec_ext_eq(ext, "qoi"@) {
        Some(ImgFormat::Qoi)
    } else {
        None
    }
}

/// Compare `ext` against the lower-case word `lit`, folding ASCII case.
fn ext_eq_fold(ext: &str, lit: &str) -> (r: bool)
    ensures
        r == spec_ext_eq(ext@, lit@),
{
    let n = ext.unicode_len();
    if n != lit.unicode_len() {
        return false;
    }
    let mut i: usize = 0;
    while i < n
        invariant
            n == ext@.len(),
            n == lit@.len(),
            i <= n,
            forall|j: int| 0 <= j < i ==> spec_lower_code(ext@[j]) == lit@[j] as u32,
        decreases n - i,
    {
        let a = ext.get_char(i) as u32;
        let b = lit.get_char(i) as u32;
        let folded = if 65 <= a && a <= 90 {
            a + 32
        } else {
            a
        };
        if folded != b {
            return false;
        }
        i += 1;
    }
    true
}

impl ImgFormat {
    /// The debug-style name of this format.
    pub open spec fn spec_name(self) -> Seq<char> {
        match self {
            ImgFormat::Png => "Png"@,
            ImgFormat::Jpeg => "Jpeg"@,
            ImgFormat::Gif => "Gif"@,
            ImgFormat::WebP => "WebP"@,
            ImgFormat::Pnm => "Pnm"@,
            ImgFormat::Tiff => "Tiff"@,
            ImgFormat::Tga => "Tga"@,
            ImgFormat::Dds => "Dds"@,
            ImgFormat::Bmp => "Bmp"@,
            ImgFormat::Ico => "Ico"@,
            ImgFormat::Hdr => "Hdr"@,
            ImgFormat::OpenExr => "OpenExr"@,
            ImgFormat::Farbfeld => "Farbfeld"@,
            ImgFormat::Avif => "Avif"@,
            ImgFormat::Qoi => "Qoi"@,
        }
    }

    /// Render the debug-style name of this format.
    pub fn name(&self) -> (r: &'static str)
        ensures
            r@ == self.spec_name(),
    {
        match self {
            ImgFormat::Png => "Png",
            ImgFormat::Jpeg => "Jpeg",
            ImgFormat::Gif => "Gif",
            ImgFormat::WebP => "WebP",
            ImgFormat::Pnm => "Pnm",
            ImgFormat::Tiff => "Tiff",
            ImgFormat::Tga => "Tga",
            ImgFormat::Dds => "Dds",
            ImgFormat::Bmp => "Bmp",
            ImgFormat::Ico => "Ico",
            ImgFormat::Hdr => "Hdr",
            ImgFormat::OpenExr => "OpenExr",
            ImgFormat::Farbfeld => "Farbfeld",
            ImgFormat::Avif => "Avif",
            ImgFormat::Qoi => "Qoi",
        }
    }

    /// Resolve an extension to its format tag, folding ASCII case.
    pub fn from_extension(ext: &str) -> (r: Option<ImgFormat>)
        ensures
            r == spec_format_from_extension(ext@),
    {
        if ext_eq_fold(ext, "avif") {
            Some(ImgFormat::Avif)
        } else if ext_eq_fold(ext, "jpg") || ext_eq_fold(ext, "jpeg") || ext_eq_fold(ext, "jfif") {
            Some(ImgFormat::Jpeg)
        } else if ext_eq_fold(ext, "png") || ext_eq_fold(ext, "apng") {
            Some(ImgFormat::Png)
        } else if ext_eq_fold(ext, "gif") {
            Some(ImgFormat::Gif)
        } else if ext_eq_fold(ext, "webp") {
            Some(ImgFormat::WebP)
        } else if ext_eq_fold(ext, "tif") || ext_eq_fold(ext, "tiff") {
            Some(ImgFormat::Tiff)
        } else if ext_eq_fold(ext, "tga") {
            Some(ImgFormat::Tga)
        } else if ext_eq_fold(ext, "dds") {
            Some(ImgFormat::Dds)
        } else if ext_eq_fold(ext, "bmp") {
            Some(ImgFormat::Bmp)
        } else if ext_eq_fold(ext, "ico") {
            Some(ImgFormat::Ico)
        } else if ext_eq_fold(ext, "hdr") {
            Some(ImgFormat::Hdr)
        } else if ext_eq_fold(ext, "exr") {
            Some(ImgFormat::OpenExr)
        } else if ext_eq_fold(ext, "pbm") || ext_eq_fold(ext, "pam") || ext_eq_fold(ext, "ppm")
            || ext_eq_fold(ext, "pgm") || ext_eq_fold(ext, "pnm") {
            Some(ImgFormat::Pnm)
        } else if ext_eq_fold(ext, "ff") {
            Some(ImgFormat::Farbfeld)
        } else if ext_eq_fold(ext, "qoi") {
            Some(ImgFormat::Qoi)
        } else {
            None
        }
    }
}

} // verus!
