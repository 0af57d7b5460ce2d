//! The adapter surface over the imaging library.
//!
//! Every function here is a trusted wrapper around one step of the `image`
//! crate's decode / transform / encode work, and each step is a
//! deterministic function of its arguments, so each result is given a name:
//! an uninterpreted spec function that the wrapper's contract applies. The
//! pixel math behind the names is the collaborator's business and is not
//! restated; what is stated beside the names is what that crate's source
//! shows of dimensions and of when a call fails.

use vstd::prelude::*;
use crate::format::spec_format_from_extension;
use crate::ops::ValueEnumFilterType;

verus! {

#[verifier::external_type_specification]
#[verifier::external_body]
pub struct ExDynamicImage(image::DynamicImage);

#[verifier::external_type_specification]
#[verifier::external_body]
pub struct ExFilterType(image::imageops::FilterType);

/// A decoded raster: the imaging library's handle together with its
/// dimensions as plain values. The fields are sealed; every `Img` originates
/// in the decode adapter or in one of the transform adapters, which record
/// the handle's own dimensions.
pub struct Img {
    pub(crate) handle: image::DynamicImage,
    pub(crate) width: u32,
    pub(crate) height: u32,
}

impl Img {
    /// The recorded width of the raster.
    pub closed spec fn spec_width(self) -> u32 {
        self.width
    }

    /// The recorded height of the raster.
    pub closed spec fn spec_height(self) -> u32 {
        self.height
    }

    /// Read the recorded width.
    pub fn width(&self) -> (r: u32)
        ensures
            r == self.spec_width(),
    {
        self.width
    }

    /// Read the recorded height.
    pub fn height(&self) -> (r: u32)
        ensures
            r == self.spec_height(),
    {
        self.height
    }
}

/// The color model of a decoded raster, by the imaging library's debug-style
/// name. `Other` stands for any model this catalogue predates.
#[derive(Debug, Clone, Copy, PartialEq, Eq)]
pub enum ColorModel {
    L8,
    La8,
    Rgb8,
    Rgba8,
    L16,
    La16,
    Rgb16,
    Rgba16,
    Rgb32F,
    Rgba32F,
    Other,
}

impl ColorModel {
    /// The debug-style name of this color model.
    pub open spec fn spec_name(self) -> Seq<char> {
        match self {
            ColorModel::L8 => "L8"@,
            ColorModel::La8 => "La8"@,
            ColorModel::Rgb8 => "Rgb8"@,
            ColorModel::Rgba8 => "Rgba8"@,
            ColorModel::L16 => "L16"@,
            ColorModel::La16 => "La16"@,
            ColorModel::Rgb16 => "Rgb16"@,
            ColorModel::Rgba16 => "Rgba16"@,
            ColorModel::Rgb32F => "Rgb32F"@,
            ColorModel::Rgba32F => "Rgba32F"@,
            ColorModel::Other => "Unknown"@,
        }
    }

    /// Render the debug-style name of this color model.
    pub fn name(&self) -> (r: &'static str)
        ensures
            r@ == self.spec_name(),
    {
        match self {
            ColorModel::L8 => "L8",
            ColorModel::La8 => "La8",
            ColorModel::Rgb8 => "Rgb8",
            ColorModel::Rgba8 => "Rgba8",
            ColorModel::L16 => "L16",
            ColorModel::La16 => "La16",
            ColorModel::Rgb16 => "Rgb16",
            ColorModel::Rgba16 => "Rgba16",
            ColorModel::Rgb32F => "Rgb32F",
            ColorModel::Rgba32F => "Rgba32F",
            ColorModel::Other => "Unknown",
        }
    }

    /// Whether this model stores its channels as integers. The imaging
    /// library's brighten arithmetic is total only on such models: integer
    /// channels lie in 0..=65535, while a float channel can fall outside the
    /// 32-bit range its per-pixel cast demands.
    pub open spec fn spec_integer_channels(self) -> bool {
        match self {
            ColorModel::Rgb32F => false,
            ColorModel::Rgba32F => false,
            ColorModel::Other => false,
            _ => true,
        }
    }

    /// Check whether this model stores its channels as integers.
    pub fn has_integer_channels(&self) -> (r: bool)
        ensures
            r == self.spec_integer_channels(),
    {
        match self {
            ColorModel::Rgb32F => false,
            ColorModel::Rgba32F => false,
            ColorModel::Other => false,
            _ => true,
        }
    }
}

/// What decoding a byte sequence yields: a raster, or nothing when the
/// bytes are not a readable image.
pub uninterp spec fn spec_decode(bytes: Seq<u8>) -> Option<Img>;

/// What encoding a raster in the format named by an extension yields: the
/// encoded bytes, or nothing when the extension is unknown or the format
/// has no encoder for the raster.
pub uninterp spec fn spec_encode(img: Img, ext: Seq<char>) -> Option<Seq<u8>>;

/// The color model of a raster.
pub uninterp spec fn spec_color_of(img: Img) -> ColorModel;

/// The raster with every channel brightened by the given amount.
pub uninterp spec fn spec_brighten(img: Img, amount: i32) -> Img;

/// The raster with every pixel's hue rotated by the given degrees.
pub uninterp spec fn spec_huerotate(img: Img, degrees: i32) -> Img;

/// The raster with every channel inverted.
pub uninterp spec fn spec_invert(img: Img) -> Img;

/// The raster converted to grayscale.
pub uninterp spec fn spec_grayscale(img: Img) -> Img;

/// The raster mirrored horizontally.
pub uninterp spec fn spec_fliph(img: Img) -> Img;

/// The raster mirrored vertically.
pub uninterp spec fn spec_flipv(img: Img) -> Img;

/// The raster turned a quarter turn clockwise.
pub uninterp spec fn spec_rotate90(img: Img) -> Img;

/// The raster turned a half turn.
pub uninterp spec fn spec_rotate180(img: Img) -> Img;

/// The raster turned three quarter turns clockwise.
pub uninterp spec fn spec_rotate270(img: Img) -> Img;

/// The cut-out of the raster delimited by the given rectangle, clamped to
/// the raster's bounds.
pub uninterp spec fn spec_crop(img: Img, x: u32, y: u32, want_w: u32, want_h: u32) -> Img;

/// The raster resized to exactly the given dimensions with the given filter.
pub uninterp spec fn spec_resize_exact(
    img: Img,
    new_w: u32,
    new_h: u32,
    filter: ValueEnumFilterType,
) -> Img;

/// The raster resized with the given filter to the largest size that keeps
/// its aspect ratio and fits within the given bounds.
pub uninterp spec fn spec_resize_fit(
    img: Img,
    bound_w: u32,
    bound_h: u32,
    filter: ValueEnumFilterType,
) -> Img;

/// The width of the cut-out a crop at `pos` of extent `want` yields from an
/// axis of length `avail`: the requested extent, clamped to what lies between
/// the (clamped) position and the edge.
pub open spec fn spec_crop_dim(avail: u32, pos: u32, want: u32) -> int {
    let p = if pos <= avail {
        pos as int
    } else {
        avail as int
    };
    if want as int <= avail - p {
        want as int
    } else {
        avail - p
    }
}

/// Relies on `image::load_from_memory`: decode an image from encoded bytes,
/// sniffing the format from the content — a deterministic function of the
/// bytes. The recorded dimensions are the handle's own `width()` and
/// `height()`.
#[verifier::external_body]
pub(crate) fn decode_image(bytes: &Vec<u8>) -> (r: Result<Img, ()>)
    ensures
        r matches Ok(img) ==> Some(img) == spec_decode(bytes@),
        (r is Ok) == (spec_decode(bytes@) is Some),
{
    match image::load_from_memory(bytes) {
        Ok(handle) => {
            let width = handle.width();
            let height = handle.height();
            Ok(Img { handle, width, height })
        },
        Err(_) => Err(()),
    }
}

/// Relies on `image::ImageFormat::from_extension` and
/// `DynamicImage::write_to`: encode the image into bytes in the format the
/// extension names — a deterministic function of the raster and the
/// extension. An extension outside the catalogue is refused, and a format
/// without an encoder errors.
#[verifier::external_body]
pub(crate) fn encode_image(img: &Img, ext: &str) -> (r: Result<Vec<u8>, ()>)
    ensures
        spec_format_from_extension(ext@) is None ==> r is Err,
        r matches Ok(v) ==> Some(v@) == spec_encode(*img, ext@),
        (r is Ok) == (spec_encode(*img, ext@) is Some),
{
    let fmt = match image::ImageFormat::from_extension(ext) {
        Some(f) => f,
        None => return Err(()),
    };
    let mut cursor = std::io::Cursor::new(Vec::new());
    match img.handle.write_to(&mut cursor, fmt) {
        Ok(()) => Ok(cursor.into_inner()),
        Err(_) => Err(()),
    }
}

/// Relies on `DynamicImage::color`: the library's color variants map one for
/// one onto the catalogue above.
#[verifier::external_body]
pub(crate) fn color_of(img: &Img) -> (c: ColorModel)
    ensures
        c == spec_color_of(*img),
{
    match img.handle.color() {
        image::ColorType::L8 => ColorModel::L8,
        image::ColorType::La8 => ColorModel::La8,
        image::ColorType::Rgb8 => ColorModel::Rgb8,
        image::ColorType::Rgba8 => ColorModel::Rgba8,
        image::ColorType::L16 => ColorModel::L16,
        image::ColorType::La16 => ColorModel::La16,
        image::ColorType::Rgb16 => ColorModel::Rgb16,
        image::ColorType::Rgba16 => ColorModel::Rgba16,
        image::ColorType::Rgb32F => ColorModel::Rgb32F,
        image::ColorType::Rgba32F => ColorModel::Rgba32F,
        _ => ColorModel::Other,
    }
}

/// Relies on `DynamicImage::brighten`: adds the amount to every channel and
/// keeps the dimensions. Its per-channel arithmetic is `clamp(c + amount)`
/// over `i32`, so the amount must leave room for the largest integer channel
/// value (65535), and float-channel rasters are excluded: their samples can
/// fall outside the range of the cast to `i32`, which panics.
#[verifier::external_body]
pub(crate) fn brighten_image(img: &Img, amount: i32) -> (r: Img)
    requires
        amount <= i32::MAX - 65535,
        spec_color_of(*img).spec_integer_channels(),
    ensures
        r == spec_brighten(*img, amount),
        r.spec_width() == img.spec_width(),
        r.spec_height() == img.spec_height(),
{
    let handle = img.handle.brighten(amount);
    let width = handle.width();
    let height = handle.height();
    Img { handle, width, height }
}

/// Relies on `DynamicImage::huerotate`: rotates every pixel's hue by the
/// given degrees and keeps the dimensions; its casts are total.
#[verifier::external_body]
pub(crate) fn huerotate_image(img: &Img, degrees: i32) -> (r: Img)
    ensures
        r == spec_huerotate(*img, degrees),
        r.spec_width() == img.spec_width(),
        r.spec_height() == img.spec_height(),
{
    let handle = img.handle.huerotate(degrees);
    let width = handle.width();
    let height = handle.height();
    Img { handle, width, height }
}

/// Relies on `DynamicImage::invert`: inverts every channel in place, keeping
/// the dimensions.
#[verifier::external_body]
pub(crate) fn invert_image(img: &mut Img)
    ensures
        *final(img) == spec_invert(*old(img)),
        final(img).spec_width() == old(img).spec_width(),
        final(img).spec_height() == old(img).spec_height(),
{
    img.handle.invert();
}

/// Relies on `DynamicImage::grayscale`: converts to luma and keeps the
/// dimensions.
#[verifier::external_body]
pub(crate) fn grayscale_image(img: &Img) -> (r: Img)
    ensures
        r == spec_grayscale(*img),
        r.spec_width() == img.spec_width(),
        r.spec_height() == img.spec_height(),
{
    let handle = img.handle.grayscale();
    let width = handle.width();
    let height = handle.height();
    Img { handle, width, height }
}

/// Relies on `DynamicImage::fliph`: mirrors horizontally, keeping the
/// dimensions.
#[verifier::external_body]
pub(crate) fn fliph_image(img: &Img) -> (r: Img)
    ensures
        r == spec_fliph(*img),
        r.spec_width() == img.spec_width(),
        r.spec_height() == img.spec_height(),
{
    let handle = img.handle.fliph();
    let width = handle.width();
    let height = handle.height();
    Img { handle, width, height }
}

/// Relies on `DynamicImage::flipv`: mirrors vertically, keeping the
/// dimensions.
#[verifier::external_body]
pub(crate) fn flipv_image(img: &Img) -> (r: Img)
    ensures
        r == spec_flipv(*img),
        r.spec_width() == img.spec_width(),
        r.spec_height() == img.spec_height(),
{
    let handle = img.handle.flipv();
    let width = handle.width();
    let height = handle.height();
    Img { handle, width, height }
}

/// Relies on `DynamicImage::rotate90`: a quarter turn clockwise swaps the
/// dimensions.
#[verifier::external_body]
pub(crate) fn rotate90_image(img: &Img) -> (r: Img)
    ensures
        r == spec_rotate90(*img),
        r.spec_width() == img.spec_height(),
        r.spec_height() == img.spec_width(),
{
    let handle = img.handle.rotate90();
    let width = handle.width();
    let height = handle.height();
    Img { handle, width, height }
}

/// Relies on `DynamicImage::rotate180`: a half turn keeps the dimensions.
#[verifier::external_body]
pub(crate) fn rotate180_image(img: &Img) -> (r: Img)
    ensures
        r == spec_rotate180(*img),
        r.spec_width() == img.spec_width(),
        r.spec_height() == img.spec_height(),
{
    let handle = img.handle.rotate180();
    let width = handle.width();
    let height = handle.height();
    Img { handle, width, height }
}

/// Relies on `DynamicImage::rotate270`: a three-quarter turn swaps the
/// dimensions.
#[verifier::external_body]
pub(crate) fn rotate270_image(img: &Img) -> (r: Img)
    ensures
        r == spec_rotate270(*img),
        r.spec_width() == img.spec_height(),
        r.spec_height() == img.spec_width(),
{
    let handle = img.handle.rotate270();
    let width = handle.width();
    let height = handle.height();
    Img { handle, width, height }
}

/// Relies on `DynamicImage::crop_imm`: the cut-out's extent is the requested
/// rectangle clamped to the image's bounds.
#[verifier::external_body]
pub(crate) fn crop_image(img: &Img, x: u32, y: u32, want_w: u32, want_h: u32) -> (r: Img)
    ensures
        r == spec_crop(*img, x, y, want_w, want_h),
        r.spec_width() as int == spec_crop_dim(img.spec_width(), x, want_w),
        r.spec_height() as int == spec_crop_dim(img.spec_height(), y, want_h),
{
    let handle = img.handle.crop_imm(x, y, want_w, want_h);
    let width = handle.width();
    let height = handle.height();
    Img { handle, width, height }
}

/// Relies on `DynamicImage::resize_exact`: the result has exactly the
/// requested dimensions. The filter kind is converted by the shared mapping.
#[verifier::external_body]
pub(crate) fn resize_exact_image(
    img: &Img,
    new_w: u32,
    new_h: u32,
    filter: &ValueEnumFilterType,
) -> (r: Img)
    ensures
        r == spec_resize_exact(*img, new_w, new_h, *filter),
        r.spec_width() == new_w,
        r.spec_height() == new_h,
{
    let handle = img.handle.resize_exact(new_w, new_h, filter.to_image_variant());
    let width = handle.width();
    let height = handle.height();
    Img { handle, width, height }
}

/// Relies on `DynamicImage::resize`: the result is the largest size that
/// preserves the aspect ratio and fits within the requested bounds, never
/// empty; a request for the image's own dimensions returns them unchanged.
/// The filter kind is converted by the shared mapping.
#[verifier::external_body]
pub(crate) fn resize_fit_image(
    img: &Img,
    bound_w: u32,
    bound_h: u32,
    filter: &ValueEnumFilterType,
) -> (r: Img)
    requires
        bound_w >= 1,
        bound_h >= 1,
    ensures
        r == spec_resize_fit(*img, bound_w, bound_h, *filter),
        1 <= r.spec_width() <= bound_w,
        1 <= r.spec_height() <= bound_h,
        img.spec_width() == bound_w && img.spec_height() == bound_h ==> r.spec_width()
            == img.spec_width() && r.spec_height() == img.spec_height(),
{
    let handle = img.handle.resize(bound_w, bound_h, filter.to_image_variant());
    let width = handle.width();
    let height = handle.height();
    Img { handle, width, height }
}

} // verus!
