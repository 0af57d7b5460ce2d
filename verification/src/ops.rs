//! The catalogue of transform operations: each variant carries exactly the
//! parameters its operation needs, with the bounds the registry enforces.

use vstd::prelude::*;
use crate::imaging::{
    brighten_image, color_of, crop_image, fliph_image, flipv_image, grayscale_image,
    huerotate_image, invert_image, resize_exact_image, resize_fit_image, rotate180_image,
    rotate270_image, rotate90_image, spec_brighten, spec_color_of, spec_crop, spec_crop_dim,
    spec_fliph, spec_flipv, spec_grayscale, spec_huerotate, spec_invert, spec_resize_exact,
    spec_resize_fit, spec_rotate180, spec_rotate270, spec_rotate90, Img,
};

verus! {

/// The axis a flip mirrors across.
#[derive(Debug, Clone, Copy, PartialEq, Eq)]
pub enum FlipDirection {
    Horizontal,
    Vertical,
}

/// The clockwise rotation quanta the tool supports.
#[derive(Debug, Clone, Copy, PartialEq, Eq)]
pub enum RotationAmountDegrees {
    Nintey,
    OneEighty,
    TwoSeventy,
}

impl RotationAmountDegrees {
    /// Parse a degree count into a rotation quantum: only 90, 180 and 270
    /// are accepted.
    pub fn from_degrees(degrees: u32) -> (r: Option<RotationAmountDegrees>)
        ensures
            r == if degrees == 90 {
                Some(RotationAmountDegrees::Nintey)
            } else if degrees == 180 {
                Some(RotationAmountDegrees::OneEighty)
            } else if degrees == 270 {
                Some(RotationAmountDegrees::TwoSeventy)
            } else {
                None::<RotationAmountDegrees>
            },
    {
        if degrees == 90 {
            Some(RotationAmountDegrees::Nintey)
        } else if degrees == 180 {
            Some(RotationAmountDegrees::OneEighty)
        } else if degrees == 270 {
            Some(RotationAmountDegrees::TwoSeventy)
        } else {
            None
        }
    }
}

/// The resampling filters a resize can use.
#[derive(Debug, Clone, Copy, PartialEq, Eq)]
pub enum ValueEnumFilterType {
    Nearest,
    Triangle,
    CatmullRom,
    Gaussian,
    Lanczos3,
}

impl ValueEnumFilterType {
    /// Relies on the imaging library's filter kinds: the five variants map
    /// one for one onto `image::imageops::FilterType`.
    #[verifier::external_body]
    pub fn to_image_variant(&self) -> image::imageops::FilterType {
        match self {
            ValueEnumFilterType::Nearest => image::imageops::FilterType::Nearest,
            ValueEnumFilterType::Triangle => image::imageops::FilterType::Triangle,
            ValueEnumFilterType::CatmullRom => image::imageops::FilterType::CatmullRom,
            ValueEnumFilterType::Gaussian => image::imageops::FilterType::Gaussian,
            ValueEnumFilterType::Lanczos3 => image::imageops::FilterType::Lanczos3,
        }
    }
}

/// The largest brighten amount the imaging library's channel arithmetic can
/// take: its per-channel sum is over `i32` and an integer channel reaches
/// 65535, so anything larger would overflow.
pub const BRIGHTEN_AMOUNT_MAX: i32 = 0x7FFE_FFFF;

/// One transform operation with its parameters.
#[derive(Debug, Clone, PartialEq, Eq)]
pub enum Operation {
    Brighten { amount: i32 },
    Crop { x: u32, y: u32, width: u32, height: u32 },
    Flip { direction: FlipDirection },
    Grayscale,
    Hue { shift: i32 },
    Invert,
    Reformat,
    Resize { width: u32, height: u32, filter_type: ValueEnumFilterType, keep_aspect_ratio: bool },
    Rotate { amount: RotationAmountDegrees },
}

impl Operation {
    /// The bounds the registry puts on this operation's parameters: a hue
    /// shift lies in 1..=359, crop and resize extents are positive, and a
    /// brighten amount leaves room in the imaging library's 32-bit channel
    /// arithmetic (a machine limit, not a policy).
    pub open spec fn wf(self) -> bool {
        match self {
            Operation::Brighten { amount } => amount <= BRIGHTEN_AMOUNT_MAX,
            Operation::Hue { shift } => 1 <= shift <= 359,
            Operation::Crop { width, height, .. } => width >= 1 && height >= 1,
            Operation::Resize { width, height, .. } => width >= 1 && height >= 1,
            _ => true,
        }
    }

    /// Check this operation's parameter bounds.
    pub fn is_wf(&self) -> (r: bool)
        ensures
            r == self.wf(),
    {
        match self {
            Operation::Brighten { amount } => *amount <= BRIGHTEN_AMOUNT_MAX,
            Operation::Hue { shift } => 1 <= *shift && *shift <= 359,
            Operation::Crop { width, height, .. } => *width >= 1 && *height >= 1,
            Operation::Resize { width, height, .. } => *width >= 1 && *height >= 1,
            _ => true,
        }
    }

    /// How this operation's output dimensions relate to its input's:
    /// rotation by a quarter turn swaps them, cropping clamps the requested
    /// rectangle to the image, an exact resize takes the requested extents,
    /// an aspect-keeping resize fits within them, and every other operation
    /// keeps the dimensions.
    pub open spec fn dims_ok(self, in_w: u32, in_h: u32, out_w: u32, out_h: u32) -> bool {
        match self {
            Operation::Brighten { .. } => out_w == in_w && out_h == in_h,
            Operation::Flip { .. } => out_w == in_w && out_h == in_h,
            Operation::Grayscale => out_w == in_w && out_h == in_h,
            Operation::Hue { .. } => out_w == in_w && out_h == in_h,
            Operation::Invert => out_w == in_w && out_h == in_h,
            Operation::Reformat => out_w == in_w && out_h == in_h,
            Operation::Crop { x, y, width, height } => out_w as int == spec_crop_dim(
                in_w,
                x,
                width,
            ) && out_h as int == spec_crop_dim(in_h, y, height),
            Operation::Resize { width, height, keep_aspect_ratio, .. } => if keep_aspect_ratio {
                &&& 1 <= out_w <= width
                &&& 1 <= out_h <= height
                &&& (in_w == width && in_h == height ==> out_w == in_w && out_h == in_h)
            } else {
                out_w == width && out_h == height
            },
            Operation::Rotate { amount } => match amount {
                RotationAmountDegrees::OneEighty => out_w == in_w && out_h == in_h,
                _ => out_w == in_h && out_h == in_w,
            },
        }
    }

    /// The raster this operation's body yields from `img`: the named result
    /// of the one imaging-library call the operation makes (a flip converts
    /// to grayscale first, as the tool has always done; reformatting leaves
    /// the raster untouched). Brightening a raster whose channels are not
    /// integers is skipped — the imaging library's arithmetic would panic on
    /// such samples — so those rasters pass through unchanged.
    pub open spec fn spec_apply(self, img: Img) -> Img {
        match self {
            Operation::Brighten { amount } => if spec_color_of(img).spec_integer_channels() {
                spec_brighten(img, amount)
            } else {
                img
            },
            Operation::Crop { x, y, width, height } => spec_crop(img, x, y, width, height),
            Operation::Flip { direction } => match direction {
                FlipDirection::Horizontal => spec_fliph(spec_grayscale(img)),
                FlipDirection::Vertical => spec_flipv(spec_grayscale(img)),
            },
            Operation::Grayscale => spec_grayscale(img),
            Operation::Hue { shift } => spec_huerotate(img, shift),
            Operation::Invert => spec_invert(img),
            Operation::Reformat => img,
            Operation::Resize { width, height, filter_type, keep_aspect_ratio } => if keep_aspect_ratio {
                spec_resize_fit(img, width, height, filter_type)
            } else {
                spec_resize_exact(img, width, height, filter_type)
            },
            Operation::Rotate { amount } => match amount {
                RotationAmountDegrees::Nintey => spec_rotate90(img),
                RotationAmountDegrees::OneEighty => spec_rotate180(img),
                RotationAmountDegrees::TwoSeventy => spec_rotate270(img),
            },
        }
    }
}

/// Apply one operation's body to a decoded image: the result is the
/// operation's named raster, and its dimensions relate to the input's as
/// `dims_ok` states.
pub fn apply_operation(img: Img, op: &Operation) -> (r: Img)
    requires
        op.wf(),
    ensures
        r == op.spec_apply(img),
        op.dims_ok(img.spec_width(), img.spec_height(), r.spec_width(), r.spec_height()),
{
    match op {
        Operation::Brighten { amount } => {
            let color = color_of(&img);
            if color.has_integer_channels() {
                brighten_image(&img, *amount)
            } else {
                img
            }
        },
        Operation::Crop { x, y, width, height } => crop_image(&img, *x, *y, *width, *height),
        Operation::Flip { direction } => {
            let gray = grayscale_image(&img);
            match direction {
                FlipDirection::Horizontal => fliph_image(&gray),
                FlipDirection::Vertical => flipv_image(&gray),
            }
        },
        Operation::Grayscale => grayscale_image(&img),
        Operation::Hue { shift } => huerotate_image(&img, *shift),
        Operation::Invert => {
            let mut out = img;
            invert_image(&mut out);
            out
        },
        Operation::Reformat => img,
        Operation::Resize { width, height, filter_type, keep_aspect_ratio } => {
            if *keep_aspect_ratio {
                resize_fit_image(&img, *width, *height, filter_type)
            } else {
                resize_exact_image(&img, *width, *height, filter_type)
            }
        },
        Operation::Rotate { amount } => match amount {
            RotationAmountDegrees::Nintey => rotate90_image(&img),
            RotationAmountDegrees::OneEighty => rotate180_image(&img),
            RotationAmountDegrees::TwoSeventy => rotate270_image(&img),
        },
    }
}

} // verus!
