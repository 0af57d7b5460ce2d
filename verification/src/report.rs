//! The exact text of the two inspection reports.

use vstd::prelude::*;
use vstd::string::*;
use crate::decimal::{spec_decimal, u32_to_decimal, u64_to_decimal};
use crate::format::ImgFormat;
use crate::imaging::ColorModel;

verus! {

/// The text the details inspection prints: the file name, then one indented
/// line each for format, byte size, dimensions and color model, every line
/// ending in a newline.
pub open spec fn spec_details_report(
    filename: Seq<char>,
    format: ImgFormat,
    size: nat,
    width: nat,
    height: nat,
    color: ColorModel,
) -> Seq<char> {
    filename + "\n  * Format: "@ + format.spec_name() + "\n  * Size (bytes): "@ + spec_decimal(
        size,
    ) + "\n  * Dimensions: "@ + spec_decimal(width) + "x"@ + spec_decimal(height)
        + "\n  * Color Type: "@ + color.spec_name() + "\n"@
}

/// The single line the dimensions inspection prints.
pub open spec fn spec_dimensions_report(width: nat, height: nat) -> Seq<char> {
    spec_decimal(width) + "x"@ + spec_decimal(height) + "\n"@
}

/// Render the details report.
pub fn details_report(
    filename: &str,
    format: ImgFormat,
    size: u64,
    width: u32,
    height: u32,
    color: ColorModel,
) -> (r: String)
    ensures
        r@ == spec_details_report(
            filename@,
            format,
            size as nat,
            width as nat,
            height as nat,
            color,
        ),
{
    let mut s = String::from_str(filename);
    s.append("\n  * Format: ");
    s.append(format.name());
    s.append("\n  * Size (bytes): ");
    s.append(u64_to_decimal(size).as_str());
    s.append("\n  * Dimensions: ");
    s.append(u32_to_decimal(width).as_str());
    s.append("x");
    s.append(u32_to_decimal(height).as_str());
    s.append("\n  * Color Type: ");
    s.append(color.name());
    s.append("\n");
    proof {
        assert(s@ =~= spec_details_report(
            filename@,
            format,
            size as nat,
            width as nat,
            height as nat,
            color,
        ));
    }
    s
}

/// Render the dimensions report.
pub fn dimensions_report(width: u32, height: u32) -> (r: String)
    ensures
        r@ == spec_dimensions_report(width as nat, height as nat),
{
    let mut s = u32_to_decimal(width);
    s.append("x");
    s.append(u32_to_decimal(height).as_str());
    s.append("\n");
    proof {
        assert(s@ =~= spec_dimensions_report(width as nat, height as nat));
    }
    s
}

} // verus!
