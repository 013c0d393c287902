//! The fixed mapping from support-mask bits to image formats.

use vstd::prelude::*;

verus! {

/// An image format the firmware can accept for the boot logo.
///
/// The variants are listed in the order of their support-mask bits:
/// 0x1 jpg, 0x2 tga, 0x4 pcx, 0x8 gif, 0x10 bmp, 0x20 png.
#[derive(Clone, Copy, Debug, PartialEq, Eq, Structural)]
pub enum Format {
    /// Bit 0x1.
    Jpg,
    /// Bit 0x2.
    Tga,
    /// Bit 0x4.
    Pcx,
    /// Bit 0x8.
    Gif,
    /// Bit 0x10.
    Bmp,
    /// Bit 0x20.
    Png,
}

/// The format list a support mask decodes to, in fixed bit order.
pub open spec fn spec_support_format(mask: u8) -> Seq<Format> {
    let s = Seq::<Format>::empty();
    let s = if mask & 0x1 == 0x1 {
        s.push(Format::Jpg)
    } else {
        s
    };
    let s = if mask & 0x2 == 0x2 {
        s.push(Format::Tga)
    } else {
        s
    };
    let s = if mask & 0x4 == 0x4 {
        s.push(Format::Pcx)
    } else {
        s
    };
    let s = if mask & 0x8 == 0x8 {
        s.push(Format::Gif)
    } else {
        s
    };
    let s = if mask & 0x10 == 0x10 {
        s.push(Format::Bmp)
    } else {
        s
    };
    if mask & 0x20 == 0x20 {
        s.push(Format::Png)
    } else {
        s
    }
}

/// Decodes a support mask into the list of accepted formats, preserving
/// the fixed bit order jpg, tga, pcx, gif, bmp, png.
pub fn support_format(mask: u8) -> (r: Vec<Format>)
    ensures
        r@ == spec_support_format(mask),
{
    let mut r: Vec<Format> = Vec::new();
    if mask & 0x1 == 0x1 {
        r.push(Format::Jpg);
    }
    if mask & 0x2 == 0x2 {
        r.push(Format::Tga);
    }
    if mask & 0x4 == 0x4 {
        r.push(Format::Pcx);
    }
    if mask & 0x8 == 0x8 {
        r.push(Format::Gif);
    }
    if mask & 0x10 == 0x10 {
        r.push(Format::Bmp);
    }
    if mask & 0x20 == 0x20 {
        r.push(Format::Png);
    }
    r
}

/// The lower-case extension naming a format.
pub open spec fn spec_format_name(f: Format) -> Seq<char> {
    match f {
        Format::Jpg => "jpg"@,
        Format::Tga => "tga"@,
        Format::Pcx => "pcx"@,
        Format::Gif => "gif"@,
        Format::Bmp => "bmp"@,
        Format::Png => "png"@,
    }
}

/// The extension a format is named by, as the firmware and the staging
/// path spell it.
pub fn format_name(f: Format) -> (r: &'static str)
    ensures
        r@ == spec_format_name(f),
{
    match f {
        Format::Jpg => "jpg",
        Format::Tga => "tga",
        Format::Pcx => "pcx",
        Format::Gif => "gif",
        Format::Bmp => "bmp",
        Format::Png => "png",
    }
}

} // verus!
