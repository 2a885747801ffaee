use vstd::prelude::*;

verus! {

/// The color layout of a decoded pixel, with its bit depth per channel.
#[derive(Clone, Copy, Debug, PartialEq, Eq, Structural)]
pub enum ColorKind {
    /// Grayscale, one channel.
    Gray(u8),
    /// Red, green and blue channels.
    RGB(u8),
    /// An index into a color palette.
    Palette(u8),
    /// Grayscale with an alpha channel.
    GrayA(u8),
    /// Red, green, blue and alpha channels.
    RGBA(u8),
}

/// How many channels one pixel of this color layout holds. A palette index
/// stands for a three-channel color.
pub open spec fn spec_channel_count(c: ColorKind) -> nat {
    match c {
        ColorKind::Gray(_) => 1,
        ColorKind::GrayA(_) => 2,
        ColorKind::RGB(_) => 3,
        ColorKind::Palette(_) => 3,
        ColorKind::RGBA(_) => 4,
    }
}

/// How many bits one pixel of this color layout takes.
pub open spec fn spec_bits_per_pixel(c: ColorKind) -> nat {
    spec_channel_count(c) * (match c {
        ColorKind::Gray(n) => n,
        ColorKind::GrayA(n) => n,
        ColorKind::RGB(n) => n,
        ColorKind::Palette(n) => n,
        ColorKind::RGBA(n) => n,
    } as nat)
}

pub fn channel_count(c: ColorKind) -> (r: u8)
    ensures
        r == spec_channel_count(c),
{
    match c {
        ColorKind::Gray(_) => 1,
        ColorKind::GrayA(_) => 2,
        ColorKind::RGB(_) => 3,
        ColorKind::Palette(_) => 3,
        ColorKind::RGBA(_) => 4,
    }
}

pub fn bits_per_pixel(c: ColorKind) -> (r: usize)
    ensures
        r == spec_bits_per_pixel(c),
{
    match c {
        ColorKind::Gray(n) => 1 * (n as usize),
        ColorKind::GrayA(n) => 2 * (n as usize),
        ColorKind::RGB(n) => 3 * (n as usize),
        ColorKind::Palette(n) => 3 * (n as usize),
        ColorKind::RGBA(n) => 4 * (n as usize),
    }
}

} // verus!
