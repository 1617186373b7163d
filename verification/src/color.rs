//! Colours and their conversion to what the panel understands.

use vstd::prelude::*;

verus! {

/// A colour with one byte per channel. Alpha is not carried: the panel is opaque.
#[derive(Clone, Copy, Debug, PartialEq, Eq, Structural)]
pub struct Rgb {
    pub r: u8,
    pub g: u8,
    pub b: u8,
}

/// How the panel represents a pixel.
#[derive(Clone, Copy, Debug, PartialEq, Eq, Structural)]
pub enum ColorModel {
    /// The panel takes red, green and blue as they are.
    Color,
    /// The panel shows luminance only.
    Grayscale,
}

/// Ten thousand times the BT.709 luminance `0.2126 R + 0.7152 G + 0.0722 B`.
pub open spec fn luma_scaled(r: int, g: int, b: int) -> int {
    2126 * r + 7152 * g + 722 * b
}

/// The luminance rounded to the nearest integer, halves rounded up.
pub open spec fn gray_of(r: int, g: int, b: int) -> int {
    (luma_scaled(r, g, b) + 5000) / 10000
}

/// `y` is the integer nearest to `scaled / 10000`, the upper one on a tie.
pub open spec fn is_nearest(y: int, scaled: int) -> bool {
    10000 * y - 5000 <= scaled < 10000 * y + 5000
}

/// The colour as the panel stores it.
pub open spec fn device_color_of(model: ColorModel, c: Rgb) -> Rgb {
    match model {
        ColorModel::Color => c,
        ColorModel::Grayscale => {
            let y = gray_of(c.r as int, c.g as int, c.b as int) as u8;
            Rgb { r: y, g: y, b: y }
        },
    }
}

/// `gray_of` is the rounding it claims to be, and stays within a byte.
pub proof fn gray_is_nearest(r: int, g: int, b: int)
    requires
        0 <= r <= 255,
        0 <= g <= 255,
        0 <= b <= 255,
    ensures
        is_nearest(gray_of(r, g, b), luma_scaled(r, g, b)),
        0 <= gray_of(r, g, b) <= 255,
        forall|y: int| is_nearest(y, luma_scaled(r, g, b)) ==> y == gray_of(r, g, b),
{
}

/// Converting a colour that is already gray changes nothing, so converting
/// twice gives what converting once gives.
pub proof fn gray_is_idempotent(r: int, g: int, b: int)
    requires
        0 <= r <= 255,
        0 <= g <= 255,
        0 <= b <= 255,
    ensures
        ({
            let y = gray_of(r, g, b);
            gray_of(y, y, y) == y
        }),
{
}

/// Luminance never decreases when a channel grows.
pub proof fn gray_is_monotonic(r1: int, g1: int, b1: int, r2: int, g2: int, b2: int)
    requires
        r1 <= r2,
        g1 <= g2,
        b1 <= b2,
    ensures
        gray_of(r1, g1, b1) <= gray_of(r2, g2, b2),
{
}

/// BT.709 luminance of a colour, rounded to the nearest gray level.
pub fn rgb_to_gray(r: u8, g: u8, b: u8) -> (gray: u8)
    ensures
        gray as int == gray_of(r as int, g as int, b as int),
        is_nearest(gray as int, luma_scaled(r as int, g as int, b as int)),
{
    let scaled: u32 = 2126 * (r as u32) + 7152 * (g as u32) + 722 * (b as u32);
    let y: u32 = (scaled + 5000) / 10000;
    y as u8
}

/// The bitwise complement of a gray level: black becomes white.
pub fn invert_byte(b: u8) -> (inverted: u8)
    ensures
        inverted as int == 255 - b as int,
{
    255 - b
}

impl Rgb {
    pub fn new(r: u8, g: u8, b: u8) -> (c: Rgb)
        ensures
            c == (Rgb { r, g, b }),
    {
        Rgb { r, g, b }
    }

    /// The colour as a panel of the given model stores it.
    pub fn to_device(self, model: ColorModel) -> (native: Rgb)
        ensures
            native == device_color_of(model, self),
            model == ColorModel::Color ==> native == self,
            model == ColorModel::Grayscale ==> native.r == native.g && native.g == native.b,
    {
        match model {
            ColorModel::Color => self,
            ColorModel::Grayscale => {
                let y: u8 = rgb_to_gray(self.r, self.g, self.b);
                Rgb { r: y, g: y, b: y }
            },
        }
    }
}

} // verus!
