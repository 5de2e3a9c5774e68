//! Colors, attribute sets, and the color resolver.
//!
//! A cell's color is one of three tiers: an index into the 16-entry base
//! colorscheme, an index into the fixed 256-entry extended palette, or a
//! direct RGBA value. Colors are resolved to concrete RGBA only at render
//! time, against the active colorscheme and the fixed extended table.

use vstd::prelude::*;

verus! {

/// A concrete color: one byte per channel, alpha included.
#[derive(Clone, Copy, Debug, PartialEq, Eq, Structural)]
pub struct RGBA {
    pub r: u8,
    pub g: u8,
    pub b: u8,
    pub a: u8,
}

/// The three-tier color representation carried by cells and the pen.
#[derive(Clone, Copy, Debug, PartialEq, Eq, Structural)]
pub enum Color {
    /// Index into the 16-entry base colorscheme; always below 16.
    BasePalette(u8),
    /// Index into the fixed 256-entry extended palette.
    ExtendedPalette(u8),
    /// A direct RGBA value.
    Direct(RGBA),
}

impl Color {
    /// A base-palette index must address the 16-entry colorscheme.
    pub open spec fn wf(self) -> bool {
        match self {
            Color::BasePalette(i) => i < 16,
            Color::ExtendedPalette(_) => true,
            Color::Direct(_) => true,
        }
    }

    /// Default foreground: base-palette index 7.
    pub open spec fn default_fg() -> Color {
        Color::BasePalette(7)
    }

    /// Default background: base-palette index 0.
    pub open spec fn default_bg() -> Color {
        Color::BasePalette(0)
    }
}

/// The set of graphic attributes a cell can carry: any combination of the
/// four flags, a closed 4-bit-encodable domain of 16 combinations.
#[derive(Clone, Copy, Debug, PartialEq, Eq, Structural)]
pub struct Attribute {
    pub bold: bool,
    pub underline: bool,
    pub blink: bool,
    pub reverse: bool,
}

impl Attribute {
    /// The normal rendition: no attribute set.
    pub open spec fn normal_spec() -> Attribute {
        Attribute { bold: false, underline: false, blink: false, reverse: false }
    }

    /// Builds the normal rendition.
    pub fn normal() -> (r: Attribute)
        ensures
            r == Attribute::normal_spec(),
    {
        Attribute { bold: false, underline: false, blink: false, reverse: false }
    }
}

impl Default for Attribute {
    /// The default attribute set is the normal rendition.
    fn default() -> (r: Attribute)
        ensures
            r == Attribute::normal_spec(),
    {
        Attribute::normal()
    }
}

/// One entry of the fixed 256-entry extended palette: the 16 system colors,
/// a 6x6x6 color cube, then a 24-step grayscale ramp.
pub open spec fn ansi_256_spec(i: int) -> RGBA
    recommends
        0 <= i < 256,
{
    if i < 16 {
        base_16_spec(i)
    } else if i < 232 {
        let c = i - 16;
        RGBA {
            r: cube_level_spec(c / 36),
            g: cube_level_spec((c / 6) % 6),
            b: cube_level_spec(c % 6),
            a: 255,
        }
    } else {
        let v = (8 + 10 * (i - 232)) as u8;
        RGBA { r: v, g: v, b: v, a: 255 }
    }
}

/// One of the six levels of the extended palette's color cube.
pub open spec fn cube_level_spec(l: int) -> u8
    recommends
        0 <= l < 6,
{
    if l == 0 {
        0
    } else {
        (55 + 40 * l) as u8
    }
}

/// One of the 16 system colors at the head of the extended palette.
pub open spec fn base_16_spec(i: int) -> RGBA
    recommends
        0 <= i < 16,
{
    let (r, g, b): (u8, u8, u8) = if i == 0 {
        (0, 0, 0)
    } else if i == 1 {
        (128, 0, 0)
    } else if i == 2 {
        (0, 128, 0)
    } else if i == 3 {
        (128, 128, 0)
    } else if i == 4 {
        (0, 0, 128)
    } else if i == 5 {
        (128, 0, 128)
    } else if i == 6 {
        (0, 128, 128)
    } else if i == 7 {
        (192, 192, 192)
    } else if i == 8 {
        (128, 128, 128)
    } else if i == 9 {
        (255, 0, 0)
    } else if i == 10 {
        (0, 255, 0)
    } else if i == 11 {
        (255, 255, 0)
    } else if i == 12 {
        (0, 0, 255)
    } else if i == 13 {
        (255, 0, 255)
    } else if i == 14 {
        (0, 255, 255)
    } else {
        (255, 255, 255)
    };
    RGBA { r: r, g: g, b: b, a: 255 }
}

/// Looks up the fixed 256-entry extended palette.
pub fn ansi_256(i: u8) -> (r: RGBA)
    ensures
        r == ansi_256_spec(i as int),
{
    if i < 16 {
        base_16(i)
    } else if i < 232 {
        let c = i - 16;
        RGBA {
            r: cube_level(c / 36),
            g: cube_level((c / 6) % 6),
            b: cube_level(c % 6),
            a: 255,
        }
    } else {
        let v = 8 + 10 * (i - 232);
        RGBA { r: v, g: v, b: v, a: 255 }
    }
}

fn cube_level(l: u8) -> (r: u8)
    requires
        l < 6,
    ensures
        r == cube_level_spec(l as int),
{
    if l == 0 {
        0
    } else {
        55 + 40 * l
    }
}

fn base_16(i: u8) -> (r: RGBA)
    requires
        i < 16,
    ensures
        r == base_16_spec(i as int),
{
    let (r, g, b): (u8, u8, u8) = if i == 0 {
        (0, 0, 0)
    } else if i == 1 {
        (128, 0, 0)
    } else if i == 2 {
        (0, 128, 0)
    } else if i == 3 {
        (128, 128, 0)
    } else if i == 4 {
        (0, 0, 128)
    } else if i == 5 {
        (128, 0, 128)
    } else if i == 6 {
        (0, 128, 128)
    } else if i == 7 {
        (192, 192, 192)
    } else if i == 8 {
        (128, 128, 128)
    } else if i == 9 {
        (255, 0, 0)
    } else if i == 10 {
        (0, 255, 0)
    } else if i == 11 {
        (255, 255, 0)
    } else if i == 12 {
        (0, 0, 255)
    } else if i == 13 {
        (255, 0, 255)
    } else if i == 14 {
        (0, 255, 255)
    } else {
        (255, 255, 255)
    };
    RGBA { r: r, g: g, b: b, a: 255 }
}

/// What resolving a color against a 16-entry colorscheme yields: the scheme
/// entry for a base-palette index, the fixed table entry for an extended
/// index, and the value itself for a direct color.
pub open spec fn resolve_spec(color: Color, scheme: Seq<RGBA>) -> RGBA
    recommends
        color.wf(),
        scheme.len() == 16,
{
    match color {
        Color::BasePalette(i) => scheme[i as int],
        Color::ExtendedPalette(i) => ansi_256_spec(i as int),
        Color::Direct(rgba) => rgba,
    }
}

/// Why a hex color string was rejected: not `#RRGGBB` or `#RRGGBBAA` in
/// shape, or one channel's pair is not hexadecimal.
#[derive(Clone, Copy, Debug, PartialEq, Eq, Structural)]
pub enum HexColorError {
    Format,
    Red,
    Green,
    Blue,
    Alpha,
}

/// Whether a byte is an ASCII hexadecimal digit.
pub open spec fn is_hex_digit(b: u8) -> bool {
    (0x30 <= b <= 0x39) || (0x61 <= b <= 0x66) || (0x41 <= b <= 0x46)
}

/// The value of an ASCII hexadecimal digit.
pub open spec fn hex_val(b: u8) -> int
    recommends
        is_hex_digit(b),
{
    if 0x30 <= b <= 0x39 {
        b - 0x30
    } else if 0x61 <= b <= 0x66 {
        b - 0x61 + 10
    } else {
        b - 0x41 + 10
    }
}

/// Whether the two bytes at position `i` form a hexadecimal channel pair.
pub open spec fn pair_ok(s: Seq<u8>, i: int) -> bool {
    is_hex_digit(s[i]) && is_hex_digit(s[i + 1])
}

/// The channel value of the hexadecimal pair at position `i`.
pub open spec fn pair_val(s: Seq<u8>, i: int) -> int {
    16 * hex_val(s[i]) + hex_val(s[i + 1])
}

/// What parsing a `#RRGGBB` or `#RRGGBBAA` color string yields: the channel
/// values on a well-shaped input, and the first offending part otherwise.
/// Alpha defaults to fully opaque when absent.
pub open spec fn hex_to_color_spec(s: Seq<u8>) -> Result<RGBA, HexColorError> {
    if !((s.len() == 7 || s.len() == 9) && s[0] == 0x23) {
        Err(HexColorError::Format)
    } else if !pair_ok(s, 1) {
        Err(HexColorError::Red)
    } else if !pair_ok(s, 3) {
        Err(HexColorError::Green)
    } else if !pair_ok(s, 5) {
        Err(HexColorError::Blue)
    } else if s.len() == 9 && !pair_ok(s, 7) {
        Err(HexColorError::Alpha)
    } else {
        Ok(
            RGBA {
                r: pair_val(s, 1) as u8,
                g: pair_val(s, 3) as u8,
                b: pair_val(s, 5) as u8,
                a: if s.len() == 9 {
                    pair_val(s, 7) as u8
                } else {
                    255
                },
            },
        )
    }
}

/// The value of one ASCII hexadecimal digit, or `None` for any other byte.
fn hex_digit(b: u8) -> (r: Option<u8>)
    ensures
        r is Some <==> is_hex_digit(b),
        is_hex_digit(b) ==> r == Some(hex_val(b) as u8),
{
    if 0x30 <= b && b <= 0x39 {
        Some(b - 0x30)
    } else if 0x61 <= b && b <= 0x66 {
        Some(b - 0x61 + 10)
    } else if 0x41 <= b && b <= 0x46 {
        Some(b - 0x41 + 10)
    } else {
        None
    }
}

/// The channel value of the hexadecimal pair at position `i`, or `None` when
/// either byte is no hexadecimal digit.
fn hex_pair(s: &[u8], i: usize) -> (r: Option<u8>)
    requires
        i + 1 < s@.len(),
    ensures
        r is Some <==> pair_ok(s@, i as int),
        pair_ok(s@, i as int) ==> r == Some(pair_val(s@, i as int) as u8),
{
    let hi = hex_digit(s[i]);
    let lo = hex_digit(s[i + 1]);
    match (hi, lo) {
        (Some(h), Some(l)) => Some(16 * h + l),
        _ => None,
    }
}

/// Parses a `#RRGGBB` or `#RRGGBBAA` color string given as bytes. Alpha
/// defaults to fully opaque when absent; the error names the first part of
/// the string that is not as it must be.
pub fn hex_to_color(hex: &[u8]) -> (r: Result<RGBA, HexColorError>)
    ensures
        r == hex_to_color_spec(hex@),
{
    let n = hex.len();
    if !((n == 7 || n == 9) && hex[0] == 0x23) {
        return Err(HexColorError::Format);
    }
    let red = match hex_pair(hex, 1) {
        Some(v) => v,
        None => {
            return Err(HexColorError::Red);
        },
    };
    let green = match hex_pair(hex, 3) {
        Some(v) => v,
        None => {
            return Err(HexColorError::Green);
        },
    };
    let blue = match hex_pair(hex, 5) {
        Some(v) => v,
        None => {
            return Err(HexColorError::Blue);
        },
    };
    let alpha = if n == 9 {
        match hex_pair(hex, 7) {
            Some(v) => v,
            None => {
                return Err(HexColorError::Alpha);
            },
        }
    } else {
        255
    };
    Ok(RGBA { r: red, g: green, b: blue, a: alpha })
}

/// Resolves a three-tier color to concrete RGBA against a colorscheme.
pub fn resolve(color: Color, scheme: &[RGBA; 16]) -> (r: RGBA)
    requires
        color.wf(),
    ensures
        r == resolve_spec(color, scheme@),
{
    match color {
        Color::BasePalette(i) => scheme[i as usize],
        Color::ExtendedPalette(i) => ansi_256(i),
        Color::Direct(rgba) => rgba,
    }
}

} // verus!
