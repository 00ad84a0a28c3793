//! Colours as 8-bit sRGB channels, read from `#RRGGBB` notation, and the
//! palette of the simulation.

use vstd::prelude::*;
use vstd::string::StringSliceAdditionalSpecFns;

verus! {

/// An opaque colour: red, green and blue in sRGB, 0 to 255 each.
#[derive(Clone, Copy, Debug, PartialEq, Eq, Structural)]
pub struct Rgb {
    pub r: u8,
    pub g: u8,
    pub b: u8,
}

/// ASCII `#`.
pub const HASH: u8 = 0x23;

/// ASCII `0`.
pub const DIGIT_0: u8 = 0x30;

/// ASCII `9`.
pub const DIGIT_9: u8 = 0x39;

/// ASCII `A`.
pub const UPPER_A: u8 = 0x41;

/// ASCII `F`.
pub const UPPER_F: u8 = 0x46;

/// ASCII `a`.
pub const LOWER_A: u8 = 0x61;

/// ASCII `f`.
pub const LOWER_F: u8 = 0x66;

/// `c` is one of `0`-`9`, `a`-`f`, `A`-`F`.
pub open spec fn is_hex_digit(c: u8) -> bool {
    ||| DIGIT_0 <= c <= DIGIT_9
    ||| LOWER_A <= c <= LOWER_F
    ||| UPPER_A <= c <= UPPER_F
}

/// The number that a hexadecimal digit stands for.
pub open spec fn hex_digit_value(c: u8) -> int
    recommends
        is_hex_digit(c),
{
    if DIGIT_0 <= c <= DIGIT_9 {
        c - DIGIT_0
    } else if LOWER_A <= c <= LOWER_F {
        c - LOWER_A + 10
    } else {
        c - UPPER_A + 10
    }
}

/// `bytes` is a colour in `#RRGGBB` notation: a hash sign and six
/// hexadecimal digits.
pub open spec fn is_hex_color(bytes: Seq<u8>) -> bool {
    &&& bytes.len() == 7
    &&& bytes[0] == HASH
    &&& forall|i: int| 1 <= i < 7 ==> is_hex_digit(#[trigger] bytes[i])
}

/// The channel written by the two digits at `at` and `at + 1`.
pub open spec fn hex_channel(bytes: Seq<u8>, at: int) -> int {
    16 * hex_digit_value(bytes[at]) + hex_digit_value(bytes[at + 1])
}

/// The colour that `#RRGGBB` notation stands for.
pub open spec fn hex_color(bytes: Seq<u8>) -> Rgb
    recommends
        is_hex_color(bytes),
{
    Rgb {
        r: hex_channel(bytes, 1) as u8,
        g: hex_channel(bytes, 3) as u8,
        b: hex_channel(bytes, 5) as u8,
    }
}

/// Whether `c` is a hexadecimal digit.
pub fn is_hex_byte(c: u8) -> (yes: bool)
    ensures
        yes == is_hex_digit(c),
{
    (DIGIT_0 <= c && c <= DIGIT_9) || (LOWER_A <= c && c <= LOWER_F) || (UPPER_A <= c && c <= UPPER_F)
}

/// Value of one hexadecimal digit.
pub fn hex_byte_to_u8(c: u8) -> (value: u8)
    requires
        is_hex_digit(c),
    ensures
        value == hex_digit_value(c),
        value < 16,
{
    if DIGIT_0 <= c && c <= DIGIT_9 {
        c - DIGIT_0
    } else if LOWER_A <= c && c <= LOWER_F {
        c - LOWER_A + 10
    } else {
        c - UPPER_A + 10
    }
}

/// Reads a colour in `#RRGGBB` notation.
pub fn hex_to_srgb(hex: &str) -> (color: Rgb)
    requires
        is_hex_color(hex.spec_bytes()),
    ensures
        color == hex_color(hex.spec_bytes()),
        color.r == hex_channel(hex.spec_bytes(), 1),
        color.g == hex_channel(hex.spec_bytes(), 3),
        color.b == hex_channel(hex.spec_bytes(), 5),
{
    let bytes = hex.as_bytes();
    let r: u8 = hex_byte_to_u8(bytes[1]) * 16 + hex_byte_to_u8(bytes[2]);
    let g: u8 = hex_byte_to_u8(bytes[3]) * 16 + hex_byte_to_u8(bytes[4]);
    let b: u8 = hex_byte_to_u8(bytes[5]) * 16 + hex_byte_to_u8(bytes[6]);
    Rgb { r, g, b }
}

/// Reads a colour in `#RRGGBB` notation; `None` for any other text.
pub fn parse_hex_color(hex: &str) -> (color: Option<Rgb>)
    ensures
        color == if is_hex_color(hex.spec_bytes()) {
            Some(hex_color(hex.spec_bytes()))
        } else {
            None
        },
{
    let bytes = hex.as_bytes();
    if bytes.len() != 7 || bytes[0] != HASH {
        return None;
    }
    let mut i: usize = 1;
    while i < 7
        invariant
            1 <= i <= 7,
            bytes@.len() == 7,
            bytes@ == hex.spec_bytes(),
            bytes@[0] == HASH,
            forall|k: int| 1 <= k < i ==> is_hex_digit(#[trigger] bytes@[k]),
        decreases 7 - i,
    {
        if !is_hex_byte(bytes[i]) {
            assert(!is_hex_digit(hex.spec_bytes()[i as int]));
            return None;
        }
        i = i + 1;
    }
    Some(hex_to_srgb(hex))
}

/// The colours of the simulation.
#[derive(Clone, Copy, Debug, PartialEq, Eq, Structural)]
pub struct ColorPalette {
    pub fg: Rgb,
    pub bg: Rgb,
    pub black: Rgb,
    pub red: Rgb,
    pub green: Rgb,
    pub orange: Rgb,
    pub blue: Rgb,
    pub magenta: Rgb,
    pub cyan: Rgb,
    pub white: Rgb,
}

/// The Kizu palette, channel by channel.
pub open spec fn kizu_palette() -> ColorPalette {
    ColorPalette {
        fg: Rgb { r: 0xC5, g: 0xC8, b: 0xC9 },
        bg: Rgb { r: 0x0B, g: 0x0F, b: 0x10 },
        black: Rgb { r: 0x13, g: 0x17, b: 0x18 },
        red: Rgb { r: 0xDF, g: 0x5B, b: 0x61 },
        green: Rgb { r: 0x87, g: 0xC7, b: 0xA1 },
        orange: Rgb { r: 0xDE, g: 0x8F, b: 0x78 },
        blue: Rgb { r: 0x67, g: 0x91, b: 0xC9 },
        magenta: Rgb { r: 0xBC, g: 0x83, b: 0xE3 },
        cyan: Rgb { r: 0x70, g: 0xB9, b: 0xCC },
        white: Rgb { r: 0xC4, g: 0xC4, b: 0xC4 },
    }
}

/// What is known of the bytes of a seven-character ASCII text.
proof fn lemma_ascii_bytes(text: &str)
    requires
        text@.len() == 7,
        forall|i: int| 0 <= i < 7 ==> '\0' <= #[trigger] text@[i] <= '\u{7f}',
    ensures
        text.spec_bytes().len() == 7,
        forall|i: int| 0 <= i < 7 ==> #[trigger] text.spec_bytes()[i] == text@[i] as u8,
{
    broadcast use vstd::string::is_ascii_spec_bytes;

    assert(vstd::string::is_ascii(text));
}

impl ColorPalette {
    /// The Kizu palette.
    pub fn kizu() -> (palette: ColorPalette)
        ensures
            palette == kizu_palette(),
    {
        proof {
            reveal_strlit("#C5C8C9");
            lemma_ascii_bytes("#C5C8C9");
            reveal_strlit("#0B0F10");
            lemma_ascii_bytes("#0B0F10");
            reveal_strlit("#131718");
            lemma_ascii_bytes("#131718");
            reveal_strlit("#DF5B61");
            lemma_ascii_bytes("#DF5B61");
            reveal_strlit("#87C7A1");
            lemma_ascii_bytes("#87C7A1");
            reveal_strlit("#DE8F78");
            lemma_ascii_bytes("#DE8F78");
            reveal_strlit("#6791C9");
            lemma_ascii_bytes("#6791C9");
            reveal_strlit("#BC83E3");
            lemma_ascii_bytes("#BC83E3");
            reveal_strlit("#70B9CC");
            lemma_ascii_bytes("#70B9CC");
            reveal_strlit("#C4C4C4");
            lemma_ascii_bytes("#C4C4C4");
        }
        ColorPalette {
            fg: hex_to_srgb("#C5C8C9"),
            bg: hex_to_srgb("#0B0F10"),
            black: hex_to_srgb("#131718"),
            red: hex_to_srgb("#DF5B61"),
            green: hex_to_srgb("#87C7A1"),
            orange: hex_to_srgb("#DE8F78"),
            blue: hex_to_srgb("#6791C9"),
            magenta: hex_to_srgb("#BC83E3"),
            cyan: hex_to_srgb("#70B9CC"),
            white: hex_to_srgb("#C4C4C4"),
        }
    }
}

impl Default for ColorPalette {
    /// The Kizu palette.
    fn default() -> (palette: ColorPalette)
        ensures
            palette == kizu_palette(),
    {
        ColorPalette::kizu()
    }
}

} // verus!
