use crate::display::{in_rect, on_screen, pixel_at, Color, ScreenBuffer, SCREEN_HEIGHT, SCREEN_WIDTH};
use crate::epd::{
    lemma_logical_pixel_update, logical_code, logical_pixel_update, set_logical_packed_frame_pixel,
    spec_epd_color_code, EPD_FRAME_BYTES,
};
use vstd::prelude::*;

verus! {

pub const PLACEHOLDER_GLYPH_WIDTH: usize = 5;

pub const PLACEHOLDER_GLYPH_HEIGHT: usize = 7;

pub const GLYPH_GAP: usize = 1;

/// How a line of text is drawn: inks, padding round the glyphs, distance from
/// the screen edge, and the size the 5x7 glyphs are scaled to.
#[derive(Clone, Copy, Debug, PartialEq, Eq, Structural)]
pub struct TextStyle {
    pub foreground: Color,
    pub background: Color,
    pub padding_x: usize,
    pub padding_y: usize,
    pub margin_x: usize,
    pub margin_y: usize,
    pub glyph_width: usize,
    pub glyph_height: usize,
    pub glyph_gap: usize,
}

impl Default for TextStyle {
    fn default() -> (style: Self)
        ensures
            style == (TextStyle {
                foreground: Color::Black,
                background: Color::White,
                padding_x: 8,
                padding_y: 6,
                margin_x: 12,
                margin_y: 12,
                glyph_width: PLACEHOLDER_GLYPH_WIDTH,
                glyph_height: PLACEHOLDER_GLYPH_HEIGHT,
                glyph_gap: GLYPH_GAP,
            }),
    {
        TextStyle {
            foreground: Color::Black,
            background: Color::White,
            padding_x: 8,
            padding_y: 6,
            margin_x: 12,
            margin_y: 12,
            glyph_width: PLACEHOLDER_GLYPH_WIDTH,
            glyph_height: PLACEHOLDER_GLYPH_HEIGHT,
            glyph_gap: GLYPH_GAP,
        }
    }
}

/// The corner of the screen an overlay sits in.
#[derive(Clone, Copy, Debug, PartialEq, Eq, Structural)]
pub enum OverlaySlot {
    BottomLeft,
    BottomRight,
    TopLeft,
    TopRight,
}

/// The seven rows of the built-in 5x7 glyph of a character, most significant bit leftmost;
/// lower-case letters share the glyph of their capital, and any other character is a box.
pub open spec fn spec_glyph_rows(character: char) -> Seq<u8> {
    match character {
        '0' => seq![0x0Eu8, 0x11, 0x13, 0x15, 0x19, 0x11, 0x0E],
        '1' => seq![0x04u8, 0x0C, 0x04, 0x04, 0x04, 0x04, 0x0E],
        '2' => seq![0x0Eu8, 0x11, 0x01, 0x02, 0x04, 0x08, 0x1F],
        '3' => seq![0x1Eu8, 0x01, 0x01, 0x0E, 0x01, 0x01, 0x1E],
        '4' => seq![0x02u8, 0x06, 0x0A, 0x12, 0x1F, 0x02, 0x02],
        '5' => seq![0x1Fu8, 0x10, 0x10, 0x1E, 0x01, 0x01, 0x1E],
        '6' => seq![0x0Eu8, 0x10, 0x10, 0x1E, 0x11, 0x11, 0x0E],
        '7' => seq![0x1Fu8, 0x01, 0x02, 0x04, 0x08, 0x08, 0x08],
        '8' => seq![0x0Eu8, 0x11, 0x11, 0x0E, 0x11, 0x11, 0x0E],
        '9' => seq![0x0Eu8, 0x11, 0x11, 0x0F, 0x01, 0x01, 0x0E],
        'A' | 'a' => seq![0x0Eu8, 0x11, 0x11, 0x1F, 0x11, 0x11, 0x11],
        'B' | 'b' => seq![0x1Eu8, 0x11, 0x11, 0x1E, 0x11, 0x11, 0x1E],
        'C' | 'c' => seq![0x0Eu8, 0x11, 0x10, 0x10, 0x10, 0x11, 0x0E],
        'D' | 'd' => seq![0x1Eu8, 0x11, 0x11, 0x11, 0x11, 0x11, 0x1E],
        'E' | 'e' => seq![0x1Fu8, 0x10, 0x10, 0x1E, 0x10, 0x10, 0x1F],
        'F' | 'f' => seq![0x1Fu8, 0x10, 0x10, 0x1E, 0x10, 0x10, 0x10],
        'G' | 'g' => seq![0x0Eu8, 0x11, 0x10, 0x17, 0x11, 0x11, 0x0F],
        'H' | 'h' => seq![0x11u8, 0x11, 0x11, 0x1F, 0x11, 0x11, 0x11],
        'I' | 'i' => seq![0x0Eu8, 0x04, 0x04, 0x04, 0x04, 0x04, 0x0E],
        'J' | 'j' => seq![0x07u8, 0x02, 0x02, 0x02, 0x12, 0x12, 0x0C],
        'K' | 'k' => seq![0x11u8, 0x12, 0x14, 0x18, 0x14, 0x12, 0x11],
        'L' | 'l' => seq![0x10u8, 0x10, 0x10, 0x10, 0x10, 0x10, 0x1F],
        'M' | 'm' => seq![0x11u8, 0x1B, 0x15, 0x15, 0x11, 0x11, 0x11],
        'N' | 'n' => seq![0x11u8, 0x19, 0x15, 0x13, 0x11, 0x11, 0x11],
        'O' | 'o' => seq![0x0Eu8, 0x11, 0x11, 0x11, 0x11, 0x11, 0x0E],
        'P' | 'p' => seq![0x1Eu8, 0x11, 0x11, 0x1E, 0x10, 0x10, 0x10],
        'Q' | 'q' => seq![0x0Eu8, 0x11, 0x11, 0x11, 0x15, 0x12, 0x0D],
        'R' | 'r' => seq![0x1Eu8, 0x11, 0x11, 0x1E, 0x14, 0x12, 0x11],
        'S' | 's' => seq![0x0Fu8, 0x10, 0x10, 0x0E, 0x01, 0x01, 0x1E],
        'T' | 't' => seq![0x1Fu8, 0x04, 0x04, 0x04, 0x04, 0x04, 0x04],
        'U' | 'u' => seq![0x11u8, 0x11, 0x11, 0x11, 0x11, 0x11, 0x0E],
        'V' | 'v' => seq![0x11u8, 0x11, 0x11, 0x11, 0x11, 0x0A, 0x04],
        'W' | 'w' => seq![0x11u8, 0x11, 0x11, 0x15, 0x15, 0x15, 0x0A],
        'X' | 'x' => seq![0x11u8, 0x11, 0x0A, 0x04, 0x0A, 0x11, 0x11],
        'Y' | 'y' => seq![0x11u8, 0x11, 0x0A, 0x04, 0x04, 0x04, 0x04],
        'Z' | 'z' => seq![0x1Fu8, 0x01, 0x02, 0x04, 0x08, 0x10, 0x1F],
        '-' => seq![0x00u8, 0x00, 0x00, 0x1F, 0x00, 0x00, 0x00],
        ':' => seq![0x00u8, 0x04, 0x04, 0x00, 0x04, 0x04, 0x00],
        '/' => seq![0x01u8, 0x01, 0x02, 0x04, 0x08, 0x10, 0x10],
        '.' => seq![0x00u8, 0x00, 0x00, 0x00, 0x00, 0x0C, 0x0C],
        '_' => seq![0x00u8, 0x00, 0x00, 0x00, 0x00, 0x00, 0x1F],
        '(' => seq![0x02u8, 0x04, 0x08, 0x08, 0x08, 0x04, 0x02],
        ')' => seq![0x08u8, 0x04, 0x02, 0x02, 0x02, 0x04, 0x08],
        '=' => seq![0x00u8, 0x00, 0x1F, 0x00, 0x1F, 0x00, 0x00],
        _ => seq![0x1Fu8, 0x11, 0x15, 0x15, 0x15, 0x11, 0x1F],
    }
}

/// The rows of the built-in glyph of `character`.
pub fn glyph_pattern(character: char) -> (rows: [u8; PLACEHOLDER_GLYPH_HEIGHT])
    ensures
        rows@ == spec_glyph_rows(character),
{
    let rows: [u8; PLACEHOLDER_GLYPH_HEIGHT] = match character {
        '0' => [0x0E, 0x11, 0x13, 0x15, 0x19, 0x11, 0x0E],
        '1' => [0x04, 0x0C, 0x04, 0x04, 0x04, 0x04, 0x0E],
        '2' => [0x0E, 0x11, 0x01, 0x02, 0x04, 0x08, 0x1F],
        '3' => [0x1E, 0x01, 0x01, 0x0E, 0x01, 0x01, 0x1E],
        '4' => [0x02, 0x06, 0x0A, 0x12, 0x1F, 0x02, 0x02],
        '5' => [0x1F, 0x10, 0x10, 0x1E, 0x01, 0x01, 0x1E],
        '6' => [0x0E, 0x10, 0x10, 0x1E, 0x11, 0x11, 0x0E],
        '7' => [0x1F, 0x01, 0x02, 0x04, 0x08, 0x08, 0x08],
        '8' => [0x0E, 0x11, 0x11, 0x0E, 0x11, 0x11, 0x0E],
        '9' => [0x0E, 0x11, 0x11, 0x0F, 0x01, 0x01, 0x0E],
        'A' | 'a' => [0x0E, 0x11, 0x11, 0x1F, 0x11, 0x11, 0x11],
        'B' | 'b' => [0x1E, 0x11, 0x11, 0x1E, 0x11, 0x11, 0x1E],
        'C' | 'c' => [0x0E, 0x11, 0x10, 0x10, 0x10, 0x11, 0x0E],
        'D' | 'd' => [0x1E, 0x11, 0x11, 0x11, 0x11, 0x11, 0x1E],
        'E' | 'e' => [0x1F, 0x10, 0x10, 0x1E, 0x10, 0x10, 0x1F],
        'F' | 'f' => [0x1F, 0x10, 0x10, 0x1E, 0x10, 0x10, 0x10],
        'G' | 'g' => [0x0E, 0x11, 0x10, 0x17, 0x11, 0x11, 0x0F],
        'H' | 'h' => [0x11, 0x11, 0x11, 0x1F, 0x11, 0x11, 0x11],
        'I' | 'i' => [0x0E, 0x04, 0x04, 0x04, 0x04, 0x04, 0x0E],
        'J' | 'j' => [0x07, 0x02, 0x02, 0x02, 0x12, 0x12, 0x0C],
        'K' | 'k' => [0x11, 0x12, 0x14, 0x18, 0x14, 0x12, 0x11],
        'L' | 'l' => [0x10, 0x10, 0x10, 0x10, 0x10, 0x10, 0x1F],
        'M' | 'm' => [0x11, 0x1B, 0x15, 0x15, 0x11, 0x11, 0x11],
        'N' | 'n' => [0x11, 0x19, 0x15, 0x13, 0x11, 0x11, 0x11],
        'O' | 'o' => [0x0E, 0x11, 0x11, 0x11, 0x11, 0x11, 0x0E],
        'P' | 'p' => [0x1E, 0x11, 0x11, 0x1E, 0x10, 0x10, 0x10],
        'Q' | 'q' => [0x0E, 0x11, 0x11, 0x11, 0x15, 0x12, 0x0D],
        'R' | 'r' => [0x1E, 0x11, 0x11, 0x1E, 0x14, 0x12, 0x11],
        'S' | 's' => [0x0F, 0x10, 0x10, 0x0E, 0x01, 0x01, 0x1E],
        'T' | 't' => [0x1F, 0x04, 0x04, 0x04, 0x04, 0x04, 0x04],
        'U' | 'u' => [0x11, 0x11, 0x11, 0x11, 0x11, 0x11, 0x0E],
        'V' | 'v' => [0x11, 0x11, 0x11, 0x11, 0x11, 0x0A, 0x04],
        'W' | 'w' => [0x11, 0x11, 0x11, 0x15, 0x15, 0x15, 0x0A],
        'X' | 'x' => [0x11, 0x11, 0x0A, 0x04, 0x0A, 0x11, 0x11],
        'Y' | 'y' => [0x11, 0x11, 0x0A, 0x04, 0x04, 0x04, 0x04],
        'Z' | 'z' => [0x1F, 0x01, 0x02, 0x04, 0x08, 0x10, 0x1F],
        '-' => [0x00, 0x00, 0x00, 0x1F, 0x00, 0x00, 0x00],
        ':' => [0x00, 0x04, 0x04, 0x00, 0x04, 0x04, 0x00],
        '/' => [0x01, 0x01, 0x02, 0x04, 0x08, 0x10, 0x10],
        '.' => [0x00, 0x00, 0x00, 0x00, 0x00, 0x0C, 0x0C],
        '_' => [0x00, 0x00, 0x00, 0x00, 0x00, 0x00, 0x1F],
        '(' => [0x02, 0x04, 0x08, 0x08, 0x08, 0x04, 0x02],
        ')' => [0x08, 0x04, 0x02, 0x02, 0x02, 0x04, 0x08],
        '=' => [0x00, 0x00, 0x1F, 0x00, 0x1F, 0x00, 0x00],
        _ => [0x1F, 0x11, 0x15, 0x15, 0x15, 0x11, 0x1F],
    };
    assert(rows@ =~= spec_glyph_rows(character));
    rows
}

/// Whether column `column` (0 is leftmost) of a 5-bit glyph row is inked.
pub open spec fn glyph_bit_set(row: u8, column: int) -> bool {
    if column == 0 {
        row / 16 % 2 == 1
    } else if column == 1 {
        row / 8 % 2 == 1
    } else if column == 2 {
        row / 4 % 2 == 1
    } else if column == 3 {
        row / 2 % 2 == 1
    } else {
        row % 2 == 1
    }
}

fn glyph_bit(row: u8, column: usize) -> (set: bool)
    requires
        column < PLACEHOLDER_GLYPH_WIDTH,
    ensures
        set == glyph_bit_set(row, column as int),
{
    match column {
        0 => row / 16 % 2 == 1,
        1 => row / 8 % 2 == 1,
        2 => row / 4 % 2 == 1,
        3 => row / 2 % 2 == 1,
        _ => row % 2 == 1,
    }
}

/// The characters that Unicode calls white space: they advance the cursor and
/// draw nothing.
pub open spec fn spec_is_whitespace(character: char) -> bool {
    let code = character as u32;
    (0x09 <= code <= 0x0D) || code == 0x20 || code == 0x85 || code == 0xA0 || code == 0x1680
        || (0x2000 <= code <= 0x200A) || code == 0x2028 || code == 0x2029 || code == 0x202F
        || code == 0x205F || code == 0x3000
}

pub fn is_whitespace(character: char) -> (result: bool)
    ensures
        result == spec_is_whitespace(character),
{
    let code = character as u32;
    (0x09 <= code && code <= 0x0D) || code == 0x20 || code == 0x85 || code == 0xA0 || code
        == 0x1680 || (0x2000 <= code && code <= 0x200A) || code == 0x2028 || code == 0x2029
        || code == 0x202F || code == 0x205F || code == 0x3000
}

pub open spec fn spec_min(a: int, b: int) -> int {
    if a < b {
        a
    } else {
        b
    }
}

/// Subtraction that stops at zero.
pub open spec fn sat_sub(a: int, b: int) -> int {
    if a > b {
        a - b
    } else {
        0
    }
}

/// The width of a text block of `count` glyphs, padding included, before clipping.
pub open spec fn spec_text_width(count: int, style: TextStyle) -> int {
    count * style.glyph_width + (count - 1) * style.glyph_gap + 2 * style.padding_x
}

/// The size of the block that `count` glyphs are drawn in, clipped to the screen;
/// nothing is drawn for no glyphs or a glyph of no area.
pub open spec fn spec_text_size(count: int, style: TextStyle) -> Option<(usize, usize)> {
    if count == 0 || style.glyph_width == 0 || style.glyph_height == 0 {
        None
    } else {
        Some(
            (
                spec_min(spec_text_width(count, style), SCREEN_WIDTH as int) as usize,
                spec_min(style.glyph_height + 2 * style.padding_y, SCREEN_HEIGHT as int) as usize,
            ),
        )
    }
}

fn text_size_for_count(count: usize, style: &TextStyle) -> (size: Option<(usize, usize)>)
    ensures
        size == spec_text_size(count as int, *style),
{
    if count == 0 || style.glyph_width == 0 || style.glyph_height == 0 {
        return None;
    }
    let width: usize = match count.checked_mul(style.glyph_width) {
        None => SCREEN_WIDTH,
        Some(glyphs) => match (count - 1).checked_mul(style.glyph_gap) {
            None => SCREEN_WIDTH,
            Some(gaps) => match style.padding_x.checked_mul(2) {
                None => SCREEN_WIDTH,
                Some(padding) => match glyphs.checked_add(gaps) {
                    None => SCREEN_WIDTH,
                    Some(inner) => match inner.checked_add(padding) {
                        None => SCREEN_WIDTH,
                        Some(total) => if total < SCREEN_WIDTH {
                            total
                        } else {
                            SCREEN_WIDTH
                        },
                    },
                },
            },
        },
    };
    let height: usize = match style.padding_y.checked_mul(2) {
        None => SCREEN_HEIGHT,
        Some(padding) => match style.glyph_height.checked_add(padding) {
            None => SCREEN_HEIGHT,
            Some(total) => if total < SCREEN_HEIGHT {
                total
            } else {
                SCREEN_HEIGHT
            },
        },
    };
    proof {
        assert(count * style.glyph_width >= 0) by (nonlinear_arith)
            requires
                count >= 0,
                style.glyph_width >= 0,
        ;
        assert((count - 1) * style.glyph_gap >= 0) by (nonlinear_arith)
            requires
                count >= 1,
                style.glyph_gap >= 0,
        ;
    }
    Some((width, height))
}

/// The size of the block that `text` is drawn in.
pub fn text_size(text: &str, style: &TextStyle) -> (size: Option<(usize, usize)>)
    ensures
        size == spec_text_size(text@.len() as int, *style),
{
    let count = text.unicode_len();
    text_size_for_count(count, style)
}

/// Where a block of the given size goes in a corner slot, kept on the screen
/// where it fits.
pub open spec fn spec_slot_origin(slot: OverlaySlot, width: int, height: int, margin_x: int, margin_y: int) -> (
    usize,
    usize,
) {
    let left = spec_min(margin_x, sat_sub(SCREEN_WIDTH as int, width));
    let right = sat_sub(sat_sub(SCREEN_WIDTH as int, margin_x), width);
    let top = spec_min(margin_y, sat_sub(SCREEN_HEIGHT as int, height));
    let bottom = sat_sub(sat_sub(SCREEN_HEIGHT as int, margin_y), height);
    match slot {
        OverlaySlot::BottomLeft => (left as usize, bottom as usize),
        OverlaySlot::BottomRight => (right as usize, bottom as usize),
        OverlaySlot::TopLeft => (left as usize, top as usize),
        OverlaySlot::TopRight => (right as usize, top as usize),
    }
}

/// The origin of a block in a corner slot with the given margins.
pub fn slot_origin(slot: OverlaySlot, width: usize, height: usize, margin_x: usize, margin_y: usize) -> (origin: (
    usize,
    usize,
))
    ensures
        origin == spec_slot_origin(slot, width as int, height as int, margin_x as int, margin_y as int),
{
    let room_x = SCREEN_WIDTH.saturating_sub(width);
    let room_y = SCREEN_HEIGHT.saturating_sub(height);
    let left = if margin_x < room_x { margin_x } else { room_x };
    let right = SCREEN_WIDTH.saturating_sub(margin_x).saturating_sub(width);
    let top = if margin_y < room_y { margin_y } else { room_y };
    let bottom = SCREEN_HEIGHT.saturating_sub(margin_y).saturating_sub(height);
    match slot {
        OverlaySlot::BottomLeft => (left, bottom),
        OverlaySlot::BottomRight => (right, bottom),
        OverlaySlot::TopLeft => (left, top),
        OverlaySlot::TopRight => (right, top),
    }
}

fn overlay_origin(slot: OverlaySlot, width: usize, height: usize, style: &TextStyle) -> (origin: (usize, usize))
    ensures
        origin == spec_slot_origin(slot, width as int, height as int, style.margin_x as int, style.margin_y as int),
{
    slot_origin(slot, width, height, style.margin_x, style.margin_y)
}

/// The characters of a string, one by one.
pub fn chars_of(text: &str) -> (chars: Vec<char>)
    ensures
        chars@ == text@,
{
    let count = text.unicode_len();
    let mut chars: Vec<char> = Vec::new();
    let mut i: usize = 0;
    while i < count
        invariant
            count == text@.len(),
            i <= count,
            chars@ == text@.subrange(0, i as int),
        decreases count - i,
    {
        chars.push(text.get_char(i));
        i = i + 1;
    }
    assert(chars@ =~= text@);
    chars
}

/// Whether the glyph of `character`, with its top-left corner at `(x, y)` and
/// scaled to `width` by `height`, inks `(px, py)`: the point lies in the glyph's
/// cell and the bit of the 5x7 glyph it scales back to is set.
pub open spec fn glyph_inks(character: char, x: int, y: int, width: int, height: int, px: int, py: int) -> bool {
    &&& in_rect(px, py, x, y, width, height)
    &&& glyph_bit_set(
        spec_glyph_rows(character)[(py - y) * PLACEHOLDER_GLYPH_HEIGHT / height],
        (px - x) * PLACEHOLDER_GLYPH_WIDTH / width,
    )
}

/// Whether glyph `i` of a run whose glyph `start` sits at `(x, y)` inks
/// `(px, py)`: glyphs stand one glyph width and one gap apart, and white space
/// inks nothing.
pub open spec fn run_glyph_inks(chars: Seq<char>, start: int, i: int, x: int, y: int, style: TextStyle, px: int, py: int) -> bool {
    &&& !spec_is_whitespace(chars[i])
    &&& glyph_inks(
        chars[i],
        x + (i - start) * (style.glyph_width + style.glyph_gap),
        y,
        style.glyph_width as int,
        style.glyph_height as int,
        px,
        py,
    )
}

/// Whether one of the glyphs `chars[start..end]`, drawn from `(x, y)`, inks `(px, py)`.
pub open spec fn run_inks(chars: Seq<char>, start: int, end: int, x: int, y: int, style: TextStyle, px: int, py: int) -> bool {
    exists|i: int| start <= i < end && #[trigger] run_glyph_inks(chars, start, i, x, y, style, px, py)
}

proof fn lemma_run_inks_extend(chars: Seq<char>, start: int, end: int, x: int, y: int, style: TextStyle, px: int, py: int)
    requires
        start <= end < chars.len(),
    ensures
        run_inks(chars, start, end + 1, x, y, style, px, py) == (run_inks(chars, start, end, x, y, style, px, py)
            || run_glyph_inks(chars, start, end, x, y, style, px, py)),
{
    if run_inks(chars, start, end + 1, x, y, style, px, py) {
        let i = choose|i: int| start <= i < end + 1 && #[trigger] run_glyph_inks(chars, start, i, x, y, style, px, py);
        if i < end {
            assert(start <= i < end && run_glyph_inks(chars, start, i, x, y, style, px, py));
        }
    }
    if run_inks(chars, start, end, x, y, style, px, py) {
        let i = choose|i: int| start <= i < end && #[trigger] run_glyph_inks(chars, start, i, x, y, style, px, py);
        assert(start <= i < end + 1 && run_glyph_inks(chars, start, i, x, y, style, px, py));
    }
    if run_glyph_inks(chars, start, end, x, y, style, px, py) {
        assert(start <= end < end + 1 && run_glyph_inks(chars, start, end, x, y, style, px, py));
    }
}

/// A run whose first glyph would sit past the largest machine address inks no
/// point of the screen, so clamping its position there changes nothing.
proof fn lemma_run_inks_clamped(
    chars: Seq<char>,
    start: int,
    end: int,
    x: int,
    y: int,
    clamped_x: int,
    clamped_y: int,
    style: TextStyle,
    px: int,
    py: int,
)
    requires
        on_screen(px, py),
        x >= 0,
        y >= 0,
        clamped_x == spec_min(x, usize::MAX as int),
        clamped_y == spec_min(y, usize::MAX as int),
    ensures
        run_inks(chars, start, end, clamped_x, clamped_y, style, px, py) == run_inks(chars, start, end, x, y, style, px, py),
{
    if x > usize::MAX || y > usize::MAX {
        assert forall|i: int| start <= i < end implies !#[trigger] run_glyph_inks(chars, start, i, x, y, style, px, py)
            && !run_glyph_inks(chars, start, i, clamped_x, clamped_y, style, px, py) by {
            assert((i - start) * (style.glyph_width + style.glyph_gap) >= 0) by (nonlinear_arith)
                requires
                    i >= start,
                    style.glyph_width + style.glyph_gap >= 0,
            ;
        }
    }
}

/// After drawing `text` in a block at `(x, y)` on a screen: nothing outside the
/// block changed, and each point of the block shows the foreground where one of
/// the glyphs (set in by the style's padding) inks it and the background elsewhere.
pub open spec fn screen_block_drawn(
    before: Seq<Color>,
    after: Seq<Color>,
    text: Seq<char>,
    x: int,
    y: int,
    width: int,
    height: int,
    style: TextStyle,
) -> bool {
    &&& after.len() == before.len()
    &&& forall|px: int, py: int|
        on_screen(px, py) ==> #[trigger] pixel_at(after, px, py) == if in_rect(px, py, x, y, width, height) {
            if run_inks(text, 0, text.len() as int, x + style.padding_x, y + style.padding_y, style, px, py) {
                style.foreground
            } else {
                style.background
            }
        } else {
            pixel_at(before, px, py)
        }
}

/// Draws one glyph at `(x, y)` scaled to `width` by `height`, inking only
/// points inside the clip rectangle.
fn draw_glyph_on_screen(
    buffer: &mut ScreenBuffer,
    x: usize,
    y: usize,
    character: char,
    width: usize,
    height: usize,
    color: Color,
    clip: (usize, usize, usize, usize),
)
    requires
        old(buffer).wf(),
    ensures
        final(buffer).wf(),
        forall|px: int, py: int|
            on_screen(px, py) ==> #[trigger] pixel_at(final(buffer)@, px, py) == if in_box(px, py, clip)
                && glyph_inks(character, x as int, y as int, width as int, height as int, px, py) {
                color
            } else {
                pixel_at(old(buffer)@, px, py)
            },
{
    if width == 0 || height == 0 || x >= SCREEN_WIDTH || y >= SCREEN_HEIGHT {
        return;
    }
    let pattern = glyph_pattern(character);
    let ghost before = buffer@;
    let mut glyph_y: usize = 0;
    while glyph_y < height && y + glyph_y < SCREEN_HEIGHT
        invariant
            buffer.wf(),
            before.len() == buffer@.len(),
            pattern@ == spec_glyph_rows(character),
            x < SCREEN_WIDTH,
            y < SCREEN_HEIGHT,
            width > 0,
            height > 0,
            glyph_y <= SCREEN_HEIGHT,
            forall|px: int, py: int|
                on_screen(px, py) ==> #[trigger] pixel_at(buffer@, px, py) == if in_box(px, py, clip)
                    && glyph_inks(character, x as int, y as int, width as int, height as int, px, py) && py < y
                    + glyph_y {
                    color
                } else {
                    pixel_at(before, px, py)
                },
        decreases SCREEN_HEIGHT - glyph_y,
    {
        assert(((glyph_y * PLACEHOLDER_GLYPH_HEIGHT) as int / (height as int)) < (PLACEHOLDER_GLYPH_HEIGHT as int)) by (nonlinear_arith)
            requires
                glyph_y < height,
        ;
        let source_y = glyph_y * PLACEHOLDER_GLYPH_HEIGHT / height;
        let row = pattern[source_y];
        let mut glyph_x: usize = 0;
        while glyph_x < width && x + glyph_x < SCREEN_WIDTH
            invariant
                buffer.wf(),
                before.len() == buffer@.len(),
                pattern@ == spec_glyph_rows(character),
                row == spec_glyph_rows(character)[glyph_y * PLACEHOLDER_GLYPH_HEIGHT / height as int],
                x < SCREEN_WIDTH,
                y + glyph_y < SCREEN_HEIGHT,
                glyph_y < height,
                width > 0,
                height > 0,
                glyph_x <= SCREEN_WIDTH,
                forall|px: int, py: int|
                    on_screen(px, py) ==> #[trigger] pixel_at(buffer@, px, py) == if in_box(px, py, clip)
                        && glyph_inks(character, x as int, y as int, width as int, height as int, px, py) && (py
                        < y + glyph_y || (py == y + glyph_y && px < x + glyph_x)) {
                        color
                    } else {
                        pixel_at(before, px, py)
                    },
            decreases SCREEN_WIDTH - glyph_x,
        {
            assert(((glyph_x * PLACEHOLDER_GLYPH_WIDTH) as int / (width as int)) < (PLACEHOLDER_GLYPH_WIDTH as int)) by (nonlinear_arith)
                requires
                    glyph_x < width,
            ;
            let source_x = glyph_x * PLACEHOLDER_GLYPH_WIDTH / width;
            let target_x = x + glyph_x;
            let target_y = y + glyph_y;
            let inside = clip.0 <= target_x && target_x - clip.0 < clip.2 && clip.1 <= target_y
                && target_y - clip.1 < clip.3;
            let inked = glyph_bit(row, source_x);
            assert(inked == glyph_inks(
                character,
                x as int,
                y as int,
                width as int,
                height as int,
                target_x as int,
                target_y as int,
            ));
            let ghost prev = buffer@;
            if inside && inked {
                buffer.set_pixel(target_x, target_y, color);
            }
            assert forall|px: int, py: int| on_screen(px, py) implies #[trigger] pixel_at(buffer@, px, py) == if in_box(
                px,
                py,
                clip,
            ) && glyph_inks(character, x as int, y as int, width as int, height as int, px, py) && (py < y
                + glyph_y || (py == y + glyph_y && px < x + glyph_x + 1)) {
                color
            } else {
                pixel_at(before, px, py)
            } by {
                if !(px == target_x && py == target_y) {
                    assert(py * SCREEN_WIDTH + px != target_y * SCREEN_WIDTH + target_x);
                    assert(pixel_at(buffer@, px, py) == pixel_at(prev, px, py));
                }
            }
            glyph_x = glyph_x + 1;
        }
        glyph_y = glyph_y + 1;
    }
}

/// Draws `chars` as glyphs from `(x, y)` in the style's foreground, without
/// background, clipped to the rectangle `clip`.
fn draw_glyph_run_on_screen(
    buffer: &mut ScreenBuffer,
    x: usize,
    y: usize,
    chars: &Vec<char>,
    style: &TextStyle,
    clip: (usize, usize, usize, usize),
)
    requires
        old(buffer).wf(),
    ensures
        final(buffer).wf(),
        forall|px: int, py: int|
            on_screen(px, py) ==> #[trigger] pixel_at(final(buffer)@, px, py) == if in_box(px, py, clip)
                && run_inks(chars@, 0, chars@.len() as int, x as int, y as int, *style, px, py) {
                style.foreground
            } else {
                pixel_at(old(buffer)@, px, py)
            },
{
    let ghost before = buffer@;
    let ghost step: int = style.glyph_width + style.glyph_gap;
    let mut cursor_x = x;
    let mut i: usize = 0;
    while i < chars.len()
        invariant
            buffer.wf(),
            before.len() == buffer@.len(),
            i <= chars@.len(),
            step == style.glyph_width + style.glyph_gap,
            cursor_x as int == spec_min(x + i * step, usize::MAX as int),
            forall|px: int, py: int|
                on_screen(px, py) ==> #[trigger] pixel_at(buffer@, px, py) == if in_box(px, py, clip)
                    && run_inks(chars@, 0, i as int, x as int, y as int, *style, px, py) {
                    style.foreground
                } else {
                    pixel_at(before, px, py)
                },
        decreases chars@.len() - i,
    {
        let character = chars[i];
        let ghost prev = buffer@;
        if !is_whitespace(character) {
            draw_glyph_on_screen(
                buffer,
                cursor_x,
                y,
                character,
                style.glyph_width,
                style.glyph_height,
                style.foreground,
                clip,
            );
        }
        assert forall|px: int, py: int| on_screen(px, py) implies #[trigger] pixel_at(buffer@, px, py) == if in_box(
            px,
            py,
            clip,
        ) && run_inks(chars@, 0, i + 1, x as int, y as int, *style, px, py) {
            style.foreground
        } else {
            pixel_at(before, px, py)
        } by {
            lemma_run_inks_extend(chars@, 0, i as int, x as int, y as int, *style, px, py);
            assert(run_glyph_inks(chars@, 0, i as int, x as int, y as int, *style, px, py) == (!spec_is_whitespace(
                character,
            ) && glyph_inks(
                character,
                cursor_x as int,
                y as int,
                style.glyph_width as int,
                style.glyph_height as int,
                px,
                py,
            ))) by {
                assert((i - 0) * (style.glyph_width + style.glyph_gap) == i * step);
            }
        }
        assert((i + 1) * step == i * step + step) by (nonlinear_arith);
        cursor_x = cursor_x.saturating_add(style.glyph_width).saturating_add(style.glyph_gap);
        i = i + 1;
    }
}

/// Draws `text` in a block with its top-left corner at `(x, y)`: the block is
/// filled with the background, then the glyphs are drawn in the foreground.
pub fn draw_text_at(buffer: &mut ScreenBuffer, x: usize, y: usize, text: &str, style: &TextStyle)
    requires
        old(buffer).wf(),
    ensures
        final(buffer).wf(),
        match spec_text_size(text@.len() as int, *style) {
            None => final(buffer)@ == old(buffer)@,
            Some((width, height)) => screen_block_drawn(
                old(buffer)@,
                final(buffer)@,
                text@,
                x as int,
                y as int,
                width as int,
                height as int,
                *style,
            ),
        },
{
    let size = text_size(text, style);
    match size {
        None => {},
        Some((block_width, block_height)) => {
            let ghost before = buffer@;
            buffer.fill_rect(x, y, block_width, block_height, style.background);
            let chars = chars_of(text);
            let cursor_x = x.saturating_add(style.padding_x);
            let glyph_y = y.saturating_add(style.padding_y);
            draw_glyph_run_on_screen(
                buffer,
                cursor_x,
                glyph_y,
                &chars,
                style,
                (x, y, block_width, block_height),
            );
            assert forall|px: int, py: int| on_screen(px, py) implies run_inks(
                chars@,
                0,
                chars@.len() as int,
                cursor_x as int,
                glyph_y as int,
                *style,
                px,
                py,
            ) == run_inks(text@, 0, text@.len() as int, x + style.padding_x, y + style.padding_y, *style, px, py) by {
                lemma_run_inks_clamped(
                    text@,
                    0,
                    text@.len() as int,
                    x + style.padding_x,
                    y + style.padding_y,
                    cursor_x as int,
                    glyph_y as int,
                    *style,
                    px,
                    py,
                );
            }
        },
    }
}

/// Draws `text` in a corner slot.
pub fn draw_text(buffer: &mut ScreenBuffer, slot: OverlaySlot, text: &str, style: &TextStyle)
    requires
        old(buffer).wf(),
    ensures
        final(buffer).wf(),
        match spec_text_size(text@.len() as int, *style) {
            None => final(buffer)@ == old(buffer)@,
            Some((width, height)) => {
                let origin = spec_slot_origin(
                    slot,
                    width as int,
                    height as int,
                    style.margin_x as int,
                    style.margin_y as int,
                );
                screen_block_drawn(
                    old(buffer)@,
                    final(buffer)@,
                    text@,
                    origin.0 as int,
                    origin.1 as int,
                    width as int,
                    height as int,
                    *style,
                )
            },
        },
{
    match text_size(text, style) {
        None => {},
        Some((block_width, block_height)) => {
            let (x, y) = overlay_origin(slot, block_width, block_height, style);
            draw_text_at(buffer, x, y, text, style);
        },
    }
}

/// Draws `text` in a corner slot.
pub fn draw_placeholder_text(buffer: &mut ScreenBuffer, slot: OverlaySlot, text: &str, style: &TextStyle)
    requires
        old(buffer).wf(),
    ensures
        final(buffer).wf(),
        match spec_text_size(text@.len() as int, *style) {
            None => final(buffer)@ == old(buffer)@,
            Some((width, height)) => {
                let origin = spec_slot_origin(
                    slot,
                    width as int,
                    height as int,
                    style.margin_x as int,
                    style.margin_y as int,
                );
                screen_block_drawn(
                    old(buffer)@,
                    final(buffer)@,
                    text@,
                    origin.0 as int,
                    origin.1 as int,
                    width as int,
                    height as int,
                    *style,
                )
            },
        },
{
    draw_text(buffer, slot, text, style)
}


/// The inside of the rectangle `rect`, given as `(x, y, width, height)`.
pub open spec fn in_box(px: int, py: int, rect: (usize, usize, usize, usize)) -> bool {
    in_rect(px, py, rect.0 as int, rect.1 as int, rect.2 as int, rect.3 as int)
}

/// The ink code of `(px, py)` after `text` is drawn in the block `block`, where
/// it was `prev` before: inside the block the foreground where one of the glyphs
/// (set in by the style's padding) inks the point and the background elsewhere;
/// outside the block, unchanged.
pub open spec fn block_text_code(
    prev: int,
    text: Seq<char>,
    block: (usize, usize, usize, usize),
    style: TextStyle,
    px: int,
    py: int,
) -> int {
    if in_box(px, py, block) {
        if run_inks(text, 0, text.len() as int, block.0 + style.padding_x, block.1 + style.padding_y, style, px, py) {
            spec_epd_color_code(style.foreground) as int
        } else {
            spec_epd_color_code(style.background) as int
        }
    } else {
        prev
    }
}

/// After drawing `text` in the block `block` of a packed frame.
pub open spec fn frame_block_drawn(
    before: Seq<u8>,
    after: Seq<u8>,
    text: Seq<char>,
    block: (usize, usize, usize, usize),
    style: TextStyle,
) -> bool {
    &&& after.len() == before.len()
    &&& forall|px: int, py: int|
        on_screen(px, py) ==> #[trigger] logical_code(after, px, py) == block_text_code(
            logical_code(before, px, py),
            text,
            block,
            style,
            px,
            py,
        )
}

/// Paints the points that lie both in `rect` and in `clip`.
fn fill_frame_rect_clipped(
    frame: &mut [u8],
    rect: (usize, usize, usize, usize),
    clip: (usize, usize, usize, usize),
    color: Color,
)
    requires
        old(frame)@.len() == EPD_FRAME_BYTES,
    ensures
        final(frame)@.len() == EPD_FRAME_BYTES,
        forall|px: int, py: int|
            on_screen(px, py) ==> #[trigger] logical_code(final(frame)@, px, py) == if in_box(px, py, rect)
                && in_box(px, py, clip) {
                spec_epd_color_code(color) as int
            } else {
                logical_code(old(frame)@, px, py)
            },
{
    let (x, y, width, height) = rect;
    if width == 0 || height == 0 || x >= SCREEN_WIDTH || y >= SCREEN_HEIGHT {
        return;
    }
    let end_x: usize = if width > SCREEN_WIDTH - x { SCREEN_WIDTH } else { x + width };
    let end_y: usize = if height > SCREEN_HEIGHT - y { SCREEN_HEIGHT } else { y + height };
    let ghost before = frame@;
    let mut row: usize = y;
    while row < end_y
        invariant
            frame@.len() == EPD_FRAME_BYTES,
            before.len() == EPD_FRAME_BYTES,
            rect == (x, y, width, height),
            y <= row <= end_y <= SCREEN_HEIGHT,
            x < end_x <= SCREEN_WIDTH,
            end_x == (if width > SCREEN_WIDTH - x { SCREEN_WIDTH as int } else { x + width }),
            end_y == (if height > SCREEN_HEIGHT - y { SCREEN_HEIGHT as int } else { y + height }),
            forall|px: int, py: int|
                on_screen(px, py) ==> #[trigger] logical_code(frame@, px, py) == if x <= px < end_x
                    && y <= py < row && in_box(px, py, clip) {
                    spec_epd_color_code(color) as int
                } else {
                    logical_code(before, px, py)
                },
        decreases end_y - row,
    {
        let mut column: usize = x;
        while column < end_x
            invariant
                frame@.len() == EPD_FRAME_BYTES,
                before.len() == EPD_FRAME_BYTES,
                y <= row < end_y <= SCREEN_HEIGHT,
                x <= column <= end_x <= SCREEN_WIDTH,
                forall|px: int, py: int|
                    on_screen(px, py) ==> #[trigger] logical_code(frame@, px, py) == if ((x <= px
                        < end_x && y <= py < row) || (x <= px < column && py == row)) && in_box(
                        px,
                        py,
                        clip,
                    ) {
                        spec_epd_color_code(color) as int
                    } else {
                        logical_code(before, px, py)
                    },
            decreases end_x - column,
        {
            let inside = clip.0 <= column && column - clip.0 < clip.2 && clip.1 <= row && row - clip.1
                < clip.3;
            if inside {
                let ghost prev = frame@;
                set_logical_packed_frame_pixel(frame, column, row, color);
                proof {
                    lemma_logical_pixel_update(prev, column as int, row as int, color);
                }
            }
            column = column + 1;
        }
        row = row + 1;
    }
}

/// Paints the on-screen part of a logical rectangle of a packed frame; a frame
/// of the wrong size is left as it was.
pub fn fill_packed_frame_rect(frame: &mut [u8], x: usize, y: usize, width: usize, height: usize, color: Color)
    ensures
        old(frame)@.len() != EPD_FRAME_BYTES ==> final(frame)@ == old(frame)@,
        old(frame)@.len() == EPD_FRAME_BYTES ==> {
            &&& final(frame)@.len() == EPD_FRAME_BYTES
            &&& forall|px: int, py: int|
                on_screen(px, py) ==> #[trigger] logical_code(final(frame)@, px, py) == if in_rect(
                    px,
                    py,
                    x as int,
                    y as int,
                    width as int,
                    height as int,
                ) {
                    spec_epd_color_code(color) as int
                } else {
                    logical_code(old(frame)@, px, py)
                }
        },
{
    if frame.len() != EPD_FRAME_BYTES {
        return;
    }
    fill_frame_rect_clipped(frame, (x, y, width, height), (0, 0, SCREEN_WIDTH, SCREEN_HEIGHT), color);
}

/// Draws one glyph into a packed frame, inking only points inside `clip`.
fn draw_glyph_in_frame(
    frame: &mut [u8],
    x: usize,
    y: usize,
    character: char,
    width: usize,
    height: usize,
    color: Color,
    clip: (usize, usize, usize, usize),
)
    requires
        old(frame)@.len() == EPD_FRAME_BYTES,
    ensures
        final(frame)@.len() == EPD_FRAME_BYTES,
        forall|px: int, py: int|
            on_screen(px, py) ==> #[trigger] logical_code(final(frame)@, px, py) == if in_box(px, py, clip)
                && glyph_inks(character, x as int, y as int, width as int, height as int, px, py) {
                spec_epd_color_code(color) as int
            } else {
                logical_code(old(frame)@, px, py)
            },
{
    if width == 0 || height == 0 || x >= SCREEN_WIDTH || y >= SCREEN_HEIGHT {
        return;
    }
    let pattern = glyph_pattern(character);
    let ghost before = frame@;
    let mut glyph_y: usize = 0;
    while glyph_y < height && y + glyph_y < SCREEN_HEIGHT
        invariant
            frame@.len() == EPD_FRAME_BYTES,
            before.len() == EPD_FRAME_BYTES,
            pattern@ == spec_glyph_rows(character),
            x < SCREEN_WIDTH,
            y < SCREEN_HEIGHT,
            width > 0,
            height > 0,
            glyph_y <= SCREEN_HEIGHT,
            forall|px: int, py: int|
                on_screen(px, py) ==> #[trigger] logical_code(frame@, px, py) == if in_box(px, py, clip)
                    && glyph_inks(character, x as int, y as int, width as int, height as int, px, py) && py < y
                    + glyph_y {
                    spec_epd_color_code(color) as int
                } else {
                    logical_code(before, px, py)
                },
        decreases SCREEN_HEIGHT - glyph_y,
    {
        assert(((glyph_y * PLACEHOLDER_GLYPH_HEIGHT) as int / (height as int)) < (PLACEHOLDER_GLYPH_HEIGHT as int)) by (nonlinear_arith)
            requires
                glyph_y < height,
        ;
        let source_y = glyph_y * PLACEHOLDER_GLYPH_HEIGHT / height;
        let row = pattern[source_y];
        let mut glyph_x: usize = 0;
        while glyph_x < width && x + glyph_x < SCREEN_WIDTH
            invariant
                frame@.len() == EPD_FRAME_BYTES,
                before.len() == EPD_FRAME_BYTES,
                pattern@ == spec_glyph_rows(character),
                row == spec_glyph_rows(character)[glyph_y * PLACEHOLDER_GLYPH_HEIGHT / height as int],
                x < SCREEN_WIDTH,
                y + glyph_y < SCREEN_HEIGHT,
                glyph_y < height,
                width > 0,
                height > 0,
                glyph_x <= SCREEN_WIDTH,
                forall|px: int, py: int|
                    on_screen(px, py) ==> #[trigger] logical_code(frame@, px, py) == if in_box(px, py, clip)
                        && glyph_inks(character, x as int, y as int, width as int, height as int, px, py) && (py
                        < y + glyph_y || (py == y + glyph_y && px < x + glyph_x)) {
                        spec_epd_color_code(color) as int
                    } else {
                        logical_code(before, px, py)
                    },
            decreases SCREEN_WIDTH - glyph_x,
        {
            assert(((glyph_x * PLACEHOLDER_GLYPH_WIDTH) as int / (width as int)) < (PLACEHOLDER_GLYPH_WIDTH as int)) by (nonlinear_arith)
                requires
                    glyph_x < width,
            ;
            let source_x = glyph_x * PLACEHOLDER_GLYPH_WIDTH / width;
            let target_x = x + glyph_x;
            let target_y = y + glyph_y;
            let inside = clip.0 <= target_x && target_x - clip.0 < clip.2 && clip.1 <= target_y
                && target_y - clip.1 < clip.3;
            let inked = glyph_bit(row, source_x);
            assert(inked == glyph_inks(
                character,
                x as int,
                y as int,
                width as int,
                height as int,
                target_x as int,
                target_y as int,
            ));
            let ghost prev = frame@;
            if inside && inked {
                set_logical_packed_frame_pixel(frame, target_x, target_y, color);
                proof {
                    lemma_logical_pixel_update(prev, target_x as int, target_y as int, color);
                }
            }
            glyph_x = glyph_x + 1;
        }
        glyph_y = glyph_y + 1;
    }
}

/// Draws `chars[start..end]` as glyphs from `(x, y)` in the style's foreground,
/// without background, clipped to `clip`.
fn draw_glyph_run_in_frame(
    frame: &mut [u8],
    x: usize,
    y: usize,
    chars: &Vec<char>,
    start: usize,
    end: usize,
    style: &TextStyle,
    clip: (usize, usize, usize, usize),
)
    requires
        old(frame)@.len() == EPD_FRAME_BYTES,
        start <= end <= chars@.len(),
    ensures
        final(frame)@.len() == EPD_FRAME_BYTES,
        forall|px: int, py: int|
            on_screen(px, py) ==> #[trigger] logical_code(final(frame)@, px, py) == if in_box(px, py, clip)
                && run_inks(chars@, start as int, end as int, x as int, y as int, *style, px, py) {
                spec_epd_color_code(style.foreground) as int
            } else {
                logical_code(old(frame)@, px, py)
            },
{
    let ghost before = frame@;
    let ghost step: int = style.glyph_width + style.glyph_gap;
    let mut cursor_x = x;
    let mut i: usize = start;
    while i < end
        invariant
            frame@.len() == EPD_FRAME_BYTES,
            before.len() == EPD_FRAME_BYTES,
            start <= i <= end <= chars@.len(),
            step == style.glyph_width + style.glyph_gap,
            cursor_x as int == spec_min(x + (i - start) * step, usize::MAX as int),
            forall|px: int, py: int|
                on_screen(px, py) ==> #[trigger] logical_code(frame@, px, py) == if in_box(px, py, clip)
                    && run_inks(chars@, start as int, i as int, x as int, y as int, *style, px, py) {
                    spec_epd_color_code(style.foreground) as int
                } else {
                    logical_code(before, px, py)
                },
        decreases end - i,
    {
        let character = chars[i];
        if !is_whitespace(character) {
            draw_glyph_in_frame(
                frame,
                cursor_x,
                y,
                character,
                style.glyph_width,
                style.glyph_height,
                style.foreground,
                clip,
            );
        }
        assert forall|px: int, py: int| on_screen(px, py) implies #[trigger] logical_code(frame@, px, py) == if in_box(
            px,
            py,
            clip,
        ) && run_inks(chars@, start as int, i + 1, x as int, y as int, *style, px, py) {
            spec_epd_color_code(style.foreground) as int
        } else {
            logical_code(before, px, py)
        } by {
            lemma_run_inks_extend(chars@, start as int, i as int, x as int, y as int, *style, px, py);
            assert(run_glyph_inks(chars@, start as int, i as int, x as int, y as int, *style, px, py) == (
            !spec_is_whitespace(character) && glyph_inks(
                character,
                cursor_x as int,
                y as int,
                style.glyph_width as int,
                style.glyph_height as int,
                px,
                py,
            )));
        }
        assert((i + 1 - start) * step == (i - start) * step + step) by (nonlinear_arith);
        cursor_x = cursor_x.saturating_add(style.glyph_width).saturating_add(style.glyph_gap);
        i = i + 1;
    }
}

/// Draws `text` into a packed frame in a block with its top-left corner at `(x, y)`.
pub fn draw_packed_text_at(frame: &mut [u8], x: usize, y: usize, text: &str, style: &TextStyle)
    requires
        old(frame)@.len() == EPD_FRAME_BYTES,
    ensures
        match spec_text_size(text@.len() as int, *style) {
            None => final(frame)@ == old(frame)@,
            Some((width, height)) => frame_block_drawn(old(frame)@, final(frame)@, text@, (x, y, width, height), *style),
        },
{
    match text_size(text, style) {
        None => {},
        Some((block_width, block_height)) => {
            let block = (x, y, block_width, block_height);
            fill_frame_rect_clipped(frame, block, block, style.background);
            let chars = chars_of(text);
            let cursor_x = x.saturating_add(style.padding_x);
            let glyph_y = y.saturating_add(style.padding_y);
            draw_glyph_run_in_frame(frame, cursor_x, glyph_y, &chars, 0, chars.len(), style, block);
            assert forall|px: int, py: int| on_screen(px, py) implies run_inks(
                chars@,
                0,
                chars@.len() as int,
                cursor_x as int,
                glyph_y as int,
                *style,
                px,
                py,
            ) == run_inks(text@, 0, text@.len() as int, x + style.padding_x, y + style.padding_y, *style, px, py) by {
                lemma_run_inks_clamped(
                    text@,
                    0,
                    text@.len() as int,
                    x + style.padding_x,
                    y + style.padding_y,
                    cursor_x as int,
                    glyph_y as int,
                    *style,
                    px,
                    py,
                );
            }
        },
    }
}

/// The block where a line of text is centred across the screen and centred
/// vertically in the band from `area_y` of `area_height` rows.
pub open spec fn centered_block(width: usize, height: usize, area_y: usize, area_height: usize) -> (
    usize,
    usize,
    usize,
    usize,
) {
    let x = sat_sub(SCREEN_WIDTH as int, width as int) / 2;
    let y = spec_min(area_y + sat_sub(area_height as int, height as int) / 2, usize::MAX as int);
    (x as usize, y as usize, width, height)
}

/// The ink code of `(px, py)` after `text` is drawn centred across the screen
/// and in the band of rows from `area_y` of `area_height`, where it was `prev`.
pub open spec fn centered_text_code(
    prev: int,
    text: Seq<char>,
    area_y: usize,
    area_height: usize,
    style: TextStyle,
    px: int,
    py: int,
) -> int {
    match spec_text_size(text.len() as int, style) {
        None => prev,
        Some((width, height)) => block_text_code(
            prev,
            text,
            centered_block(width, height, area_y, area_height),
            style,
            px,
            py,
        ),
    }
}

/// Draws one line of text centred across the screen and centred in a band of rows.
pub fn draw_centered_text_in_area(frame: &mut [u8], area_y: usize, area_height: usize, text: &str, style: &TextStyle)
    requires
        old(frame)@.len() == EPD_FRAME_BYTES,
    ensures
        match spec_text_size(text@.len() as int, *style) {
            None => final(frame)@ == old(frame)@,
            Some((width, height)) => frame_block_drawn(
                old(frame)@,
                final(frame)@,
                text@,
                centered_block(width, height, area_y, area_height),
                *style,
            ),
        },
        final(frame)@.len() == old(frame)@.len(),
        forall|px: int, py: int|
            on_screen(px, py) ==> #[trigger] logical_code(final(frame)@, px, py) == centered_text_code(
                logical_code(old(frame)@, px, py),
                text@,
                area_y,
                area_height,
                *style,
                px,
                py,
            ),
{
    match text_size(text, style) {
        None => {},
        Some((block_width, block_height)) => {
            let x = SCREEN_WIDTH.saturating_sub(block_width) / 2;
            let y = area_y.saturating_add(area_height.saturating_sub(block_height) / 2);
            draw_packed_text_at(frame, x, y, text, style);
        },
    }
}

fn saturating_mul(a: usize, b: usize) -> (product: usize)
    ensures
        product == spec_min(a * b, usize::MAX as int),
{
    match a.checked_mul(b) {
        Some(product) => product,
        None => usize::MAX,
    }
}

/// How many glyphs fit on one line of a wrapped block `area_width` wide.
pub open spec fn spec_chars_per_line(area_width: int, style: TextStyle) -> int {
    let step = style.glyph_width + style.glyph_gap;
    let fit = spec_min(sat_sub(area_width, 2 * style.padding_x) + style.glyph_gap, usize::MAX as int) / step;
    if fit < 1 {
        1
    } else {
        fit
    }
}

fn chars_per_line(area_width: usize, style: &TextStyle) -> (count: usize)
    requires
        style.glyph_width > 0,
        style.glyph_width + style.glyph_gap <= usize::MAX,
    ensures
        count == spec_chars_per_line(area_width as int, *style),
        count >= 1,
{
    let step = style.glyph_width + style.glyph_gap;
    let doubled = saturating_mul(style.padding_x, 2);
    let inner = area_width.saturating_sub(doubled);
    let room = inner.saturating_add(style.glyph_gap);
    let fit = room / step;
    if fit < 1 {
        1
    } else {
        fit
    }
}

/// Whether wrapped text is drawn at all: it has glyphs, its glyphs have an
/// area, and one glyph with its gap stays below the largest machine number.
pub open spec fn wrap_drawable(count: int, style: TextStyle) -> bool {
    count > 0 && style.glyph_width > 0 && style.glyph_height > 0 && style.glyph_width + style.glyph_gap
        < usize::MAX
}

/// The distance from one line of wrapped text to the next.
pub open spec fn wrap_pitch(style: TextStyle) -> int {
    spec_min(style.glyph_height + style.glyph_height / 2, usize::MAX as int)
}

/// How many lines of wrapped text are drawn: as many as the text needs, but no
/// more than fit down the area (and at least one).
pub open spec fn wrap_lines(count: int, area_height: int, per_line: int, style: TextStyle) -> int {
    let line_gap = style.glyph_height / 2;
    let needed = if count % per_line == 0 {
        count / per_line
    } else {
        count / per_line + 1
    };
    let inner = sat_sub(area_height, spec_min(2 * style.padding_y, usize::MAX as int));
    let fit = spec_min(inner + line_gap, usize::MAX as int) / wrap_pitch(style);
    let max_lines = if fit < 1 {
        1
    } else {
        fit
    };
    spec_min(needed, max_lines)
}

/// The block that wrapped text is drawn in, centred in the area:
/// `(x, y, width, height)`.
pub open spec fn wrap_block(count: int, area: (usize, usize, usize, usize), style: TextStyle) -> (
    usize,
    usize,
    usize,
    usize,
) {
    let step = style.glyph_width + style.glyph_gap;
    let per_line = spec_chars_per_line(area.2 as int, style);
    let lines = wrap_lines(count, area.3 as int, per_line, style);
    let longest = spec_min(count, per_line);
    let width = spec_min(
        sat_sub(spec_min(longest * step, usize::MAX as int), style.glyph_gap as int) + spec_min(
            2 * style.padding_x,
            usize::MAX as int,
        ),
        usize::MAX as int,
    );
    let height = spec_min(
        sat_sub(spec_min(lines * wrap_pitch(style), usize::MAX as int), (style.glyph_height / 2) as int) + spec_min(
            2 * style.padding_y,
            usize::MAX as int,
        ),
        usize::MAX as int,
    );
    let x = spec_min(area.0 + sat_sub(area.2 as int, width) / 2, usize::MAX as int);
    let y = spec_min(area.1 + sat_sub(area.3 as int, height) / 2, usize::MAX as int);
    (x as usize, y as usize, width as usize, height as usize)
}

/// Whether line `line` of wrapped text inks `(px, py)`: the line holds the next
/// `per_line` glyphs (the last line the rest), is centred across the area, and
/// sits one pitch below the line before it, inside the block's padding.
pub open spec fn wrap_line_inks(
    chars: Seq<char>,
    area: (usize, usize, usize, usize),
    style: TextStyle,
    line: int,
    px: int,
    py: int,
) -> bool {
    let count = chars.len() as int;
    let step = style.glyph_width + style.glyph_gap;
    let per_line = spec_chars_per_line(area.2 as int, style);
    let block = wrap_block(count, area, style);
    let start = line * per_line;
    let end = if count - start < per_line {
        count
    } else {
        start + per_line
    };
    let line_width = sat_sub(spec_min((end - start) * step, usize::MAX as int), style.glyph_gap as int);
    let line_x = spec_min(area.0 + sat_sub(area.2 as int, line_width) / 2, usize::MAX as int);
    let line_y = spec_min(
        spec_min(block.1 + style.padding_y, usize::MAX as int) + spec_min(line * wrap_pitch(style), usize::MAX as int),
        usize::MAX as int,
    );
    run_inks(chars, start, end, line_x, line_y, style, px, py)
}

/// Whether one of the first `upto` lines of wrapped text inks `(px, py)`.
pub open spec fn wrapped_inks(
    chars: Seq<char>,
    area: (usize, usize, usize, usize),
    style: TextStyle,
    upto: int,
    px: int,
    py: int,
) -> bool {
    exists|line: int|
        0 <= line < upto && line * spec_chars_per_line(area.2 as int, style) < chars.len() && #[trigger] wrap_line_inks(
            chars,
            area,
            style,
            line,
            px,
            py,
        )
}

/// The ink code of `(px, py)` after `text` is drawn wrapped in `area`, where it
/// was `prev`: inside the area, the foreground where a glyph of one of the lines
/// inks the point and the background elsewhere in the block; otherwise unchanged.
pub open spec fn wrapped_text_code(
    prev: int,
    text: Seq<char>,
    area: (usize, usize, usize, usize),
    style: TextStyle,
    px: int,
    py: int,
) -> int {
    let count = text.len() as int;
    let lines = wrap_lines(count, area.3 as int, spec_chars_per_line(area.2 as int, style), style);
    if wrap_drawable(count, style) && in_box(px, py, area) && wrapped_inks(text, area, style, lines, px, py) {
        spec_epd_color_code(style.foreground) as int
    } else if wrap_drawable(count, style) && in_box(px, py, area) && in_box(px, py, wrap_block(count, area, style)) {
        spec_epd_color_code(style.background) as int
    } else {
        prev
    }
}

/// After drawing `text` wrapped in `area` of a packed frame.
pub open spec fn frame_wrapped_drawn(
    before: Seq<u8>,
    after: Seq<u8>,
    text: Seq<char>,
    area: (usize, usize, usize, usize),
    style: TextStyle,
) -> bool {
    &&& after.len() == before.len()
    &&& forall|px: int, py: int|
        on_screen(px, py) ==> #[trigger] logical_code(after, px, py) == wrapped_text_code(
            logical_code(before, px, py),
            text,
            area,
            style,
            px,
            py,
        )
}

proof fn lemma_wrapped_inks_extend(
    chars: Seq<char>,
    area: (usize, usize, usize, usize),
    style: TextStyle,
    line: int,
    px: int,
    py: int,
)
    requires
        line >= 0,
    ensures
        wrapped_inks(chars, area, style, line + 1, px, py) == (wrapped_inks(chars, area, style, line, px, py) || (line
            * spec_chars_per_line(area.2 as int, style) < chars.len() && wrap_line_inks(chars, area, style, line, px, py))),
{
    let per_line = spec_chars_per_line(area.2 as int, style);
    if wrapped_inks(chars, area, style, line + 1, px, py) {
        let l = choose|l: int|
            0 <= l < line + 1 && l * per_line < chars.len() && #[trigger] wrap_line_inks(chars, area, style, l, px, py);
        if l < line {
            assert(0 <= l < line && l * per_line < chars.len() && wrap_line_inks(chars, area, style, l, px, py));
        }
    }
    if wrapped_inks(chars, area, style, line, px, py) {
        let l = choose|l: int|
            0 <= l < line && l * per_line < chars.len() && #[trigger] wrap_line_inks(chars, area, style, l, px, py);
        assert(0 <= l < line + 1 && l * per_line < chars.len() && wrap_line_inks(chars, area, style, l, px, py));
    }
    if line * per_line < chars.len() && wrap_line_inks(chars, area, style, line, px, py) {
        assert(0 <= line < line + 1 && line * per_line < chars.len() && wrap_line_inks(chars, area, style, line, px, py));
    }
}

/// Lines that start past the end of the text ink nothing, so stopping at the
/// first of them draws all there is.
proof fn lemma_wrapped_inks_stop(
    chars: Seq<char>,
    area: (usize, usize, usize, usize),
    style: TextStyle,
    line: int,
    lines: int,
    px: int,
    py: int,
)
    requires
        0 <= line <= lines,
        spec_chars_per_line(area.2 as int, style) >= 1,
        line * spec_chars_per_line(area.2 as int, style) >= chars.len(),
    ensures
        wrapped_inks(chars, area, style, lines, px, py) == wrapped_inks(chars, area, style, line, px, py),
{
    let per_line = spec_chars_per_line(area.2 as int, style);
    if wrapped_inks(chars, area, style, lines, px, py) {
        let l = choose|l: int|
            0 <= l < lines && l * per_line < chars.len() && #[trigger] wrap_line_inks(chars, area, style, l, px, py);
        if l >= line {
            assert(l * per_line >= line * per_line) by (nonlinear_arith)
                requires
                    l >= line,
                    per_line >= 1,
            ;
        }
        assert(0 <= l < line && l * per_line < chars.len() && wrap_line_inks(chars, area, style, l, px, py));
    }
    if wrapped_inks(chars, area, style, line, px, py) {
        let l = choose|l: int|
            0 <= l < line && l * per_line < chars.len() && #[trigger] wrap_line_inks(chars, area, style, l, px, py);
        assert(0 <= l < lines && l * per_line < chars.len() && wrap_line_inks(chars, area, style, l, px, py));
    }
}

/// Draws `text` centred in the area `(area_x, area_y, area_width, area_height)`,
/// broken into lines of as many glyphs as fit across it and keeping as many
/// lines as fit down it; nothing is drawn outside the area.
#[verifier::rlimit(60)]
pub fn draw_centered_wrapped_text_in_area(
    frame: &mut [u8],
    area_x: usize,
    area_y: usize,
    area_width: usize,
    area_height: usize,
    text: &str,
    style: &TextStyle,
)
    requires
        old(frame)@.len() == EPD_FRAME_BYTES,
    ensures
        frame_wrapped_drawn(old(frame)@, final(frame)@, text@, (area_x, area_y, area_width, area_height), *style),
{
    let area = (area_x, area_y, area_width, area_height);
    let chars = chars_of(text);
    let count = chars.len();
    if count == 0 || style.glyph_width == 0 || style.glyph_height == 0 {
        return;
    }
    let step = style.glyph_width.saturating_add(style.glyph_gap);
    if step == usize::MAX {
        return;
    }
    let per_line = chars_per_line(area_width, style);
    let line_gap = style.glyph_height / 2;
    let pitch = style.glyph_height.saturating_add(line_gap);
    let needed_lines = if count % per_line == 0 {
        count / per_line
    } else {
        assert(count / per_line < usize::MAX) by (nonlinear_arith)
            requires
                count % per_line != 0,
                per_line >= 1,
                count <= usize::MAX,
        {
            assert(per_line >= 2);
        }
        count / per_line + 1
    };
    let inner_height = area_height.saturating_sub(saturating_mul(style.padding_y, 2));
    let fit_lines = inner_height.saturating_add(line_gap) / pitch;
    let max_lines = if fit_lines < 1 { 1 } else { fit_lines };
    let lines = if needed_lines < max_lines { needed_lines } else { max_lines };
    let longest = if count < per_line { count } else { per_line };
    let block_width = saturating_mul(longest, step).saturating_sub(style.glyph_gap).saturating_add(
        saturating_mul(style.padding_x, 2),
    );
    let block_height = saturating_mul(lines, pitch).saturating_sub(line_gap).saturating_add(
        saturating_mul(style.padding_y, 2),
    );
    let block_x = area_x.saturating_add(area_width.saturating_sub(block_width) / 2);
    let block_y = area_y.saturating_add(area_height.saturating_sub(block_height) / 2);
    assert(lines == wrap_lines(count as int, area_height as int, per_line as int, *style));
    assert((block_x, block_y, block_width, block_height) == wrap_block(count as int, area, *style));
    let ghost before = frame@;
    fill_frame_rect_clipped(frame, (block_x, block_y, block_width, block_height), area, style.background);
    let mut line: usize = 0;
    while line < lines && saturating_mul(line, per_line) < count
        invariant
            frame@.len() == EPD_FRAME_BYTES,
            before.len() == EPD_FRAME_BYTES,
            count == chars@.len(),
            chars@ == text@,
            count > 0,
            style.glyph_width > 0,
            style.glyph_height > 0,
            step == style.glyph_width + style.glyph_gap,
            step < usize::MAX,
            pitch == wrap_pitch(*style),
            per_line == spec_chars_per_line(area_width as int, *style),
            per_line >= 1,
            area == (area_x, area_y, area_width, area_height),
            lines == wrap_lines(count as int, area_height as int, per_line as int, *style),
            (block_x, block_y, block_width, block_height) == wrap_block(count as int, area, *style),
            line <= lines,
            forall|px: int, py: int|
                on_screen(px, py) ==> #[trigger] logical_code(frame@, px, py) == if in_box(px, py, area)
                    && wrapped_inks(chars@, area, *style, line as int, px, py) {
                    spec_epd_color_code(style.foreground) as int
                } else if in_box(px, py, area) && in_box(px, py, (block_x, block_y, block_width, block_height)) {
                    spec_epd_color_code(style.background) as int
                } else {
                    logical_code(before, px, py)
                },
        decreases lines - line,
    {
        let start = saturating_mul(line, per_line);
        let end = if count - start < per_line { count } else { start + per_line };
        let line_width = saturating_mul(end - start, step).saturating_sub(style.glyph_gap);
        let line_x = area_x.saturating_add(area_width.saturating_sub(line_width) / 2);
        let line_y = block_y.saturating_add(style.padding_y).saturating_add(saturating_mul(line, pitch));
        draw_glyph_run_in_frame(frame, line_x, line_y, &chars, start, end, style, area);
        assert forall|px: int, py: int| on_screen(px, py) implies #[trigger] logical_code(frame@, px, py) == if in_box(
            px,
            py,
            area,
        ) && wrapped_inks(chars@, area, *style, line + 1, px, py) {
            spec_epd_color_code(style.foreground) as int
        } else if in_box(px, py, area) && in_box(px, py, (block_x, block_y, block_width, block_height)) {
            spec_epd_color_code(style.background) as int
        } else {
            logical_code(before, px, py)
        } by {
            lemma_wrapped_inks_extend(chars@, area, *style, line as int, px, py);
            assert(wrap_line_inks(chars@, area, *style, line as int, px, py) == run_inks(
                chars@,
                start as int,
                end as int,
                line_x as int,
                line_y as int,
                *style,
                px,
                py,
            ));
        }
        line = line + 1;
    }
    proof {
        assert(wrap_drawable(count as int, *style));
        assert forall|px: int, py: int| on_screen(px, py) implies #[trigger] logical_code(frame@, px, py)
            == wrapped_text_code(logical_code(before, px, py), text@, area, *style, px, py) by {
            if line < lines {
                lemma_wrapped_inks_stop(chars@, area, *style, line as int, lines as int, px, py);
            }
        }
    }
}

} // verus!
