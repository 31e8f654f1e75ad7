use crate::bmp::{
    bgr_mirrored_packed_byte, bgr_row_is_palette, fill_epd_row_from_bgr_mirrored, parse_bmp_header,
    spec_parse_bmp_header, BmpHeader,
};
use crate::device::{EpdProbe, WakeMarkerProbe};
use crate::power::WakeProbe;
use crate::text::{spec_trim, trim};
use crate::display::{in_rect, on_screen, Color};
use crate::epd::{
    frame_ops, lemma_logical_pixel_update, logical_code, packed_frame_rows, run_epd_hardware_self_test,
    run_epd_packed_frame, set_logical_packed_frame_pixel, spec_epd_color_code, stopped_early, test_pattern_rows,
    EpdBus, EpdError, EPD_FRAME_BYTES, EPD_HEIGHT, EPD_ROW_BYTES,
};
use crate::render::text::{fill_packed_frame_rect, slot_origin, spec_slot_origin, OverlaySlot, TextStyle};
use vstd::prelude::*;

verus! {

/// A one-bit picture of a line of text: `height` rows of `bytes_per_row`
/// bytes, the leftmost pixel of each byte in its high bit.
pub struct BitmapText<'a> {
    pub width: usize,
    pub height: usize,
    pub bytes_per_row: usize,
    pub bitmap: &'a [u8],
}

/// The sizes and bytes of a bitmap text.
pub struct BitmapView {
    pub width: int,
    pub height: int,
    pub bytes_per_row: int,
    pub bitmap: Seq<u8>,
}

impl<'a> View for BitmapText<'a> {
    type V = BitmapView;

    open spec fn view(&self) -> BitmapView {
        BitmapView {
            width: self.width as int,
            height: self.height as int,
            bytes_per_row: self.bytes_per_row as int,
            bitmap: self.bitmap@,
        }
    }
}

/// Every row of the picture lies in its bytes.
pub open spec fn bitmap_fits(text: BitmapView) -> bool {
    &&& text.width <= text.bytes_per_row * 8
    &&& text.height * text.bytes_per_row <= text.bitmap.len()
}

/// The bit of pixel `(x, y)` of the picture is set.
pub open spec fn bitmap_bit(text: BitmapView, x: int, y: int) -> bool {
    (text.bitmap[y * text.bytes_per_row + x / 8] & (1u8 << ((7 - x % 8) as u8))) != 0
}

/// With the picture's top-left corner at `(x, y)`, the screen point `(px, py)`
/// is one of its set pixels.
pub open spec fn bitmap_inked(text: BitmapView, x: int, y: int, px: int, py: int) -> bool {
    x <= px < x + text.width && y <= py < y + text.height && bitmap_bit(text, px - x, py - y)
}

proof fn lemma_bitmap_index(text: BitmapView, x: int, y: int)
    requires
        bitmap_fits(text),
        0 <= x < text.width,
        0 <= y < text.height,
    ensures
        0 <= y * text.bytes_per_row + x / 8 < text.bitmap.len(),
{
    let bytes_per_row = text.bytes_per_row;
    let height = text.height;
    assert(0 <= x / 8 < bytes_per_row);
    assert(0 <= y * bytes_per_row + x / 8 < height * bytes_per_row) by (nonlinear_arith)
        requires
            0 <= x / 8 < bytes_per_row,
            0 <= y < height,
    ;
}

/// Draws the set pixels of a picture in `color` with its top-left corner at
/// `(x, y)`; the unset pixels are left as they were.
pub fn draw_bitmap_text_pixels(frame: &mut [u8], x: usize, y: usize, color: Color, text: &BitmapText<'_>)
    requires
        old(frame)@.len() == EPD_FRAME_BYTES,
        bitmap_fits(text@),
    ensures
        final(frame)@.len() == EPD_FRAME_BYTES,
        forall|px: int, py: int|
            on_screen(px, py) ==> #[trigger] logical_code(final(frame)@, px, py) == if bitmap_inked(
                text@,
                x as int,
                y as int,
                px,
                py,
            ) {
                spec_epd_color_code(color) as int
            } else {
                logical_code(old(frame)@, px, py)
            },
{
    let ghost before = frame@;
    let mut pixel_y: usize = 0;
    while pixel_y < text.height
        invariant
            frame@.len() == EPD_FRAME_BYTES,
            before.len() == EPD_FRAME_BYTES,
            bitmap_fits(text@),
            pixel_y <= text.height,
            forall|px: int, py: int|
                on_screen(px, py) ==> #[trigger] logical_code(frame@, px, py) == if bitmap_inked(
                    text@,
                    x as int,
                    y as int,
                    px,
                    py,
                ) && py - y < pixel_y {
                    spec_epd_color_code(color) as int
                } else {
                    logical_code(before, px, py)
                },
        decreases text.height - pixel_y,
    {
        let mut pixel_x: usize = 0;
        while pixel_x < text.width
            invariant
                frame@.len() == EPD_FRAME_BYTES,
                before.len() == EPD_FRAME_BYTES,
                bitmap_fits(text@),
                pixel_y < text.height,
                pixel_x <= text.width,
                forall|px: int, py: int|
                    on_screen(px, py) ==> #[trigger] logical_code(frame@, px, py) == if bitmap_inked(
                        text@,
                        x as int,
                        y as int,
                        px,
                        py,
                    ) && (py - y < pixel_y || (py - y == pixel_y && px - x < pixel_x)) {
                        spec_epd_color_code(color) as int
                    } else {
                        logical_code(before, px, py)
                    },
            decreases text.width - pixel_x,
        {
            let length = text.bitmap.len();
            proof {
                lemma_bitmap_index(text@, pixel_x as int, pixel_y as int);
                assert(text@.bytes_per_row == text.bytes_per_row as int);
                assert((pixel_y as int) * (text.bytes_per_row as int) + (pixel_x as int) / 8 < text.bitmap@.len());
                assert((pixel_y as int) * (text.bytes_per_row as int) <= usize::MAX);
            }
            let byte = text.bitmap[pixel_y * text.bytes_per_row + pixel_x / 8];
            let shift: u8 = (7 - pixel_x % 8) as u8;
            let bit: u8 = 1u8 << shift;
            let ghost inked = bitmap_bit(text@, pixel_x as int, pixel_y as int);
            assert(inked == ((byte & bit) != 0));
            if byte & bit != 0 {
                let target_x = x.saturating_add(pixel_x);
                let target_y = y.saturating_add(pixel_y);
                let ghost previous = frame@;
                set_logical_packed_frame_pixel(frame, target_x, target_y, color);
                proof {
                    if on_screen(target_x as int, target_y as int) {
                        lemma_logical_pixel_update(previous, target_x as int, target_y as int, color);
                    }
                }
            }
            pixel_x = pixel_x + 1;
        }
        pixel_y = pixel_y + 1;
    }
}

/// `a + b`, held at the largest `usize`.
pub open spec fn sat_add(a: int, b: int) -> int {
    if a + b > usize::MAX {
        usize::MAX as int
    } else {
        a + b
    }
}

/// The width and height of the block a bitmap text is drawn in: the picture
/// with the style's padding on each side.
pub open spec fn bitmap_block_size(style: TextStyle, text: BitmapView) -> (int, int) {
    (
        sat_add(text.width, sat_add(style.padding_x as int, style.padding_x as int)),
        sat_add(text.height, sat_add(style.padding_y as int, style.padding_y as int)),
    )
}

/// What the screen point `(px, py)`, which showed `previous`, shows after a
/// bitmap text is drawn in the corner `slot`: the foreground on the picture's
/// set pixels, the background on the rest of its block.
pub open spec fn bitmap_block_code(
    previous: int,
    px: int,
    py: int,
    slot: OverlaySlot,
    style: TextStyle,
    text: BitmapView,
) -> int {
    let size = bitmap_block_size(style, text);
    let origin = spec_slot_origin(slot, size.0, size.1, style.margin_x as int, style.margin_y as int);
    let x = sat_add(origin.0 as int, style.padding_x as int);
    let y = sat_add(origin.1 as int, style.padding_y as int);
    if bitmap_inked(text, x, y, px, py) {
        spec_epd_color_code(style.foreground) as int
    } else if in_rect(px, py, origin.0 as int, origin.1 as int, size.0, size.1) {
        spec_epd_color_code(style.background) as int
    } else {
        previous
    }
}

/// Draws a bitmap text in a corner of a packed frame: its block in the
/// background ink, then the picture's set pixels in the foreground ink.
pub fn draw_bitmap_text(frame: &mut [u8], slot: OverlaySlot, style: &TextStyle, text: &BitmapText<'_>)
    requires
        old(frame)@.len() == EPD_FRAME_BYTES,
        bitmap_fits(text@),
    ensures
        final(frame)@.len() == EPD_FRAME_BYTES,
        forall|px: int, py: int|
            on_screen(px, py) ==> #[trigger] logical_code(final(frame)@, px, py) == bitmap_block_code(
                logical_code(old(frame)@, px, py),
                px,
                py,
                slot,
                *style,
                text@,
            ),
{
    let block_width = text.width.saturating_add(style.padding_x.saturating_add(style.padding_x));
    let block_height = text.height.saturating_add(style.padding_y.saturating_add(style.padding_y));
    let (x, y) = slot_origin(slot, block_width, block_height, style.margin_x, style.margin_y);
    let ghost before = frame@;
    fill_packed_frame_rect(frame, x, y, block_width, block_height, style.background);
    let bitmap_x = x.saturating_add(style.padding_x);
    let bitmap_y = y.saturating_add(style.padding_y);
    let ghost filled = frame@;
    draw_bitmap_text_pixels(frame, bitmap_x, bitmap_y, style.foreground, text);
    proof {
        assert forall|px: int, py: int| on_screen(px, py) implies #[trigger] logical_code(frame@, px, py)
            == bitmap_block_code(logical_code(before, px, py), px, py, slot, *style, text@) by {
            assert(logical_code(filled, px, py) == if in_rect(
                px,
                py,
                x as int,
                y as int,
                block_width as int,
                block_height as int,
            ) {
                spec_epd_color_code(style.background) as int
            } else {
                logical_code(before, px, py)
            });
        }
    }
}

/// The bytes of the self-test's title picture.
pub open spec fn spec_title_bitmap() -> Seq<u8> {
    seq![
        0x01u8, 0xC0, 0x00, 0x0E, 0x00, 0x00, 0x00, 0x00, 0x00, 0x00, 0x00, 0x00,
        0x01, 0xC0, 0x00, 0x0E, 0x00, 0x00, 0x00, 0x00, 0x00, 0x00, 0x00, 0x00,
        0x01, 0xC0, 0x00, 0x07, 0x00, 0x01, 0xFF, 0xF0, 0x00, 0x00, 0x00, 0x00,
        0x01, 0xC0, 0x07, 0xFF, 0xFE, 0x01, 0xFF, 0xF0, 0x00, 0x00, 0x06, 0x00,
        0xFF, 0xFF, 0xC7, 0xFF, 0xFE, 0x01, 0xFF, 0xF0, 0x00, 0x00, 0x0E, 0x00,
        0xFF, 0xFF, 0xC0, 0xE0, 0x70, 0x00, 0x0E, 0x00, 0x00, 0x00, 0x0E, 0x00,
        0xE1, 0xC1, 0xC0, 0xE0, 0x70, 0x00, 0x0E, 0x00, 0xF8, 0x1F, 0x3F, 0x80,
        0xE1, 0xC1, 0xC0, 0xE0, 0xF0, 0x00, 0x0E, 0x01, 0xFC, 0x3F, 0x3F, 0x80,
        0xE1, 0xC1, 0xC0, 0x70, 0xE0, 0x00, 0x0E, 0x03, 0xFE, 0x7F, 0x3F, 0x80,
        0xE1, 0xC1, 0xC0, 0x70, 0xE0, 0x00, 0x0E, 0x07, 0x0E, 0x71, 0x0E, 0x00,
        0xE1, 0xC1, 0xC0, 0x39, 0xC0, 0x00, 0x0E, 0x07, 0xFE, 0x7E, 0x0E, 0x00,
        0xFF, 0xFF, 0xC0, 0x3B, 0xC0, 0x00, 0x0E, 0x07, 0xFE, 0x3F, 0x0E, 0x00,
        0xFF, 0xFF, 0xC0, 0x1F, 0x80, 0x00, 0x0E, 0x07, 0x00, 0x1F, 0x8E, 0x00,
        0xE1, 0xC1, 0xC0, 0x1F, 0x80, 0x00, 0x0E, 0x07, 0x84, 0x43, 0x8E, 0x00,
        0xE1, 0xC1, 0xC0, 0x1F, 0xC0, 0x00, 0x0E, 0x03, 0xFC, 0x7F, 0x8F, 0x80,
        0x01, 0xC0, 0x00, 0x3F, 0xE0, 0x00, 0x0E, 0x03, 0xFC, 0x7F, 0x0F, 0x80,
        0x01, 0xC0, 0x00, 0xF9, 0xF0, 0x00, 0x0E, 0x00, 0xF8, 0x7E, 0x07, 0x80,
        0x01, 0xC0, 0x03, 0xE0, 0x7C, 0x00, 0x00, 0x00, 0x00, 0x00, 0x00, 0x00,
        0x01, 0xC0, 0x07, 0x80, 0x3E, 0x00, 0x00, 0x00, 0x00, 0x00, 0x00, 0x00,
        0x01, 0xC0, 0x02, 0x00, 0x0C, 0x00, 0x00, 0x00, 0x00, 0x00, 0x00, 0x00,
    ]
}

fn title_bitmap() -> (bitmap: [u8; 240])
    ensures
        bitmap@ == spec_title_bitmap(),
{
    let bitmap: [u8; 240] = [
        0x01u8, 0xC0, 0x00, 0x0E, 0x00, 0x00, 0x00, 0x00, 0x00, 0x00, 0x00, 0x00,
        0x01, 0xC0, 0x00, 0x0E, 0x00, 0x00, 0x00, 0x00, 0x00, 0x00, 0x00, 0x00,
        0x01, 0xC0, 0x00, 0x07, 0x00, 0x01, 0xFF, 0xF0, 0x00, 0x00, 0x00, 0x00,
        0x01, 0xC0, 0x07, 0xFF, 0xFE, 0x01, 0xFF, 0xF0, 0x00, 0x00, 0x06, 0x00,
        0xFF, 0xFF, 0xC7, 0xFF, 0xFE, 0x01, 0xFF, 0xF0, 0x00, 0x00, 0x0E, 0x00,
        0xFF, 0xFF, 0xC0, 0xE0, 0x70, 0x00, 0x0E, 0x00, 0x00, 0x00, 0x0E, 0x00,
        0xE1, 0xC1, 0xC0, 0xE0, 0x70, 0x00, 0x0E, 0x00, 0xF8, 0x1F, 0x3F, 0x80,
        0xE1, 0xC1, 0xC0, 0xE0, 0xF0, 0x00, 0x0E, 0x01, 0xFC, 0x3F, 0x3F, 0x80,
        0xE1, 0xC1, 0xC0, 0x70, 0xE0, 0x00, 0x0E, 0x03, 0xFE, 0x7F, 0x3F, 0x80,
        0xE1, 0xC1, 0xC0, 0x70, 0xE0, 0x00, 0x0E, 0x07, 0x0E, 0x71, 0x0E, 0x00,
        0xE1, 0xC1, 0xC0, 0x39, 0xC0, 0x00, 0x0E, 0x07, 0xFE, 0x7E, 0x0E, 0x00,
        0xFF, 0xFF, 0xC0, 0x3B, 0xC0, 0x00, 0x0E, 0x07, 0xFE, 0x3F, 0x0E, 0x00,
        0xFF, 0xFF, 0xC0, 0x1F, 0x80, 0x00, 0x0E, 0x07, 0x00, 0x1F, 0x8E, 0x00,
        0xE1, 0xC1, 0xC0, 0x1F, 0x80, 0x00, 0x0E, 0x07, 0x84, 0x43, 0x8E, 0x00,
        0xE1, 0xC1, 0xC0, 0x1F, 0xC0, 0x00, 0x0E, 0x03, 0xFC, 0x7F, 0x8F, 0x80,
        0x01, 0xC0, 0x00, 0x3F, 0xE0, 0x00, 0x0E, 0x03, 0xFC, 0x7F, 0x0F, 0x80,
        0x01, 0xC0, 0x00, 0xF9, 0xF0, 0x00, 0x0E, 0x00, 0xF8, 0x7E, 0x07, 0x80,
        0x01, 0xC0, 0x03, 0xE0, 0x7C, 0x00, 0x00, 0x00, 0x00, 0x00, 0x00, 0x00,
        0x01, 0xC0, 0x07, 0x80, 0x3E, 0x00, 0x00, 0x00, 0x00, 0x00, 0x00, 0x00,
        0x01, 0xC0, 0x02, 0x00, 0x0C, 0x00, 0x00, 0x00, 0x00, 0x00, 0x00, 0x00,
    ];
    assert(bitmap@ =~= spec_title_bitmap());
    bitmap
}

/// The self-test's title picture.
pub open spec fn title_picture() -> BitmapView {
    BitmapView { width: 89, height: 20, bytes_per_row: 12, bitmap: spec_title_bitmap() }
}

/// The bytes of the self-test's date picture.
pub open spec fn spec_date_bitmap() -> Seq<u8> {
    seq![
        0x1Eu8, 0x01, 0xE0, 0x1E, 0x00, 0xF8, 0x00, 0x0F, 0x00, 0x7C, 0x00, 0x07,
        0x83, 0xFF, 0x7F, 0x03, 0xF8, 0x7F, 0x03, 0xF8, 0x00, 0x1F, 0xC1, 0xFC,
        0x00, 0x0F, 0xE3, 0xFF, 0x7F, 0x87, 0xF8, 0x7F, 0x83, 0xF8, 0x00, 0x3F,
        0xC1, 0xFC, 0x00, 0x1F, 0xE3, 0xFF, 0x43, 0x87, 0x3C, 0x43, 0x87, 0x88,
        0x00, 0x39, 0xE3, 0xC4, 0x00, 0x1C, 0xF0, 0x0E, 0x03, 0x8E, 0x1C, 0x03,
        0x87, 0x00, 0x00, 0x70, 0xE3, 0x80, 0x00, 0x38, 0x70, 0x0E, 0x03, 0x8E,
        0x1C, 0x03, 0x8E, 0xF0, 0x00, 0x70, 0xE7, 0x78, 0x00, 0x38, 0x70, 0x1C,
        0x07, 0x8E, 0x1C, 0x07, 0x8F, 0xF8, 0x00, 0x70, 0xE7, 0xFC, 0x00, 0x38,
        0x70, 0x1C, 0x0F, 0x0E, 0x1C, 0x0F, 0x0F, 0xFC, 0x00, 0x70, 0xE7, 0xFE,
        0x00, 0x38, 0x70, 0x38, 0x1E, 0x0E, 0x1C, 0x1E, 0x0F, 0x1C, 0x7E, 0x70,
        0xE7, 0x8E, 0x3F, 0x38, 0x70, 0x38, 0x3C, 0x0E, 0x1C, 0x3C, 0x0E, 0x1C,
        0x7E, 0x70, 0xE7, 0x0E, 0x3F, 0x38, 0x70, 0x70, 0x78, 0x0E, 0x1C, 0x78,
        0x0E, 0x1C, 0x00, 0x70, 0xE7, 0x0E, 0x00, 0x38, 0x70, 0x70, 0x70, 0x0F,
        0x38, 0x70, 0x0F, 0x3C, 0x00, 0x79, 0xC7, 0x9E, 0x00, 0x3C, 0xE0, 0x70,
        0xFF, 0x87, 0xF8, 0xFF, 0x87, 0xF8, 0x00, 0x3F, 0xC3, 0xFC, 0x00, 0x1F,
        0xE0, 0xE0, 0xFF, 0x87, 0xF0, 0xFF, 0x83, 0xF8, 0x00, 0x3F, 0x81, 0xFC,
        0x00, 0x1F, 0xC0, 0xE0, 0xFF, 0x81, 0xE0, 0xFF, 0x81, 0xE0, 0x00, 0x0F,
        0x00, 0xF0, 0x00, 0x07, 0x80, 0xE0,
    ]
}

fn date_bitmap() -> (bitmap: [u8; 210])
    ensures
        bitmap@ == spec_date_bitmap(),
{
    let bitmap: [u8; 210] = [
        0x1Eu8, 0x01, 0xE0, 0x1E, 0x00, 0xF8, 0x00, 0x0F, 0x00, 0x7C, 0x00, 0x07,
        0x83, 0xFF, 0x7F, 0x03, 0xF8, 0x7F, 0x03, 0xF8, 0x00, 0x1F, 0xC1, 0xFC,
        0x00, 0x0F, 0xE3, 0xFF, 0x7F, 0x87, 0xF8, 0x7F, 0x83, 0xF8, 0x00, 0x3F,
        0xC1, 0xFC, 0x00, 0x1F, 0xE3, 0xFF, 0x43, 0x87, 0x3C, 0x43, 0x87, 0x88,
        0x00, 0x39, 0xE3, 0xC4, 0x00, 0x1C, 0xF0, 0x0E, 0x03, 0x8E, 0x1C, 0x03,
        0x87, 0x00, 0x00, 0x70, 0xE3, 0x80, 0x00, 0x38, 0x70, 0x0E, 0x03, 0x8E,
        0x1C, 0x03, 0x8E, 0xF0, 0x00, 0x70, 0xE7, 0x78, 0x00, 0x38, 0x70, 0x1C,
        0x07, 0x8E, 0x1C, 0x07, 0x8F, 0xF8, 0x00, 0x70, 0xE7, 0xFC, 0x00, 0x38,
        0x70, 0x1C, 0x0F, 0x0E, 0x1C, 0x0F, 0x0F, 0xFC, 0x00, 0x70, 0xE7, 0xFE,
        0x00, 0x38, 0x70, 0x38, 0x1E, 0x0E, 0x1C, 0x1E, 0x0F, 0x1C, 0x7E, 0x70,
        0xE7, 0x8E, 0x3F, 0x38, 0x70, 0x38, 0x3C, 0x0E, 0x1C, 0x3C, 0x0E, 0x1C,
        0x7E, 0x70, 0xE7, 0x0E, 0x3F, 0x38, 0x70, 0x70, 0x78, 0x0E, 0x1C, 0x78,
        0x0E, 0x1C, 0x00, 0x70, 0xE7, 0x0E, 0x00, 0x38, 0x70, 0x70, 0x70, 0x0F,
        0x38, 0x70, 0x0F, 0x3C, 0x00, 0x79, 0xC7, 0x9E, 0x00, 0x3C, 0xE0, 0x70,
        0xFF, 0x87, 0xF8, 0xFF, 0x87, 0xF8, 0x00, 0x3F, 0xC3, 0xFC, 0x00, 0x1F,
        0xE0, 0xE0, 0xFF, 0x87, 0xF0, 0xFF, 0x83, 0xF8, 0x00, 0x3F, 0x81, 0xFC,
        0x00, 0x1F, 0xC0, 0xE0, 0xFF, 0x81, 0xE0, 0xFF, 0x81, 0xE0, 0x00, 0x0F,
        0x00, 0xF0, 0x00, 0x07, 0x80, 0xE0,
    ];
    assert(bitmap@ =~= spec_date_bitmap());
    bitmap
}

/// The self-test's date picture.
pub open spec fn date_picture() -> BitmapView {
    BitmapView { width: 112, height: 15, bytes_per_row: 14, bitmap: spec_date_bitmap() }
}

/// The bytes of the self-test's notice picture.
pub open spec fn spec_notice_bitmap() -> Seq<u8> {
    seq![
        0x0Fu8, 0xC1, 0xE0, 0x39, 0xFE, 0x3F, 0xC0, 0xE0, 0x01, 0xE0, 0xF0, 0x78,
        0x1F, 0xF0, 0xE0, 0x71, 0xFE, 0x3F, 0xE0, 0xE0, 0x03, 0xF0, 0x70, 0x70,
        0x3F, 0xF0, 0xE0, 0x71, 0xFE, 0x3F, 0xF0, 0xE0, 0x03, 0xF0, 0x78, 0x70,
        0x78, 0x78, 0xF0, 0x71, 0xC0, 0x38, 0xF0, 0xE0, 0x03, 0xF0, 0x38, 0xE0,
        0x70, 0x3C, 0x70, 0xE1, 0xC0, 0x38, 0x70, 0xE0, 0x07, 0xF8, 0x3C, 0xE0,
        0xE0, 0x1C, 0x70, 0xE1, 0xC0, 0x38, 0x70, 0xE0, 0x07, 0x38, 0x1D, 0xC0,
        0xE0, 0x1C, 0x70, 0xE1, 0xFC, 0x38, 0xF0, 0xE0, 0x07, 0x38, 0x1D, 0xC0,
        0xE0, 0x1C, 0x39, 0xC1, 0xFC, 0x3F, 0xE0, 0xE0, 0x0F, 0x3C, 0x0F, 0x80,
        0xE0, 0x1C, 0x39, 0xC1, 0xFC, 0x3F, 0xC0, 0xE0, 0x0E, 0x1C, 0x0F, 0x80,
        0xE0, 0x1C, 0x39, 0xC1, 0xC0, 0x3F, 0xC0, 0xE0, 0x0F, 0xFC, 0x07, 0x00,
        0xF0, 0x38, 0x1F, 0x81, 0xC0, 0x39, 0xE0, 0xE0, 0x1F, 0xFE, 0x07, 0x00,
        0x78, 0x78, 0x1F, 0x81, 0xC0, 0x38, 0xF0, 0xE0, 0x1F, 0xFE, 0x07, 0x00,
        0x3F, 0xF0, 0x1F, 0x81, 0xFE, 0x38, 0x70, 0xFF, 0x9C, 0x0E, 0x07, 0x00,
        0x1F, 0xE0, 0x0F, 0x01, 0xFE, 0x38, 0x78, 0xFF, 0xBC, 0x0F, 0x07, 0x00,
        0x0F, 0xC0, 0x0F, 0x01, 0xFE, 0x38, 0x3C, 0xFF, 0xB8, 0x0F, 0x07, 0x00,
    ]
}

fn notice_bitmap() -> (bitmap: [u8; 180])
    ensures
        bitmap@ == spec_notice_bitmap(),
{
    let bitmap: [u8; 180] = [
        0x0Fu8, 0xC1, 0xE0, 0x39, 0xFE, 0x3F, 0xC0, 0xE0, 0x01, 0xE0, 0xF0, 0x78,
        0x1F, 0xF0, 0xE0, 0x71, 0xFE, 0x3F, 0xE0, 0xE0, 0x03, 0xF0, 0x70, 0x70,
        0x3F, 0xF0, 0xE0, 0x71, 0xFE, 0x3F, 0xF0, 0xE0, 0x03, 0xF0, 0x78, 0x70,
        0x78, 0x78, 0xF0, 0x71, 0xC0, 0x38, 0xF0, 0xE0, 0x03, 0xF0, 0x38, 0xE0,
        0x70, 0x3C, 0x70, 0xE1, 0xC0, 0x38, 0x70, 0xE0, 0x07, 0xF8, 0x3C, 0xE0,
        0xE0, 0x1C, 0x70, 0xE1, 0xC0, 0x38, 0x70, 0xE0, 0x07, 0x38, 0x1D, 0xC0,
        0xE0, 0x1C, 0x70, 0xE1, 0xFC, 0x38, 0xF0, 0xE0, 0x07, 0x38, 0x1D, 0xC0,
        0xE0, 0x1C, 0x39, 0xC1, 0xFC, 0x3F, 0xE0, 0xE0, 0x0F, 0x3C, 0x0F, 0x80,
        0xE0, 0x1C, 0x39, 0xC1, 0xFC, 0x3F, 0xC0, 0xE0, 0x0E, 0x1C, 0x0F, 0x80,
        0xE0, 0x1C, 0x39, 0xC1, 0xC0, 0x3F, 0xC0, 0xE0, 0x0F, 0xFC, 0x07, 0x00,
        0xF0, 0x38, 0x1F, 0x81, 0xC0, 0x39, 0xE0, 0xE0, 0x1F, 0xFE, 0x07, 0x00,
        0x78, 0x78, 0x1F, 0x81, 0xC0, 0x38, 0xF0, 0xE0, 0x1F, 0xFE, 0x07, 0x00,
        0x3F, 0xF0, 0x1F, 0x81, 0xFE, 0x38, 0x70, 0xFF, 0x9C, 0x0E, 0x07, 0x00,
        0x1F, 0xE0, 0x0F, 0x01, 0xFE, 0x38, 0x78, 0xFF, 0xBC, 0x0F, 0x07, 0x00,
        0x0F, 0xC0, 0x0F, 0x01, 0xFE, 0x38, 0x3C, 0xFF, 0xB8, 0x0F, 0x07, 0x00,
    ];
    assert(bitmap@ =~= spec_notice_bitmap());
    bitmap
}

/// The self-test's notice picture.
pub open spec fn notice_picture() -> BitmapView {
    BitmapView { width: 93, height: 15, bytes_per_row: 12, bitmap: spec_notice_bitmap() }
}

proof fn lemma_fits(text: BitmapView, width: int, height: int, bytes_per_row: int, length: int)
    requires
        text.width == width,
        text.height == height,
        text.bytes_per_row == bytes_per_row,
        text.bitmap.len() == length,
        width <= bytes_per_row * 8,
        height * bytes_per_row <= length,
    ensures
        bitmap_fits(text),
{
}

/// The style of the self-test's captions: black on white, as on a photo page.
pub open spec fn spec_self_test_style() -> TextStyle {
    TextStyle {
        foreground: Color::Black,
        background: Color::White,
        padding_x: 10,
        padding_y: 8,
        margin_x: 18,
        margin_y: 18,
        glyph_width: 10,
        glyph_height: 14,
        glyph_gap: 2,
    }
}

fn self_test_style() -> (style: TextStyle)
    ensures
        style == spec_self_test_style(),
{
    TextStyle {
        foreground: Color::Black,
        background: Color::White,
        padding_x: 10,
        padding_y: 8,
        margin_x: 18,
        margin_y: 18,
        glyph_width: 10,
        glyph_height: 14,
        glyph_gap: 2,
    }
}

/// What a screen point that showed `previous` shows after the self-test's
/// captions are drawn: the title bottom left, the date bottom right and the
/// notice top left, each over what came before.
pub open spec fn self_test_overlay_code(previous: int, px: int, py: int) -> int {
    let style = spec_self_test_style();
    let after_title = bitmap_block_code(previous, px, py, OverlaySlot::BottomLeft, style, title_picture());
    let after_date = bitmap_block_code(after_title, px, py, OverlaySlot::BottomRight, style, date_picture());
    bitmap_block_code(after_date, px, py, OverlaySlot::TopLeft, style, notice_picture())
}

/// Draws the self-test's captions over a packed frame.
pub fn draw_self_test_overlay(frame: &mut [u8])
    ensures
        old(frame)@.len() != EPD_FRAME_BYTES ==> final(frame)@ == old(frame)@,
        old(frame)@.len() == EPD_FRAME_BYTES ==> final(frame)@.len() == EPD_FRAME_BYTES,
        old(frame)@.len() == EPD_FRAME_BYTES ==> forall|px: int, py: int|
            on_screen(px, py) ==> #[trigger] logical_code(final(frame)@, px, py) == self_test_overlay_code(
                logical_code(old(frame)@, px, py),
                px,
                py,
            ),
{
    if frame.len() != EPD_FRAME_BYTES {
        return;
    }
    let style = self_test_style();
    let title = title_bitmap();
    let date = date_bitmap();
    let notice = notice_bitmap();
    let title_text = BitmapText { width: 89, height: 20, bytes_per_row: 12, bitmap: title.as_slice() };
    let date_text = BitmapText { width: 112, height: 15, bytes_per_row: 14, bitmap: date.as_slice() };
    let notice_text = BitmapText { width: 93, height: 15, bytes_per_row: 12, bitmap: notice.as_slice() };
    assert(title_text@ == title_picture());
    assert(date_text@ == date_picture());
    assert(notice_text@ == notice_picture());
    assert(title@.len() == 240 && date@.len() == 210 && notice@.len() == 180);
    assert(spec_title_bitmap().len() == 240 && spec_date_bitmap().len() == 210 && spec_notice_bitmap().len() == 180);
    proof {
        lemma_fits(title_picture(), 89, 20, 12, 240);
        lemma_fits(date_picture(), 112, 15, 14, 210);
        lemma_fits(notice_picture(), 93, 15, 12, 180);
    }
    let ghost before = frame@;
    draw_bitmap_text(frame, OverlaySlot::BottomLeft, &style, &title_text);
    let ghost after_title = frame@;
    draw_bitmap_text(frame, OverlaySlot::BottomRight, &style, &date_text);
    let ghost after_date = frame@;
    draw_bitmap_text(frame, OverlaySlot::TopLeft, &style, &notice_text);
    proof {
        assert forall|px: int, py: int| on_screen(px, py) implies #[trigger] logical_code(frame@, px, py)
            == self_test_overlay_code(logical_code(before, px, py), px, py) by {
            assert(logical_code(after_title, px, py) == bitmap_block_code(
                logical_code(before, px, py),
                px,
                py,
                OverlaySlot::BottomLeft,
                style,
                title_picture(),
            ));
            assert(logical_code(after_date, px, py) == bitmap_block_code(
                logical_code(after_title, px, py),
                px,
                py,
                OverlaySlot::BottomRight,
                style,
                date_picture(),
            ));
        }
    }
}

/// Why the self-test image could not be turned into a frame.
#[derive(Clone, Copy, Debug, PartialEq, Eq, Structural)]
pub enum ReadImageError {
    Missing,
    Format,
    Read,
}

/// Bytes a row of the self-test image takes: a full panel row of 24-bit pixels.
pub const SELF_TEST_ROW_BYTES: usize = 2400;

/// Where in the file the bitmap row shown on panel row `panel_y` starts: the
/// image is shown upside down, so a bottom-up file is read in file order.
pub open spec fn self_test_row_offset(header: BmpHeader, panel_y: int) -> int {
    let source_y = EPD_HEIGHT - 1 - panel_y;
    let file_y = if header.top_down {
        source_y
    } else {
        EPD_HEIGHT - 1 - source_y
    };
    header.pixel_offset + file_y * SELF_TEST_ROW_BYTES
}

/// The bitmap row shown on panel row `panel_y`.
pub open spec fn self_test_row(bytes: Seq<u8>, header: BmpHeader, panel_y: int) -> Seq<u8> {
    let offset = self_test_row_offset(header, panel_y);
    bytes.subrange(offset, offset + SELF_TEST_ROW_BYTES)
}

/// What is wrong with panel row `panel_y`, if anything: the file ends too
/// early, or a pixel is not one of the panel's inks.
pub open spec fn row_problem(bytes: Seq<u8>, header: BmpHeader, panel_y: int) -> Option<ReadImageError> {
    if self_test_row_offset(header, panel_y) + SELF_TEST_ROW_BYTES > bytes.len() {
        Some(ReadImageError::Read)
    } else if !bgr_row_is_palette(self_test_row(bytes, header, panel_y)) {
        Some(ReadImageError::Format)
    } else {
        None
    }
}

/// The problem of the first of the first `count` panel rows that has one.
pub open spec fn first_row_problem(bytes: Seq<u8>, header: BmpHeader, count: nat) -> Option<ReadImageError>
    decreases count,
{
    if count == 0 {
        None
    } else {
        match first_row_problem(bytes, header, (count - 1) as nat) {
            Some(problem) => Some(problem),
            None => row_problem(bytes, header, count - 1),
        }
    }
}

proof fn lemma_first_problem_stays(bytes: Seq<u8>, header: BmpHeader, k: nat, n: nat)
    requires
        k < n,
        first_row_problem(bytes, header, k) is None,
        row_problem(bytes, header, k as int) is Some,
    ensures
        first_row_problem(bytes, header, n) == row_problem(bytes, header, k as int),
    decreases n,
{
    if n > k + 1 {
        lemma_first_problem_stays(bytes, header, k, (n - 1) as nat);
    }
}

/// The header of the self-test image, or why it cannot be shown.
pub open spec fn spec_self_test_header(bytes: Seq<u8>) -> Result<BmpHeader, ReadImageError> {
    if bytes.len() < 54 {
        Err(ReadImageError::Read)
    } else {
        match spec_parse_bmp_header(bytes.subrange(0, 54), bytes.len() as int) {
            Err(_) => Err(ReadImageError::Format),
            Ok(header) => match first_row_problem(bytes, header, EPD_HEIGHT as nat) {
                Some(problem) => Err(problem),
                None => Ok(header),
            },
        }
    }
}

/// The packed frame of the self-test image before its captions: each panel row
/// packs its bitmap row read right to left.
pub open spec fn self_test_base_frame(bytes: Seq<u8>, header: BmpHeader) -> Seq<u8> {
    Seq::new(
        EPD_FRAME_BYTES as nat,
        |i: int| bgr_mirrored_packed_byte(self_test_row(bytes, header, i / EPD_ROW_BYTES as int), i % EPD_ROW_BYTES as int),
    )
}

/// Turns the self-test bitmap into a packed frame with the self-test's
/// captions drawn over it.
pub fn self_test_frame_from_bmp(bytes: &[u8]) -> (frame: Result<Vec<u8>, ReadImageError>)
    ensures
        match spec_self_test_header(bytes@) {
            Err(problem) => frame == Err::<Vec<u8>, ReadImageError>(problem),
            Ok(header) => frame matches Ok(frame) && frame@.len() == EPD_FRAME_BYTES && forall|px: int, py: int|
                on_screen(px, py) ==> #[trigger] logical_code(frame@, px, py) == self_test_overlay_code(
                    logical_code(self_test_base_frame(bytes@, header), px, py),
                    px,
                    py,
                ),
        },
{
    let length = bytes.len();
    if length < 54 {
        return Err(ReadImageError::Read);
    }
    let header_bytes = vstd::slice::slice_subrange(bytes, 0, 54);
    let header = match parse_bmp_header(header_bytes, length as u64) {
        Ok(header) => header,
        Err(_) => {
            return Err(ReadImageError::Format);
        },
    };
    let ghost base = self_test_base_frame(bytes@, header);
    let mut frame: Vec<u8> = vec![0u8; EPD_FRAME_BYTES];
    let mut row: [u8; EPD_ROW_BYTES] = [0u8; EPD_ROW_BYTES];
    let mut panel_y: usize = 0;
    while panel_y < EPD_HEIGHT
        invariant
            panel_y <= EPD_HEIGHT,
            length == bytes@.len(),
            length >= 54,
            spec_parse_bmp_header(bytes@.subrange(0, 54), length as int) == Ok::<BmpHeader, crate::bmp::BmpError>(
                header,
            ),
            header.pixel_offset <= u32::MAX,
            first_row_problem(bytes@, header, panel_y as nat) is None,
            base == self_test_base_frame(bytes@, header),
            frame@.len() == EPD_FRAME_BYTES,
            forall|k: int| 0 <= k < panel_y * EPD_ROW_BYTES ==> #[trigger] frame@[k] == base[k],
        decreases EPD_HEIGHT - panel_y,
    {
        let source_y = EPD_HEIGHT - 1 - panel_y;
        let file_y = if header.top_down {
            source_y
        } else {
            EPD_HEIGHT - 1 - source_y
        };
        let offset: u64 = header.pixel_offset + (file_y as u64) * (SELF_TEST_ROW_BYTES as u64);
        assert(offset == self_test_row_offset(header, panel_y as int));
        if offset + (SELF_TEST_ROW_BYTES as u64) > length as u64 {
            proof {
                lemma_first_problem_stays(bytes@, header, panel_y as nat, EPD_HEIGHT as nat);
            }
            return Err(ReadImageError::Read);
        }
        let start = offset as usize;
        let row_bgr = vstd::slice::slice_subrange(bytes, start, start + SELF_TEST_ROW_BYTES);
        assert(row_bgr@ == self_test_row(bytes@, header, panel_y as int));
        if fill_epd_row_from_bgr_mirrored(row_bgr, &mut row).is_err() {
            proof {
                lemma_first_problem_stays(bytes@, header, panel_y as nat, EPD_HEIGHT as nat);
            }
            return Err(ReadImageError::Format);
        }
        let row_start = panel_y * EPD_ROW_BYTES;
        let mut i: usize = 0;
        while i < EPD_ROW_BYTES
            invariant
                i <= EPD_ROW_BYTES,
                panel_y < EPD_HEIGHT,
                row_start == panel_y * EPD_ROW_BYTES,
                frame@.len() == EPD_FRAME_BYTES,
                base == self_test_base_frame(bytes@, header),
                forall|j: int| 0 <= j < EPD_ROW_BYTES ==> #[trigger] row@[j] == bgr_mirrored_packed_byte(
                    self_test_row(bytes@, header, panel_y as int),
                    j,
                ),
                forall|k: int| 0 <= k < row_start + i ==> #[trigger] frame@[k] == base[k],
            decreases EPD_ROW_BYTES - i,
        {
            proof {
                vstd::arithmetic::div_mod::lemma_fundamental_div_mod_converse(
                    row_start + i,
                    EPD_ROW_BYTES as int,
                    panel_y as int,
                    i as int,
                );
            }
            frame.set(row_start + i, row[i]);
            i = i + 1;
        }
        panel_y = panel_y + 1;
    }
    proof {
        assert(frame@ =~= base);
    }
    draw_self_test_overlay(frame.as_mut_slice());
    Ok(frame)
}

/// The self-test's finding for a panel that reported `error`.
pub fn epd_error_probe(error: EpdError) -> (probe: EpdProbe)
    ensures
        probe == (match error {
            EpdError::BusyTimeout => EpdProbe::BusyTimeout,
            EpdError::Transport => EpdProbe::TransportError,
        }),
{
    match error {
        EpdError::BusyTimeout => EpdProbe::BusyTimeout,
        EpdError::Transport => EpdProbe::TransportError,
    }
}

/// Sends a packed frame held in memory; a frame of the wrong size is refused
/// as a transport failure before anything is sent.
pub fn run_epd_memory_frame<B: EpdBus>(bus: &mut B, frame: &[u8]) -> (result: Result<(), EpdError>)
    ensures
        frame@.len() != EPD_FRAME_BYTES ==> result == Err::<(), EpdError>(EpdError::Transport) && final(bus).operations() == old(bus).operations(),
        frame@.len() == EPD_FRAME_BYTES && result is Ok ==> final(bus).operations() == old(bus).operations()
            + frame_ops(packed_frame_rows(frame@)),
        frame@.len() == EPD_FRAME_BYTES && result is Err ==> stopped_early(
            old(bus).operations(),
            final(bus).operations(),
            frame_ops(packed_frame_rows(frame@)),
        ),
{
    if frame.len() != EPD_FRAME_BYTES {
        return Err(EpdError::Transport);
    }
    run_epd_packed_frame(bus, frame)
}

/// What reading the self-test image gave.
#[derive(Debug, PartialEq, Eq)]
pub enum SelfTestImage {
    Frame(Vec<u8>),
    Missing,
    FormatError,
    ReadError,
    MountError,
}

/// Shows the self-test image when there is one, the colour bars when there is
/// none, and reports what happened; an unreadable image reaches no panel.
pub fn refresh_epd_from_self_test_image<B: EpdBus>(bus: &mut B, image: SelfTestImage) -> (probe: EpdProbe)
    ensures
        match image {
            SelfTestImage::Frame(frame) => {
                &&& (probe == EpdProbe::PhotoRefreshed ==> frame@.len() == EPD_FRAME_BYTES && final(bus).operations()
                    == old(bus).operations() + frame_ops(packed_frame_rows(frame@)))
                &&& (probe != EpdProbe::PhotoRefreshed ==> probe == EpdProbe::BusyTimeout || probe
                    == EpdProbe::TransportError)
                &&& (frame@.len() != EPD_FRAME_BYTES ==> probe == EpdProbe::TransportError && final(bus).operations()
                    == old(bus).operations())
                &&& (frame@.len() == EPD_FRAME_BYTES && probe != EpdProbe::PhotoRefreshed ==> stopped_early(
                    old(bus).operations(),
                    final(bus).operations(),
                    frame_ops(packed_frame_rows(frame@)),
                ))
            },
            SelfTestImage::Missing => {
                &&& (probe == EpdProbe::Refreshed ==> final(bus).operations() == old(bus).operations() + frame_ops(
                    test_pattern_rows(),
                ))
                &&& (probe != EpdProbe::Refreshed ==> (probe == EpdProbe::BusyTimeout || probe
                    == EpdProbe::TransportError) && stopped_early(
                    old(bus).operations(),
                    final(bus).operations(),
                    frame_ops(test_pattern_rows()),
                ))
            },
            SelfTestImage::FormatError => probe == EpdProbe::ImageFormatError && final(bus).operations() == old(bus).operations(),
            SelfTestImage::ReadError | SelfTestImage::MountError => probe == EpdProbe::ImageReadError && final(bus).operations() == old(bus).operations(),
        },
{
    match image {
        SelfTestImage::Frame(frame) => {
            match run_epd_memory_frame(bus, frame.as_slice()) {
                Ok(()) => EpdProbe::PhotoRefreshed,
                Err(error) => epd_error_probe(error),
            }
        },
        SelfTestImage::Missing => match run_epd_hardware_self_test(bus) {
            Ok(()) => EpdProbe::Refreshed,
            Err(error) => epd_error_probe(error),
        },
        SelfTestImage::FormatError => EpdProbe::ImageFormatError,
        SelfTestImage::ReadError | SelfTestImage::MountError => EpdProbe::ImageReadError,
    }
}

/// What the wake marker file says: the timer when it holds the word `timer`,
/// apart from surrounding white space; something unknown otherwise.
pub fn wake_marker_from_text(content: &str) -> (probe: WakeMarkerProbe)
    ensures
        probe == (if spec_trim(content@) == "timer"@ {
            WakeMarkerProbe::Timer
        } else {
            WakeMarkerProbe::Unknown
        }),
{
    let timer = String::from_str(WakeProbe::Timer.label());
    if String::from_str(trim(content)) == timer {
        WakeMarkerProbe::Timer
    } else {
        WakeMarkerProbe::Unknown
    }
}

} // verus!
