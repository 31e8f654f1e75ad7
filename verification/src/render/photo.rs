use super::text::{
    draw_text, screen_block_drawn, spec_slot_origin, spec_text_size, OverlaySlot, TextStyle, GLYPH_GAP,
    PLACEHOLDER_GLYPH_HEIGHT, PLACEHOLDER_GLYPH_WIDTH,
};
use crate::display::{on_screen, pixel_at, Color, ScreenBuffer, SCREEN_HEIGHT, SCREEN_PIXELS, SCREEN_WIDTH};
use vstd::prelude::*;

verus! {

/// A picture in the album's inks, row by row.
#[derive(Clone, Copy, Debug)]
pub struct RenderImage<'a> {
    pub pixels: &'a [Color],
    pub width: usize,
    pub height: usize,
}

impl<'a> RenderImage<'a> {
    pub fn new(pixels: &'a [Color], width: usize, height: usize) -> (image: Self)
        ensures
            image.pixels@ == pixels@,
            image.width == width,
            image.height == height,
    {
        RenderImage { pixels, width, height }
    }
}

/// A photo page: an optional picture with a caption and a date.
#[derive(Clone, Copy, Debug)]
pub struct RenderInput<'a> {
    pub image: Option<RenderImage<'a>>,
    pub caption: &'a str,
    pub date: &'a str,
    pub style: TextStyle,
}

/// The style that photo pages start with.
pub open spec fn page_default_style() -> TextStyle {
    TextStyle {
        foreground: Color::Black,
        background: Color::White,
        padding_x: 8,
        padding_y: 6,
        margin_x: 12,
        margin_y: 12,
        glyph_width: PLACEHOLDER_GLYPH_WIDTH,
        glyph_height: PLACEHOLDER_GLYPH_HEIGHT,
        glyph_gap: GLYPH_GAP,
    }
}

impl<'a> RenderInput<'a> {
    pub fn new(caption: &'a str, date: &'a str) -> (input: Self)
        ensures
            input.image is None,
            input.caption@ == caption@,
            input.date@ == date@,
            input.style == page_default_style(),
    {
        RenderInput {
            image: None,
            caption,
            date,
            style: TextStyle {
                foreground: Color::Black,
                background: Color::White,
                padding_x: 8,
                padding_y: 6,
                margin_x: 12,
                margin_y: 12,
                glyph_width: PLACEHOLDER_GLYPH_WIDTH,
                glyph_height: PLACEHOLDER_GLYPH_HEIGHT,
                glyph_gap: GLYPH_GAP,
            },
        }
    }

    pub fn with_image(self, image: RenderImage<'a>) -> (input: Self)
        ensures
            input.image == Some(image),
            input.caption == self.caption,
            input.date == self.date,
            input.style == self.style,
    {
        RenderInput { image: Some(image), ..self }
    }

    pub fn with_style(self, style: TextStyle) -> (input: Self)
        ensures
            input.image == self.image,
            input.caption == self.caption,
            input.date == self.date,
            input.style == style,
    {
        RenderInput { style, ..self }
    }
}

pub open spec fn spec_min(a: int, b: int) -> int {
    if a < b {
        a
    } else {
        b
    }
}

/// The ink shown at `(px, py)` when a `width` by `height` picture is centred on
/// a screen of `background`, cropped round its centre where it is larger than
/// the screen; a point whose source pixel is missing keeps the background.
pub open spec fn centered_image_pixel(pixels: Seq<Color>, width: int, height: int, background: Color, px: int, py: int) -> Color {
    let copy_width = spec_min(width, SCREEN_WIDTH as int);
    let copy_height = spec_min(height, SCREEN_HEIGHT as int);
    let source_x = (width - copy_width) / 2;
    let source_y = (height - copy_height) / 2;
    let target_x = (SCREEN_WIDTH - copy_width) / 2;
    let target_y = (SCREEN_HEIGHT - copy_height) / 2;
    if target_x <= px < target_x + copy_width && target_y <= py < target_y + copy_height {
        let index = (source_y + py - target_y) * width + source_x + px - target_x;
        if index < pixels.len() {
            pixels[index]
        } else {
            background
        }
    } else {
        background
    }
}

/// The screen after a picture was centred on it; a picture without area leaves
/// the screen as it was.
pub open spec fn centered_image_drawn(before: Seq<Color>, after: Seq<Color>, image: RenderImage, background: Color) -> bool {
    if image.width == 0 || image.height == 0 {
        after == before
    } else {
        &&& after.len() == SCREEN_PIXELS
        &&& forall|px: int, py: int|
            on_screen(px, py) ==> #[trigger] pixel_at(after, px, py) == centered_image_pixel(
                image.pixels@,
                image.width as int,
                image.height as int,
                background,
                px,
                py,
            )
    }
}

fn source_index(row: usize, width: usize, source_x: usize, column: usize) -> (index: usize)
    ensures
        index == spec_min(row * width + source_x + column, usize::MAX as int),
{
    let product = match row.checked_mul(width) {
        Some(product) => product,
        None => usize::MAX,
    };
    proof {
        assert(row * width >= 0) by (nonlinear_arith)
            requires
                row >= 0,
                width >= 0,
        ;
    }
    product.saturating_add(source_x).saturating_add(column)
}

/// Centres a picture on a screen cleared to `background`.
pub fn draw_centered_image(buffer: &mut ScreenBuffer, image: RenderImage<'_>, background: Color)
    requires
        old(buffer).wf(),
    ensures
        final(buffer).wf(),
        centered_image_drawn(old(buffer)@, final(buffer)@, image, background),
{
    if image.width == 0 || image.height == 0 {
        return;
    }
    let copy_width = if image.width < SCREEN_WIDTH { image.width } else { SCREEN_WIDTH };
    let copy_height = if image.height < SCREEN_HEIGHT { image.height } else { SCREEN_HEIGHT };
    let source_x = (image.width - copy_width) / 2;
    let source_y = (image.height - copy_height) / 2;
    let target_x = (SCREEN_WIDTH - copy_width) / 2;
    let target_y = (SCREEN_HEIGHT - copy_height) / 2;
    buffer.clear(background);
    let pixel_count = image.pixels.len();
    let mut row: usize = 0;
    while row < copy_height
        invariant
            buffer.wf(),
            pixel_count == image.pixels@.len(),
            copy_width == spec_min(image.width as int, SCREEN_WIDTH as int),
            copy_height == spec_min(image.height as int, SCREEN_HEIGHT as int),
            source_x == (image.width - copy_width) / 2,
            source_y == (image.height - copy_height) / 2,
            target_x == (SCREEN_WIDTH - copy_width) / 2,
            target_y == (SCREEN_HEIGHT - copy_height) / 2,
            row <= copy_height,
            image.width > 0,
            image.height > 0,
            forall|px: int, py: int|
                on_screen(px, py) ==> #[trigger] pixel_at(buffer@, px, py) == if py < target_y + row {
                    centered_image_pixel(
                        image.pixels@,
                        image.width as int,
                        image.height as int,
                        background,
                        px,
                        py,
                    )
                } else {
                    background
                },
        decreases copy_height - row,
    {
        let source_row = source_y + row;
        let target_row = target_y + row;
        let mut column: usize = 0;
        while column < copy_width
            invariant
                buffer.wf(),
                pixel_count == image.pixels@.len(),
                copy_width == spec_min(image.width as int, SCREEN_WIDTH as int),
                copy_height == spec_min(image.height as int, SCREEN_HEIGHT as int),
                source_x == (image.width - copy_width) / 2,
                source_y == (image.height - copy_height) / 2,
                target_x == (SCREEN_WIDTH - copy_width) / 2,
                target_y == (SCREEN_HEIGHT - copy_height) / 2,
                row < copy_height,
                source_row == source_y + row,
                target_row == target_y + row,
                column <= copy_width,
                image.width > 0,
                image.height > 0,
                forall|px: int, py: int|
                    on_screen(px, py) ==> #[trigger] pixel_at(buffer@, px, py) == if py < target_y + row
                        || (py == target_row && px < target_x + column) {
                        centered_image_pixel(
                            image.pixels@,
                            image.width as int,
                            image.height as int,
                            background,
                            px,
                            py,
                        )
                    } else {
                        background
                    },
            decreases copy_width - column,
        {
            let index = source_index(source_row, image.width, source_x, column);
            let color = if index < pixel_count {
                image.pixels[index]
            } else {
                background
            };
            let ghost prev = buffer@;
            buffer.set_pixel(target_x + column, target_row, color);
            proof {
                let tx = (target_x + column) as int;
                let ty = target_row as int;
                assert(color == centered_image_pixel(
                    image.pixels@,
                    image.width as int,
                    image.height as int,
                    background,
                    tx,
                    ty,
                ));
                assert forall|px: int, py: int| on_screen(px, py) && !(px == tx && py == ty) implies #[trigger] pixel_at(
                    buffer@,
                    px,
                    py,
                ) == pixel_at(prev, px, py) by {
                    assert(py * SCREEN_WIDTH + px != ty * SCREEN_WIDTH + tx);
                }
            }
            column = column + 1;
        }
        row = row + 1;
    }
}

/// The three steps of a photo page after the screen was cleared to white:
/// the picture, the caption bottom left and the date bottom right.
pub open spec fn text_step(before: Seq<Color>, after: Seq<Color>, text: Seq<char>, slot: OverlaySlot, style: TextStyle) -> bool {
    if text.len() == 0 {
        after == before
    } else {
        match spec_text_size(text.len() as int, style) {
            None => after == before,
            Some((width, height)) => {
                let origin = spec_slot_origin(
                    slot,
                    width as int,
                    height as int,
                    style.margin_x as int,
                    style.margin_y as int,
                );
                screen_block_drawn(before, after, text, origin.0 as int, origin.1 as int, width as int, height as int, style)
            },
        }
    }
}

/// The screen after the picture of a page was drawn on a white screen.
pub open spec fn image_step(white: Seq<Color>, after: Seq<Color>, image: Option<RenderImage>) -> bool {
    match image {
        Some(image) => centered_image_drawn(white, after, image, Color::White),
        None => after == white,
    }
}

pub open spec fn white_screen() -> Seq<Color> {
    Seq::new(SCREEN_PIXELS as nat, |_i: int| Color::White)
}

/// A photo page: the screen cleared to white, the picture, the caption, the date.
pub open spec fn photo_page_drawn(after: Seq<Color>, input: RenderInput) -> bool {
    exists|with_image: Seq<Color>, with_caption: Seq<Color>|
        #![trigger image_step(white_screen(), with_image, input.image), text_step(with_image, with_caption, input.caption@, OverlaySlot::BottomLeft, input.style)]
        {
            &&& image_step(white_screen(), with_image, input.image)
            &&& text_step(with_image, with_caption, input.caption@, OverlaySlot::BottomLeft, input.style)
            &&& text_step(with_caption, after, input.date@, OverlaySlot::BottomRight, input.style)
        }
}

/// Draws a photo page over whatever the screen held.
pub fn render_into(buffer: &mut ScreenBuffer, input: &RenderInput<'_>)
    requires
        old(buffer).wf(),
    ensures
        final(buffer).wf(),
        photo_page_drawn(final(buffer)@, *input),
{
    buffer.clear(Color::White);
    let ghost white = buffer@;
    assert(white == white_screen());
    match input.image {
        Some(image) => draw_centered_image(buffer, image, Color::White),
        None => {},
    }
    let ghost with_image = buffer@;
    if !input.caption.is_empty() {
        draw_text(buffer, OverlaySlot::BottomLeft, input.caption, &input.style);
    }
    let ghost with_caption = buffer@;
    if !input.date.is_empty() {
        draw_text(buffer, OverlaySlot::BottomRight, input.date, &input.style);
    }
    assert(image_step(white_screen(), with_image, input.image));
    assert(text_step(with_image, with_caption, input.caption@, OverlaySlot::BottomLeft, input.style));
    assert(text_step(with_caption, buffer@, input.date@, OverlaySlot::BottomRight, input.style));
}

/// A new screen with a photo page on it.
pub fn render_photo_page(input: &RenderInput<'_>) -> (buffer: ScreenBuffer)
    ensures
        buffer.wf(),
        photo_page_drawn(buffer@, *input),
{
    let mut buffer = ScreenBuffer::filled(Color::White);
    render_into(&mut buffer, input);
    buffer
}

} // verus!
