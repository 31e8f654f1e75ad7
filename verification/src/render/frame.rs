use super::text::{slot_origin, spec_slot_origin, OverlaySlot};
use super::{RenderError, RenderResource};
use crate::bmp::{
    exact_panel_color, header_color_at, header_rgb_at, spec_parse_bmp_header, BmpError, BmpHeader, BmpImage,
};
use crate::display::{in_rect, on_screen, Color, SCREEN_HEIGHT, SCREEN_WIDTH};
use crate::epd::{
    lemma_logical_pixel_update, logical_code, pack_epd_pixels, set_logical_packed_frame_pixel,
    spec_epd_color_code, EPD_FRAME_BYTES,
};
use vstd::prelude::*;

verus! {

/// The small bitmaps drawn over a photo. The status bitmap is accepted and
/// kept for later use; it is not drawn.
#[derive(Clone, Copy, Debug, Default, PartialEq, Eq)]
pub struct SpriteBmps<'a> {
    pub caption: Option<&'a [u8]>,
    pub date: Option<&'a [u8]>,
    pub status: Option<&'a [u8]>,
}

/// How far overlays keep from the screen edges.
#[derive(Clone, Copy, Debug, Default, PartialEq, Eq, Structural)]
pub struct SpritePlacement {
    pub margin_x: usize,
    pub margin_y: usize,
}

/// A photo bitmap with its overlays.
#[derive(Clone, Copy, Debug, PartialEq, Eq)]
pub struct PackedFrameRenderInput<'a> {
    pub photo_bmp: &'a [u8],
    pub sprites: SpriteBmps<'a>,
    pub placement: SpritePlacement,
}

impl<'a> PackedFrameRenderInput<'a> {
    pub fn new(photo_bmp: &'a [u8]) -> (input: Self)
        ensures
            input.photo_bmp@ == photo_bmp@,
            input.sprites.caption is None,
            input.sprites.date is None,
            input.sprites.status is None,
            input.placement == (SpritePlacement { margin_x: 0, margin_y: 0 }),
    {
        PackedFrameRenderInput {
            photo_bmp,
            sprites: SpriteBmps { caption: None, date: None, status: None },
            placement: SpritePlacement { margin_x: 0, margin_y: 0 },
        }
    }

    pub fn with_sprites(self, sprites: SpriteBmps<'a>) -> (input: Self)
        ensures
            input == (PackedFrameRenderInput { sprites, ..self }),
    {
        PackedFrameRenderInput { sprites, ..self }
    }

    pub fn with_placement(self, placement: SpritePlacement) -> (input: Self)
        ensures
            input == (PackedFrameRenderInput { placement, ..self }),
    {
        PackedFrameRenderInput { placement, ..self }
    }
}

/// The screen point `(px, py)` is covered by a `width` by `height` image drawn
/// with its top-left corner at `(x, y)`.
pub open spec fn covers(px: int, py: int, x: int, y: int, width: int, height: int) -> bool {
    in_rect(px, py, x, y, width, height)
}

/// Every on-screen point of the bitmap drawn at `(x, y)` has an ink.
pub open spec fn opaque_drawable(data: Seq<u8>, header: BmpHeader, x: int, y: int) -> bool {
    forall|px: int, py: int|
        on_screen(px, py) && #[trigger] covers(px, py, x, y, header.width as int, header.height as int)
            ==> header_color_at(data, header, px - x, py - y) is Some
}

/// A frame after a bitmap was drawn at `(x, y)`, every covered point in the
/// bitmap's ink.
pub open spec fn opaque_drawn(before: Seq<u8>, after: Seq<u8>, data: Seq<u8>, header: BmpHeader, x: int, y: int) -> bool {
    &&& after.len() == before.len()
    &&& forall|px: int, py: int|
        on_screen(px, py) ==> #[trigger] logical_code(after, px, py) == if covers(
            px,
            py,
            x,
            y,
            header.width as int,
            header.height as int,
        ) {
            spec_epd_color_code(header_color_at(data, header, px - x, py - y)->0) as int
        } else {
            logical_code(before, px, py)
        }
}

/// A sprite point is drawn unless it has the colour of the sprite's top-left
/// pixel, which is its see-through background.
pub open spec fn sprite_ink(data: Seq<u8>, header: BmpHeader, x: int, y: int) -> bool {
    header_rgb_at(data, header, x, y) != header_rgb_at(data, header, 0, 0)
}

/// Every on-screen point of a sprite drawn at `(x, y)` that is not see-through has an ink.
pub open spec fn sprite_drawable(data: Seq<u8>, header: BmpHeader, x: int, y: int) -> bool {
    forall|px: int, py: int|
        on_screen(px, py) && #[trigger] covers(px, py, x, y, header.width as int, header.height as int)
            && sprite_ink(data, header, px - x, py - y) ==> header_color_at(data, header, px - x, py - y) is Some
}

/// A frame after a sprite was drawn at `(x, y)`.
pub open spec fn sprite_drawn(before: Seq<u8>, after: Seq<u8>, data: Seq<u8>, header: BmpHeader, x: int, y: int) -> bool {
    &&& after.len() == before.len()
    &&& forall|px: int, py: int|
        on_screen(px, py) ==> #[trigger] logical_code(after, px, py) == if covers(
            px,
            py,
            x,
            y,
            header.width as int,
            header.height as int,
        ) && sprite_ink(data, header, px - x, py - y) {
            spec_epd_color_code(header_color_at(data, header, px - x, py - y)->0) as int
        } else {
            logical_code(before, px, py)
        }
}

fn visible_extent(start: usize, size: usize, limit: usize) -> (extent: usize)
    ensures
        extent == (if start >= limit {
            0
        } else if size < limit - start {
            size as int
        } else {
            limit - start
        }),
{
    if start >= limit {
        0
    } else if size < limit - start {
        size
    } else {
        limit - start
    }
}

/// Draws a bitmap with its top-left corner at the logical point `(x, y)`,
/// clipped to the screen. A pixel of a colour that is no ink stops the drawing.
pub fn draw_bmp_at(frame: &mut [u8], image: &BmpImage<'_>, x: usize, y: usize) -> (result: Result<(), RenderError>)
    requires
        old(frame)@.len() == EPD_FRAME_BYTES,
    ensures
        final(frame)@.len() == EPD_FRAME_BYTES,
        result is Ok <==> opaque_drawable(image.spec_data(), image.spec_header(), x as int, y as int),
        result is Err ==> result == Err::<(), RenderError>(RenderError::Bmp(BmpError::UnsupportedColor)),
        result is Ok ==> opaque_drawn(old(frame)@, final(frame)@, image.spec_data(), image.spec_header(), x as int, y as int),
{
    let ghost data = image.spec_data();
    let ghost header = image.spec_header();
    let width = image.width();
    let height = image.height();
    let visible_height = visible_extent(y, height, SCREEN_HEIGHT);
    let visible_width = visible_extent(x, width, SCREEN_WIDTH);
    let ghost before = frame@;
    let mut source_y: usize = 0;
    while source_y < visible_height
        invariant
            frame@.len() == EPD_FRAME_BYTES,
            before.len() == EPD_FRAME_BYTES,
            data == image.spec_data(),
            header == image.spec_header(),
            width == header.width,
            height == header.height,
            width == image.spec_width(),
            height == image.spec_height(),
            visible_height <= height,
            visible_width <= width,
            y + visible_height <= SCREEN_HEIGHT || visible_height == 0,
            x + visible_width <= SCREEN_WIDTH || visible_width == 0,
            visible_height == (if y >= SCREEN_HEIGHT { 0 } else if height < SCREEN_HEIGHT - y { height as int } else { SCREEN_HEIGHT - y }),
            visible_width == (if x >= SCREEN_WIDTH { 0 } else if width < SCREEN_WIDTH - x { width as int } else { SCREEN_WIDTH - x }),
            source_y <= visible_height,
            forall|px: int, py: int|
                on_screen(px, py) && #[trigger] covers(px, py, x as int, y as int, width as int, height as int)
                    && py - y < source_y ==> header_color_at(data, header, px - x, py - y) is Some,
            forall|px: int, py: int|
                on_screen(px, py) ==> #[trigger] logical_code(frame@, px, py) == if covers(
                    px,
                    py,
                    x as int,
                    y as int,
                    width as int,
                    height as int,
                ) && py - y < source_y {
                    spec_epd_color_code(header_color_at(data, header, px - x, py - y)->0) as int
                } else {
                    logical_code(before, px, py)
                },
        decreases visible_height - source_y,
    {
        let mut source_x: usize = 0;
        while source_x < visible_width
            invariant
                frame@.len() == EPD_FRAME_BYTES,
                before.len() == EPD_FRAME_BYTES,
                data == image.spec_data(),
                header == image.spec_header(),
                width == header.width,
                height == header.height,
                width == image.spec_width(),
                height == image.spec_height(),
                source_y < visible_height <= height,
                visible_width <= width,
                y + visible_height <= SCREEN_HEIGHT,
                x + visible_width <= SCREEN_WIDTH || visible_width == 0,
                source_x <= visible_width,
                forall|px: int, py: int|
                    on_screen(px, py) && #[trigger] covers(px, py, x as int, y as int, width as int, height as int)
                        && (py - y < source_y || (py - y == source_y && px - x < source_x))
                        ==> header_color_at(data, header, px - x, py - y) is Some,
                forall|px: int, py: int|
                    on_screen(px, py) ==> #[trigger] logical_code(frame@, px, py) == if covers(
                        px,
                        py,
                        x as int,
                        y as int,
                        width as int,
                        height as int,
                    ) && (py - y < source_y || (py - y == source_y && px - x < source_x)) {
                        spec_epd_color_code(header_color_at(data, header, px - x, py - y)->0) as int
                    } else {
                        logical_code(before, px, py)
                    },
            decreases visible_width - source_x,
        {
            let target_x = x + source_x;
            let target_y = y + source_y;
            assert(image.in_image(source_x as int, source_y as int));
            let color = match image.color_at(source_x, source_y) {
                Ok(color) => color,
                Err(_) => {
                    assert(covers(target_x as int, target_y as int, x as int, y as int, width as int, height as int));
                    assert(header_color_at(data, header, target_x - x, target_y - y) is None);
                    assert(!opaque_drawable(data, header, x as int, y as int));
                    return Err(RenderError::Bmp(BmpError::UnsupportedColor));
                },
            };
            let ghost prev = frame@;
            set_logical_packed_frame_pixel(frame, target_x, target_y, color);
            proof {
                lemma_logical_pixel_update(prev, target_x as int, target_y as int, color);
            }
            source_x = source_x + 1;
        }
        source_y = source_y + 1;
    }
    Ok(())
}

/// Draws a sprite with its top-left corner at `(x, y)`, leaving the points of
/// its background colour see-through.
pub fn draw_sprite_bmp_at(frame: &mut [u8], image: &BmpImage<'_>, x: usize, y: usize) -> (result: Result<(), RenderError>)
    requires
        old(frame)@.len() == EPD_FRAME_BYTES,
    ensures
        final(frame)@.len() == EPD_FRAME_BYTES,
        result is Ok <==> sprite_drawable(image.spec_data(), image.spec_header(), x as int, y as int),
        result is Err ==> result == Err::<(), RenderError>(RenderError::Bmp(BmpError::UnsupportedColor)),
        result is Ok ==> sprite_drawn(old(frame)@, final(frame)@, image.spec_data(), image.spec_header(), x as int, y as int),
{
    let ghost data = image.spec_data();
    let ghost header = image.spec_header();
    let width = image.width();
    let height = image.height();
    assert(image.in_image(0, 0));
    let background = match image.rgb_at(0, 0) {
        Ok(rgb) => rgb,
        Err(_) => {
            return Err(RenderError::Bmp(BmpError::UnexpectedEof));
        },
    };
    let visible_height = visible_extent(y, height, SCREEN_HEIGHT);
    let visible_width = visible_extent(x, width, SCREEN_WIDTH);
    let ghost before = frame@;
    let mut source_y: usize = 0;
    while source_y < visible_height
        invariant
            frame@.len() == EPD_FRAME_BYTES,
            before.len() == EPD_FRAME_BYTES,
            data == image.spec_data(),
            header == image.spec_header(),
            background == header_rgb_at(data, header, 0, 0),
            width == header.width,
            height == header.height,
            width == image.spec_width(),
            height == image.spec_height(),
            visible_height <= height,
            visible_width <= width,
            y + visible_height <= SCREEN_HEIGHT || visible_height == 0,
            x + visible_width <= SCREEN_WIDTH || visible_width == 0,
            visible_height == (if y >= SCREEN_HEIGHT { 0 } else if height < SCREEN_HEIGHT - y { height as int } else { SCREEN_HEIGHT - y }),
            visible_width == (if x >= SCREEN_WIDTH { 0 } else if width < SCREEN_WIDTH - x { width as int } else { SCREEN_WIDTH - x }),
            source_y <= visible_height,
            forall|px: int, py: int|
                on_screen(px, py) && #[trigger] covers(px, py, x as int, y as int, width as int, height as int)
                    && py - y < source_y && sprite_ink(data, header, px - x, py - y) ==> header_color_at(
                    data,
                    header,
                    px - x,
                    py - y,
                ) is Some,
            forall|px: int, py: int|
                on_screen(px, py) ==> #[trigger] logical_code(frame@, px, py) == if covers(
                    px,
                    py,
                    x as int,
                    y as int,
                    width as int,
                    height as int,
                ) && py - y < source_y && sprite_ink(data, header, px - x, py - y) {
                    spec_epd_color_code(header_color_at(data, header, px - x, py - y)->0) as int
                } else {
                    logical_code(before, px, py)
                },
        decreases visible_height - source_y,
    {
        let mut source_x: usize = 0;
        while source_x < visible_width
            invariant
                frame@.len() == EPD_FRAME_BYTES,
                before.len() == EPD_FRAME_BYTES,
                data == image.spec_data(),
                header == image.spec_header(),
                background == header_rgb_at(data, header, 0, 0),
                width == header.width,
                height == header.height,
                width == image.spec_width(),
                height == image.spec_height(),
                source_y < visible_height <= height,
                visible_width <= width,
                y + visible_height <= SCREEN_HEIGHT,
                x + visible_width <= SCREEN_WIDTH || visible_width == 0,
                source_x <= visible_width,
                forall|px: int, py: int|
                    on_screen(px, py) && #[trigger] covers(px, py, x as int, y as int, width as int, height as int)
                        && (py - y < source_y || (py - y == source_y && px - x < source_x)) && sprite_ink(
                        data,
                        header,
                        px - x,
                        py - y,
                    ) ==> header_color_at(data, header, px - x, py - y) is Some,
                forall|px: int, py: int|
                    on_screen(px, py) ==> #[trigger] logical_code(frame@, px, py) == if covers(
                        px,
                        py,
                        x as int,
                        y as int,
                        width as int,
                        height as int,
                    ) && (py - y < source_y || (py - y == source_y && px - x < source_x)) && sprite_ink(
                        data,
                        header,
                        px - x,
                        py - y,
                    ) {
                        spec_epd_color_code(header_color_at(data, header, px - x, py - y)->0) as int
                    } else {
                        logical_code(before, px, py)
                    },
            decreases visible_width - source_x,
        {
            let target_x = x + source_x;
            let target_y = y + source_y;
            assert(image.in_image(source_x as int, source_y as int));
            let rgb = match image.rgb_at(source_x, source_y) {
                Ok(rgb) => rgb,
                Err(_) => {
                    return Err(RenderError::Bmp(BmpError::UnexpectedEof));
                },
            };
            if rgb.0 != background.0 || rgb.1 != background.1 || rgb.2 != background.2 {
                let color = match exact_panel_color(rgb.0, rgb.1, rgb.2) {
                    Some(color) => color,
                    None => {
                        assert(covers(target_x as int, target_y as int, x as int, y as int, width as int, height as int));
                        assert(sprite_ink(data, header, target_x - x, target_y - y));
                        assert(header_color_at(data, header, target_x - x, target_y - y) is None);
                        assert(!sprite_drawable(data, header, x as int, y as int));
                        return Err(RenderError::Bmp(BmpError::UnsupportedColor));
                    },
                };
                let ghost prev = frame@;
                set_logical_packed_frame_pixel(frame, target_x, target_y, color);
                proof {
                    lemma_logical_pixel_update(prev, target_x as int, target_y as int, color);
                }
            }
            source_x = source_x + 1;
        }
        source_y = source_y + 1;
    }
    Ok(())
}

/// Where a block of the given size goes in a corner slot with a sprite placement.
pub fn packed_overlay_origin(slot: OverlaySlot, width: usize, height: usize, placement: SpritePlacement) -> (origin: (
    usize,
    usize,
))
    ensures
        origin == spec_slot_origin(
            slot,
            width as int,
            height as int,
            placement.margin_x as int,
            placement.margin_y as int,
        ),
{
    slot_origin(slot, width, height, placement.margin_x, placement.margin_y)
}

/// Where a sprite with header `header` goes in `slot`.
pub open spec fn sprite_origin(header: BmpHeader, slot: OverlaySlot, placement: SpritePlacement) -> (usize, usize) {
    spec_slot_origin(
        slot,
        header.width as int,
        header.height as int,
        placement.margin_x as int,
        placement.margin_y as int,
    )
}

/// The sprite `bytes` can be drawn in `slot`: it parses and its visible
/// non-background points are inks.
pub open spec fn sprite_fits(bytes: Seq<u8>, slot: OverlaySlot, placement: SpritePlacement) -> bool {
    match spec_parse_bmp_header(bytes, bytes.len() as int) {
        Ok(header) => {
            let origin = sprite_origin(header, slot, placement);
            sprite_drawable(bytes, header, origin.0 as int, origin.1 as int)
        },
        Err(_) => false,
    }
}

/// The frame after the sprite `bytes` was drawn in `slot`.
pub open spec fn sprite_in_slot_drawn(
    before: Seq<u8>,
    after: Seq<u8>,
    bytes: Seq<u8>,
    slot: OverlaySlot,
    placement: SpritePlacement,
) -> bool {
    match spec_parse_bmp_header(bytes, bytes.len() as int) {
        Ok(header) => {
            let origin = sprite_origin(header, slot, placement);
            sprite_drawn(before, after, bytes, header, origin.0 as int, origin.1 as int)
        },
        Err(_) => false,
    }
}

fn draw_sprite_bmp(
    frame: &mut [u8],
    resource: RenderResource,
    sprite_bmp: &[u8],
    slot: OverlaySlot,
    placement: SpritePlacement,
) -> (result: Result<(), RenderError>)
    requires
        old(frame)@.len() == EPD_FRAME_BYTES,
    ensures
        final(frame)@.len() == EPD_FRAME_BYTES,
        result is Ok <==> sprite_fits(sprite_bmp@, slot, placement),
        result is Ok ==> sprite_in_slot_drawn(old(frame)@, final(frame)@, sprite_bmp@, slot, placement),
        spec_parse_bmp_header(sprite_bmp@, sprite_bmp@.len() as int) matches Err(error) ==> result == Err::<
            (),
            RenderError,
        >(RenderError::ResourceBmp(resource, error)),
        spec_parse_bmp_header(sprite_bmp@, sprite_bmp@.len() as int) is Ok && result is Err ==> result == Err::<
            (),
            RenderError,
        >(RenderError::Bmp(BmpError::UnsupportedColor)),
{
    let sprite = match BmpImage::parse(sprite_bmp) {
        Ok(sprite) => sprite,
        Err(error) => {
            return Err(RenderError::ResourceBmp(resource, error));
        },
    };
    let (x, y) = packed_overlay_origin(slot, sprite.width(), sprite.height(), placement);
    draw_sprite_bmp_at(frame, &sprite, x, y)
}

/// A photo bitmap is drawable: it parses, fills the screen exactly and every
/// pixel is an ink.
pub open spec fn photo_fits(bytes: Seq<u8>) -> bool {
    match spec_parse_bmp_header(bytes, bytes.len() as int) {
        Ok(header) => header.width == SCREEN_WIDTH && header.height == SCREEN_HEIGHT && opaque_drawable(
            bytes,
            header,
            0,
            0,
        ),
        Err(_) => false,
    }
}

/// The frame shows the photo `bytes`, full screen.
pub open spec fn photo_drawn(before: Seq<u8>, after: Seq<u8>, bytes: Seq<u8>) -> bool {
    match spec_parse_bmp_header(bytes, bytes.len() as int) {
        Ok(header) => opaque_drawn(before, after, bytes, header, 0, 0),
        Err(_) => false,
    }
}

/// A whole photo page can be drawn: the photo and each given sprite.
pub open spec fn page_fits(input: PackedFrameRenderInput) -> bool {
    &&& photo_fits(input.photo_bmp@)
    &&& (input.sprites.caption matches Some(bytes) ==> sprite_fits(bytes@, OverlaySlot::BottomLeft, input.placement))
    &&& (input.sprites.date matches Some(bytes) ==> sprite_fits(bytes@, OverlaySlot::BottomRight, input.placement))
}

/// The caption step of a photo page: the caption sprite drawn bottom left, if any.
pub open spec fn caption_step(before: Seq<u8>, after: Seq<u8>, input: PackedFrameRenderInput) -> bool {
    match input.sprites.caption {
        Some(bytes) => sprite_in_slot_drawn(before, after, bytes@, OverlaySlot::BottomLeft, input.placement),
        None => after == before,
    }
}

/// The date step of a photo page: the date sprite drawn bottom right, if any.
pub open spec fn date_step(before: Seq<u8>, after: Seq<u8>, input: PackedFrameRenderInput) -> bool {
    match input.sprites.date {
        Some(bytes) => sprite_in_slot_drawn(before, after, bytes@, OverlaySlot::BottomRight, input.placement),
        None => after == before,
    }
}

/// The frame after the photo, then the caption in the bottom-left corner, then
/// the date in the bottom-right corner were drawn.
pub open spec fn page_drawn(before: Seq<u8>, after: Seq<u8>, input: PackedFrameRenderInput) -> bool {
    exists|with_photo: Seq<u8>, with_caption: Seq<u8>|
        #![trigger photo_drawn(before, with_photo, input.photo_bmp@), caption_step(with_photo, with_caption, input)]
        {
            &&& photo_drawn(before, with_photo, input.photo_bmp@)
            &&& caption_step(with_photo, with_caption, input)
            &&& date_step(with_caption, after, input)
        }
}

/// Why an optional sprite's bitmap cannot be read, if it is given and cannot.
pub open spec fn sprite_parse_error(sprite: Option<&[u8]>) -> Option<BmpError> {
    match sprite {
        Some(bytes) => match spec_parse_bmp_header(bytes@, bytes@.len() as int) {
            Err(error) => Some(error),
            Ok(_) => None,
        },
        None => None,
    }
}

/// An optional sprite is absent or fits in its slot.
pub open spec fn sprite_step_fits(sprite: Option<&[u8]>, slot: OverlaySlot, placement: SpritePlacement) -> bool {
    match sprite {
        Some(bytes) => sprite_fits(bytes@, slot, placement),
        None => true,
    }
}

/// The error a photo page reports for its sprites: once the photo is drawn, an
/// unreadable caption sprite is named as the caption, and once the caption is
/// drawn, an unreadable date sprite is named as the date.
pub open spec fn sprite_errors_named<T>(input: PackedFrameRenderInput, result: Result<T, RenderError>) -> bool {
    &&& (photo_fits(input.photo_bmp@) && sprite_parse_error(input.sprites.caption) is Some ==> result is Err
        && result->Err_0 == RenderError::ResourceBmp(RenderResource::Caption, sprite_parse_error(input.sprites.caption)->0))
    &&& (photo_fits(input.photo_bmp@) && sprite_step_fits(input.sprites.caption, OverlaySlot::BottomLeft, input.placement)
        && sprite_parse_error(input.sprites.date) is Some ==> result is Err && result->Err_0
        == RenderError::ResourceBmp(RenderResource::Date, sprite_parse_error(input.sprites.date)->0))
}

/// Draws a photo page into a packed frame: the photo, then the caption sprite
/// bottom left, then the date sprite bottom right.
pub fn render_epd_packed_frame_from_bmps_into(frame: &mut [u8], input: &PackedFrameRenderInput<'_>) -> (result: Result<
    (),
    RenderError,
>)
    ensures
        old(frame)@.len() != EPD_FRAME_BYTES ==> result == Err::<(), RenderError>(RenderError::InvalidFrameLength)
            && final(frame)@ == old(frame)@,
        old(frame)@.len() == EPD_FRAME_BYTES ==> {
            &&& final(frame)@.len() == EPD_FRAME_BYTES
            &&& (result is Ok <==> page_fits(*input))
            &&& (result is Ok ==> page_drawn(old(frame)@, final(frame)@, *input))
            &&& (spec_parse_bmp_header(input.photo_bmp@, input.photo_bmp@.len() as int) matches Err(error)
                ==> result == Err::<(), RenderError>(RenderError::ResourceBmp(RenderResource::Photo, error)))
            &&& (spec_parse_bmp_header(input.photo_bmp@, input.photo_bmp@.len() as int) matches Ok(header)
                && (header.width != SCREEN_WIDTH || header.height != SCREEN_HEIGHT) ==> result == Err::<
                (),
                RenderError,
            >(RenderError::InvalidPhotoSize))
            &&& (spec_parse_bmp_header(input.photo_bmp@, input.photo_bmp@.len() as int) matches Ok(header)
                ==> (header.width != SCREEN_WIDTH || header.height != SCREEN_HEIGHT ==> final(frame)@ == old(frame)@))
            &&& (spec_parse_bmp_header(input.photo_bmp@, input.photo_bmp@.len() as int) is Err ==> final(frame)@
                == old(frame)@)
            &&& sprite_errors_named(*input, result)
        },
{
    if frame.len() != EPD_FRAME_BYTES {
        return Err(RenderError::InvalidFrameLength);
    }
    let ghost before = frame@;
    let photo = match BmpImage::parse(input.photo_bmp) {
        Ok(photo) => photo,
        Err(error) => {
            return Err(RenderError::ResourceBmp(RenderResource::Photo, error));
        },
    };
    if photo.width() != SCREEN_WIDTH || photo.height() != SCREEN_HEIGHT {
        return Err(RenderError::InvalidPhotoSize);
    }
    draw_bmp_at(frame, &photo, 0, 0)?;
    let ghost with_photo = frame@;
    match input.sprites.caption {
        Some(caption) => {
            draw_sprite_bmp(frame, RenderResource::Caption, caption, OverlaySlot::BottomLeft, input.placement)?;
        },
        None => {},
    }
    let ghost with_caption = frame@;
    match input.sprites.date {
        Some(date) => {
            draw_sprite_bmp(frame, RenderResource::Date, date, OverlaySlot::BottomRight, input.placement)?;
        },
        None => {},
    }
    assert(page_drawn(before, frame@, *input)) by {
        assert(photo_drawn(before, with_photo, input.photo_bmp@));
        assert(caption_step(with_photo, with_caption, *input));
        assert(date_step(with_caption, frame@, *input));
    }
    Ok(())
}

/// A fresh white frame with a photo page drawn into it.
pub fn render_epd_packed_frame_from_bmps(input: &PackedFrameRenderInput<'_>) -> (result: Result<Vec<u8>, RenderError>)
    ensures
        result is Ok <==> page_fits(*input),
        result matches Ok(frame) ==> frame@.len() == EPD_FRAME_BYTES && page_drawn(
            Seq::new(EPD_FRAME_BYTES as nat, |_i: int| 0x11u8),
            frame@,
            *input,
        ),
        spec_parse_bmp_header(input.photo_bmp@, input.photo_bmp@.len() as int) matches Err(error) ==> result
            == Err::<Vec<u8>, RenderError>(RenderError::ResourceBmp(RenderResource::Photo, error)),
        sprite_errors_named(*input, result),
{
    let white = pack_epd_pixels(Color::White, Color::White);
    let mut frame = vec![white; EPD_FRAME_BYTES];
    assert(frame@ =~= Seq::new(EPD_FRAME_BYTES as nat, |_i: int| 0x11u8));
    match render_epd_packed_frame_from_bmps_into(frame.as_mut_slice(), input) {
        Ok(()) => Ok(frame),
        Err(error) => Err(error),
    }
}

} // verus!
