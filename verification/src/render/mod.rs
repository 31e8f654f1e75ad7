use crate::bmp::{spec_parse_bmp_header, BmpError, BmpImage};
use crate::display::{Color, ScreenBuffer, SCREEN_HEIGHT, SCREEN_WIDTH};
use crate::epd::{pack_epd_pixels, EPD_FRAME_BYTES};
use frame::{draw_bmp_at, opaque_drawable, opaque_drawn, packed_overlay_origin, photo_drawn, photo_fits};
use photo::{draw_centered_image, image_step, text_step, white_screen};
use text::{spec_slot_origin, GLYPH_GAP, PLACEHOLDER_GLYPH_HEIGHT, PLACEHOLDER_GLYPH_WIDTH};
use vstd::prelude::*;

pub use frame::SpritePlacement;
pub use photo::RenderImage;
pub use text::{draw_placeholder_text, draw_text, draw_text_at, glyph_pattern, text_size, OverlaySlot, TextStyle};

pub mod error_page;
pub mod frame;
pub mod photo;
pub mod text;

verus! {

/// Which input of a photo page a bitmap error came from.
#[derive(Clone, Copy, Debug, PartialEq, Eq, Structural)]
pub enum RenderResource {
    Photo,
    Caption,
    Date,
}

impl RenderResource {
    pub open spec fn spec_text(self) -> Seq<char> {
        match self {
            RenderResource::Photo => "photo"@,
            RenderResource::Caption => "caption"@,
            RenderResource::Date => "date"@,
        }
    }

    pub fn text(self) -> (text: &'static str)
        ensures
            text@ == self.spec_text(),
    {
        match self {
            RenderResource::Photo => "photo",
            RenderResource::Caption => "caption",
            RenderResource::Date => "date",
        }
    }
}

/// Why a packed frame could not be drawn.
#[derive(Clone, Copy, Debug, PartialEq, Eq, Structural)]
pub enum RenderError {
    InvalidPhotoSize,
    InvalidFrameLength,
    Bmp(BmpError),
    ResourceBmp(RenderResource, BmpError),
}

impl RenderError {
    pub open spec fn spec_message(self) -> Seq<char> {
        match self {
            RenderError::InvalidPhotoSize => "invalid-photo-size"@,
            RenderError::InvalidFrameLength => "invalid-frame-length"@,
            RenderError::Bmp(error) => "bmp-"@ + error.spec_text(),
            RenderError::ResourceBmp(resource, error) => resource.spec_text() + "-bmp-"@ + error.spec_text(),
        }
    }

    /// The short text the device logs for this error.
    pub fn message(&self) -> (message: String)
        ensures
            message@ == self.spec_message(),
    {
        match self {
            RenderError::InvalidPhotoSize => String::from_str("invalid-photo-size"),
            RenderError::InvalidFrameLength => String::from_str("invalid-frame-length"),
            RenderError::Bmp(error) => String::from_str("bmp-").concat(error.text()),
            RenderError::ResourceBmp(resource, error) => String::from_str(resource.text()).concat(
                "-bmp-",
            ).concat(error.text()),
        }
    }
}

impl From<BmpError> for RenderError {
    fn from(error: BmpError) -> (result: Self) {
        RenderError::Bmp(error)
    }
}

impl vstd::std_specs::convert::FromSpecImpl<BmpError> for RenderError {
    open spec fn obeys_from_spec() -> bool {
        true
    }

    open spec fn from_spec(error: BmpError) -> Self {
        RenderError::Bmp(error)
    }
}

/// A short notice that a photo page can carry in its top-left corner.
#[derive(Clone, Copy, Debug, PartialEq, Eq, Structural)]
pub enum RenderNotice {
    LowBattery,
    Offline,
    SyncFailed,
    PlanExpired,
    StorageLow,
}

impl RenderNotice {
    pub open spec fn spec_text(self) -> Seq<char> {
        match self {
            RenderNotice::LowBattery => "LOW BAT"@,
            RenderNotice::Offline => "OFFLINE"@,
            RenderNotice::SyncFailed => "SYNC FAIL"@,
            RenderNotice::PlanExpired => "EXPIRED"@,
            RenderNotice::StorageLow => "STORAGE LOW"@,
        }
    }

    pub fn text(self) -> (result: &'static str)
        ensures
            result@ == self.spec_text(),
    {
        match self {
            RenderNotice::LowBattery => "LOW BAT",
            RenderNotice::Offline => "OFFLINE",
            RenderNotice::SyncFailed => "SYNC FAIL",
            RenderNotice::PlanExpired => "EXPIRED",
            RenderNotice::StorageLow => "STORAGE LOW",
        }
    }
}


/// Paints a solid block of one ink.
pub fn draw_solid_block(buffer: &mut ScreenBuffer, x: usize, y: usize, width: usize, height: usize, color: Color)
    requires
        old(buffer).wf(),
    ensures
        final(buffer).wf(),
        forall|px: int, py: int|
            crate::display::on_screen(px, py) ==> #[trigger] crate::display::pixel_at(final(buffer)@, px, py)
                == if crate::display::in_rect(px, py, x as int, y as int, width as int, height as int) {
                color
            } else {
                crate::display::pixel_at(old(buffer)@, px, py)
            },
{
    buffer.fill_rect(x, y, width, height, color);
}

/// A photo page with an optional notice in the top-left corner.
#[derive(Clone, Copy, Debug)]
pub struct RenderInput<'a> {
    pub image: Option<RenderImage<'a>>,
    pub caption: &'a str,
    pub date: &'a str,
    pub notice: Option<RenderNotice>,
    pub style: TextStyle,
}

impl<'a> RenderInput<'a> {
    pub fn new(caption: &'a str, date: &'a str) -> (input: Self)
        ensures
            input.image is None,
            input.caption@ == caption@,
            input.date@ == date@,
            input.notice is None,
            input.style == photo::page_default_style(),
    {
        RenderInput {
            image: None,
            caption,
            date,
            notice: None,
            style: TextStyle {
                foreground: Color::Black,
                background: Color::White,
                padding_x: 8,
                padding_y: 6,
                margin_x: 12,
                margin_y: 12,
                glyph_width: PLACEHOLDER_GLYPH_WIDTH,
                glyph_height: PLACEHOLDER_GLYPH_HEIGHT,
                glyph_gap: GLYPH_GAP,
            },
        }
    }

    pub fn with_image(self, image: RenderImage<'a>) -> (input: Self)
        ensures
            input.image == Some(image),
            input.caption == self.caption,
            input.date == self.date,
            input.notice == self.notice,
            input.style == self.style,
    {
        RenderInput { image: Some(image), ..self }
    }

    pub fn with_notice(self, notice: RenderNotice) -> (input: Self)
        ensures
            input.image == self.image,
            input.caption == self.caption,
            input.date == self.date,
            input.notice == Some(notice),
            input.style == self.style,
    {
        RenderInput { notice: Some(notice), ..self }
    }

    pub fn with_style(self, style: TextStyle) -> (input: Self)
        ensures
            input.image == self.image,
            input.caption == self.caption,
            input.date == self.date,
            input.notice == self.notice,
            input.style == style,
    {
        RenderInput { style, ..self }
    }
}

/// The notice step of a photo page: the notice text in the top-left corner, if any.
pub open spec fn notice_step(before: Seq<crate::display::Color>, after: Seq<crate::display::Color>, notice: Option<RenderNotice>, style: TextStyle) -> bool {
    match notice {
        Some(notice) => text_step(before, after, notice.spec_text(), OverlaySlot::TopLeft, style),
        None => after == before,
    }
}

/// A photo page: a white screen, the picture, the caption, the date, the notice.
pub open spec fn noticed_page_drawn(after: Seq<crate::display::Color>, input: RenderInput) -> bool {
    exists|with_image: Seq<crate::display::Color>, with_caption: Seq<crate::display::Color>, with_date: Seq<crate::display::Color>|
        #![trigger image_step(white_screen(), with_image, input.image), text_step(with_image, with_caption, input.caption@, OverlaySlot::BottomLeft, input.style), text_step(with_caption, with_date, input.date@, OverlaySlot::BottomRight, input.style)]
        {
            &&& image_step(white_screen(), with_image, input.image)
            &&& text_step(with_image, with_caption, input.caption@, OverlaySlot::BottomLeft, input.style)
            &&& text_step(with_caption, with_date, input.date@, OverlaySlot::BottomRight, input.style)
            &&& notice_step(with_date, after, input.notice, input.style)
        }
}

/// Draws a photo page with its notice over whatever the screen held.
pub fn render_into(buffer: &mut ScreenBuffer, input: &RenderInput<'_>)
    requires
        old(buffer).wf(),
    ensures
        final(buffer).wf(),
        noticed_page_drawn(final(buffer)@, *input),
{
    buffer.clear(Color::White);
    assert(buffer@ == white_screen());
    match input.image {
        Some(image) => draw_centered_image(buffer, image, Color::White),
        None => {},
    }
    let ghost with_image = buffer@;
    if !input.caption.is_empty() {
        draw_text(buffer, OverlaySlot::BottomLeft, input.caption, &input.style);
    }
    let ghost with_caption = buffer@;
    if !input.date.is_empty() {
        draw_text(buffer, OverlaySlot::BottomRight, input.date, &input.style);
    }
    let ghost with_date = buffer@;
    match input.notice {
        Some(notice) => {
            draw_text(buffer, OverlaySlot::TopLeft, notice.text(), &input.style);
            proof {
                assert(notice.spec_text().len() > 0) by {
                    reveal_strlit("LOW BAT");
                    reveal_strlit("OFFLINE");
                    reveal_strlit("SYNC FAIL");
                    reveal_strlit("EXPIRED");
                    reveal_strlit("STORAGE LOW");
                }
            }
        },
        None => {},
    }
    assert(image_step(white_screen(), with_image, input.image));
    assert(text_step(with_image, with_caption, input.caption@, OverlaySlot::BottomLeft, input.style));
    assert(text_step(with_caption, with_date, input.date@, OverlaySlot::BottomRight, input.style));
}

/// A new screen with a photo page and its notice on it.
pub fn render_photo_page(input: &RenderInput<'_>) -> (buffer: ScreenBuffer)
    ensures
        buffer.wf(),
        noticed_page_drawn(buffer@, *input),
{
    let mut buffer = ScreenBuffer::filled(Color::White);
    render_into(&mut buffer, input);
    buffer
}

/// The sprites of a photo page with a notice; the status sprite is not drawn.
#[derive(Clone, Copy, Debug, Default, PartialEq, Eq)]
pub struct SpriteBmps<'a> {
    pub caption: Option<&'a [u8]>,
    pub date: Option<&'a [u8]>,
    pub notice: Option<&'a [u8]>,
    pub status: Option<&'a [u8]>,
}

/// A photo bitmap with its sprites, drawn without see-through backgrounds.
#[derive(Clone, Copy, Debug, PartialEq, Eq)]
pub struct PackedFrameRenderInput<'a> {
    pub photo_bmp: &'a [u8],
    pub sprites: SpriteBmps<'a>,
    pub placement: SpritePlacement,
}

impl<'a> PackedFrameRenderInput<'a> {
    pub fn new(photo_bmp: &'a [u8]) -> (input: Self)
        ensures
            input.photo_bmp@ == photo_bmp@,
            input.sprites.caption is None,
            input.sprites.date is None,
            input.sprites.notice is None,
            input.sprites.status is None,
            input.placement == (SpritePlacement { margin_x: 0, margin_y: 0 }),
    {
        PackedFrameRenderInput {
            photo_bmp,
            sprites: SpriteBmps { caption: None, date: None, notice: None, status: None },
            placement: SpritePlacement { margin_x: 0, margin_y: 0 },
        }
    }

    pub fn with_sprites(self, sprites: SpriteBmps<'a>) -> (input: Self)
        ensures
            input == (PackedFrameRenderInput { sprites, ..self }),
    {
        PackedFrameRenderInput { sprites, ..self }
    }

    pub fn with_placement(self, placement: SpritePlacement) -> (input: Self)
        ensures
            input == (PackedFrameRenderInput { placement, ..self }),
    {
        PackedFrameRenderInput { placement, ..self }
    }
}

/// The opaque sprite `bytes` parses and every visible point of it in `slot` is an ink.
pub open spec fn opaque_sprite_fits(bytes: Seq<u8>, slot: OverlaySlot, placement: SpritePlacement) -> bool {
    match spec_parse_bmp_header(bytes, bytes.len() as int) {
        Ok(header) => {
            let origin = spec_slot_origin(slot, header.width as int, header.height as int, placement.margin_x as int, placement.margin_y as int);
            opaque_drawable(bytes, header, origin.0 as int, origin.1 as int)
        },
        Err(_) => false,
    }
}

/// The frame after the opaque sprite `bytes` was drawn in `slot`, if it is given.
pub open spec fn opaque_sprite_step(before: Seq<u8>, after: Seq<u8>, bytes: Option<&[u8]>, slot: OverlaySlot, placement: SpritePlacement) -> bool {
    match bytes {
        Some(bytes) => match spec_parse_bmp_header(bytes@, bytes@.len() as int) {
            Ok(header) => {
                let origin = spec_slot_origin(slot, header.width as int, header.height as int, placement.margin_x as int, placement.margin_y as int);
                opaque_drawn(before, after, bytes@, header, origin.0 as int, origin.1 as int)
            },
            Err(_) => false,
        },
        None => after == before,
    }
}

/// The photo and every given sprite can be drawn.
pub open spec fn noticed_frame_fits(input: PackedFrameRenderInput) -> bool {
    &&& photo_fits(input.photo_bmp@)
    &&& (input.sprites.caption matches Some(bytes) ==> opaque_sprite_fits(bytes@, OverlaySlot::BottomLeft, input.placement))
    &&& (input.sprites.date matches Some(bytes) ==> opaque_sprite_fits(bytes@, OverlaySlot::BottomRight, input.placement))
    &&& (input.sprites.notice matches Some(bytes) ==> opaque_sprite_fits(bytes@, OverlaySlot::TopLeft, input.placement))
}

/// The frame after the photo, the caption, the date and the notice were drawn in turn.
pub open spec fn noticed_frame_drawn(before: Seq<u8>, after: Seq<u8>, input: PackedFrameRenderInput) -> bool {
    exists|with_photo: Seq<u8>, with_caption: Seq<u8>, with_date: Seq<u8>|
        #![trigger photo_drawn(before, with_photo, input.photo_bmp@), opaque_sprite_step(with_photo, with_caption, input.sprites.caption, OverlaySlot::BottomLeft, input.placement), opaque_sprite_step(with_caption, with_date, input.sprites.date, OverlaySlot::BottomRight, input.placement)]
        {
            &&& photo_drawn(before, with_photo, input.photo_bmp@)
            &&& opaque_sprite_step(with_photo, with_caption, input.sprites.caption, OverlaySlot::BottomLeft, input.placement)
            &&& opaque_sprite_step(with_caption, with_date, input.sprites.date, OverlaySlot::BottomRight, input.placement)
            &&& opaque_sprite_step(with_date, after, input.sprites.notice, OverlaySlot::TopLeft, input.placement)
        }
}

fn draw_opaque_sprite(frame: &mut [u8], sprite_bmp: &[u8], slot: OverlaySlot, placement: SpritePlacement) -> (result: Result<(), RenderError>)
    requires
        old(frame)@.len() == EPD_FRAME_BYTES,
    ensures
        final(frame)@.len() == EPD_FRAME_BYTES,
        result is Ok <==> opaque_sprite_fits(sprite_bmp@, slot, placement),
        result is Ok ==> opaque_sprite_step(old(frame)@, final(frame)@, Some(sprite_bmp), slot, placement),
        spec_parse_bmp_header(sprite_bmp@, sprite_bmp@.len() as int) matches Err(error) ==> result == Err::<(), RenderError>(RenderError::Bmp(error)),
{
    let sprite = match BmpImage::parse(sprite_bmp) {
        Ok(sprite) => sprite,
        Err(error) => {
            return Err(RenderError::Bmp(error));
        },
    };
    let (x, y) = packed_overlay_origin(slot, sprite.width(), sprite.height(), placement);
    draw_bmp_at(frame, &sprite, x, y)
}

/// Draws a photo page into a packed frame: the photo, then the caption bottom
/// left, the date bottom right and the notice top left, each opaque.
pub fn render_epd_packed_frame_from_bmps_into(frame: &mut [u8], input: &PackedFrameRenderInput<'_>) -> (result: Result<(), RenderError>)
    ensures
        old(frame)@.len() != EPD_FRAME_BYTES ==> result == Err::<(), RenderError>(RenderError::InvalidFrameLength)
            && final(frame)@ == old(frame)@,
        old(frame)@.len() == EPD_FRAME_BYTES ==> {
            &&& final(frame)@.len() == EPD_FRAME_BYTES
            &&& (result is Ok <==> noticed_frame_fits(*input))
            &&& (result is Ok ==> noticed_frame_drawn(old(frame)@, final(frame)@, *input))
            &&& (spec_parse_bmp_header(input.photo_bmp@, input.photo_bmp@.len() as int) matches Err(error)
                ==> result == Err::<(), RenderError>(RenderError::Bmp(error)))
            &&& (spec_parse_bmp_header(input.photo_bmp@, input.photo_bmp@.len() as int) matches Ok(header)
                && (header.width != SCREEN_WIDTH || header.height != SCREEN_HEIGHT) ==> result == Err::<(), RenderError>(RenderError::InvalidPhotoSize))
        },
{
    if frame.len() != EPD_FRAME_BYTES {
        return Err(RenderError::InvalidFrameLength);
    }
    let ghost before = frame@;
    let photo = match BmpImage::parse(input.photo_bmp) {
        Ok(photo) => photo,
        Err(error) => {
            return Err(RenderError::Bmp(error));
        },
    };
    if photo.width() != SCREEN_WIDTH || photo.height() != SCREEN_HEIGHT {
        return Err(RenderError::InvalidPhotoSize);
    }
    draw_bmp_at(frame, &photo, 0, 0)?;
    let ghost with_photo = frame@;
    match input.sprites.caption {
        Some(caption) => {
            draw_opaque_sprite(frame, caption, OverlaySlot::BottomLeft, input.placement)?;
        },
        None => {},
    }
    let ghost with_caption = frame@;
    match input.sprites.date {
        Some(date) => {
            draw_opaque_sprite(frame, date, OverlaySlot::BottomRight, input.placement)?;
        },
        None => {},
    }
    let ghost with_date = frame@;
    match input.sprites.notice {
        Some(notice) => {
            draw_opaque_sprite(frame, notice, OverlaySlot::TopLeft, input.placement)?;
        },
        None => {},
    }
    assert(photo_drawn(before, with_photo, input.photo_bmp@));
    assert(opaque_sprite_step(with_photo, with_caption, input.sprites.caption, OverlaySlot::BottomLeft, input.placement));
    assert(opaque_sprite_step(with_caption, with_date, input.sprites.date, OverlaySlot::BottomRight, input.placement));
    Ok(())
}

/// A fresh white frame with a photo page drawn into it.
pub fn render_epd_packed_frame_from_bmps(input: &PackedFrameRenderInput<'_>) -> (result: Result<Vec<u8>, RenderError>)
    ensures
        result is Ok <==> noticed_frame_fits(*input),
        result matches Ok(frame) ==> frame@.len() == EPD_FRAME_BYTES && noticed_frame_drawn(
            Seq::new(EPD_FRAME_BYTES as nat, |_i: int| 0x11u8),
            frame@,
            *input,
        ),
        spec_parse_bmp_header(input.photo_bmp@, input.photo_bmp@.len() as int) matches Err(error) ==> result
            == Err::<Vec<u8>, RenderError>(RenderError::Bmp(error)),
{
    let white = pack_epd_pixels(Color::White, Color::White);
    let mut frame = vec![white; EPD_FRAME_BYTES];
    assert(frame@ =~= Seq::new(EPD_FRAME_BYTES as nat, |_i: int| 0x11u8));
    match render_epd_packed_frame_from_bmps_into(frame.as_mut_slice(), input) {
        Ok(()) => Ok(frame),
        Err(error) => Err(error),
    }
}

} // verus!
