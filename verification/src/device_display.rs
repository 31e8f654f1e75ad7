use crate::app::cycle::{one_more, DeviceDisplay, DisplayRefreshRequest, ErrorRefreshRequest};
use crate::bmp::{spec_parse_bmp_header, BmpImage};
use crate::display::{SCREEN_HEIGHT, SCREEN_WIDTH};
use crate::epd::{
    answered_ok, answered_then_failed, frame_ops, packed_frame_rows, run_epd_packed_frame, stopped_early, BusOp, EpdBus, EpdError, EPD_FRAME_BYTES,
};
use crate::render::error_page::{error_page_drawn, render_builtin_error_page_packed_frame, BuiltinErrorPageInput};
use crate::render::frame::{
    page_drawn, page_fits, photo_fits, render_epd_packed_frame_from_bmps, sprite_fits, PackedFrameRenderInput,
    SpriteBmps, SpritePlacement,
};
use crate::render::text::OverlaySlot;
use crate::render::text::{is_whitespace, spec_is_whitespace};
use crate::render::RenderError;
use vstd::prelude::*;

verus! {

/// How far the caption and date overlays keep from the screen edges.
pub const OVERLAY_MARGIN: usize = 18;

/// Where the display reads its cached photos and sprites from.
pub trait DisplayResourceReader {
    type Error;

    /// Whether the photo `sha256` is on hand and can be shown.
    spec fn holds_photo(&self, sha256: Seq<char>) -> bool;

    fn has_photo(&self, sha256: &str) -> (found: bool)
        ensures
            found == self.holds_photo(sha256@),
    ;

    fn read_photo_bmp(&mut self, sha256: &str) -> Result<Vec<u8>, Self::Error>;

    fn read_sprite_bmp(&mut self, key: &str) -> Result<Option<Vec<u8>>, Self::Error>;
}

/// Why a cached resource could not be read.
#[derive(Clone, Debug, PartialEq, Eq, Structural)]
pub enum DisplayReadError {
    MissingPhoto,
    MountError,
    ReadError,
}

impl DisplayReadError {
    pub open spec fn spec_text(self) -> Seq<char> {
        match self {
            DisplayReadError::MissingPhoto => "missing-photo"@,
            DisplayReadError::MountError => "mount-error"@,
            DisplayReadError::ReadError => "read-error"@,
        }
    }

    /// The short name the device logs for this error.
    pub fn text(&self) -> (text: &'static str)
        ensures
            text@ == self.spec_text(),
    {
        match self {
            DisplayReadError::MissingPhoto => "missing-photo",
            DisplayReadError::MountError => "mount-error",
            DisplayReadError::ReadError => "read-error",
        }
    }
}

/// Why the display could not show a page.
#[derive(Clone, Debug, PartialEq, Eq)]
pub enum DeviceDisplayError<R> {
    Read(R),
    Render(RenderError),
    Epd(EpdError),
}

impl DeviceDisplayError<DisplayReadError> {
    pub open spec fn spec_message(self) -> Seq<char> {
        match self {
            DeviceDisplayError::Read(error) => "display-read: "@ + error.spec_text(),
            DeviceDisplayError::Render(error) => "render: "@ + error.spec_message(),
            DeviceDisplayError::Epd(error) => "epd: "@ + error.spec_text(),
        }
    }

    /// The text the device logs for this failure: where it happened, then the
    /// failure's own text.
    pub fn message(&self) -> (message: String)
        ensures
            message@ == self.spec_message(),
    {
        match self {
            DeviceDisplayError::Read(error) => String::from_str("display-read: ").concat(error.text()),
            DeviceDisplayError::Render(error) => {
                let text = error.message();
                String::from_str("render: ").concat(text.as_str())
            },
            DeviceDisplayError::Epd(error) => String::from_str("epd: ").concat(error.text()),
        }
    }
}

/// A cached photo can be shown: it is a bitmap of exactly the screen's size.
pub open spec fn spec_photo_is_renderable(bytes: Seq<u8>) -> bool {
    match spec_parse_bmp_header(bytes, bytes.len() as int) {
        Ok(header) => header.width == SCREEN_WIDTH && header.height == SCREEN_HEIGHT,
        Err(_) => false,
    }
}

pub fn photo_bmp_is_renderable(bytes: &[u8]) -> (renderable: bool)
    ensures
        renderable == spec_photo_is_renderable(bytes@),
{
    match BmpImage::parse(bytes) {
        Ok(image) => image.width() == SCREEN_WIDTH && image.height() == SCREEN_HEIGHT,
        Err(_) => false,
    }
}

/// Every character of `text` is white space.
pub open spec fn spec_is_blank(text: Seq<char>) -> bool {
    forall|i: int| 0 <= i < text.len() ==> #[trigger] spec_is_whitespace(text[i])
}

pub fn is_blank(text: &str) -> (blank: bool)
    ensures
        blank == spec_is_blank(text@),
{
    let count = text.unicode_len();
    let mut i: usize = 0;
    while i < count
        invariant
            count == text@.len(),
            i <= count,
            forall|j: int| 0 <= j < i ==> #[trigger] spec_is_whitespace(text@[j]),
        decreases count - i,
    {
        if !is_whitespace(text.get_char(i)) {
            return false;
        }
        i = i + 1;
    }
    true
}

/// The caption sprite is read only for a caption that is not blank.
pub open spec fn spec_caption_sprite_key(request: DisplayRefreshRequest) -> Option<String> {
    if spec_is_blank(request.plan.caption@) {
        None
    } else {
        request.sprites.caption
    }
}

pub fn caption_sprite_key(request: &DisplayRefreshRequest) -> (key: Option<&str>)
    ensures
        match spec_caption_sprite_key(*request) {
            Some(expected) => key matches Some(key) && key@ == expected@,
            None => key is None,
        },
{
    if is_blank(request.plan.caption.as_str()) {
        return None;
    }
    match &request.sprites.caption {
        Some(key) => Some(key.as_str()),
        None => None,
    }
}

pub fn date_sprite_key(request: &DisplayRefreshRequest) -> (key: Option<&str>)
    ensures
        match request.sprites.date {
            Some(expected) => key matches Some(key) && key@ == expected@,
            None => key is None,
        },
{
    match &request.sprites.date {
        Some(key) => Some(key.as_str()),
        None => None,
    }
}

fn as_slice_option(bytes: &Option<Vec<u8>>) -> (slice: Option<&[u8]>)
    ensures
        match bytes {
            Some(bytes) => slice matches Some(slice) && slice@ == bytes@,
            None => slice is None,
        },
{
    match bytes {
        Some(bytes) => Some(bytes.as_slice()),
        None => None,
    }
}

/// The packed frame of a photo page with the caption and date sprites placed
/// with the display's margin.
pub fn compose_photo_frame(photo: &[u8], caption: Option<&[u8]>, date: Option<&[u8]>) -> (frame: Result<
    Vec<u8>,
    RenderError,
>)
    ensures
        ({
            let input = PackedFrameRenderInput {
                photo_bmp: photo,
                sprites: SpriteBmps { caption, date, status: None },
                placement: SpritePlacement { margin_x: OVERLAY_MARGIN, margin_y: OVERLAY_MARGIN },
            };
            &&& (frame is Ok <==> page_fits(input))
            &&& (frame matches Ok(frame) ==> frame@.len() == EPD_FRAME_BYTES && page_drawn(
                Seq::new(EPD_FRAME_BYTES as nat, |_i: int| 0x11u8),
                frame@,
                input,
            ))
        }),
{
    let input = PackedFrameRenderInput {
        photo_bmp: photo,
        sprites: SpriteBmps { caption, date, status: None },
        placement: SpritePlacement { margin_x: OVERLAY_MARGIN, margin_y: OVERLAY_MARGIN },
    };
    render_epd_packed_frame_from_bmps(&input)
}

/// A white packed frame.
pub open spec fn white_frame() -> Seq<u8> {
    Seq::new(EPD_FRAME_BYTES as nat, |_i: int| 0x11u8)
}

/// The whole of the packed frame `frame` was sent to the panel.
pub open spec fn frame_sent(before: Seq<BusOp>, after: Seq<BusOp>, frame: Seq<u8>) -> bool {
    after == before + frame_ops(packed_frame_rows(frame))
}

/// Sending the packed frame `frame` stopped at a failure after its beginning.
pub open spec fn frame_cut_short(before: Seq<BusOp>, after: Seq<BusOp>, frame: Seq<u8>) -> bool {
    stopped_early(before, after, frame_ops(packed_frame_rows(frame)))
}

/// The overlays of a photo page keep the display's margin from the edges.
pub open spec fn overlay_placement() -> SpritePlacement {
    SpritePlacement { margin_x: OVERLAY_MARGIN, margin_y: OVERLAY_MARGIN }
}

/// The bytes of an optional sprite.
pub open spec fn opt_bytes(bytes: Option<&[u8]>) -> Option<Seq<u8>> {
    match bytes {
        Some(bytes) => Some(bytes@),
        None => None,
    }
}

/// A photo page can be drawn from these bytes: the photo fills the screen and
/// each sprite given fits in its corner.
pub open spec fn photo_page_fits(photo: Seq<u8>, caption: Option<Seq<u8>>, date: Option<Seq<u8>>) -> bool {
    &&& photo_fits(photo)
    &&& (caption matches Some(bytes) ==> sprite_fits(bytes, OverlaySlot::BottomLeft, overlay_placement()))
    &&& (date matches Some(bytes) ==> sprite_fits(bytes, OverlaySlot::BottomRight, overlay_placement()))
}

/// `frame` is the photo page drawn on a white frame from these bytes: the photo,
/// then the caption sprite and the date sprite at the display's margin.
pub open spec fn photo_page_drawn(frame: Seq<u8>, photo: Seq<u8>, caption: Option<Seq<u8>>, date: Option<Seq<u8>>) -> bool {
    exists|input: PackedFrameRenderInput|
        {
            &&& input.photo_bmp@ == photo
            &&& opt_bytes(input.sprites.caption) == caption
            &&& opt_bytes(input.sprites.date) == date
            &&& input.sprites.status is None
            &&& input.placement == overlay_placement()
            &&& #[trigger] page_drawn(white_frame(), frame, input)
        }
}

/// A photo read as the display records it: the bytes, or the reader's error.
pub open spec fn photo_answer<E>(answer: Result<Vec<u8>, E>) -> Result<Seq<u8>, E> {
    match answer {
        Ok(bytes) => Ok(bytes@),
        Err(error) => Err(error),
    }
}

/// A sprite read as the display records it: the bytes if there is such a
/// sprite, or the reader's error.
pub open spec fn sprite_answer<E>(answer: Result<Option<Vec<u8>>, E>) -> Result<Option<Seq<u8>>, E> {
    match answer {
        Ok(Some(bytes)) => Ok(Some(bytes@)),
        Ok(None) => Ok(None),
        Err(error) => Err(error),
    }
}

pub open spec fn key_seq(key: Option<String>) -> Seq<Seq<char>> {
    match key {
        Some(key) => seq![key@],
        None => Seq::empty(),
    }
}

/// The sprites a photo page reads, in order: the caption sprite (when the
/// request names one and its caption is not blank), then the date sprite.
pub open spec fn sprite_keys(request: DisplayRefreshRequest) -> Seq<Seq<char>> {
    key_seq(spec_caption_sprite_key(request)) + key_seq(request.sprites.date)
}

/// The sprite reads of a photo page after its photo read: none after a failed
/// photo read; otherwise the planned sprites in order, stopping at the first
/// failed read.
pub open spec fn sprite_reads_follow<E>(
    request: DisplayRefreshRequest,
    photo: Result<Seq<u8>, E>,
    made: Seq<(Seq<char>, Result<Option<Seq<u8>>, E>)>,
) -> bool {
    if photo is Err {
        made.len() == 0
    } else {
        let keys = sprite_keys(request);
        &&& made.len() <= keys.len()
        &&& forall|i: int| 0 <= i < made.len() ==> #[trigger] made[i].0 == keys[i]
        &&& forall|i: int| 0 <= i < made.len() - 1 ==> (#[trigger] made[i]).1 is Ok
        &&& (made.len() < keys.len() ==> made.len() > 0 && made.last().1 is Err)
    }
}

/// Whether one of the reads of a photo page failed.
pub open spec fn read_failed<E>(photo: Result<Seq<u8>, E>, made: Seq<(Seq<char>, Result<Option<Seq<u8>>, E>)>) -> bool {
    photo is Err || (made.len() > 0 && made.last().1 is Err)
}

/// The reader's error of the failed read.
pub open spec fn read_failure<E>(photo: Result<Seq<u8>, E>, made: Seq<(Seq<char>, Result<Option<Seq<u8>>, E>)>) -> E {
    if photo is Err {
        photo->Err_0
    } else {
        made.last().1->Err_0
    }
}

/// The caption sprite read for a photo page, if it reads one.
pub open spec fn read_caption<E>(request: DisplayRefreshRequest, made: Seq<(Seq<char>, Result<Option<Seq<u8>>, E>)>) -> Option<Seq<u8>> {
    if spec_caption_sprite_key(request) is Some {
        made[0].1->Ok_0
    } else {
        None
    }
}

/// The date sprite read for a photo page, if it reads one.
pub open spec fn read_date<E>(request: DisplayRefreshRequest, made: Seq<(Seq<char>, Result<Option<Seq<u8>>, E>)>) -> Option<Seq<u8>> {
    if request.sprites.date is Some {
        made.last().1->Ok_0
    } else {
        None
    }
}

/// A display made of a resource reader and the wires to the panel: it reads a
/// cached photo and its sprites, draws a packed frame and sends it. It keeps a
/// record of every read it made and what the reader answered.
pub struct PackedFrameDisplay<R: DisplayResourceReader, B> {
    reader: R,
    bus: B,
    photo_reads: Ghost<Seq<(Seq<char>, Result<Seq<u8>, R::Error>)>>,
    sprite_reads: Ghost<Seq<(Seq<char>, Result<Option<Seq<u8>>, R::Error>)>>,
    photo_pages: Ghost<Seq<DisplayRefreshRequest>>,
    error_pages: Ghost<Seq<ErrorRefreshRequest>>,
    page_answers: Ghost<Seq<Result<(), String>>>,
}

impl<R: DisplayResourceReader, B: EpdBus> PackedFrameDisplay<R, B> {
    pub fn new(reader: R, bus: B) -> (display: Self)
        ensures
            display.parts() == (reader, bus),
            display.photo_reads().len() == 0,
            display.sprite_reads().len() == 0,
            display.photo_pages().len() == 0,
            display.error_pages().len() == 0,
            display.page_answers().len() == 0,
    {
        PackedFrameDisplay {
            reader,
            bus,
            photo_reads: Ghost(Seq::empty()),
            sprite_reads: Ghost(Seq::empty()),
            photo_pages: Ghost(Seq::empty()),
            error_pages: Ghost(Seq::empty()),
            page_answers: Ghost(Seq::empty()),
        }
    }

    /// The photo pages asked of the display as a device display, in order.
    pub closed spec fn photo_pages(&self) -> Seq<DisplayRefreshRequest> {
        self.photo_pages@
    }

    /// The error pages asked of the display as a device display, in order.
    pub closed spec fn error_pages(&self) -> Seq<ErrorRefreshRequest> {
        self.error_pages@
    }

    /// The answers the display gave as a device display, in order.
    pub closed spec fn page_answers(&self) -> Seq<Result<(), String>> {
        self.page_answers@
    }

    pub closed spec fn parts(&self) -> (R, B) {
        (self.reader, self.bus)
    }

    /// The photos read so far, each with the reader's answer, in order.
    pub closed spec fn photo_reads(&self) -> Seq<(Seq<char>, Result<Seq<u8>, R::Error>)> {
        self.photo_reads@
    }

    /// The sprites read so far, each with the reader's answer, in order.
    pub closed spec fn sprite_reads(&self) -> Seq<(Seq<char>, Result<Option<Seq<u8>>, R::Error>)> {
        self.sprite_reads@
    }

    /// What drawing one photo page does, going from `self` to `after`: one
    /// photo read of the request's image, the sprite reads the request calls
    /// for, and then either a failed read or drawing (nothing sent), or the
    /// page drawn from what was read and handed to the bus; the result says
    /// which, and a bus failure leaves the frame cut short.
    pub open spec fn photo_page_done(
        &self,
        after: Self,
        request: DisplayRefreshRequest,
        result: Result<(), DeviceDisplayError<R::Error>>,
    ) -> bool {
        let photo = after.photo_reads().last().1;
        let made = after.sprite_reads().skip(self.sprite_reads().len() as int);
        let ops_before = self.parts().1.operations();
        let ops_after = after.parts().1.operations();
        &&& one_more(self.photo_reads(), after.photo_reads())
        &&& after.photo_reads().last().0 == request.plan.image@
        &&& after.sprite_reads().take(self.sprite_reads().len() as int) == self.sprite_reads()
        &&& sprite_reads_follow(request, photo, made)
        &&& if read_failed(photo, made) {
            &&& result == Err::<(), DeviceDisplayError<R::Error>>(DeviceDisplayError::Read(read_failure(photo, made)))
            &&& ops_after == ops_before
        } else if !photo_page_fits(photo->Ok_0, read_caption(request, made), read_date(request, made)) {
            &&& result is Err
            &&& result->Err_0 is Render
            &&& ops_after == ops_before
        } else {
            &&& (result is Ok ==> exists|frame: Seq<u8>|
                frame.len() == EPD_FRAME_BYTES && photo_page_drawn(
                    frame,
                    photo->Ok_0,
                    read_caption(request, made),
                    read_date(request, made),
                ) && #[trigger] frame_sent(ops_before, ops_after, frame))
            &&& (result is Ok <==> answered_ok(self.parts().1.answers(), after.parts().1.answers()))
            &&& (result is Err ==> answered_then_failed(self.parts().1.answers(), after.parts().1.answers()))
            &&& (result is Err ==> result->Err_0 is Epd && exists|frame: Seq<u8>|
                frame.len() == EPD_FRAME_BYTES && photo_page_drawn(
                    frame,
                    photo->Ok_0,
                    read_caption(request, made),
                    read_date(request, made),
                ) && #[trigger] frame_cut_short(ops_before, ops_after, frame))
        }
    }

    /// What drawing one error page does, going from `self` to `after`: no
    /// resource is read and the reader is untouched; the page drawn from the
    /// request's four texts is handed to the bus, and the result is success
    /// exactly when the bus took the whole frame (a failure is the bus's, and
    /// leaves the frame cut short).
    pub open spec fn error_page_done(
        &self,
        after: Self,
        request: ErrorRefreshRequest,
        result: Result<(), DeviceDisplayError<R::Error>>,
    ) -> bool {
        let ops_before = self.parts().1.operations();
        let ops_after = after.parts().1.operations();
        &&& !(result is Err && result->Err_0 is Read)
        &&& !(result is Err && result->Err_0 is Render)
        &&& after.parts().0 == self.parts().0
        &&& after.photo_reads() == self.photo_reads()
        &&& after.sprite_reads() == self.sprite_reads()
        &&& (result is Ok <==> answered_ok(self.parts().1.answers(), after.parts().1.answers()))
        &&& (result is Err ==> answered_then_failed(self.parts().1.answers(), after.parts().1.answers()))
        &&& (result is Ok ==> exists|frame: Seq<u8>|
            error_page_drawn(white_frame(), frame, request.title@, request.message@, request.hint@, request.detail@)
                && #[trigger] frame_sent(ops_before, ops_after, frame))
        &&& (result is Err ==> exists|frame: Seq<u8>|
            error_page_drawn(white_frame(), frame, request.title@, request.message@, request.hint@, request.detail@)
                && #[trigger] frame_cut_short(ops_before, ops_after, frame))
    }

    pub fn into_parts(self) -> (parts: (R, B))
        ensures
            parts == self.parts(),
    {
        (self.reader, self.bus)
    }

    /// Reads the photo of the request, the caption sprite (for a caption that is
    /// not blank) and the date sprite, draws them and sends the frame. Nothing
    /// reaches the panel when a read or the drawing fails.
    pub fn draw_photo_page(&mut self, request: DisplayRefreshRequest) -> (result: Result<(), DeviceDisplayError<R::Error>>)
        ensures
            final(self).photo_pages() == old(self).photo_pages(),
            final(self).error_pages() == old(self).error_pages(),
            final(self).page_answers() == old(self).page_answers(),
            old(self).photo_page_done(*final(self), request, result),
    {
        let ghost sprites_before = self.sprite_reads@;
        let answer = self.reader.read_photo_bmp(request.plan.image.as_str());
        self.photo_reads = Ghost(self.photo_reads@.push((request.plan.image@, photo_answer(answer))));
        proof {
            assert(self.photo_reads@.take(old(self).photo_reads@.len() as int) =~= old(self).photo_reads@);
        }
        let photo = match answer {
            Ok(photo) => photo,
            Err(error) => {
                proof {
                    assert(self.sprite_reads@.skip(sprites_before.len() as int) =~= Seq::<
                        (Seq<char>, Result<Option<Seq<u8>>, R::Error>),
                    >::empty());
                    let after = *self;
                    let made = after.sprite_reads().skip(old(self).sprite_reads().len() as int);
                    assert(one_more(old(self).photo_reads(), after.photo_reads()));
                    assert(after.photo_reads().last().0 == request.plan.image@);
                    assert(after.sprite_reads().take(old(self).sprite_reads().len() as int) == old(self).sprite_reads());
                    assert(sprite_reads_follow(request, after.photo_reads().last().1, made));
                    assert(read_failed(after.photo_reads().last().1, made));
                    assert(after.parts().1 == old(self).parts().1);
                }
                return Err(DeviceDisplayError::Read(error));
            },
        };
        let ghost keys = sprite_keys(request);
        let caption: Option<Vec<u8>> = match caption_sprite_key(&request) {
            Some(key) => {
                let answer = self.reader.read_sprite_bmp(key);
                self.sprite_reads = Ghost(self.sprite_reads@.push((key@, sprite_answer(answer))));
                proof {
                    assert(self.sprite_reads@.take(sprites_before.len() as int) =~= sprites_before);
                    assert(self.sprite_reads@.skip(sprites_before.len() as int) =~= seq![(key@, sprite_answer(answer))]);
                }
                match answer {
                    Ok(bytes) => bytes,
                    Err(error) => {
                        return Err(DeviceDisplayError::Read(error));
                    },
                }
            },
            None => {
                proof {
                    assert(self.sprite_reads@.skip(sprites_before.len() as int) =~= Seq::<
                        (Seq<char>, Result<Option<Seq<u8>>, R::Error>),
                    >::empty());
                }
                None
            },
        };
        let ghost after_caption = self.sprite_reads@;
        let date: Option<Vec<u8>> = match date_sprite_key(&request) {
            Some(key) => {
                let answer = self.reader.read_sprite_bmp(key);
                self.sprite_reads = Ghost(self.sprite_reads@.push((key@, sprite_answer(answer))));
                proof {
                    assert(self.sprite_reads@.take(sprites_before.len() as int) =~= sprites_before);
                    assert(self.sprite_reads@.skip(sprites_before.len() as int) =~= after_caption.skip(
                        sprites_before.len() as int,
                    ).push((key@, sprite_answer(answer))));
                }
                match answer {
                    Ok(bytes) => bytes,
                    Err(error) => {
                        return Err(DeviceDisplayError::Read(error));
                    },
                }
            },
            None => None,
        };
        let photo_slice = photo.as_slice();
        let caption_slice = as_slice_option(&caption);
        let date_slice = as_slice_option(&date);
        let ghost made = self.sprite_reads@.skip(sprites_before.len() as int);
        assert(read_caption(request, made) == opt_bytes(caption_slice));
        assert(read_date(request, made) == opt_bytes(date_slice));
        proof {
            let after = *self;
            assert(one_more(old(self).photo_reads(), after.photo_reads()));
            assert(after.photo_reads().last().0 == request.plan.image@);
            assert(after.sprite_reads().take(old(self).sprite_reads().len() as int) == old(self).sprite_reads());
            assert(sprite_reads_follow(request, after.photo_reads().last().1, made));
            assert(!read_failed(after.photo_reads().last().1, made));
            assert(after.parts().1 == old(self).parts().1);
        }
        let ghost reads_done = *self;
        let frame = match compose_photo_frame(photo_slice, caption_slice, date_slice) {
            Ok(frame) => frame,
            Err(error) => {
                return Err(DeviceDisplayError::Render(error));
            },
        };
        proof {
            let input = PackedFrameRenderInput {
                photo_bmp: photo_slice,
                sprites: SpriteBmps { caption: caption_slice, date: date_slice, status: None },
                placement: SpritePlacement { margin_x: OVERLAY_MARGIN, margin_y: OVERLAY_MARGIN },
            };
            assert(white_frame() =~= Seq::new(EPD_FRAME_BYTES as nat, |_i: int| 0x11u8));
            assert(page_drawn(white_frame(), frame@, input));
        }
        let ghost before = self.bus.operations();
        assert(before == old(self).parts().1.operations());
        let sent = run_epd_packed_frame(&mut self.bus, frame.as_slice());
        proof {
            assert(white_frame() =~= Seq::new(EPD_FRAME_BYTES as nat, |_i: int| 0x11u8));
            assert(self.parts().1 == self.bus);
            assert(frame_sent(before, self.bus.operations(), frame@) || frame_cut_short(
                before,
                self.bus.operations(),
                frame@,
            ));
        }
        assert(self.photo_reads() == reads_done.photo_reads());
        assert(self.sprite_reads() == reads_done.sprite_reads());
        match sent {
            Ok(()) => {
                assert(frame_sent(before, self.bus.operations(), frame@));
                assert(frame@.len() == EPD_FRAME_BYTES);
                Ok(())
            },
            Err(error) => {
                assert(frame_cut_short(before, self.bus.operations(), frame@));
                assert(frame@.len() == EPD_FRAME_BYTES);
                Err(DeviceDisplayError::Epd(error))
            },
        }
    }

    /// Draws the built-in error page for the request and sends it; no resource is read.
    pub fn draw_error_page(&mut self, request: ErrorRefreshRequest) -> (result: Result<(), DeviceDisplayError<R::Error>>)
        ensures
            final(self).photo_pages() == old(self).photo_pages(),
            final(self).error_pages() == old(self).error_pages(),
            final(self).page_answers() == old(self).page_answers(),
            old(self).error_page_done(*final(self), request, result),
    {
        let input = BuiltinErrorPageInput::new(request.title.as_str(), request.message.as_str()).with_hint(
            request.hint.as_str(),
        ).with_detail(request.detail.as_str());
        let frame = render_builtin_error_page_packed_frame(&input);
        let ghost before = self.bus.operations();
        assert(before == old(self).parts().1.operations());
        let sent = run_epd_packed_frame(&mut self.bus, frame.as_slice());
        proof {
            assert(white_frame() =~= Seq::new(EPD_FRAME_BYTES as nat, |_i: int| 0x11u8));
            assert(self.parts().1 == self.bus);
            assert(frame_sent(before, self.bus.operations(), frame@) || frame_cut_short(
                before,
                self.bus.operations(),
                frame@,
            ));
        }
        proof {
            assert(error_page_drawn(white_frame(), frame@, request.title@, request.message@, request.hint@, request.detail@));
        }
        match sent {
            Ok(()) => {
                assert(frame_sent(before, self.bus.operations(), frame@));
                Ok(())
            },
            Err(error) => {
                assert(frame_cut_short(before, self.bus.operations(), frame@));
                Err(DeviceDisplayError::Epd(error))
            },
        }
    }

}

/// `answer` is how the packed-frame display reports `outcome` as a device
/// display: success as success, a failure as the failure's message.
pub open spec fn reported_as(outcome: Result<(), DeviceDisplayError<DisplayReadError>>, answer: Result<(), String>) -> bool {
    match outcome {
        Ok(()) => answer is Ok,
        Err(error) => answer is Err && answer->Err_0@ == error.spec_message(),
    }
}

/// The packed-frame display drives a device cycle: it draws each page asked of
/// it as its own `draw_photo_page` and `draw_error_page` do, reports a failure
/// as the failure's message, and has an image exactly when its reader holds it.
impl<R: DisplayResourceReader<Error = DisplayReadError>, B: EpdBus> DeviceDisplay for PackedFrameDisplay<R, B> {
    type Error = String;

    closed spec fn photo_requests(&self) -> Seq<DisplayRefreshRequest> {
        self.photo_pages@
    }

    closed spec fn page_requests(&self) -> Seq<ErrorRefreshRequest> {
        self.error_pages@
    }

    closed spec fn answers(&self) -> Seq<Result<(), String>> {
        self.page_answers@
    }

    /// The display holds a photo when its reader does.
    open spec fn holds_image(&self, sha256: Seq<char>) -> bool {
        self.parts().0.holds_photo(sha256)
    }

    /// Draws the photo page as `draw_photo_page` does and reports how it went.
    fn refresh(&mut self, request: DisplayRefreshRequest) -> (result: Result<(), String>)
        ensures
            exists|outcome: Result<(), DeviceDisplayError<DisplayReadError>>|
                #[trigger] reported_as(outcome, result) && old(self).photo_page_done(*final(self), request, outcome),
    {
        let ghost handed = request;
        let drawn = self.draw_photo_page(request);
        let ghost drawn_parts = self.parts();
        let ghost drawn_state = *self;
        let ghost outcome = drawn;
        let answer = match drawn {
            Ok(()) => Ok(()),
            Err(error) => Err(error.message()),
        };
        self.photo_pages = Ghost(self.photo_pages@.push(handed));
        self.page_answers = Ghost(self.page_answers@.push(answer));
        assert(self.parts() == drawn_parts);
        proof {
            assert(self.photo_reads() == drawn_state.photo_reads());
            assert(self.sprite_reads() == drawn_state.sprite_reads());
            assert(old(self).photo_page_done(drawn_state, handed, outcome));
            assert(old(self).photo_page_done(*self, handed, outcome));
            assert(reported_as(outcome, answer));
        }
        answer
    }

    /// Draws the error page as `draw_error_page` does and reports how it went.
    fn refresh_error_page(&mut self, request: ErrorRefreshRequest) -> (result: Result<(), String>)
        ensures
            exists|outcome: Result<(), DeviceDisplayError<DisplayReadError>>|
                #[trigger] reported_as(outcome, result) && old(self).error_page_done(*final(self), request, outcome),
    {
        let ghost handed = request;
        let drawn = self.draw_error_page(request);
        let ghost drawn_parts = self.parts();
        let ghost drawn_state = *self;
        let ghost outcome = drawn;
        let answer = match drawn {
            Ok(()) => Ok(()),
            Err(error) => Err(error.message()),
        };
        self.error_pages = Ghost(self.error_pages@.push(handed));
        self.page_answers = Ghost(self.page_answers@.push(answer));
        assert(self.parts() == drawn_parts);
        proof {
            assert(self.photo_reads() == drawn_state.photo_reads());
            assert(self.sprite_reads() == drawn_state.sprite_reads());
            assert(old(self).error_page_done(drawn_state, handed, outcome));
            assert(old(self).error_page_done(*self, handed, outcome));
            assert(reported_as(outcome, answer));
        }
        answer
    }

    /// Asks the reader whether it holds the photo `sha256`.
    fn has_image(&self, sha256: &str) -> (found: bool)
        ensures
            found == self.parts().0.holds_photo(sha256@),
    {
        self.reader.has_photo(sha256)
    }
}

/// The bytes kept under `key` in `entries`: those of the first entry with
/// that key, if any.
pub open spec fn lookup(entries: Seq<(String, Vec<u8>)>, key: Seq<char>) -> Option<Seq<u8>>
    decreases entries.len(),
{
    if entries.len() == 0 {
        None
    } else if entries[0].0@ == key {
        Some(entries[0].1@)
    } else {
        lookup(entries.drop_first(), key)
    }
}

/// Finds the first entry kept under `key`.
fn find_entry(entries: &Vec<(String, Vec<u8>)>, key: &str) -> (found: Option<usize>)
    ensures
        match found {
            Some(index) => index < entries@.len() && lookup(entries@, key@) == Some(entries@[index as int].1@),
            None => lookup(entries@, key@) is None,
        },
{
    let target = key.to_owned();
    let mut index: usize = 0;
    assert(entries@.subrange(0, entries@.len() as int) =~= entries@);
    while index < entries.len()
        invariant
            index <= entries@.len(),
            target@ == key@,
            lookup(entries@, key@) == lookup(entries@.subrange(index as int, entries@.len() as int), key@),
        decreases entries@.len() - index,
    {
        let ghost rest = entries@.subrange(index as int, entries@.len() as int);
        assert(rest.drop_first() =~= entries@.subrange(index + 1, entries@.len() as int));
        assert(rest[0] == entries@[index as int]);
        if entries[index].0 == target {
            return Some(index);
        }
        index = index + 1;
    }
    assert(entries@.subrange(index as int, entries@.len() as int).len() == 0);
    None
}

/// A reader over photos and sprites already loaded into memory, each kept
/// under its key; it counts the reads it answers.
pub struct MemoryResourceReader {
    pub photos: Vec<(String, Vec<u8>)>,
    pub sprites: Vec<(String, Vec<u8>)>,
    pub photo_reads: usize,
    pub sprite_reads: usize,
}

impl MemoryResourceReader {
    /// A reader that holds nothing and has answered no read.
    pub fn new() -> (reader: Self)
        ensures
            reader.photos@.len() == 0,
            reader.sprites@.len() == 0,
            reader.photo_reads == 0,
            reader.sprite_reads == 0,
    {
        MemoryResourceReader { photos: Vec::new(), sprites: Vec::new(), photo_reads: 0, sprite_reads: 0 }
    }
}

impl DisplayResourceReader for MemoryResourceReader {
    type Error = DisplayReadError;

    /// A photo is on hand when bytes are kept under its name and they are a
    /// bitmap of exactly the screen's size.
    open spec fn holds_photo(&self, sha256: Seq<char>) -> bool {
        match lookup(self.photos@, sha256) {
            Some(bytes) => spec_photo_is_renderable(bytes),
            None => false,
        }
    }

    fn has_photo(&self, sha256: &str) -> (found: bool) {
        match find_entry(&self.photos, sha256) {
            Some(index) => photo_bmp_is_renderable(self.photos[index].1.as_slice()),
            None => false,
        }
    }

    fn read_photo_bmp(&mut self, sha256: &str) -> (result: Result<Vec<u8>, DisplayReadError>)
        ensures
            final(self).photos@ == old(self).photos@,
            final(self).sprites@ == old(self).sprites@,
            final(self).sprite_reads == old(self).sprite_reads,
            final(self).photo_reads == (if old(self).photo_reads == usize::MAX { usize::MAX } else { (old(self).photo_reads + 1) as usize }),
            match lookup(old(self).photos@, sha256@) {
                Some(bytes) => result is Ok && result->Ok_0@ == bytes,
                None => result == Err::<Vec<u8>, DisplayReadError>(DisplayReadError::MissingPhoto),
            },
    {
        self.photo_reads = self.photo_reads.saturating_add(1);
        match find_entry(&self.photos, sha256) {
            Some(index) => Ok(self.photos[index].1.clone()),
            None => Err(DisplayReadError::MissingPhoto),
        }
    }

    fn read_sprite_bmp(&mut self, key: &str) -> (result: Result<Option<Vec<u8>>, DisplayReadError>)
        ensures
            final(self).photos@ == old(self).photos@,
            final(self).sprites@ == old(self).sprites@,
            final(self).photo_reads == old(self).photo_reads,
            final(self).sprite_reads == (if old(self).sprite_reads == usize::MAX { usize::MAX } else { (old(self).sprite_reads + 1) as usize }),
            result is Ok,
            match lookup(old(self).sprites@, key@) {
                Some(bytes) => result->Ok_0 is Some && result->Ok_0->Some_0@ == bytes,
                None => result->Ok_0 is None,
            },
    {
        self.sprite_reads = self.sprite_reads.saturating_add(1);
        match find_entry(&self.sprites, key) {
            Some(index) => Ok(Some(self.sprites[index].1.clone())),
            None => Ok(None),
        }
    }
}

} // verus!
