use super::text::{
    centered_text_code, draw_centered_text_in_area, draw_centered_wrapped_text_in_area, fill_packed_frame_rect,
    wrapped_text_code, TextStyle,
};
use crate::display::{in_rect, on_screen, Color, SCREEN_WIDTH};
use crate::epd::{logical_code, pack_epd_pixels, spec_epd_color_code, EPD_FRAME_BYTES};
use vstd::prelude::*;

verus! {

pub const ERROR_TITLE_BOX_X: usize = 56;

pub const ERROR_TITLE_BOX_Y: usize = 42;

pub const ERROR_TITLE_BOX_HEIGHT: usize = 92;

pub const ERROR_MESSAGE_AREA_Y: usize = 154;

pub const ERROR_MESSAGE_AREA_HEIGHT: usize = 94;

pub const ERROR_HINT_AREA_Y: usize = 250;

pub const ERROR_HINT_AREA_HEIGHT: usize = 80;

pub const ERROR_DETAIL_AREA_X: usize = 96;

pub const ERROR_DETAIL_AREA_Y: usize = 334;

pub const ERROR_DETAIL_AREA_WIDTH: usize = 608;

pub const ERROR_DETAIL_AREA_HEIGHT: usize = 102;

/// The texts of the device's own error page; hint and detail may be empty.
#[derive(Clone, Copy, Debug, PartialEq, Eq)]
pub struct BuiltinErrorPageInput<'a> {
    pub title: &'a str,
    pub message: &'a str,
    pub hint: &'a str,
    pub detail: &'a str,
}

impl<'a> BuiltinErrorPageInput<'a> {
    pub fn new(title: &'a str, message: &'a str) -> (input: Self)
        ensures
            input.title@ == title@,
            input.message@ == message@,
            input.hint@ == Seq::<char>::empty(),
            input.detail@ == Seq::<char>::empty(),
    {
        let input = BuiltinErrorPageInput { title, message, hint: "", detail: "" };
        proof {
            reveal_strlit("");
        }
        input
    }

    pub fn with_hint(self, hint: &'a str) -> (input: Self)
        ensures
            input == (BuiltinErrorPageInput { hint, ..self }),
    {
        BuiltinErrorPageInput { hint, ..self }
    }

    pub fn with_detail(self, detail: &'a str) -> (input: Self)
        ensures
            input == (BuiltinErrorPageInput { detail, ..self }),
    {
        BuiltinErrorPageInput { detail, ..self }
    }
}

/// The ink code of `(px, py)` on an error page drawn over a point that showed
/// `prev`, in drawing order: the black title box and the rules round it, the
/// title centred in the box, the three lower rules, the message, the hint (when
/// there is one) and the wrapped detail (when there is one).
pub open spec fn error_page_code(
    prev: int,
    title: Seq<char>,
    message: Seq<char>,
    hint: Seq<char>,
    detail: Seq<char>,
    px: int,
    py: int,
) -> int {
    let black = spec_epd_color_code(Color::Black) as int;
    let boxed = if in_rect(px, py, 56, 42, 688, 92) || in_rect(px, py, 56, 138, 688, 4) || in_rect(
        px,
        py,
        56,
        34,
        688,
        4,
    ) {
        black
    } else {
        prev
    };
    let titled = centered_text_code(
        boxed,
        title,
        ERROR_TITLE_BOX_Y,
        ERROR_TITLE_BOX_HEIGHT,
        spec_title_style(),
        px,
        py,
    );
    let ruled = if in_rect(px, py, 96, 248, 608, 2) || in_rect(px, py, 96, 330, 608, 2) || in_rect(
        px,
        py,
        96,
        436,
        608,
        2,
    ) {
        black
    } else {
        titled
    };
    let messaged = centered_text_code(
        ruled,
        message,
        ERROR_MESSAGE_AREA_Y,
        ERROR_MESSAGE_AREA_HEIGHT,
        spec_message_style(),
        px,
        py,
    );
    let hinted = if hint.len() > 0 {
        centered_text_code(messaged, hint, ERROR_HINT_AREA_Y, ERROR_HINT_AREA_HEIGHT, spec_hint_style(), px, py)
    } else {
        messaged
    };
    if detail.len() > 0 {
        wrapped_text_code(
            hinted,
            detail,
            (ERROR_DETAIL_AREA_X, ERROR_DETAIL_AREA_Y, ERROR_DETAIL_AREA_WIDTH, ERROR_DETAIL_AREA_HEIGHT),
            spec_detail_style(),
            px,
            py,
        )
    } else {
        hinted
    }
}

/// An error page with these texts was drawn over `before`.
pub open spec fn error_page_drawn(
    before: Seq<u8>,
    after: Seq<u8>,
    title: Seq<char>,
    message: Seq<char>,
    hint: Seq<char>,
    detail: Seq<char>,
) -> bool {
    &&& after.len() == before.len()
    &&& forall|px: int, py: int|
        on_screen(px, py) ==> #[trigger] logical_code(after, px, py) == error_page_code(
            logical_code(before, px, py),
            title,
            message,
            hint,
            detail,
            px,
            py,
        )
}

pub open spec fn spec_title_style() -> TextStyle {
    TextStyle {
        foreground: Color::White,
        background: Color::Black,
        padding_x: 20,
        padding_y: 12,
        margin_x: 0,
        margin_y: 0,
        glyph_width: 15,
        glyph_height: 21,
        glyph_gap: 4,
    }
}

pub open spec fn spec_message_style() -> TextStyle {
    TextStyle {
        foreground: Color::Black,
        background: Color::White,
        padding_x: 0,
        padding_y: 0,
        margin_x: 0,
        margin_y: 0,
        glyph_width: 10,
        glyph_height: 14,
        glyph_gap: 3,
    }
}

pub open spec fn spec_hint_style() -> TextStyle {
    TextStyle { glyph_width: 8, glyph_height: 11, glyph_gap: 2, ..spec_message_style() }
}

pub open spec fn spec_detail_style() -> TextStyle {
    TextStyle {
        foreground: Color::Black,
        background: Color::White,
        padding_x: 12,
        padding_y: 10,
        margin_x: 0,
        margin_y: 0,
        glyph_width: 8,
        glyph_height: 11,
        glyph_gap: 2,
    }
}

pub fn title_style() -> (style: TextStyle)
    ensures
        style == spec_title_style(),
{
    TextStyle {
        foreground: Color::White,
        background: Color::Black,
        padding_x: 20,
        padding_y: 12,
        margin_x: 0,
        margin_y: 0,
        glyph_width: 15,
        glyph_height: 21,
        glyph_gap: 4,
    }
}

pub fn message_style() -> (style: TextStyle)
    ensures
        style == spec_message_style(),
{
    TextStyle {
        foreground: Color::Black,
        background: Color::White,
        padding_x: 0,
        padding_y: 0,
        margin_x: 0,
        margin_y: 0,
        glyph_width: 10,
        glyph_height: 14,
        glyph_gap: 3,
    }
}

pub fn hint_style() -> (style: TextStyle)
    ensures
        style == spec_hint_style(),
{
    let message = message_style();
    TextStyle { glyph_width: 8, glyph_height: 11, glyph_gap: 2, ..message }
}

pub fn detail_style() -> (style: TextStyle)
    ensures
        style == spec_detail_style(),
{
    TextStyle {
        foreground: Color::Black,
        background: Color::White,
        padding_x: 12,
        padding_y: 10,
        margin_x: 0,
        margin_y: 0,
        glyph_width: 8,
        glyph_height: 11,
        glyph_gap: 2,
    }
}

/// Draws the error page: the black title box with the title in white, its two
/// rules, the message, the hint and the wrapped detail between their lines.
pub fn render_builtin_error_page_into_frame(frame: &mut [u8], input: &BuiltinErrorPageInput<'_>)
    ensures
        old(frame)@.len() != EPD_FRAME_BYTES ==> final(frame)@ == old(frame)@,
        old(frame)@.len() == EPD_FRAME_BYTES ==> error_page_drawn(
            old(frame)@,
            final(frame)@,
            input.title@,
            input.message@,
            input.hint@,
            input.detail@,
        ),
{
    if frame.len() != EPD_FRAME_BYTES {
        return;
    }
    let title = title_style();
    let message = message_style();
    let hint = hint_style();
    let detail = detail_style();
    let ghost before = frame@;
    fill_packed_frame_rect(
        frame,
        ERROR_TITLE_BOX_X,
        ERROR_TITLE_BOX_Y,
        SCREEN_WIDTH - 112,
        ERROR_TITLE_BOX_HEIGHT,
        Color::Black,
    );
    fill_packed_frame_rect(frame, 56, 138, SCREEN_WIDTH - 112, 4, Color::Black);
    fill_packed_frame_rect(frame, ERROR_TITLE_BOX_X, 34, SCREEN_WIDTH - 112, 4, Color::Black);
    draw_centered_text_in_area(frame, ERROR_TITLE_BOX_Y, ERROR_TITLE_BOX_HEIGHT, input.title, &title);
    fill_packed_frame_rect(frame, 96, 248, SCREEN_WIDTH - 192, 2, Color::Black);
    fill_packed_frame_rect(frame, 96, 330, SCREEN_WIDTH - 192, 2, Color::Black);
    fill_packed_frame_rect(frame, 96, 436, SCREEN_WIDTH - 192, 2, Color::Black);
    draw_centered_text_in_area(frame, ERROR_MESSAGE_AREA_Y, ERROR_MESSAGE_AREA_HEIGHT, input.message, &message);
    if !input.hint.is_empty() {
        draw_centered_text_in_area(frame, ERROR_HINT_AREA_Y, ERROR_HINT_AREA_HEIGHT, input.hint, &hint);
    }
    if !input.detail.is_empty() {
        draw_centered_wrapped_text_in_area(
            frame,
            ERROR_DETAIL_AREA_X,
            ERROR_DETAIL_AREA_Y,
            ERROR_DETAIL_AREA_WIDTH,
            ERROR_DETAIL_AREA_HEIGHT,
            input.detail,
            &detail,
        );
    }
    assert forall|px: int, py: int| on_screen(px, py) implies #[trigger] logical_code(frame@, px, py)
        == error_page_code(
        logical_code(before, px, py),
        input.title@,
        input.message@,
        input.hint@,
        input.detail@,
        px,
        py,
    ) by {}
}

/// A white frame with the error page drawn on it.
pub fn render_builtin_error_page_packed_frame(input: &BuiltinErrorPageInput<'_>) -> (frame: Vec<u8>)
    ensures
        frame@.len() == EPD_FRAME_BYTES,
        error_page_drawn(
            Seq::new(EPD_FRAME_BYTES as nat, |_i: int| 0x11u8),
            frame@,
            input.title@,
            input.message@,
            input.hint@,
            input.detail@,
        ),
{
    let white = pack_epd_pixels(Color::White, Color::White);
    let mut frame = vec![white; EPD_FRAME_BYTES];
    assert(frame@ =~= Seq::new(EPD_FRAME_BYTES as nat, |_i: int| 0x11u8));
    render_builtin_error_page_into_frame(frame.as_mut_slice(), input);
    frame
}

} // verus!
