use epaper_album::bmp::bmp_row_stride;
use epaper_album::display::Color;
use epaper_album::epd::{epd_color_code, EPD_FRAME_BYTES, EPD_HEIGHT, EPD_ROW_BYTES, EPD_WIDTH};
use epaper_album::render::{
    render_epd_packed_frame_from_bmps, render_epd_packed_frame_from_bmps_into, PackedFrameRenderInput, RenderError,
    SpriteBmps,
};

fn logical_frame_color(frame: &[u8], x: usize, y: usize) -> Color {
    let panel_x = EPD_WIDTH - 1 - x;
    let panel_y = EPD_HEIGHT - 1 - y;
    let byte = frame[panel_y * EPD_ROW_BYTES + panel_x / 2];
    let code = if panel_x.is_multiple_of(2) {
        byte >> 4
    } else {
        byte & 0x0F
    };

    match code {
        code if code == epd_color_code(Color::Black) => Color::Black,
        code if code == epd_color_code(Color::White) => Color::White,
        code if code == epd_color_code(Color::Yellow) => Color::Yellow,
        code if code == epd_color_code(Color::Red) => Color::Red,
        code if code == epd_color_code(Color::Blue) => Color::Blue,
        code if code == epd_color_code(Color::Green) => Color::Green,
        _ => panic!("unknown epd color code: {code}"),
    }
}

fn solid_bmp(width: usize, height: usize, color: Color) -> Vec<u8> {
    bmp_from_pixels(width, height, &vec![color; width * height])
}

fn bmp_from_pixels(width: usize, height: usize, pixels: &[Color]) -> Vec<u8> {
    assert_eq!(pixels.len(), width * height);

    let pixel_offset = 54usize;
    let row_stride = bmp_row_stride(width);
    let file_size = pixel_offset + row_stride * height;
    let mut bmp = vec![0u8; file_size];
    bmp[0..2].copy_from_slice(b"BM");
    bmp[2..6].copy_from_slice(&(file_size as u32).to_le_bytes());
    bmp[10..14].copy_from_slice(&(pixel_offset as u32).to_le_bytes());
    bmp[14..18].copy_from_slice(&40u32.to_le_bytes());
    bmp[18..22].copy_from_slice(&(width as i32).to_le_bytes());
    bmp[22..26].copy_from_slice(&(-(height as i32)).to_le_bytes());
    bmp[26..28].copy_from_slice(&1u16.to_le_bytes());
    bmp[28..30].copy_from_slice(&24u16.to_le_bytes());

    for y in 0..height {
        let row_offset = pixel_offset + y * row_stride;
        for x in 0..width {
            let pixel_offset = row_offset + x * 3;
            let (red, green, blue) = rgb(pixels[y * width + x]);
            bmp[pixel_offset..pixel_offset + 3].copy_from_slice(&[blue, green, red]);
        }
    }

    bmp
}

fn rgb(color: Color) -> (u8, u8, u8) {
    match color {
        Color::White => (255, 255, 255),
        Color::Black => (0, 0, 0),
        Color::Yellow => (255, 255, 0),
        Color::Red => (255, 0, 0),
        Color::Blue => (0, 0, 255),
        Color::Green => (0, 255, 0),
    }
}


#[test]
fn render_overlays_sprites_at_formal_slots() {
    let photo = solid_bmp(EPD_WIDTH, EPD_HEIGHT, Color::White);
    let caption = solid_bmp(3, 2, Color::Black);
    let date = solid_bmp(4, 2, Color::Red);
    let notice = solid_bmp(2, 3, Color::Blue);

    let frame = render_epd_packed_frame_from_bmps(
        &PackedFrameRenderInput::new(&photo).with_sprites(SpriteBmps {
            caption: Some(&caption),
            date: Some(&date),
            notice: Some(&notice),
            status: None,
        }),
    )
    .unwrap();

    assert_eq!(logical_frame_color(&frame, 0, EPD_HEIGHT - 2), Color::Black);
    assert_eq!(logical_frame_color(&frame, 2, EPD_HEIGHT - 1), Color::Black);
    assert_eq!(
        logical_frame_color(&frame, EPD_WIDTH - 4, EPD_HEIGHT - 2),
        Color::Red
    );
    assert_eq!(
        logical_frame_color(&frame, EPD_WIDTH - 1, EPD_HEIGHT - 1),
        Color::Red
    );
    assert_eq!(logical_frame_color(&frame, 0, 0), Color::Blue);
    assert_eq!(logical_frame_color(&frame, 1, 2), Color::Blue);
}

#[test]
fn white_sprite_background_overlays_photo_before_black_text() {
    let photo = solid_bmp(EPD_WIDTH, EPD_HEIGHT, Color::Green);
    let caption = bmp_from_pixels(
        2,
        2,
        &[Color::White, Color::Black, Color::White, Color::White],
    );

    let frame = render_epd_packed_frame_from_bmps(
        &PackedFrameRenderInput::new(&photo).with_sprites(SpriteBmps {
            caption: Some(&caption),
            date: None,
            notice: None,
            status: None,
        }),
    )
    .unwrap();

    assert_eq!(logical_frame_color(&frame, 0, EPD_HEIGHT - 2), Color::White);
    assert_eq!(logical_frame_color(&frame, 1, EPD_HEIGHT - 2), Color::Black);
    assert_eq!(logical_frame_color(&frame, 2, EPD_HEIGHT - 2), Color::Green);
}

#[test]
fn render_rejects_wrong_output_frame_length() {
    let photo = solid_bmp(EPD_WIDTH, EPD_HEIGHT, Color::White);
    let mut frame = vec![0u8; EPD_FRAME_BYTES - 1];

    let result = render_epd_packed_frame_from_bmps_into(
        &mut frame,
        &PackedFrameRenderInput::new(&photo),
    );

    assert_eq!(result, Err(RenderError::InvalidFrameLength));
}

#[test]
fn render_keeps_status_sprite_reserved_without_composing_it() {
    let photo = solid_bmp(EPD_WIDTH, EPD_HEIGHT, Color::White);
    let status = solid_bmp(2, 2, Color::Black);

    let frame = render_epd_packed_frame_from_bmps(
        &PackedFrameRenderInput::new(&photo).with_sprites(SpriteBmps {
            caption: None,
            date: None,
            notice: None,
            status: Some(&status),
        }),
    )
    .unwrap();

    assert_eq!(logical_frame_color(&frame, EPD_WIDTH - 1, 0), Color::White);
}
