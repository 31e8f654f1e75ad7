use epaper_album::bmp::{
    bmp_24bit_row_stride, bmp_row_stride, exact_panel_color, fill_epd_row_from_bgr, fill_epd_row_from_bgr_mirrored,
    parse_bmp_header, BmpError, BmpImage,
};
use epaper_album::display::Color;
use epaper_album::epd::{pack_epd_pixels, EPD_HEIGHT, EPD_ROW_BYTES, EPD_WIDTH};

fn sample_bmp(top_down: bool) -> Vec<u8> {
    sample_sized_bmp(EPD_WIDTH, EPD_HEIGHT, top_down)
}

fn sample_sized_bmp(width: usize, height: usize, top_down: bool) -> Vec<u8> {
    let pixel_offset = 54usize;
    let row_stride = bmp_row_stride(width);
    let file_size = pixel_offset + row_stride * height;
    let mut bmp = vec![0u8; file_size];
    bmp[0..2].copy_from_slice(b"BM");
    bmp[2..6].copy_from_slice(&(file_size as u32).to_le_bytes());
    bmp[10..14].copy_from_slice(&(pixel_offset as u32).to_le_bytes());
    bmp[14..18].copy_from_slice(&40u32.to_le_bytes());
    bmp[18..22].copy_from_slice(&(width as i32).to_le_bytes());
    let signed_height = if top_down {
        -(height as i32)
    } else {
        height as i32
    };
    bmp[22..26].copy_from_slice(&signed_height.to_le_bytes());
    bmp[26..28].copy_from_slice(&1u16.to_le_bytes());
    bmp[28..30].copy_from_slice(&24u16.to_le_bytes());

    let file_row = if top_down { 0 } else { height - 1 };
    let row_offset = pixel_offset + file_row * row_stride;
    bmp[row_offset..row_offset + 3].copy_from_slice(&[0, 0, 255]);
    bmp[row_offset + 3..row_offset + 6].copy_from_slice(&[0, 255, 0]);
    bmp
}


#[test]
fn maps_exact_panel_colors() {
    assert_eq!(exact_panel_color(255, 255, 255), Some(Color::White));
    assert_eq!(exact_panel_color(0, 0, 0), Some(Color::Black));
    assert_eq!(exact_panel_color(255, 255, 0), Some(Color::Yellow));
    assert_eq!(exact_panel_color(255, 0, 0), Some(Color::Red));
    assert_eq!(exact_panel_color(0, 0, 255), Some(Color::Blue));
    assert_eq!(exact_panel_color(0, 255, 0), Some(Color::Green));
    assert_eq!(exact_panel_color(128, 128, 128), None);
}

#[test]
fn parses_800_by_480_24bit_bmp_header() {
    let bmp = sample_bmp(false);
    let image = BmpImage::parse(&bmp).unwrap();

    let mut row = [0u8; EPD_ROW_BYTES];
    image.fill_epd_row(0, &mut row).unwrap();

    assert_eq!(row[0], pack_epd_pixels(Color::Red, Color::Green));
}

#[test]
fn parses_streaming_bmp_header() {
    let bmp = sample_bmp(false);
    let header = parse_bmp_header(&bmp[..54], bmp.len() as u64).unwrap();

    assert_eq!(header.pixel_offset, 54);
    assert_eq!(header.width, EPD_WIDTH);
    assert_eq!(header.height, EPD_HEIGHT);
    assert_eq!(header.row_stride, bmp_24bit_row_stride());
    assert!(!header.top_down);
}

#[test]
fn parses_small_sprite_bmp() {
    let bmp = sample_sized_bmp(3, 2, true);
    let image = BmpImage::parse(&bmp).unwrap();

    assert_eq!(image.width(), 3);
    assert_eq!(image.height(), 2);
    assert_eq!(image.color_at(0, 0), Ok(Color::Red));
    assert_eq!(image.color_at(1, 0), Ok(Color::Green));
    assert_eq!(
        image.fill_epd_row(0, &mut [0u8; EPD_ROW_BYTES]),
        Err(BmpError::UnsupportedFormat)
    );
}

#[test]
fn fills_epd_row_from_bgr_palette_pixels() {
    let mut row_bgr = vec![0u8; bmp_24bit_row_stride()];
    row_bgr[0..3].copy_from_slice(&[0, 0, 255]);
    row_bgr[3..6].copy_from_slice(&[0, 255, 0]);

    let mut row = [0u8; EPD_ROW_BYTES];
    fill_epd_row_from_bgr(&row_bgr, &mut row).unwrap();

    assert_eq!(row[0], pack_epd_pixels(Color::Red, Color::Green));
}

#[test]
fn fills_epd_row_from_bgr_mirrored_palette_pixels() {
    let mut row_bgr = vec![0u8; bmp_24bit_row_stride()];
    let last = (EPD_WIDTH - 1) * 3;
    let before_last = (EPD_WIDTH - 2) * 3;
    row_bgr[last..last + 3].copy_from_slice(&[0, 0, 255]);
    row_bgr[before_last..before_last + 3].copy_from_slice(&[0, 255, 0]);

    let mut row = [0u8; EPD_ROW_BYTES];
    fill_epd_row_from_bgr_mirrored(&row_bgr, &mut row).unwrap();

    assert_eq!(row[0], pack_epd_pixels(Color::Red, Color::Green));
}

#[test]
fn supports_top_down_bmp_header() {
    let bmp = sample_bmp(true);
    let image = BmpImage::parse(&bmp).unwrap();

    let mut row = [0u8; EPD_ROW_BYTES];
    image.fill_epd_row(0, &mut row).unwrap();

    assert_eq!(row[0], pack_epd_pixels(Color::Red, Color::Green));
}

#[test]
fn rejects_non_palette_pixels() {
    let mut bmp = sample_bmp(false);
    let row_offset = 54 + (EPD_HEIGHT - 1) * bmp_row_stride(EPD_WIDTH);
    bmp[row_offset..row_offset + 3].copy_from_slice(&[128, 128, 128]);
    let image = BmpImage::parse(&bmp).unwrap();

    let mut row = [0u8; EPD_ROW_BYTES];
    let result = image.fill_epd_row(0, &mut row);

    assert_eq!(result, Err(BmpError::UnsupportedColor));
}

#[test]
fn short_rows_leave_the_output_as_it_was() {
    let mut output = [0x42u8; EPD_ROW_BYTES];
    let short = vec![0u8; EPD_WIDTH * 3 - 1];
    assert_eq!(fill_epd_row_from_bgr(&short, &mut output), Err(BmpError::UnexpectedEof));
    assert!(output.iter().all(|byte| *byte == 0x42));
    assert_eq!(fill_epd_row_from_bgr_mirrored(&short, &mut output), Err(BmpError::UnexpectedEof));
    assert!(output.iter().all(|byte| *byte == 0x42));
}

#[test]
fn mirrored_row_packs_like_the_reversed_row() {
    let mut row = vec![255u8; EPD_WIDTH * 3];
    row[0..3].copy_from_slice(&[0, 0, 255]);
    row[3..6].copy_from_slice(&[0, 255, 0]);
    row[EPD_WIDTH * 3 - 3..].copy_from_slice(&[255, 0, 0]);
    let mut reversed = Vec::with_capacity(row.len());
    for x in (0..EPD_WIDTH).rev() {
        reversed.extend_from_slice(&row[3 * x..3 * x + 3]);
    }
    let mut mirrored_out = [0u8; EPD_ROW_BYTES];
    let mut plain_out = [0u8; EPD_ROW_BYTES];
    assert_eq!(fill_epd_row_from_bgr_mirrored(&row, &mut mirrored_out), Ok(()));
    assert_eq!(fill_epd_row_from_bgr(&reversed, &mut plain_out), Ok(()));
    assert_eq!(mirrored_out, plain_out);
    assert_eq!(mirrored_out[EPD_ROW_BYTES - 1], pack_epd_pixels(Color::Green, Color::Red));
}
