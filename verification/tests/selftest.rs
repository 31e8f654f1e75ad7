use epaper_album::device::{EpdProbe, WakeMarkerProbe};
use epaper_album::epd::{BusEvent, EpdError, RecordingBus, EPD_FRAME_BYTES, EPD_HEIGHT, EPD_ROW_BYTES};
use epaper_album::selftest::{
    draw_self_test_overlay, epd_error_probe, refresh_epd_from_self_test_image, self_test_frame_from_bmp,
    wake_marker_from_text, ReadImageError, SelfTestImage,
};

const WHITE: u8 = 1;
const BLACK: u8 = 0;

fn code_at(frame: &[u8], x: usize, y: usize) -> u8 {
    let panel_x = 799 - x;
    let panel_y = 479 - y;
    let byte = frame[panel_y * EPD_ROW_BYTES + panel_x / 2];
    if panel_x % 2 == 0 {
        byte >> 4
    } else {
        byte & 0x0F
    }
}

fn bitmap(rows_present: usize, pixel: (u8, u8, u8)) -> Vec<u8> {
    let mut bmp = vec![0u8; 54];
    bmp[0] = b'B';
    bmp[1] = b'M';
    bmp[10..14].copy_from_slice(&54u32.to_le_bytes());
    bmp[14..18].copy_from_slice(&40u32.to_le_bytes());
    bmp[18..22].copy_from_slice(&800i32.to_le_bytes());
    bmp[22..26].copy_from_slice(&480i32.to_le_bytes());
    bmp[26..28].copy_from_slice(&1u16.to_le_bytes());
    bmp[28..30].copy_from_slice(&24u16.to_le_bytes());
    for _ in 0..rows_present * 800 {
        bmp.extend_from_slice(&[pixel.2, pixel.1, pixel.0]);
    }
    bmp
}

#[test]
fn overlay_draws_three_caption_blocks() {
    let mut frame = vec![0x00u8; EPD_FRAME_BYTES];
    draw_self_test_overlay(&mut frame);

    // Title block, bottom left: 109 by 36 at (18, 426); its first set pixel is column 7 of row 0.
    assert_eq!(code_at(&frame, 18, 426), WHITE);
    assert_eq!(code_at(&frame, 17, 426), BLACK);
    assert_eq!(code_at(&frame, 18, 461), WHITE);
    assert_eq!(code_at(&frame, 18, 462), BLACK);
    assert_eq!(code_at(&frame, 28 + 7, 434), BLACK);
    assert_eq!(code_at(&frame, 28, 434), WHITE);
    // Date block, bottom right: 132 wide, ending 18 from the right edge.
    assert_eq!(code_at(&frame, 781, 440), WHITE);
    assert_eq!(code_at(&frame, 782, 440), BLACK);
    assert_eq!(code_at(&frame, 650, 440), WHITE);
    assert_eq!(code_at(&frame, 649, 440), BLACK);
    // Notice block, top left.
    assert_eq!(code_at(&frame, 18, 18), WHITE);
    assert_eq!(code_at(&frame, 18, 17), BLACK);
    // The middle of the screen is untouched.
    assert_eq!(code_at(&frame, 400, 240), BLACK);
}

#[test]
fn self_test_bitmap_becomes_a_captioned_frame() {
    let frame = self_test_frame_from_bmp(&bitmap(480, (255, 0, 0))).unwrap();
    assert_eq!(frame.len(), EPD_FRAME_BYTES);
    assert_eq!(code_at(&frame, 400, 240), 3);
    assert_eq!(code_at(&frame, 0, 0), 3);
    assert_eq!(code_at(&frame, 18, 426), WHITE);
}

#[test]
fn unusable_self_test_bitmaps_are_refused() {
    assert_eq!(self_test_frame_from_bmp(b"BM"), Err(ReadImageError::Read));
    let mut bad = bitmap(480, (255, 255, 255));
    bad[28] = 8;
    assert_eq!(self_test_frame_from_bmp(&bad), Err(ReadImageError::Format));
    assert_eq!(self_test_frame_from_bmp(&bitmap(479, (255, 255, 255))), Err(ReadImageError::Format));
    assert_eq!(self_test_frame_from_bmp(&bitmap(480, (10, 10, 10))), Err(ReadImageError::Format));
}

#[test]
fn self_test_shows_the_image_or_the_colour_bars() {
    let mut bus = RecordingBus::new();
    let probe = refresh_epd_from_self_test_image(&mut bus, SelfTestImage::Frame(vec![0x11; EPD_FRAME_BYTES]));
    assert_eq!(probe, EpdProbe::PhotoRefreshed);
    assert_eq!(bus.events.len(), 32 + 1 + EPD_HEIGHT + 13);

    let mut bus = RecordingBus::new();
    let probe = refresh_epd_from_self_test_image(&mut bus, SelfTestImage::Frame(vec![0x11; 10]));
    assert_eq!(probe, EpdProbe::TransportError);
    assert!(bus.events.is_empty());

    let mut bus = RecordingBus::new();
    assert_eq!(refresh_epd_from_self_test_image(&mut bus, SelfTestImage::Missing), EpdProbe::Refreshed);
    assert_eq!(bus.events[33], BusEvent::Data(vec![0x66; EPD_ROW_BYTES]));

    let mut bus = RecordingBus::failing_at(1);
    assert_eq!(refresh_epd_from_self_test_image(&mut bus, SelfTestImage::Missing), EpdProbe::TransportError);

    let mut bus = RecordingBus::new();
    assert_eq!(
        refresh_epd_from_self_test_image(&mut bus, SelfTestImage::FormatError),
        EpdProbe::ImageFormatError
    );
    assert_eq!(refresh_epd_from_self_test_image(&mut bus, SelfTestImage::MountError), EpdProbe::ImageReadError);
    assert!(bus.events.is_empty());
}

#[test]
fn panel_errors_map_to_probes() {
    assert_eq!(epd_error_probe(EpdError::BusyTimeout), EpdProbe::BusyTimeout);
    assert_eq!(epd_error_probe(EpdError::Transport), EpdProbe::TransportError);
}

#[test]
fn wake_marker_reads_the_timer_word() {
    assert_eq!(wake_marker_from_text(" timer\n"), WakeMarkerProbe::Timer);
    assert_eq!(wake_marker_from_text("button"), WakeMarkerProbe::Unknown);
    assert_eq!(wake_marker_from_text(""), WakeMarkerProbe::Unknown);
}

#[test]
fn overlay_leaves_a_frame_of_the_wrong_size_alone() {
    let mut frame = vec![0x11u8; EPD_FRAME_BYTES - 1];
    draw_self_test_overlay(&mut frame);
    assert!(frame.iter().all(|byte| *byte == 0x11));
}
