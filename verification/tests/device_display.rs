use epaper_album::app::cycle::{DeviceDisplay, DisplayRefreshRequest, ErrorRefreshRequest, SpriteSet};
use epaper_album::bmp::bmp_row_stride;
use epaper_album::device_display::{
    DeviceDisplayError, DisplayReadError, DisplayResourceReader, MemoryResourceReader, PackedFrameDisplay,
};
use epaper_album::display::Color;
use epaper_album::epd::{epd_color_code, BusEvent, RecordingBus, EPD_FRAME_BYTES, EPD_HEIGHT, EPD_ROW_BYTES, EPD_WIDTH};
use epaper_album::model::{LocalDate, Plan};
use epaper_album::state::RefreshReason;

fn rows(bus: &RecordingBus) -> Vec<&Vec<u8>> {
    bus.events
        .iter()
        .filter_map(|event| match event {
            BusEvent::Data(data) if data.len() == EPD_ROW_BYTES => Some(data),
            _ => None,
        })
        .collect()
}

fn frame_of(bus: &RecordingBus) -> Vec<u8> {
    rows(bus).into_iter().flatten().copied().collect()
}

fn request() -> DisplayRefreshRequest {
    DisplayRefreshRequest {
        plan: Plan {
            date: LocalDate::parse("2026-06-08").unwrap(),
            image: "photo".to_string(),
            caption: "caption".to_string(),
        },
        date: LocalDate::parse("2026-06-08").unwrap(),
        reason: RefreshReason::FirstBoot,
        sprites: SpriteSet {
            caption: Some("caption-sha".to_string()),
            date: Some("date-sha".to_string()),
        },
        now_epoch_seconds: 100,
    }
}

fn solid_bmp(width: usize, height: usize, color: Color) -> Vec<u8> {
    let pixel_offset = 54usize;
    let row_stride = bmp_row_stride(width);
    let file_size = pixel_offset + row_stride * height;
    let mut bmp = vec![0u8; file_size];
    bmp[0..2].copy_from_slice(b"BM");
    bmp[2..6].copy_from_slice(&(file_size as u32).to_le_bytes());
    bmp[10..14].copy_from_slice(&(pixel_offset as u32).to_le_bytes());
    bmp[14..18].copy_from_slice(&40u32.to_le_bytes());
    bmp[18..22].copy_from_slice(&(width as i32).to_le_bytes());
    bmp[22..26].copy_from_slice(&(-(height as i32)).to_le_bytes());
    bmp[26..28].copy_from_slice(&1u16.to_le_bytes());
    bmp[28..30].copy_from_slice(&24u16.to_le_bytes());

    let (red, green, blue) = rgb(color);
    for y in 0..height {
        let row_offset = pixel_offset + y * row_stride;
        for x in 0..width {
            let pixel_offset = row_offset + x * 3;
            bmp[pixel_offset..pixel_offset + 3].copy_from_slice(&[blue, green, red]);
        }
    }

    bmp
}

fn rgb(color: Color) -> (u8, u8, u8) {
    match color {
        Color::White => (255, 255, 255),
        Color::Black => (0, 0, 0),
        Color::Yellow => (255, 255, 0),
        Color::Red => (255, 0, 0),
        Color::Blue => (0, 0, 255),
        Color::Green => (0, 255, 0),
    }
}

fn has_non_white_pixel_in_region(
    frame: &[u8],
    xs: std::ops::Range<usize>,
    ys: std::ops::Range<usize>,
) -> bool {
    ys.clone().any(|y| {
        xs.clone()
            .any(|x| logical_frame_color(frame, x, y) != Color::White)
    })
}

fn logical_frame_color(frame: &[u8], x: usize, y: usize) -> Color {
    let panel_x = EPD_WIDTH - 1 - x;
    let panel_y = EPD_HEIGHT - 1 - y;
    let byte = frame[panel_y * EPD_ROW_BYTES + panel_x / 2];
    let code = if panel_x.is_multiple_of(2) {
        byte >> 4
    } else {
        byte & 0x0F
    };

    match code {
        code if code == epd_color_code(Color::Black) => Color::Black,
        code if code == epd_color_code(Color::White) => Color::White,
        code if code == epd_color_code(Color::Yellow) => Color::Yellow,
        code if code == epd_color_code(Color::Red) => Color::Red,
        code if code == epd_color_code(Color::Blue) => Color::Blue,
        code if code == epd_color_code(Color::Green) => Color::Green,
        _ => panic!("unknown epd color code: {code}"),
    }
}


#[test]
fn display_composes_cached_photo_and_sprites() {
    let mut reader = MemoryResourceReader::new();
    reader.photos.push((
        "photo".to_string(),
        solid_bmp(EPD_WIDTH, EPD_HEIGHT, Color::White),
    ));
    reader.sprites.push(("caption-sha".to_string(), solid_bmp(8, 4, Color::Black)));
    reader.sprites.push(("date-sha".to_string(), solid_bmp(8, 4, Color::Red)));
    let bus = RecordingBus::new();
    let mut display = PackedFrameDisplay::new(reader, bus);

    display.refresh(request()).unwrap();
    let (_reader, bus) = display.into_parts();

    assert_eq!(rows(&bus).len(), EPD_HEIGHT);
    assert_eq!(frame_of(&bus).len(), EPD_FRAME_BYTES);
}

#[test]
fn display_allows_missing_sprites_for_photo_refresh() {
    let mut reader = MemoryResourceReader::new();
    reader.photos.push((
        "photo".to_string(),
        solid_bmp(EPD_WIDTH, EPD_HEIGHT, Color::White),
    ));
    let bus = RecordingBus::new();
    let mut display = PackedFrameDisplay::new(reader, bus);

    display.refresh(request()).unwrap();
    let (_reader, bus) = display.into_parts();

    assert_eq!(rows(&bus).len(), EPD_HEIGHT);
}

#[test]
fn display_rejects_unrenderable_cached_photo() {
    let mut reader = MemoryResourceReader::new();
    reader.photos.push(("photo".to_string(), b"not-a-bmp".to_vec()));
    let bus = RecordingBus::new();
    let display = PackedFrameDisplay::new(reader, bus);

    assert!(!display.has_image("photo"));
}

#[test]
fn display_error_page_renders_without_reading_resources() {
    let reader = MemoryResourceReader::new();
    let bus = RecordingBus::new();
    let mut display = PackedFrameDisplay::new(reader, bus);

    display
        .refresh_error_page(ErrorRefreshRequest {
            title: "CONFIG ERROR".to_string(),
            message: "DEVICE CONFIG IS MISSING".to_string(),
            hint: "CHECK /SDCARD/CONFIG.TOML".to_string(),
            detail: "WIFI BASE URL AND SECRET KEY REQUIRED".to_string(),
            now_epoch_seconds: 100,
        })
        .unwrap();
    let (reader, bus) = display.into_parts();

    assert_eq!(reader.photo_reads, 0);
    assert_eq!(reader.sprite_reads, 0);
    assert_eq!(rows(&bus).len(), EPD_HEIGHT);
    assert_eq!(frame_of(&bus).len(), EPD_FRAME_BYTES);
    assert!(has_non_white_pixel_in_region(
        &frame_of(&bus),
        120..680,
        356..430
    ));
}

#[test]
fn display_sends_nothing_when_the_photo_is_missing() {
    let mut display = PackedFrameDisplay::new(MemoryResourceReader::new(), RecordingBus::new());

    assert_eq!(
        display.draw_photo_page(request()),
        Err(DeviceDisplayError::Read(DisplayReadError::MissingPhoto))
    );
    let (_reader, bus) = display.into_parts();
    assert!(bus.events.is_empty());
}

#[test]
fn display_reports_a_failing_panel() {
    let mut reader = MemoryResourceReader::new();
    reader.photos.push(("photo".to_string(), solid_bmp(EPD_WIDTH, EPD_HEIGHT, Color::White)));
    let mut display = PackedFrameDisplay::new(reader, RecordingBus::failing_at(1));

    assert_eq!(
        display.draw_photo_page(request()),
        Err(DeviceDisplayError::Epd(epaper_album::epd::EpdError::Transport))
    );
    let (_reader, bus) = display.into_parts();
    assert_eq!(bus.events, vec![BusEvent::Reset, BusEvent::WaitUntilReady]);
}

#[test]
fn display_has_exactly_the_renderable_photos_of_its_reader() {
    let mut reader = MemoryResourceReader::new();
    reader.photos.push(("photo".to_string(), solid_bmp(EPD_WIDTH, EPD_HEIGHT, Color::White)));
    reader.photos.push(("small".to_string(), solid_bmp(8, 4, Color::White)));
    let display = PackedFrameDisplay::new(reader, RecordingBus::new());

    assert!(display.has_image("photo"));
    assert!(!display.has_image("small"));
    assert!(!display.has_image("absent"));
    assert!(!display.has_image(""));
}

#[test]
fn display_reports_failures_as_their_message() {
    let mut display = PackedFrameDisplay::new(MemoryResourceReader::new(), RecordingBus::new());
    assert_eq!(display.refresh(request()), Err("display-read: missing-photo".to_string()));

    let mut reader = MemoryResourceReader::new();
    reader.photos.push(("photo".to_string(), solid_bmp(EPD_WIDTH, EPD_HEIGHT, Color::White)));
    let mut display = PackedFrameDisplay::new(reader, RecordingBus::failing_at(1));
    assert_eq!(display.refresh(request()), Err("epd: transport".to_string()));
}

#[test]
fn memory_reader_answers_from_the_first_entry_under_a_key() {
    let mut reader = MemoryResourceReader::new();
    reader.photos.push(("photo".to_string(), vec![1, 2, 3]));
    reader.photos.push(("photo".to_string(), vec![9]));
    reader.sprites.push(("dog".to_string(), vec![4, 5]));

    assert_eq!(reader.read_photo_bmp("photo"), Ok(vec![1, 2, 3]));
    assert_eq!(reader.read_photo_bmp("absent"), Err(DisplayReadError::MissingPhoto));
    assert_eq!(reader.read_sprite_bmp("dog"), Ok(Some(vec![4, 5])));
    assert_eq!(reader.read_sprite_bmp("cat"), Ok(None));
    assert_eq!(reader.photo_reads, 2);
    assert_eq!(reader.sprite_reads, 2);
}
