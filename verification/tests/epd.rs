use epaper_album::display::Color;
use epaper_album::epd::{
    epd_color_code, fill_test_pattern_row, pack_epd_pixels, run_epd_hardware_self_test, run_epd_packed_frame, set_packed_frame_pixel,
    BusEvent, EpdError, RecordingBus, EPD_FRAME_BYTES, EPD_HEIGHT, EPD_ROW_BYTES, EPD_WIDTH,
};

#[test]
fn maps_album_colors_to_panel_nibbles() {
    assert_eq!(epd_color_code(Color::Black), 0);
    assert_eq!(epd_color_code(Color::White), 1);
    assert_eq!(epd_color_code(Color::Yellow), 2);
    assert_eq!(epd_color_code(Color::Red), 3);
    assert_eq!(epd_color_code(Color::Blue), 5);
    assert_eq!(epd_color_code(Color::Green), 6);
}

#[test]
fn packs_two_pixels_into_high_and_low_nibbles() {
    assert_eq!(pack_epd_pixels(Color::White, Color::Black), 0x10);
    assert_eq!(pack_epd_pixels(Color::Red, Color::Green), 0x36);
}

#[test]
fn sets_pixel_in_prepacked_frame() {
    let mut frame = vec![0x11; EPD_FRAME_BYTES];

    assert!(set_packed_frame_pixel(&mut frame, 0, 0, Color::Black));
    assert!(set_packed_frame_pixel(&mut frame, 1, 0, Color::Red));
    assert!(!set_packed_frame_pixel(
        &mut frame,
        EPD_WIDTH,
        0,
        Color::Black
    ));

    assert_eq!(frame[0], 0x03);
}

#[test]
fn self_test_sends_init_frame_and_refresh_sequence() {
    let mut bus = RecordingBus::new();

    run_epd_hardware_self_test(&mut bus).unwrap();

    assert_eq!(bus.events[0], BusEvent::Reset);
    assert_eq!(bus.events[1], BusEvent::WaitUntilReady);
    assert_eq!(bus.events[2], BusEvent::Delay(50));
    assert!(bus.events.contains(&BusEvent::Command(0xAA)));
    assert!(bus.events.contains(&BusEvent::Command(0x10)));
    assert_eq!(
        bus.events
            .iter()
            .filter(
                |event| matches!(event, BusEvent::Data(data) if data.len() == EPD_ROW_BYTES)
            )
            .count(),
        EPD_HEIGHT
    );
    assert!(bus.events.ends_with(&[
        BusEvent::Command(0x12),
        BusEvent::Data(vec![0x00]),
        BusEvent::Delay(100),
        BusEvent::WaitUntilReady,
        BusEvent::Command(0x02),
        BusEvent::Data(vec![0x00]),
        BusEvent::Delay(100),
        BusEvent::WaitUntilReady,
    ]));
}

#[test]
fn test_pattern_rows_are_plain_horizontal_color_bars() {
    let mut row = [0u8; EPD_ROW_BYTES];

    fill_test_pattern_row(0, &mut row);
    assert!(row.iter().all(|byte| *byte == 0x11));

    fill_test_pattern_row(EPD_HEIGHT / 6, &mut row);
    assert!(row.iter().all(|byte| *byte == 0x00));

    fill_test_pattern_row(EPD_HEIGHT - 1, &mut row);
    assert!(row.iter().all(|byte| *byte == 0x66));
}

#[test]
fn self_test_transmits_rows_in_panel_vertical_order() {
    let mut bus = RecordingBus::new();

    run_epd_hardware_self_test(&mut bus).unwrap();

    let rows = bus.events.iter().filter_map(|event| match event {
        BusEvent::Data(data) if data.len() == EPD_ROW_BYTES => Some(data),
        _ => None,
    });
    let rows = rows.collect::<Vec<_>>();

    assert!(rows[0].iter().all(|byte| *byte == 0x66));
    assert!(rows[EPD_HEIGHT - 1].iter().all(|byte| *byte == 0x11));
}

fn numbered_frame() -> Vec<u8> {
    (0..EPD_FRAME_BYTES).map(|i| (i / EPD_ROW_BYTES) as u8).collect()
}

#[test]
fn packed_frame_is_sent_between_power_up_and_refresh() {
    let frame = numbered_frame();
    let mut bus = RecordingBus::new();

    run_epd_packed_frame(&mut bus, &frame).unwrap();

    assert_eq!(bus.events.len(), 32 + 1 + EPD_HEIGHT + 13);
    assert_eq!(bus.events[3], BusEvent::Command(0xAA));
    assert_eq!(bus.events[4], BusEvent::Data(vec![0x49, 0x55, 0x20, 0x08, 0x09, 0x18]));
    assert_eq!(bus.events[29], BusEvent::Command(0x04));
    assert_eq!(bus.events[30], BusEvent::Delay(100));
    assert_eq!(bus.events[31], BusEvent::WaitUntilReady);
    assert_eq!(bus.events[32], BusEvent::Command(0x10));
    for y in 0..EPD_HEIGHT {
        assert_eq!(
            bus.events[33 + y],
            BusEvent::Data(frame[y * EPD_ROW_BYTES..(y + 1) * EPD_ROW_BYTES].to_vec())
        );
    }
    assert_eq!(bus.events[33 + EPD_HEIGHT + 4], BusEvent::Data(vec![0x6F, 0x1F, 0x17, 0x49]));
}

#[test]
fn transfer_stops_at_the_first_failure() {
    let frame = numbered_frame();
    let mut bus = RecordingBus::failing_at(40);

    assert_eq!(run_epd_packed_frame(&mut bus, &frame), Err(EpdError::Transport));
    assert_eq!(bus.events.len(), 41);
    assert_eq!(bus.events[40], BusEvent::Data(frame[7 * EPD_ROW_BYTES..8 * EPD_ROW_BYTES].to_vec()));

    let mut bus = RecordingBus::failing_at(0);
    assert_eq!(run_epd_packed_frame(&mut bus, &frame), Err(EpdError::Transport));
    assert_eq!(bus.events, vec![BusEvent::Reset]);
}
