use usb_pd_sink::ws2812::{buffer_len, Ws2812, RESET_LEN};

#[test]
fn buffer_length_formula() {
    assert_eq!(buffer_len(0), 2 * RESET_LEN);
    assert_eq!(buffer_len(120), 2 * RESET_LEN + 120 * 9);
}

#[test]
fn led_count_from_buffer_size() {
    assert_eq!(Ws2812::<1480>::num_leds(), 120);
    assert_eq!(Ws2812::<400>::num_leds(), 0);
}

#[test]
fn set_led_writes_expanded_bytes_after_reset_gap() {
    let len = buffer_len(2);
    assert_eq!(len, 418);
    let mut ws = Ws2812::<418>::new(vec![0u8; len]);
    // Green, red, blue: each byte expands MSB-first, 110 per one bit and
    // 100 per zero bit.
    ws.set_led(0, 0xff, 0x00, 0xaa);
    let buf = ws.into_buf();
    assert_eq!(buf[RESET_LEN - 1], 0);
    // Green 0x00: eight 100 symbols.
    assert_eq!(&buf[RESET_LEN..RESET_LEN + 3], &[0x92, 0x49, 0x24]);
    // Red 0xff: eight 110 symbols.
    assert_eq!(&buf[RESET_LEN + 3..RESET_LEN + 6], &[0xdb, 0x6d, 0xb6]);
    // Blue 0xaa: alternating 110 and 100.
    assert_eq!(&buf[RESET_LEN + 6..RESET_LEN + 9], &[0xd3, 0x4d, 0x34]);
    assert_eq!(buf[RESET_LEN + 9], 0);
}

#[test]
fn set_led_places_leds_nine_bytes_apart() {
    let len = buffer_len(3);
    assert_eq!(len, 427);
    let mut ws = Ws2812::<427>::new(vec![0u8; len]);
    ws.set_led(2, 0x00, 0xff, 0x00);
    let buf = ws.into_buf();
    assert_eq!(buf[RESET_LEN + 17], 0);
    // Green 0xff at the third LED's slot.
    assert_eq!(
        &buf[RESET_LEN + 18..RESET_LEN + 21],
        &[0xdb, 0x6d, 0xb6]
    );
}
