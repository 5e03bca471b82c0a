use keyboard_lighting::{get_keyboard, DeviceIdentity, Error, Keyboard, Platform};

fn expected_payload(speed: u8, brightness: u8, colors: [u8; 12]) -> [u8; 33] {
    let mut payload = [0u8; 33];
    payload[0] = 0xCC;
    payload[1] = 0x16;
    payload[2] = 0x01;
    payload[3] = speed;
    payload[4] = brightness;
    payload[5..17].copy_from_slice(&colors);
    payload
}

#[test]
fn new_keyboard_starts_slow_dim_and_dark() {
    let keyboard = Keyboard::new();
    let state = keyboard.state();
    assert_eq!(state.speed(), 1);
    assert_eq!(state.brightness(), 1);
    assert_eq!(state.rgb_values(), [0u8; 12]);
    assert_eq!(keyboard.refresh(), expected_payload(1, 1, [0; 12]));
}

#[test]
fn set_speed_clamps_into_one_to_four() {
    let cases: [(u8, u8); 5] = [(0, 1), (1, 1), (4, 4), (5, 4), (255, 4)];
    for (input, stored) in cases {
        let mut keyboard = Keyboard::new();
        let payload = keyboard.set_speed(input);
        assert_eq!(keyboard.state().speed(), stored);
        assert_eq!(keyboard.state().brightness(), 1);
        assert_eq!(keyboard.state().rgb_values(), [0u8; 12]);
        assert_eq!(payload, expected_payload(stored, 1, [0; 12]));
    }
}

#[test]
fn set_speed_keeps_values_in_range() {
    for input in 1..=4u8 {
        let mut keyboard = Keyboard::new();
        keyboard.set_speed(input);
        assert_eq!(keyboard.state().speed(), input);
    }
}

#[test]
fn set_brightness_clamps_into_one_to_two() {
    let cases: [(u8, u8); 5] = [(0, 1), (1, 1), (2, 2), (3, 2), (255, 2)];
    for (input, stored) in cases {
        let mut keyboard = Keyboard::new();
        keyboard.set_speed(3);
        let payload = keyboard.set_brightness(input);
        assert_eq!(keyboard.state().brightness(), stored);
        assert_eq!(keyboard.state().speed(), 3);
        assert_eq!(payload, expected_payload(3, stored, [0; 12]));
    }
}

#[test]
fn set_colors_stores_the_bytes_unmodified() {
    let colors = [0, 255, 1, 254, 2, 253, 127, 128, 64, 32, 16, 8];
    let mut keyboard = Keyboard::new();
    let payload = keyboard.set_colors_to(&colors);
    assert_eq!(keyboard.state().rgb_values(), colors);
    assert_eq!(keyboard.state().speed(), 1);
    assert_eq!(keyboard.state().brightness(), 1);
    assert_eq!(payload, expected_payload(1, 1, colors));
}

#[test]
fn set_colors_accepts_every_byte_value() {
    for byte in 0..=255u8 {
        let mut keyboard = Keyboard::new();
        let payload = keyboard.set_colors_to(&[byte; 12]);
        assert_eq!(keyboard.state().rgb_values(), [byte; 12]);
        assert_eq!(&payload[5..17], &[byte; 12]);
    }
}

#[test]
fn setters_send_the_whole_state() {
    let colors = [1, 2, 3, 4, 5, 6, 7, 8, 9, 10, 11, 12];
    let mut keyboard = Keyboard::new();
    keyboard.set_colors_to(&colors);
    keyboard.set_brightness(2);
    let payload = keyboard.set_speed(3);
    let expected: [u8; 33] = [
        0xCC, 0x16, 0x01, 3, 2, 1, 2, 3, 4, 5, 6, 7, 8, 9, 10, 11, 12, 0, 0, 0, 0, 0, 0, 0, 0, 0,
        0, 0, 0, 0, 0, 0, 0,
    ];
    assert_eq!(payload, expected);
    assert_eq!(keyboard.refresh(), expected);
}

#[test]
fn repeating_a_setter_repeats_the_payload() {
    let mut keyboard = Keyboard::new();
    let first = keyboard.set_speed(2);
    let second = keyboard.set_speed(2);
    assert_eq!(first, second);
    let first = keyboard.set_brightness(2);
    let second = keyboard.set_brightness(2);
    assert_eq!(first, second);
    let colors = [9, 8, 7, 6, 5, 4, 3, 2, 1, 0, 255, 254];
    let first = keyboard.set_colors_to(&colors);
    let second = keyboard.set_colors_to(&colors);
    assert_eq!(first, second);
    let first = keyboard.set_speed(200);
    let second = keyboard.set_speed(200);
    assert_eq!(first, second);
    assert_eq!(first, expected_payload(4, 2, colors));
}

#[test]
fn refresh_leaves_the_state_alone() {
    let mut keyboard = Keyboard::new();
    keyboard.set_speed(4);
    keyboard.set_brightness(2);
    let first = keyboard.refresh();
    let second = keyboard.refresh();
    assert_eq!(first, second);
    assert_eq!(keyboard.state().speed(), 4);
    assert_eq!(keyboard.state().brightness(), 2);
}

#[test]
fn keyboard_state_always_encodes() {
    let mut keyboard = Keyboard::new();
    for input in 0..=255u8 {
        keyboard.set_speed(input);
        assert!(keyboard.state().build_payload().is_ok());
        keyboard.set_brightness(input);
        assert_eq!(keyboard.state().build_payload(), Ok(keyboard.refresh()));
    }
}

#[test]
fn get_keyboard_takes_the_matching_device() {
    let devices = [
        DeviceIdentity { vendor_id: 0x046d, product_id: 0xc52b, usage_page: 0, usage: 0 },
        DeviceIdentity { vendor_id: 0x048d, product_id: 0xc965, usage_page: 0, usage: 0 },
        DeviceIdentity { vendor_id: 0x048d, product_id: 0x1234, usage_page: 0, usage: 0 },
    ];
    let found = get_keyboard(Platform::Linux, &devices).unwrap();
    assert_eq!(found.device_index, 1);
    assert_eq!(found.keyboard.state().speed(), 1);
    assert_eq!(found.keyboard.state().brightness(), 1);
    assert_eq!(found.keyboard.state().rgb_values(), [0u8; 12]);
    assert_eq!(found.initial_payload, expected_payload(1, 1, [0; 12]));
}

#[test]
fn get_keyboard_without_a_match_finds_nothing() {
    let devices = [
        DeviceIdentity { vendor_id: 0x046d, product_id: 0xc52b, usage_page: 0, usage: 0 },
        DeviceIdentity { vendor_id: 0x048d, product_id: 0x1234, usage_page: 0, usage: 0 },
    ];
    let result = get_keyboard(Platform::Linux, &devices);
    assert!(matches!(result, Err(Error::DeviceNotFound)));
    assert!(matches!(get_keyboard(Platform::Windows, &[]), Err(Error::DeviceNotFound)));
}
