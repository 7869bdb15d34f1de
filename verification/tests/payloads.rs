use presenter_core::adv::{adv_buffer_bytes, build_adv_data, scan_data};
use presenter_core::event::{AccelSample, PressCounts};
use presenter_core::payload::{accel_payload, button_payload, fahrenheit_tenths, le_bytes};

#[test]
fn temperature_conversion_is_exact() {
    // 20 degrees Celsius: 20 * 10 = 200, * 9 / 5 = 360, + 32 = 392 tenths
    // of a degree Fahrenheit.
    assert_eq!(fahrenheit_tenths(20), 392);
    assert_eq!(fahrenheit_tenths(0), 32);
    assert_eq!(fahrenheit_tenths(-10), -148);
    assert_eq!(fahrenheit_tenths(127), 2318);
    assert_eq!(fahrenheit_tenths(-128), -2272);
}

#[test]
fn little_endian_bytes_of_16_bit_values() {
    assert_eq!(le_bytes(0), (0, 0));
    assert_eq!(le_bytes(258), (2, 1));
    assert_eq!(le_bytes(-1), (0xFF, 0xFF));
    assert_eq!(le_bytes(-32768), (0, 0x80));
    assert_eq!(le_bytes(32767), (0xFF, 0x7F));
}

#[test]
fn button_payload_narrows_counters() {
    assert_eq!(button_payload(PressCounts { a: 1, b: 2 }), vec![1, 2]);
    // 300 = 0x12C: truncated to its low byte 0x2C = 44.
    assert_eq!(button_payload(PressCounts { a: 300, b: 0 }), vec![44, 0]);
    assert_eq!(button_payload(PressCounts { a: u32::MAX, b: 256 }), vec![0xFF, 0]);
}

#[test]
fn accel_payload_has_padded_4_byte_slots() {
    let payload = accel_payload(AccelSample { x: 1, y: -2, z: 772 });
    assert_eq!(payload.len(), 12);
    assert_eq!(payload, vec![1, 0, 0, 0, 0xFE, 0xFF, 0, 0, 4, 3, 0, 0]);
}

#[test]
fn adv_data_layout_matches_the_wire_contract() {
    let name = b"Drogue Presenter";
    let buf = build_adv_data(name).expect("a 16-byte name fits");
    let bytes = adv_buffer_bytes(&buf);
    let mut expected = vec![
        0x02, 0x01, 0x06, // flags entry
        0x03, 0x03, 0x1A, 0x18, // environmental sensing service
        (name.len() + 1) as u8, 0x09, // complete local name entry
    ];
    expected.extend_from_slice(name);
    assert_eq!(bytes, expected);
    assert_eq!(bytes.len(), 25);
}

#[test]
fn adv_data_fails_rather_than_truncates() {
    // 22 name bytes exactly fill the 31-byte cap.
    let longest = [b'n'; 22];
    let buf = build_adv_data(&longest).expect("a 22-byte name fits");
    assert_eq!(adv_buffer_bytes(&buf).len(), 31);
    // One byte more must fail, not truncate.
    let too_long = [b'n'; 23];
    assert!(build_adv_data(&too_long).is_none());
}

#[test]
fn scan_data_names_the_device_information_service() {
    assert_eq!(scan_data(), vec![0x03, 0x03, 0x0A, 0x18]);
}
