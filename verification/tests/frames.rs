use uhid_gamepad::config::{DeviceConfig, HidConfig, PatternConfig, ReportConfig};
use uhid_gamepad::hid::hid_report_descriptor;
use uhid_gamepad::transport::{
    build_create2_event, write_padded, TransportError, UhidDevice, CREATE2_EVENT_LEN,
    CREATE2_PAYLOAD_LEN,
};

fn sample_config() -> HidConfig {
    HidConfig {
        device: DeviceConfig {
            name: b"ControllerOS Gamepad".to_vec(),
            vendor_id: 0x28de,
            product_id: 0x1205,
        },
        report: ReportConfig { rate_hz: 125 },
        pattern: PatternConfig::ButtonToggle { button_index: 0, period_reports: 30 },
    }
}

#[test]
fn create2_event_has_fixed_length_and_tag() {
    let event = build_create2_event(&sample_config());
    assert_eq!(event.len(), CREATE2_EVENT_LEN);
    assert_eq!(event.len(), 4 + CREATE2_PAYLOAD_LEN);
    assert_eq!(&event[0..4], &[11, 0, 0, 0]);
}

#[test]
fn create2_event_embeds_descriptor_and_size() {
    let event = build_create2_event(&sample_config());
    // Payload offsets shift by the 4-byte tag: descriptor-size at
    // payload offset 256, descriptor bytes at payload offsets 276..368.
    assert_eq!(event[4 + 256], 92);
    assert_eq!(event[4 + 257], 0);
    assert_eq!(&event[4 + 276..4 + 368], &hid_report_descriptor()[..]);
}

#[test]
fn create2_event_carries_identity_fields() {
    let event = build_create2_event(&sample_config());
    assert_eq!(&event[4..4 + 20], b"ControllerOS Gamepad");
    assert_eq!(event[4 + 20], 0);
    assert_eq!(&event[4 + 128..4 + 137], b"bluetooth");
    assert_eq!(event[4 + 137], 0);
    // Unique id left empty.
    assert!(event[4 + 192..4 + 256].iter().all(|b| *b == 0));
    assert_eq!(&event[4 + 258..4 + 260], &[5, 0]);
    assert_eq!(&event[4 + 260..4 + 264], &[0xde, 0x28, 0, 0]);
    assert_eq!(&event[4 + 264..4 + 268], &[0x05, 0x12, 0, 0]);
    assert_eq!(&event[4 + 268..4 + 272], &[1, 0, 0, 0]);
    assert_eq!(&event[4 + 272..4 + 276], &[0, 0, 0, 0]);
    // Remainder of the payload stays zero.
    assert!(event[4 + 368..].iter().all(|b| *b == 0));
}

#[test]
fn create2_event_truncates_long_names() {
    let mut cfg = sample_config();
    cfg.device.name = vec![b'x'; 200];
    let event = build_create2_event(&cfg);
    assert!(event[4..4 + 127].iter().all(|b| *b == b'x'));
    assert_eq!(event[4 + 127], 0);
}

#[test]
fn teardown_emits_one_frame_then_nothing() {
    let mut device = UhidDevice::new();
    device.note_create_written(true);
    let first = device.destroy_event();
    assert_eq!(first, Some(vec![1, 0, 0, 0]));
    let second = device.destroy_event();
    assert_eq!(second, None);
}

#[test]
fn teardown_before_registration_is_a_no_op() {
    let mut device = UhidDevice::new();
    assert_eq!(device.destroy_event(), None);
}

#[test]
fn failed_registration_leaves_device_unregistered() {
    let mut device = UhidDevice::new();
    device.note_create_written(false);
    assert_eq!(device.destroy_event(), None);
}

#[test]
fn oversized_report_is_rejected_without_a_frame() {
    let mut device = UhidDevice::new();
    device.note_create_written(true);
    let payload = vec![0u8; 4097];
    let err = device.input_report_event(&payload).expect_err("oversized report");
    assert_eq!(err, TransportError::ReportTooLarge);
    assert_eq!(err.message(), "report too large");
}

#[test]
fn report_frame_has_tag_length_and_payload() {
    let mut device = UhidDevice::new();
    device.note_create_written(true);
    let payload: Vec<u8> = vec![1, 2, 3, 4, 5, 6, 7, 8, 9, 10];
    let frame = device.input_report_event(&payload).expect("frame");
    assert_eq!(frame.len(), 6 + payload.len());
    assert_eq!(&frame[0..4], &[12, 0, 0, 0]);
    assert_eq!(&frame[4..6], &[10, 0]);
    assert_eq!(&frame[6..], &payload[..]);
}

#[test]
fn largest_report_still_fits() {
    let mut device = UhidDevice::new();
    device.note_create_written(true);
    let payload = vec![0xabu8; 4096];
    let frame = device.input_report_event(&payload).expect("frame");
    assert_eq!(frame.len(), 6 + 4096);
    assert_eq!(&frame[4..6], &[0x00, 0x10]);
}

#[test]
fn write_padded_truncates_and_spares_last_byte() {
    let mut buf = vec![0xffu8; 10];
    let src = b"abcdefghij".to_vec();
    write_padded(&mut buf, 2, 6, &src);
    assert_eq!(buf, vec![0xff, 0xff, b'a', b'b', b'c', 0xff, 0xff, 0xff, 0xff, 0xff]);
}

#[test]
fn write_padded_short_source_copies_everything() {
    let mut buf = vec![0u8; 8];
    let src = b"hi".to_vec();
    write_padded(&mut buf, 1, 7, &src);
    assert_eq!(buf, vec![0, b'h', b'i', 0, 0, 0, 0, 0]);
}
