use cst816::codec::{
    decode_device_type, decode_event, decode_gesture, decode_touch_sample, decode_version,
    encode_mode, DecodeError, DeviceType, Gesture, InvalidEventType, InvalidGestureType,
    TouchData, TouchEvent, TouchMode, VersionInfo, COORDINATE_MAX,
};

fn gestures() -> Vec<(u8, Gesture)> {
    vec![
        (0x00, Gesture::NoGesture),
        (0x01, Gesture::SwipeUp),
        (0x02, Gesture::SwipeDown),
        (0x03, Gesture::SwipeLeft),
        (0x04, Gesture::SwipeRight),
        (0x05, Gesture::SingleClick),
        (0x0B, Gesture::DoubleClick),
        (0x0C, Gesture::LongPress),
    ]
}

#[test]
fn gesture_codes_decode_to_their_variant() {
    for (code, gesture) in gestures() {
        assert_eq!(decode_gesture(code), Ok(gesture));
        assert_eq!(gesture.code(), code);
    }
}

#[test]
fn gesture_round_trips_through_its_code() {
    for (_, gesture) in gestures() {
        assert_eq!(decode_gesture(gesture.code()), Ok(gesture));
    }
}

#[test]
fn every_other_gesture_byte_fails_with_the_byte() {
    let known: Vec<u8> = gestures().iter().map(|(code, _)| *code).collect();
    let mut failures = 0;
    for byte in 0..=255u8 {
        if !known.contains(&byte) {
            assert_eq!(decode_gesture(byte), Err(InvalidGestureType(byte)));
            failures += 1;
        }
    }
    assert_eq!(failures, 248);
}

#[test]
fn gesture_gaps_between_codes_are_rejected() {
    assert_eq!(decode_gesture(0x06), Err(InvalidGestureType(0x06)));
    assert_eq!(decode_gesture(0x0A), Err(InvalidGestureType(0x0A)));
    assert_eq!(decode_gesture(0x0D), Err(InvalidGestureType(0x0D)));
    assert_eq!(decode_gesture(0xFF), Err(InvalidGestureType(0xFF)));
}

#[test]
fn gesture_try_from_agrees_with_decode() {
    assert_eq!(Gesture::try_from(0x0B), Ok(Gesture::DoubleClick));
    assert_eq!(Gesture::try_from(0x07), Err(InvalidGestureType(0x07)));
    for byte in 0..=255u8 {
        assert_eq!(Gesture::try_from(byte), decode_gesture(byte));
    }
}

#[test]
fn device_type_codes_decode_to_their_variant() {
    assert_eq!(decode_device_type(0x20), DeviceType::Cst716);
    assert_eq!(decode_device_type(0xB4), DeviceType::Cst816S);
    assert_eq!(decode_device_type(0xB5), DeviceType::Cst816T);
    assert_eq!(decode_device_type(0xB6), DeviceType::Cst816D);
}

#[test]
fn every_other_device_byte_is_unknown() {
    for byte in 0..=255u8 {
        if byte != 0x20 && byte != 0xB4 && byte != 0xB5 && byte != 0xB6 {
            assert_eq!(decode_device_type(byte), DeviceType::Unknown);
        }
    }
}

#[test]
fn device_type_round_trips_through_its_code() {
    let all = [
        DeviceType::Unknown,
        DeviceType::Cst716,
        DeviceType::Cst816S,
        DeviceType::Cst816T,
        DeviceType::Cst816D,
    ];
    for device in all {
        assert_eq!(decode_device_type(device.code()), device);
    }
    assert_eq!(DeviceType::Unknown.code(), 0);
    assert_eq!(DeviceType::Cst816S.code(), 0xB4);
}

#[test]
fn device_type_from_agrees_with_decode() {
    assert_eq!(DeviceType::from(0xB5), DeviceType::Cst816T);
    assert_eq!(DeviceType::from(0x00), DeviceType::Unknown);
    let converted: DeviceType = 0xB6u8.into();
    assert_eq!(converted, DeviceType::Cst816D);
}

#[test]
fn event_codes_decode_to_their_variant() {
    assert_eq!(decode_event(0), Ok(TouchEvent::Down));
    assert_eq!(decode_event(1), Ok(TouchEvent::Up));
    assert_eq!(decode_event(2), Ok(TouchEvent::Contact));
    assert_eq!(TouchEvent::Down.code(), 0);
    assert_eq!(TouchEvent::Up.code(), 1);
    assert_eq!(TouchEvent::Contact.code(), 2);
}

#[test]
fn event_code_three_is_an_error() {
    assert_eq!(decode_event(3), Err(InvalidEventType(3)));
}

#[test]
fn event_codes_above_two_bits_are_errors() {
    for bits in 3..=255u8 {
        assert_eq!(decode_event(bits), Err(InvalidEventType(bits)));
    }
}

#[test]
fn touch_sample_of_a_swipe_up_frame() {
    let decoded = decode_touch_sample([0x01, 0x01, 0x00, 0x10, 0x00, 0x20]);
    assert_eq!(
        decoded,
        Ok(TouchData {
            gesture: Gesture::SwipeUp,
            points: 1,
            event: TouchEvent::Down,
            x: 16,
            y: 32,
        })
    );
}

#[test]
fn touch_sample_joins_high_nibble_and_low_byte() {
    let decoded = decode_touch_sample([0x05, 0x02, 0x8A, 0xBC, 0x01, 0x02]).unwrap();
    assert_eq!(decoded.gesture, Gesture::SingleClick);
    assert_eq!(decoded.points, 2);
    assert_eq!(decoded.event, TouchEvent::Contact);
    assert_eq!(decoded.x, 0x0ABC);
    assert_eq!(decoded.y, 0x0102);
}

#[test]
fn touch_sample_ignores_the_high_nibble_of_y() {
    let decoded = decode_touch_sample([0x00, 0x00, 0x40, 0x00, 0xF3, 0x21]).unwrap();
    assert_eq!(decoded.event, TouchEvent::Up);
    assert_eq!(decoded.x, 0);
    assert_eq!(decoded.y, 0x0321);
}

#[test]
fn touch_sample_coordinates_reach_the_maximum() {
    let decoded = decode_touch_sample([0x0C, 0xFF, 0x8F, 0xFF, 0xFF, 0xFF]).unwrap();
    assert_eq!(decoded.gesture, Gesture::LongPress);
    assert_eq!(decoded.points, 0xFF);
    assert_eq!(decoded.x, 4095);
    assert_eq!(decoded.y, 4095);
    assert_eq!(COORDINATE_MAX, 4095);
}

#[test]
fn touch_sample_coordinates_never_pass_twelve_bits() {
    for high in 0..=255u8 {
        let status = high & 0x3F;
        let decoded = decode_touch_sample([0x00, 0x00, status, 0xFF, high, 0xFF]).unwrap();
        assert!(decoded.x <= 4095);
        assert!(decoded.y <= 4095);
        assert_eq!(decoded.x, (((status & 0x0F) as u16) << 8) + 0xFF);
        assert_eq!(decoded.y, (((high & 0x0F) as u16) << 8) + 0xFF);
    }
}

#[test]
fn touch_sample_with_invalid_gesture_fails() {
    let decoded = decode_touch_sample([0x06, 0x01, 0x00, 0x10, 0x00, 0x20]);
    assert_eq!(decoded, Err(DecodeError::InvalidGesture(0x06)));
}

#[test]
fn touch_sample_with_event_code_three_fails() {
    let decoded = decode_touch_sample([0x01, 0x01, 0xC0, 0x10, 0x00, 0x20]);
    assert_eq!(decoded, Err(DecodeError::InvalidEvent(3)));
    let decoded = decode_touch_sample([0x01, 0x01, 0xFF, 0x10, 0x00, 0x20]);
    assert_eq!(decoded, Err(DecodeError::InvalidEvent(3)));
}

#[test]
fn touch_sample_reports_the_gesture_before_the_event() {
    let decoded = decode_touch_sample([0xEE, 0x01, 0xC0, 0x10, 0x00, 0x20]);
    assert_eq!(decoded, Err(DecodeError::InvalidGesture(0xEE)));
}

#[test]
fn touch_sample_status_below_192_decodes() {
    for status in 0..=255u8 {
        let decoded = decode_touch_sample([0x00, 0x00, status, 0x00, 0x00, 0x00]);
        assert_eq!(decoded.is_ok(), status < 192);
    }
}

#[test]
fn version_of_four_bytes() {
    let info = decode_version([0xB4, 0x01, 0x02, 0x03]);
    assert_eq!(
        info,
        VersionInfo { chip_id: DeviceType::Cst816S, proj_id: 1, fw_version: 2, factory_id: 3 }
    );
}

#[test]
fn version_with_unknown_chip() {
    let info = decode_version([0x99, 0xAA, 0xBB, 0xCC]);
    assert_eq!(info.chip_id, DeviceType::Unknown);
    assert_eq!(info.proj_id, 0xAA);
    assert_eq!(info.fw_version, 0xBB);
    assert_eq!(info.factory_id, 0xCC);
}

#[test]
fn mode_bytes_of_motion_and_touch() {
    assert_eq!(encode_mode(TouchMode::Motion), (0b001, 0x11));
    assert_eq!(encode_mode(TouchMode::Touch), (0b000, 0x40));
}

#[test]
fn mode_bytes_of_change_and_fast() {
    assert_eq!(encode_mode(TouchMode::Change), (0b000, 0x20));
    assert_eq!(encode_mode(TouchMode::Fast), (0b000, 0x10));
}

#[test]
fn mode_byte_methods() {
    assert_eq!(TouchMode::Touch.motion_mask_byte(), 0);
    assert_eq!(TouchMode::Change.motion_mask_byte(), 0);
    assert_eq!(TouchMode::Fast.motion_mask_byte(), 0);
    assert_eq!(TouchMode::Motion.motion_mask_byte(), 1);
    assert_eq!(TouchMode::Touch.int_control_byte(), 0x40);
    assert_eq!(TouchMode::Change.int_control_byte(), 0x20);
    assert_eq!(TouchMode::Fast.int_control_byte(), 0x10);
    assert_eq!(TouchMode::Motion.int_control_byte(), 0x11);
}

#[test]
fn defaults() {
    assert_eq!(TouchMode::default(), TouchMode::Touch);
    assert_eq!(DeviceType::default(), DeviceType::Unknown);
    assert_eq!(
        VersionInfo::default(),
        VersionInfo { chip_id: DeviceType::Unknown, proj_id: 0, fw_version: 0, factory_id: 0 }
    );
    assert_eq!(
        TouchData::default(),
        TouchData {
            gesture: Gesture::NoGesture,
            points: 0,
            event: TouchEvent::Down,
            x: 0,
            y: 0,
        }
    );
}
