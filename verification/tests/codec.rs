//! The wire codec: round trips, rejections, and compatibility with the
//! serialization format the desktop application uses.

use totem::codec::{decode_ui_state, encode_ui_state, DecodeError};
use totem::state::{Brightness, Mode, ScreenState, Speed, Temperature, UIState};

fn state(mode: Mode, brightness: u8, speed_ms: u32, temperature: i8, screen: ScreenState) -> UIState {
    UIState {
        mode,
        brightness: Brightness::new(brightness),
        speed: Speed::new(speed_ms),
        temperature: Temperature::new(temperature),
        screen_state: screen,
    }
}

#[test]
fn round_trip_over_the_documented_ranges() {
    for mode in [Mode::Off, Mode::RandomUnicolor, Mode::RainbowFontain] {
        for brightness in [0u8, 1, 127, 128, 255] {
            for speed_ms in [100u32, 101, 127, 128, 5000, 12999, 13000] {
                for temperature in [-85i8, -1, 0, 1, 85] {
                    for screen in [ScreenState::Off, ScreenState::On] {
                        let s = state(mode, brightness, speed_ms, temperature, screen);
                        let bytes = encode_ui_state(&s);
                        assert_eq!(decode_ui_state(&bytes), Ok(s));
                    }
                }
            }
        }
    }
}

#[test]
fn round_trip_at_the_edges_of_the_machine_types() {
    for speed_ms in [0u32, u32::MAX, 0x7f, 0x80, 0x3fff, 0x4000] {
        for temperature in [i8::MIN, i8::MAX] {
            let s = state(Mode::RandomUnicolor, 255, speed_ms, temperature, ScreenState::On);
            let bytes = encode_ui_state(&s);
            assert_eq!(decode_ui_state(&bytes), Ok(s));
        }
    }
}

#[test]
fn known_payload_bytes() {
    let s = state(Mode::RandomUnicolor, 128, 5000, -3, ScreenState::On);
    // 5000 ms = 0x1388 encodes as the varint [0x88, 0x27]; -3 is 0xfd.
    assert_eq!(encode_ui_state(&s), vec![0x01, 0x80, 0x88, 0x27, 0xfd, 0x01]);
}

#[test]
fn empty_payload_is_rejected() {
    assert_eq!(decode_ui_state(&[]), Err(DecodeError::UnexpectedEnd));
}

#[test]
fn payload_too_short_for_screen_state_is_rejected() {
    // A full state minus its trailing screen discriminant.
    let s = state(Mode::RandomUnicolor, 10, 200, 5, ScreenState::On);
    let mut bytes = encode_ui_state(&s);
    bytes.pop();
    bytes.pop();
    assert_eq!(decode_ui_state(&bytes), Err(DecodeError::UnexpectedEnd));
}

#[test]
fn unknown_mode_discriminant_is_rejected() {
    assert_eq!(
        decode_ui_state(&[0x03, 0x00, 0x64, 0x00, 0x00]),
        Err(DecodeError::BadDiscriminant)
    );
}

#[test]
fn unknown_screen_discriminant_is_rejected() {
    assert_eq!(
        decode_ui_state(&[0x01, 0x00, 0x64, 0x00, 0x02]),
        Err(DecodeError::BadDiscriminant)
    );
}

#[test]
fn overlong_varint_is_rejected() {
    // Six continuation bytes never fit a 32-bit value.
    assert_eq!(
        decode_ui_state(&[0x01, 0x00, 0xff, 0xff, 0xff, 0xff, 0xff, 0x00, 0x00, 0x00]),
        Err(DecodeError::BadVarint)
    );
}

#[test]
fn fifth_varint_byte_with_extra_bits_is_rejected() {
    // The fifth byte may only carry the four bits left of a 32-bit value.
    assert_eq!(
        decode_ui_state(&[0x01, 0x00, 0xff, 0xff, 0xff, 0xff, 0x10, 0x00, 0x00]),
        Err(DecodeError::BadVarint)
    );
}

#[test]
fn trailing_bytes_are_ignored() {
    let s = state(Mode::Off, 1, 100, 0, ScreenState::Off);
    let mut bytes = encode_ui_state(&s);
    bytes.extend_from_slice(&[0xde, 0xad]);
    assert_eq!(decode_ui_state(&bytes), Ok(s));
}

#[test]
fn matches_postcard_for_the_equivalent_record() {
    // The desktop application serializes the same schema with postcard:
    // a unit-variant discriminant and a u32 become varints, u8 and i8 one
    // byte each. A tuple of the underlying field values goes through
    // postcard identically, as long as the discriminants stay below 128,
    // which the closed variant sets guarantee.
    for (mode, mode_index) in [
        (Mode::Off, 0u8),
        (Mode::RandomUnicolor, 1),
        (Mode::RainbowFontain, 2),
    ] {
        for speed_ms in [100u32, 12999, u32::MAX] {
            for temperature in [-85i8, 0, 85] {
                let s = state(mode, 37, speed_ms, temperature, ScreenState::On);
                let record = (mode_index, 37u8, speed_ms, temperature, 1u8);
                let theirs: Vec<u8> = postcard::to_allocvec(&record).unwrap();
                assert_eq!(encode_ui_state(&s), theirs);

                let back: (u8, u8, u32, i8, u8) =
                    postcard::from_bytes(&encode_ui_state(&s)).unwrap();
                assert_eq!(back, record);
            }
        }
    }
}
