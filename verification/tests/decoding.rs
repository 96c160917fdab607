use soil_sensor::bytes::{i32_from_be, u16_from_be};

#[test]
fn moisture_bytes_decode_without_conversion() {
    assert_eq!(u16_from_be([0x03, 0xE8]), 1000);
}

#[test]
fn moisture_bytes_cover_the_whole_range() {
    assert_eq!(u16_from_be([0x00, 0x00]), 0);
    assert_eq!(u16_from_be([0x00, 0xFF]), 255);
    assert_eq!(u16_from_be([0x01, 0x00]), 256);
    assert_eq!(u16_from_be([0xFF, 0xFF]), u16::MAX);
}

#[test]
fn moisture_decoding_agrees_with_std() {
    for high in [0x00u8, 0x01, 0x7F, 0x80, 0xFF] {
        for low in [0x00u8, 0x01, 0x7F, 0x80, 0xFF] {
            assert_eq!(u16_from_be([high, low]), u16::from_be_bytes([high, low]));
        }
    }
}

#[test]
fn temperature_bytes_decode_as_signed_big_endian() {
    assert_eq!(i32_from_be([0x00, 0x00, 0x00, 0x00]), 0);
    assert_eq!(i32_from_be([0x00, 0x00, 0x27, 0x10]), 10000);
    assert_eq!(i32_from_be([0x00, 0x01, 0x00, 0x00]), 65536);
    assert_eq!(i32_from_be([0xFF, 0xFF, 0xFF, 0xFF]), -1);
    assert_eq!(i32_from_be([0xFF, 0xFF, 0xD8, 0xF0]), -10000);
    assert_eq!(i32_from_be([0x80, 0x00, 0x00, 0x00]), i32::MIN);
    assert_eq!(i32_from_be([0x7F, 0xFF, 0xFF, 0xFF]), i32::MAX);
}

#[test]
fn temperature_decoding_agrees_with_std() {
    let samples = [0x00u8, 0x01, 0x7F, 0x80, 0xFE, 0xFF];
    for a in samples {
        for b in samples {
            for c in samples {
                for d in samples {
                    assert_eq!(i32_from_be([a, b, c, d]), i32::from_be_bytes([a, b, c, d]));
                }
            }
        }
    }
}
