use audio_spectrum::decode::decode;
use audio_spectrum::decode::DecodeError;

#[test]
fn decodes_signed_16_bit() {
    let bytes = [0x01, 0x00, 0xff, 0xff, 0x00, 0x80, 0xff, 0x7f, 0x34, 0x12];
    assert_eq!(decode(&bytes, 2), Ok(vec![1, -1, -32768, 32767, 0x1234]));
}

#[test]
fn decodes_signed_8_bit() {
    let bytes = [0x00, 0x01, 0x7f, 0x80, 0xff];
    assert_eq!(decode(&bytes, 1), Ok(vec![0, 1, 127, -128, -1]));
}

#[test]
fn decodes_signed_24_bit() {
    let bytes = [0x01, 0x00, 0x00, 0xff, 0xff, 0xff, 0x00, 0x00, 0x80, 0xff, 0xff, 0x7f];
    assert_eq!(decode(&bytes, 3), Ok(vec![1, -1, -8_388_608, 8_388_607]));
}

#[test]
fn decodes_signed_32_bit() {
    let bytes = [
        0x01, 0x00, 0x00, 0x00, 0xff, 0xff, 0xff, 0xff, 0x00, 0x00, 0x00, 0x80, 0xff, 0xff, 0xff,
        0x7f, 0x78, 0x56, 0x34, 0x12,
    ];
    assert_eq!(decode(&bytes, 4), Ok(vec![1, -1, i32::MIN, i32::MAX, 0x12345678]));
}

#[test]
fn agrees_with_from_le_bytes() {
    for lo in (0u16..256).step_by(5) {
        for hi in 0u16..256 {
            let pair = [lo as u8, hi as u8];
            assert_eq!(decode(&pair, 2), Ok(vec![i16::from_le_bytes(pair) as i32]));
        }
    }
    for seed in 0u32..2000 {
        let word = seed.wrapping_mul(2_654_435_761).to_le_bytes();
        assert_eq!(decode(&word, 4), Ok(vec![i32::from_le_bytes(word)]));
    }
}

#[test]
fn empty_window_has_no_samples() {
    assert_eq!(decode(&[], 2), Ok(vec![]));
    assert_eq!(decode(&[], 4), Ok(vec![]));
}

#[test]
fn misaligned_window_is_rejected() {
    assert_eq!(decode(&[1, 2, 3], 2), Err(DecodeError::Misaligned));
    assert_eq!(decode(&[1], 4), Err(DecodeError::Misaligned));
    assert_eq!(decode(&[1, 2, 3, 4], 3), Err(DecodeError::Misaligned));
}

#[test]
fn unsupported_width_is_rejected() {
    assert_eq!(decode(&[1, 2, 3, 4], 0), Err(DecodeError::UnsupportedWidth));
    assert_eq!(decode(&[1, 2, 3, 4, 5], 5), Err(DecodeError::UnsupportedWidth));
    assert_eq!(decode(&[], 8), Err(DecodeError::UnsupportedWidth));
}

#[test]
fn frame_length_is_bytes_over_width() {
    let bytes = vec![0u8; 4096];
    assert_eq!(decode(&bytes, 1).unwrap().len(), 4096);
    assert_eq!(decode(&bytes, 2).unwrap().len(), 2048);
    assert_eq!(decode(&bytes, 4).unwrap().len(), 1024);
}
