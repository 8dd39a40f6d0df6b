use audio_spectrum::decode::decode;
use audio_spectrum::decode::encode_sample;
use audio_spectrum::source::FrameAssembler;

#[test]
fn encode_sample_writes_little_endian() {
    assert_eq!(encode_sample(0), [0, 0, 0, 0]);
    assert_eq!(encode_sample(1), [1, 0, 0, 0]);
    assert_eq!(encode_sample(-1), [0xff, 0xff, 0xff, 0xff]);
    assert_eq!(encode_sample(0x12345678), [0x78, 0x56, 0x34, 0x12]);
    assert_eq!(encode_sample(i32::MIN), [0, 0, 0, 0x80]);
    assert_eq!(encode_sample(i32::MAX), [0xff, 0xff, 0xff, 0x7f]);
    assert_eq!(encode_sample(-256), [0, 0xff, 0xff, 0xff]);
}

#[test]
fn encode_sample_agrees_with_to_le_bytes() {
    let mut value = 1i32;
    for _ in 0..5000 {
        value = value.wrapping_mul(1_664_525).wrapping_add(1_013_904_223);
        assert_eq!(encode_sample(value), value.to_le_bytes());
    }
}

#[test]
fn decode_undoes_encode() {
    let samples = vec![0, 1, -1, 77, -77, i32::MIN, i32::MAX, 65536, -65536];
    let mut assembler = FrameAssembler::new();
    assembler.feed_samples(&samples);
    assert_eq!(assembler.len(), samples.len() * 4);
    let bytes = assembler.take_exact(samples.len() * 4).unwrap();
    assert_eq!(decode(&bytes, 4), Ok(samples));
}

#[test]
fn new_assembler_holds_nothing() {
    let mut assembler = FrameAssembler::new();
    assert_eq!(assembler.len(), 0);
    assert_eq!(assembler.take_exact(0), Some(vec![]));
    assert_eq!(assembler.take_exact(1), None);
}

#[test]
fn short_assembler_serves_nothing_and_keeps_its_bytes() {
    let mut assembler = FrameAssembler::new();
    assembler.feed(&[1, 2, 3]);
    assert_eq!(assembler.take_exact(4), None);
    assert_eq!(assembler.len(), 3);
    assembler.feed(&[4]);
    assert_eq!(assembler.take_exact(4), Some(vec![1, 2, 3, 4]));
    assert_eq!(assembler.len(), 0);
}

#[test]
fn reads_come_in_order_of_arrival() {
    let mut assembler = FrameAssembler::new();
    assembler.feed(&[1, 2, 3, 4, 5]);
    assembler.feed(&[]);
    assembler.feed(&[6, 7]);
    assert_eq!(assembler.take_exact(2), Some(vec![1, 2]));
    assert_eq!(assembler.take_exact(4), Some(vec![3, 4, 5, 6]));
    assert_eq!(assembler.take_exact(2), None);
    assert_eq!(assembler.len(), 1);
    assembler.feed_samples(&[-2]);
    assert_eq!(assembler.take_exact(5), Some(vec![7, 0xfe, 0xff, 0xff, 0xff]));
}

#[test]
fn uneven_device_frames_become_even_reads() {
    let mut assembler = FrameAssembler::new();
    let mut next = 0i32;
    let mut read: Vec<i32> = Vec::new();
    for frame_len in [3usize, 0, 7, 1, 12, 5, 4] {
        let frame: Vec<i32> = (0..frame_len)
            .map(|_| {
                next += 1;
                next * 1000 - 7
            })
            .collect();
        assembler.feed_samples(&frame);
        while let Some(bytes) = assembler.take_exact(16) {
            read.extend(decode(&bytes, 4).unwrap());
        }
    }
    let expected: Vec<i32> = (1..=32).map(|n| n * 1000 - 7).collect();
    assert_eq!(read, expected);
    assert_eq!(assembler.len(), 0);
}
