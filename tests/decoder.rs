use table_control::signal_decoder::SignalDecoder;

const PREAMBLE: [u8; 23] = [1, 0, 1, 1, 1, 1, 1, 1, 1, 0, 0, 1, 1, 1, 1, 1, 1, 1, 1, 1, 1, 0, 1];

/// A whole frame for `value`: the line is inverted and the data samples run
/// from the least significant digit up.
fn frame(value: u8) -> Vec<u8> {
    let mut bits = PREAMBLE.to_vec();
    for j in 0..8 {
        bits.push(if (value >> j) & 1 == 1 { 0 } else { 1 });
    }
    bits
}

fn feed(decoder: &mut SignalDecoder, bits: &[u8]) {
    for &b in bits {
        decoder.process_bit(b);
    }
}

/// Samples one frame and the idle sample after it, which brings the frame to
/// the head of a full buffer.
fn feed_frame(decoder: &mut SignalDecoder, value: u8) {
    feed(decoder, &frame(value));
    decoder.process_bit(1);
}

#[test]
fn frame_for_one_hundred_locks() {
    let mut bits = PREAMBLE.to_vec();
    bits.extend_from_slice(&[1, 1, 0, 1, 1, 0, 0, 1]);
    assert_eq!(bits, frame(100));
    let mut d = SignalDecoder::new();
    feed(&mut d, &bits[..30]);
    assert_eq!(d.current_height, None);
    d.process_bit(bits[30]);
    assert_eq!(d.current_height, Some(100));
}

#[test]
fn listed_data_samples_decode_out_of_range() {
    // Samples 0,0,0,1,0,1,0,0 at positions 23..30 read, from position 30
    // down and inverted, as 11010111 = 215: outside the valid range.
    let mut bits = PREAMBLE.to_vec();
    bits.extend_from_slice(&[0, 0, 0, 1, 0, 1, 0, 0]);
    assert_eq!(bits, frame(215));
    let mut d = SignalDecoder::new();
    feed(&mut d, &bits);
    assert_eq!(d.current_height, None);
}

#[test]
fn nearby_frames_update_height() {
    let mut d = SignalDecoder::new();
    feed_frame(&mut d, 100);
    assert_eq!(d.current_height, Some(100));
    feed_frame(&mut d, 102);
    assert_eq!(d.current_height, Some(102));
    feed_frame(&mut d, 98);
    assert_eq!(d.current_height, Some(98));
}

#[test]
fn out_of_range_values_are_ignored() {
    let mut d = SignalDecoder::new();
    feed_frame(&mut d, 50);
    assert_eq!(d.current_height, None);
    feed_frame(&mut d, 121);
    assert_eq!(d.current_height, None);
    feed_frame(&mut d, 60);
    assert_eq!(d.current_height, Some(60));
    feed_frame(&mut d, 59);
    assert_eq!(d.current_height, Some(60));
}

#[test]
fn range_bounds_are_accepted() {
    let mut d = SignalDecoder::new();
    feed(&mut d, &frame(120));
    assert_eq!(d.current_height, Some(120));
    let mut e = SignalDecoder::new();
    feed(&mut e, &frame(60));
    assert_eq!(e.current_height, Some(60));
}

#[test]
fn large_jumps_are_rejected() {
    let mut d = SignalDecoder::new();
    feed_frame(&mut d, 100);
    feed_frame(&mut d, 105);
    assert_eq!(d.current_height, Some(100));
    feed_frame(&mut d, 95);
    assert_eq!(d.current_height, Some(100));
    feed_frame(&mut d, 104);
    assert_eq!(d.current_height, Some(104));
}

#[test]
fn first_reading_is_taken_at_any_valid_height() {
    let mut d = SignalDecoder::new();
    feed(&mut d, &frame(110));
    assert_eq!(d.current_height, Some(110));
}

#[test]
fn repeated_frame_keeps_height() {
    let mut d = SignalDecoder::new();
    let f = frame(87);
    for _ in 0..5 {
        feed(&mut d, &f);
        assert_eq!(d.current_height, Some(87));
    }
}

#[test]
fn buffer_keeps_last_thirty_two_samples() {
    let mut d = SignalDecoder::new();
    for i in 0..40u32 {
        d.process_bit((i % 2) as u8);
    }
    assert_eq!(d.bits.len(), 32);
    assert_eq!(d.bits[0], 0);
    assert_eq!(d.bits[31], 1);
    assert_eq!(d.current_height, None);
}

#[test]
fn pattern_match_needs_the_whole_preamble() {
    let mut d = SignalDecoder::new();
    feed(&mut d, &PREAMBLE[..22]);
    assert!(!d.is_matching_table_height_pattern());
    d.process_bit(PREAMBLE[22]);
    assert!(d.is_matching_table_height_pattern());
    assert_eq!(d.current_height, None);
    d.process_bit(1);
    assert!(d.is_matching_table_height_pattern());
}

#[test]
fn update_decodes_frame_at_head() {
    let mut d = SignalDecoder::new();
    d.bits = frame(72);
    d.update_current_height();
    assert_eq!(d.current_height, Some(72));
}

#[test]
fn shifted_frame_is_not_decoded() {
    let mut d = SignalDecoder::new();
    d.process_bit(0);
    feed(&mut d, &frame(100));
    assert_eq!(d.bits.len(), 32);
    assert_eq!(d.current_height, None);
    d.process_bit(0);
    assert_eq!(d.current_height, Some(100));
}

#[test]
fn update_on_short_buffer_keeps_height() {
    let mut d = SignalDecoder::new();
    d.current_height = Some(90);
    d.bits = PREAMBLE.to_vec();
    d.update_current_height();
    assert_eq!(d.current_height, Some(90));
    d.bits.extend_from_slice(&[1, 1, 0, 1, 1, 0, 0]);
    d.update_current_height();
    assert_eq!(d.current_height, Some(90));
    d.bits.push(1);
    d.current_height = None;
    d.update_current_height();
    assert_eq!(d.current_height, Some(100));
}
