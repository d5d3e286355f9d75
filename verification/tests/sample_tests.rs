use pwm_sound::sample::{convert_sample16, convert_sample8, PcmSource};

#[test]
fn sixteen_bit_zero_is_midscale() {
    assert_eq!(convert_sample16(0x00, 0x00), 0x0800);
}

#[test]
fn sixteen_bit_most_negative_is_zero() {
    // -32768 little-endian is 0x00, 0x80
    assert_eq!(convert_sample16(0x00, 0x80), 0x0000);
}

#[test]
fn sixteen_bit_most_positive_is_full_scale() {
    // 32767 little-endian is 0xFF, 0x7F
    assert_eq!(convert_sample16(0xFF, 0x7F), 0x0FFF);
}

#[test]
fn eight_bit_zero_maps_to_zero() {
    assert_eq!(convert_sample8(0x00), 0x0000);
}

#[test]
fn eight_bit_max_maps_high() {
    assert_eq!(convert_sample8(0xFF), 0x0FF0);
}

#[test]
fn fill_returns_full_chunk_when_enough_samples() {
    // 5 mono 8-bit frames, capacity 8 words: 4 frames fill the chunk
    let data = vec![10u8, 20, 30, 40, 50];
    let mut src = PcmSource::new(data, 5, 1, 8);
    let mut buf = vec![0u32; 8];
    let n = src.fill(&mut buf, 8);
    assert_eq!(n, 8);
    assert_eq!(buf, vec![160, 160, 320, 320, 480, 480, 640, 640]);
    assert_eq!(src.samples, 1);
}

#[test]
fn fill_short_stream_returns_twice_the_frames() {
    // 3 stereo 8-bit frames, capacity 8 words: 6 words, stream exhausted
    let data = vec![1u8, 2, 3, 4, 5, 6];
    let mut src = PcmSource::new(data, 3, 2, 8);
    let mut buf = vec![99u32; 8];
    let n = src.fill(&mut buf, 8);
    assert_eq!(n, 6);
    assert_eq!(buf, vec![16, 32, 48, 64, 80, 96, 99, 99]);
    assert_eq!(src.samples, 0);
    // a further fill reports exhaustion and writes nothing
    let n2 = src.fill(&mut buf, 8);
    assert_eq!(n2, 0);
    assert_eq!(buf[0], 16);
}

#[test]
fn fill_mono_duplicates_each_word() {
    let data = vec![0x00u8, 0x00, 0xFF, 0x7F, 0x34, 0x12];
    let mut src = PcmSource::new(data, 3, 1, 16);
    let mut buf = vec![0u32; 6];
    let n = src.fill(&mut buf, 6);
    assert_eq!(n, 6);
    for i in 0..3 {
        assert_eq!(buf[2 * i], buf[2 * i + 1]);
    }
    assert_eq!(buf, vec![0x800, 0x800, 0xFFF, 0xFFF, 0x923, 0x923]);
}

#[test]
fn fill_stereo_sixteen_bit_words() {
    let data = vec![0x00u8, 0x00, 0xFF, 0x7F, 0x00, 0x80, 0x34, 0x12];
    let mut src = PcmSource::new(data, 2, 2, 16);
    let mut buf = vec![7u32; 6];
    let n = src.fill(&mut buf, 6);
    assert_eq!(n, 4);
    assert_eq!(buf, vec![0x800, 0xFFF, 0x000, 0x923, 7, 7]);
}

#[test]
fn fill_empty_stream_returns_zero() {
    let mut src = PcmSource::empty();
    let mut buf = vec![5u32; 4];
    let n = src.fill(&mut buf, 4);
    assert_eq!(n, 0);
    assert_eq!(buf, vec![5, 5, 5, 5]);
}

#[test]
fn fill_stops_at_capacity_mid_stream() {
    // 4 stereo 16-bit frames but capacity only 4 words: two frames consumed
    let data = vec![0u8; 16];
    let mut src = PcmSource::new(data, 4, 2, 16);
    let mut buf = vec![0u32; 4];
    let n = src.fill(&mut buf, 4);
    assert_eq!(n, 4);
    assert_eq!(src.samples, 2);
    assert_eq!(src.pos, 8);
}
