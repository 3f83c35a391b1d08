use openmpt_decoder::render::{bytes_read, plan_read, samples_for};
use openmpt_decoder::timeline::Extent;
use openmpt_decoder::units::{frames_to_bytes, BYTES_PER_SAMPLE, CHANNELS, FRAME_BYTES, SAMPLE_RATE};

#[test]
fn frame_is_two_float_samples() {
    assert_eq!(FRAME_BYTES, CHANNELS as i64 * BYTES_PER_SAMPLE);
    assert_eq!(SAMPLE_RATE, 48000);
}

#[test]
fn frames_to_bytes_exact() {
    assert_eq!(frames_to_bytes(0), 0);
    assert_eq!(frames_to_bytes(1), 8);
    assert_eq!(frames_to_bytes(48000), 384000);
    assert_eq!(frames_to_bytes(-3), -24);
}

#[test]
fn frames_to_bytes_whole_frames() {
    for f in [0i64, 1, 7, 48000, 12345678, i64::MAX / 8] {
        assert_eq!(frames_to_bytes(f) % 8, 0);
    }
}

#[test]
fn frames_to_bytes_saturates() {
    assert_eq!(frames_to_bytes(i64::MAX / 8), (i64::MAX / 8) * 8);
    assert_eq!(frames_to_bytes(i64::MAX / 8 + 1), i64::MAX);
    assert_eq!(frames_to_bytes(i64::MAX), i64::MAX);
    assert_eq!(frames_to_bytes(i64::MIN), i64::MIN);
}

#[test]
fn extent_from_bytes() {
    assert_eq!(Extent::from_bytes(i64::MAX), Extent::Unbounded);
    assert_eq!(Extent::from_bytes(384000), Extent::Known(384000));
    assert_eq!(Extent::from_bytes(0), Extent::Known(0));
}

#[test]
fn finite_stream_is_seekable() {
    let e = Extent::from_bytes(34560003);
    assert!(e.is_seekable());
    assert!(!e.is_realtime_stream());
    assert_eq!(e.size(), 34560000);
    assert!(e.size() > 0);
}

#[test]
fn unbounded_stream_is_realtime() {
    let e = Extent::from_bytes(frames_to_bytes(i64::MAX));
    assert!(!e.is_seekable());
    assert!(e.is_realtime_stream());
    assert_eq!(e.size(), 0);
    assert_eq!(e.available_data(0), i64::MAX);
    assert_eq!(e.available_data(123456), i64::MAX);
}

#[test]
fn empty_module_counts_as_unbounded_for_host() {
    let e = Extent::Known(0);
    assert_eq!(e.size(), 0);
    assert!(!e.is_seekable());
    assert!(e.is_realtime_stream());
    assert_eq!(e.available_data(0), i64::MAX);
}

#[test]
fn available_data_is_remaining_bytes() {
    let e = Extent::Known(384000);
    assert_eq!(e.available_data(0), 384000);
    assert_eq!(e.available_data(80000), 304000);
    assert_eq!(e.available_data(384000), 0);
    assert_eq!(e.available_data(400000), -16000);
}

#[test]
fn available_data_saturates() {
    let e = Extent::Known(10);
    assert_eq!(e.available_data(i64::MIN), i64::MAX);
    let e = Extent::Known(-10);
    assert_eq!(e.available_data(i64::MAX), i64::MIN);
}

#[test]
fn seek_past_end_refused() {
    let e = Extent::Known(384000);
    assert!(e.permits_seek(0));
    assert!(e.permits_seek(200000));
    assert!(e.permits_seek(384000));
    assert!(!e.permits_seek(384001));
    assert!(!e.permits_seek(i64::MAX));
    assert!(e.permits_seek(-8));
}

#[test]
fn seek_into_last_partial_frame_taken() {
    // a duration of 2^-10 s is 46.875 frames, 375 bytes
    let e = Extent::from_bytes(375);
    assert_eq!(e.size(), 368);
    assert!(e.permits_seek(368));
    assert!(e.permits_seek(370));
    assert!(e.permits_seek(375));
    assert!(!e.permits_seek(376));
    assert_eq!(e.available_data(368), 0);
}

#[test]
fn size_is_whole_frames() {
    assert_eq!(Extent::Known(384005).size(), 384000);
    assert_eq!(Extent::Known(7).size(), 0);
    assert_eq!(Extent::Known(8).size(), 8);
    assert_eq!(Extent::Known(-13).size(), -8);
    assert_eq!(Extent::Known(i64::MIN).size(), i64::MIN);
    assert_eq!(Extent::Known(i64::MAX - 1).size(), i64::MAX - 7);
}

#[test]
fn seek_on_unbounded_taken() {
    let e = Extent::Unbounded;
    assert!(e.permits_seek(0));
    assert!(e.permits_seek(i64::MAX));
}

#[test]
fn empty_buffer_skips_engine() {
    assert_eq!(plan_read(0), None);
}

#[test]
fn read_plan_whole_frames() {
    assert_eq!(plan_read(1), Some(0));
    assert_eq!(plan_read(7), Some(0));
    assert_eq!(plan_read(8), Some(1));
    assert_eq!(plan_read(4096), Some(512));
    assert_eq!(plan_read(4100), Some(512));
    assert_eq!(samples_for(512), 1024);
}

#[test]
fn bytes_read_counts_frames() {
    assert_eq!(bytes_read(512, 512), 4096);
    assert_eq!(bytes_read(512, 100), 800);
    assert_eq!(bytes_read(512, 0), 0);
}

#[test]
fn bytes_read_never_exceeds_request() {
    assert_eq!(bytes_read(512, 9999), 4096);
    assert_eq!(bytes_read(0, 3), 0);
}

#[test]
fn bytes_read_caps_at_i32() {
    assert_eq!(bytes_read(usize::MAX, 268435455), 2147483640);
    assert_eq!(bytes_read(usize::MAX, 268435456), i32::MAX);
}

#[test]
fn read_into_n_frames_fits() {
    for len in [1usize, 8, 13, 4096, 65535] {
        let frames = plan_read(len).unwrap();
        for rendered in [0usize, frames, frames + 1, usize::MAX] {
            let n = bytes_read(frames, rendered);
            assert!(n as usize <= len);
            assert_eq!(n % 8, 0);
        }
    }
}
