use local_transcriber::audio::{
    decimate, priming_frame, samples_to_bytes, AudioCapture, CaptureError, CaptureFormat,
    DeviceStatus, PRIMING_SAMPLES, TARGET_SAMPLE_RATE,
};

fn ramp(n: usize) -> Vec<i16> {
    (0..n).map(|i| i as i16).collect()
}

#[test]
fn samples_to_bytes_is_little_endian() {
    let samples = [1i16, -2, 256, i16::MIN, i16::MAX, 0];
    assert_eq!(
        samples_to_bytes(&samples),
        vec![1u8, 0, 254, 255, 0, 1, 0, 128, 255, 127, 0, 0]
    );
}

#[test]
fn samples_to_bytes_matches_std_for_every_sample() {
    let all: Vec<i16> = (i16::MIN..=i16::MAX).collect();
    let bytes = samples_to_bytes(&all);
    assert_eq!(bytes.len(), 2 * all.len());
    for (i, s) in all.iter().enumerate() {
        let expected = s.to_le_bytes();
        assert_eq!(bytes[2 * i], expected[0]);
        assert_eq!(bytes[2 * i + 1], expected[1]);
    }
}

#[test]
fn samples_to_bytes_of_nothing_is_empty() {
    assert_eq!(samples_to_bytes(&[]), Vec::<u8>::new());
}

#[test]
fn priming_frame_is_a_tenth_of_a_second_of_silence() {
    let frame = priming_frame();
    assert_eq!(PRIMING_SAMPLES, 1600);
    assert_eq!(TARGET_SAMPLE_RATE, 16000);
    assert_eq!(frame, vec![0i16; 1600]);
    assert_eq!(samples_to_bytes(&frame), vec![0u8; 3200]);
}

#[test]
fn decimate_48k_keeps_every_third_sample() {
    assert_eq!(decimate(&ramp(10), 48000), vec![0i16, 3, 6, 9]);
    assert_eq!(decimate(&ramp(9), 48000), vec![0i16, 3, 6]);
    assert_eq!(decimate(&ramp(1), 48000), vec![0i16]);
    assert_eq!(decimate(&[], 48000), Vec::<i16>::new());
}

#[test]
fn decimate_48k_length_is_within_one_sample_of_a_third() {
    for n in 0usize..500 {
        let out = decimate(&ramp(n), 48000);
        assert_eq!(out.len(), (n + 2) / 3);
        let exact = n as f64 * 16000.0 / 48000.0;
        assert!((out.len() as f64 - exact).abs() < 1.0);
    }
}

#[test]
fn decimate_44100_keeps_the_first_sample_of_each_target_position() {
    assert_eq!(decimate(&ramp(13), 44100), vec![0i16, 3, 6, 9, 12]);
    let out = decimate(&ramp(441), 44100);
    assert_eq!(out.len(), 160);
}

#[test]
fn decimate_keeps_everything_from_a_slow_input() {
    assert_eq!(decimate(&ramp(7), 16000), ramp(7));
    assert_eq!(decimate(&ramp(7), 8000), ramp(7));
    assert_eq!(decimate(&ramp(7), 1), ramp(7));
}

#[test]
fn decimate_by_a_huge_rate_keeps_the_first_sample_only() {
    assert_eq!(decimate(&ramp(100), u32::MAX), vec![0i16]);
}

#[test]
fn capture_format_needs_a_rate_and_a_channel() {
    assert!(CaptureFormat::new(0, 1).is_none());
    assert!(CaptureFormat::new(48000, 0).is_none());
    let format = CaptureFormat::new(48000, 2).unwrap();
    assert_eq!(format.sample_rate(), 48000);
    assert_eq!(format.channels(), 2);
}

#[test]
fn frame_from_decimates_and_drops_empty_callbacks() {
    let format = CaptureFormat::new(48000, 1).unwrap();
    assert_eq!(format.frame_from(&[]), None);
    assert_eq!(format.frame_from(&[5, 6, 7, 8]), Some(vec![5i16, 8]));
    let same = CaptureFormat::new(16000, 1).unwrap();
    assert_eq!(same.frame_from(&[5, 6, 7]), Some(vec![5i16, 6, 7]));
}

#[test]
fn capture_starts_only_on_an_opened_device() {
    let mut capture = AudioCapture::new();
    assert!(!capture.is_running());
    assert_eq!(capture.start(DeviceStatus::Missing), Err(CaptureError::NoDevice));
    assert!(!capture.is_running());
    assert_eq!(
        capture.start(DeviceStatus::BuildFailed("busy".to_string())),
        Err(CaptureError::StreamInit("Failed to build input stream: busy".to_string()))
    );
    assert_eq!(
        capture.start(DeviceStatus::PlayFailed("gone".to_string())),
        Err(CaptureError::StreamInit("Failed to start stream: gone".to_string()))
    );
    assert!(!capture.is_running());
    let format = CaptureFormat::new(44100, 2).unwrap();
    assert_eq!(capture.start(DeviceStatus::Opened(format)), Ok(()));
    assert!(capture.is_running());
    assert_eq!(capture.format(), Some(format));
}

#[test]
fn a_failed_start_leaves_a_running_capture_running() {
    let mut capture = AudioCapture::new();
    let format = CaptureFormat::new(48000, 1).unwrap();
    capture.start(DeviceStatus::Opened(format)).unwrap();
    assert!(capture.start(DeviceStatus::Missing).is_err());
    assert_eq!(capture.format(), Some(format));
}

#[test]
fn capture_stop_is_idempotent() {
    let mut capture = AudioCapture::new();
    capture.stop();
    assert!(!capture.is_running());
    capture.start(DeviceStatus::Opened(CaptureFormat::new(48000, 1).unwrap())).unwrap();
    capture.stop();
    assert!(!capture.is_running());
    capture.stop();
    assert_eq!(capture, AudioCapture::new());
}

#[test]
fn capture_error_messages() {
    assert_eq!(CaptureError::NoDevice.message(), "No input device available");
    assert_eq!(CaptureError::StreamInit("x: y".to_string()).message(), "x: y");
}
