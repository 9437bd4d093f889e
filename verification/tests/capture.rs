use clap_mml_play_server::capture::{LiveCapture, OutputCapture, StopDecision};

fn bits(samples: &[f32]) -> Vec<u32> {
    samples.iter().map(|sample| sample.to_bits()).collect()
}

/// A live capture sized as one armed for `seconds` at `sample_rate`.
fn capture(seconds: f64, sample_rate: u32) -> LiveCapture {
    let limit = (seconds * sample_rate as f64).round() as usize * 2;
    LiveCapture::new(limit, 0)
}

#[test]
fn a_capture_keeps_every_block_in_order() {
    let mut c = capture(1.0, 48_000);
    c.push(&bits(&[0.1, 0.2]), 0);
    c.push(&bits(&[0.3, 0.4]), 1);
    assert_eq!(c.samples(), &bits(&[0.1, 0.2, 0.3, 0.4]));
    assert_eq!(c.first_clock(), Some(0));
}

#[test]
fn a_capture_never_grows_past_its_reserved_capacity() {
    let mut c = capture(2.0, 1);
    let became_full = c.push(&bits(&[0.1, 0.2, 0.3, 0.4, 0.5, 0.6]), 0);
    assert!(became_full);
    assert_eq!(c.samples(), &bits(&[0.1, 0.2, 0.3, 0.4]));
    assert!(c.truncated());
    assert!(!c.push(&bits(&[0.7, 0.8]), 3), "full is reported once");
    assert_eq!(c.samples().len(), 4);
}

#[test]
fn a_finished_capture_writes_the_wav_once() {
    let mut c = capture(1.0, 48_000);
    c.push(&bits(&[0.25, -0.25]), 512);
    assert!(c.finish());

    c.push(&bits(&[0.5, 0.5]), 1024);
    assert!(!c.finish());
    assert_eq!(c.samples(), &bits(&[0.25, -0.25]));
    assert_eq!(c.first_clock(), Some(512));
}

#[test]
fn an_empty_capture_writes_nothing() {
    let mut c = capture(1.0, 48_000);
    assert!(!c.finish());
    assert!(!c.written());
}

#[test]
fn stop_does_not_finish_before_the_requested_minimum_length() {
    let mut c = LiveCapture::new(40, 10);
    c.push(&bits(&[0.25; 16]), 0);

    assert_eq!(c.finish_on_stop(), StopDecision::Continue { frames: 8 });

    assert!(!c.written());
    c.push(&bits(&[0.5; 4]), 8);
    assert_eq!(c.finish_on_stop(), StopDecision::Finish { write: true });
    assert!(c.written());
}

#[test]
fn recording_starts_at_the_first_playing_frame_and_hands_off_when_full() {
    let mut c = OutputCapture::new(3);
    assert_eq!(c.record(false, 9.0f32.to_bits(), 9.0f32.to_bits()), None);
    assert_eq!(c.record(true, 0.1f32.to_bits(), 0.2f32.to_bits()), None);
    assert_eq!(c.record(false, 0.0f32.to_bits(), 0.0f32.to_bits()), None);
    let written = c.record(true, 0.3f32.to_bits(), 0.4f32.to_bits());
    assert_eq!(written, Some(bits(&[0.1, 0.2, 0.0, 0.0, 0.3, 0.4])));
    assert_eq!(c.record(true, 5.0f32.to_bits(), 5.0f32.to_bits()), None);
}

#[test]
fn nothing_is_handed_off_before_playback_starts() {
    let mut c = OutputCapture::new(1);
    for _ in 0..10 {
        assert_eq!(c.record(false, 1.0f32.to_bits(), 1.0f32.to_bits()), None);
    }
    assert!(c.samples().is_empty());
}

#[test]
fn recording_never_grows_past_the_reserved_capacity() {
    let mut c = OutputCapture::new(4);
    for _ in 0..3 {
        assert_eq!(c.record(true, 0.5f32.to_bits(), 0.5f32.to_bits()), None);
    }
    assert_eq!(c.samples().len(), 6);
}
