use clap_mml_play_server::audio_output::{AudioOutput, ChunkPush, DEFAULT_BUFFER_MULTIPLIER};

fn bits(samples: &[f32]) -> Vec<u32> {
    samples.iter().map(|sample| sample.to_bits()).collect()
}

fn frame(left: f32, right: f32) -> Option<(u32, u32)> {
    Some((left.to_bits(), right.to_bits()))
}

#[test]
fn generation_change_discards_stale_frames() {
    let mut output = AudioOutput::new(2);
    output.start_generation(1);
    assert_eq!(output.push_chunk(1, &bits(&[0.25, 0.75]), 0), ChunkPush::Complete);
    output.start_generation(2);
    assert_eq!(output.push_chunk(2, &bits(&[0.5, 0.25]), 0), ChunkPush::Complete);

    assert_eq!(output.next_frame(), frame(0.5, 0.25));
}

#[test]
fn fill_output_preserves_last_odd_sample() {
    let mut output = AudioOutput::new(2);
    output.start_generation(1);
    assert_eq!(output.push_chunk(1, &bits(&[0.25, 0.75, 0.5]), 0), ChunkPush::Complete);

    assert_eq!(output.next_frame(), frame(0.25, 0.75));
    assert_eq!(output.next_frame(), frame(0.5, 0.0));
}

#[test]
fn underrun_is_counted_only_while_active() {
    let mut output = AudioOutput::new(2);
    assert_eq!(output.next_frame(), None);
    assert_eq!(output.underrun_frames(), 0);

    output.start_generation(1);
    assert_eq!(output.next_frame(), None);
    assert_eq!(output.underrun_frames(), 1);
}

#[test]
fn multiplier_accepts_only_supported_depths() {
    let mut output = AudioOutput::new(512);
    assert_eq!(output.buffer_multiplier(), 4);
    for multiplier in [1, 2, 4, 8] {
        output.set_buffer_multiplier(multiplier).unwrap();
        assert_eq!(output.buffer_multiplier(), multiplier);
    }
    assert!(output.set_buffer_multiplier(3).is_err());
}

#[test]
fn multiplier_changes_render_ahead_target_without_discarding_frames() {
    let mut output = AudioOutput::new(2);
    output.start_generation(1);
    output.set_buffer_multiplier(2).unwrap();
    assert_eq!(output.push_chunk(1, &bits(&[0.1, 0.1, 0.2, 0.2]), 0), ChunkPush::Complete);
    assert!(output.has_space());
    assert_eq!(output.push_chunk(1, &bits(&[0.3, 0.3, 0.4, 0.4]), 0), ChunkPush::Complete);
    assert!(!output.has_space());

    output.set_buffer_multiplier(8).unwrap();
    assert!(output.has_space());
    output.set_buffer_multiplier(1).unwrap();
    assert!(!output.has_space());
}

#[test]
fn a_full_ring_stops_the_push_where_it_can_resume() {
    let mut output = AudioOutput::new(1);
    output.start_generation(1);
    let samples = bits(&[0.5; 20]);
    assert_eq!(output.push_chunk(1, &samples, 0), ChunkPush::Full { next_frame: 8 });
    assert_eq!(output.len(), 8);
    assert_eq!(output.next_frame(), frame(0.5, 0.5));
    assert_eq!(output.push_chunk(1, &samples, 8), ChunkPush::Full { next_frame: 9 });
    while output.next_frame().is_some() {}
    assert_eq!(output.push_chunk(1, &samples, 9), ChunkPush::Complete);
    assert_eq!(output.len(), 1);
}

#[test]
fn a_chunk_of_an_old_generation_is_dropped() {
    let mut output = AudioOutput::new(4);
    output.start_generation(2);
    assert_eq!(output.push_chunk(1, &bits(&[0.1, 0.1, 0.2, 0.2]), 0), ChunkPush::Stale);
    assert_eq!(output.len(), 1);
    assert_eq!(output.next_frame(), None);
    assert_eq!(output.underrun_frames(), 1);
}

#[test]
fn a_shut_down_output_takes_no_more_frames() {
    let mut output = AudioOutput::new(1);
    output.start_generation(1);
    assert_eq!(output.target_frames(), DEFAULT_BUFFER_MULTIPLIER as usize);
    output.shutdown();
    assert!(!output.has_space());
    let samples = bits(&[0.5; 20]);
    assert_eq!(output.push_chunk(1, &samples, 0), ChunkPush::Stale);
    assert_eq!(output.len(), 8);
}
