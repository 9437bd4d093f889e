use clap_mml_play_server::timing_window::{
    count_load, histogram_total, percentile, LeadRange, TimingWindow, WindowMetrics, LOAD_BUCKETS,
    WINDOW_MS,
};

#[test]
fn percentile_uses_the_nearest_rank() {
    let mut histogram = vec![0u64; 11];
    for count in histogram.iter_mut().skip(1) {
        *count = 1;
    }
    assert_eq!(percentile(&histogram, 50), 5);
    assert_eq!(percentile(&histogram, 95), 10);
}

#[test]
fn an_empty_histogram_has_its_percentile_at_zero() {
    assert_eq!(percentile(&vec![0u64; LOAD_BUCKETS], 95), 0);
}

#[test]
fn loads_are_counted_in_their_bucket_and_clamped() {
    let mut histogram = vec![0u64; LOAD_BUCKETS];
    count_load(&mut histogram, 40);
    count_load(&mut histogram, 40);
    count_load(&mut histogram, 9_999);
    assert_eq!(histogram[40], 2);
    assert_eq!(histogram[LOAD_BUCKETS - 1], 1);
    assert_eq!(histogram_total(&histogram), 3);
    histogram[7] = u64::MAX - 3;
    count_load(&mut histogram, 7);
    assert_eq!(histogram[7], u64::MAX - 2);
}

#[test]
fn the_lead_range_reports_zero_before_any_block() {
    let mut range = LeadRange::new();
    assert_eq!(range.published_min(), 0);
    range.observe(300);
    range.observe(120);
    range.observe(480);
    assert_eq!((range.published_min(), range.max), (120, 480));
}

#[test]
fn an_empty_histogram_has_percentile_zero() {
    assert_eq!(percentile(&Vec::new(), 95), 0);
    assert_eq!(percentile(&vec![0u64; 4], 50), 0);
}

#[test]
fn a_window_reports_once_due_and_starts_afresh() {
    let mut window = TimingWindow::new(1000);
    window.observe_block(512, 40);
    window.observe_block(256, 90);
    window.observe_block(1024, 700);
    assert_eq!(window.blocks, 3);
    assert_eq!(window.take_window_if_due(1000 + WINDOW_MS - 1), None);
    assert_eq!(window.blocks, 3);

    let metrics = window.take_window_if_due(1000 + WINDOW_MS).unwrap();
    assert_eq!(
        metrics,
        WindowMetrics {
            window_ms: WINDOW_MS,
            output_lead_min_frames: 256,
            output_lead_max_frames: 1024,
            process_load_p95: LOAD_BUCKETS - 1,
        }
    );
    assert_eq!(window.started_ms, 1000 + WINDOW_MS);
    assert_eq!(window.blocks, 0);
    assert!(window.load_histogram.iter().all(|&count| count == 0));

    let empty = window.take_window_if_due(1000 + 2 * WINDOW_MS).unwrap();
    assert_eq!(empty.output_lead_min_frames, 0);
    assert_eq!(empty.output_lead_max_frames, 0);
    assert_eq!(empty.process_load_p95, 0);
}
