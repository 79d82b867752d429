use fbo_bench::stats::fps_milli_from_avg;
use fbo_bench::stats::percentile_index;
use fbo_bench::stats::rolling_avg_frame_us;
use fbo_bench::stats::sort_samples;
use fbo_bench::stats::summarize;

#[test]
fn sort_orders_and_keeps_duplicates() {
    let samples = vec![30u64, 10, 20, 10, 40];
    let sorted = sort_samples(&samples);
    assert_eq!(sorted, vec![10, 10, 20, 30, 40]);
    assert_eq!(sort_samples(&Vec::new()), Vec::<u64>::new());
}

#[test]
fn percentiles_of_the_reference_sequence() {
    // Frame times 0.010, 0.020, 0.015, 0.012, 0.030 seconds, as microseconds.
    let samples = vec![10_000u64, 20_000, 15_000, 12_000, 30_000];
    assert_eq!(
        sort_samples(&samples),
        vec![10_000, 12_000, 15_000, 20_000, 30_000]
    );
    let stats = summarize(&samples, 5, 87_000).unwrap();
    // P50 reads sorted index 5 / 2 = 2, P95 and P99 read floor(5 * k) = 4.
    assert_eq!(stats.p50_us, 15_000);
    assert_eq!(stats.p95_us, 30_000);
    assert_eq!(stats.p99_us, 30_000);
    assert_eq!(percentile_index(5, 95), 4);
    assert_eq!(percentile_index(5, 99), 4);
}

#[test]
fn average_fps_of_120_frames_over_4_seconds_is_30() {
    let samples = vec![33_333u64; 120];
    let stats = summarize(&samples, 120, 4_000_000).unwrap();
    assert_eq!(stats.avg_fps_milli, 30_000);
    assert_eq!(stats.avg_fps_milli as f64 / 1000.0, 30.0);
    assert_eq!(stats.frames, 120);
    assert_eq!(stats.total_time_us, 4_000_000);
}

#[test]
fn empty_sample_record_reports_no_data() {
    let empty: Vec<u64> = Vec::new();
    assert!(summarize(&empty, 0, 0).is_none());
    assert!(summarize(&empty, 0, 4_000_000).is_none());
    assert!(summarize(&vec![10_000], 1, 0).is_none());
    assert!(rolling_avg_frame_us(&empty).is_none());
}

#[test]
fn rolling_average_reads_all_young_samples() {
    let samples = vec![10u64, 20, 30];
    assert_eq!(rolling_avg_frame_us(&samples), Some(20));
}

#[test]
fn rolling_average_reads_only_the_last_thirty() {
    let mut samples = vec![1_000u64; 5];
    samples.extend(vec![10u64; 30]);
    assert_eq!(rolling_avg_frame_us(&samples), Some(10));
}

#[test]
fn fps_from_average_frame_time() {
    assert_eq!(fps_milli_from_avg(0), 0);
    assert_eq!(fps_milli_from_avg(20_000), 50_000);
    assert_eq!(fps_milli_from_avg(16_667), 59_998);
}
