use particlebench::stats::{compute_stats, rate_exec, rates_exec, Trace};

#[test]
fn round_trip_three_frames() {
    // Durations 0.01, 0.02, 0.03 s: mean frame time 0.02 s, mean frame
    // rate 50 per second; the deviation of the instantaneous rates
    // (100, 50, 33.333...) about the mean rate, squared, averaged and
    // rooted, truncating at each fixed-point step.
    let frames: Vec<i64> = vec![10_000, 20_000, 30_000];
    let gpu: Vec<i64> = vec![5_000, 5_000, 5_000];
    let st = compute_stats(&frames, &gpu).expect("non-empty trace");
    assert_eq!(st.frame_time_mean, 20_000);
    assert_eq!(st.frame_rate_mean, 50_000_000);
    assert_eq!(st.gpu_time_mean, 5_000);
    assert_eq!(st.cpu_time_mean, 15_000);
    assert_eq!(st.rate_sd, 30_429_031);
    let mean_rate = st.frame_rate_mean as f64 / 1e6;
    assert!((mean_rate - 50.0).abs() < 1e-9);
    let sd = st.rate_sd as f64 / 1e6;
    assert!((sd - 30.429031).abs() < 1e-6);
}

#[test]
fn uniform_trace_has_zero_deviation() {
    let frames: Vec<i64> = vec![20_000, 20_000, 20_000, 20_000];
    let gpu: Vec<i64> = vec![0, 0, 0, 0];
    let st = compute_stats(&frames, &gpu).expect("non-empty trace");
    assert_eq!(st.frame_time_mean, 20_000);
    assert_eq!(st.frame_rate_mean, 50_000_000);
    assert_eq!(st.gpu_time_mean, 0);
    assert_eq!(st.cpu_time_mean, 20_000);
    assert_eq!(st.rate_sd, 0);
}

#[test]
fn empty_trace_has_no_statistics() {
    let frames: Vec<i64> = Vec::new();
    let gpu: Vec<i64> = Vec::new();
    assert!(compute_stats(&frames, &gpu).is_none());
}

#[test]
fn instantaneous_rates() {
    assert_eq!(rate_exec(10_000), 100_000_000);
    assert_eq!(rate_exec(20_000), 50_000_000);
    assert_eq!(rate_exec(30_000), 33_333_333);
    // a zero duration has no finite rate
    assert_eq!(rate_exec(0), i64::MAX);
    let rs = rates_exec(&vec![10_000, 30_000]);
    assert_eq!(rs, vec![100_000_000, 33_333_333]);
}

#[test]
fn trace_records_until_full() {
    let mut t = Trace::new(2);
    assert_eq!(t.cur_frame(), 0);
    assert!(t.record(10_000, 1_000));
    assert!(t.record(12_000, 1_100));
    assert_eq!(t.cur_frame(), 2);
    // the third record is the fatal capacity violation
    assert!(!t.record(14_000, 1_200));
    assert_eq!(t.cur_frame(), 2);
    assert_eq!(t.frames, vec![10_000, 12_000]);
    assert_eq!(t.gpu_times, vec![1_000, 1_100]);
}
