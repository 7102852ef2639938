use wifi_survey::sampler::{
    credit, progress_ppm, rate_bps, starting_progress, Outcome, Phase, Sampler,
    PROGRESS_SCALE, UPLOAD_CHUNK_BYTES,
};

#[test]
fn rate_is_bits_per_second() {
    // 1 MiB in one second.
    assert_eq!(rate_bps(1_048_576, 1_000_000), 8_388_608);
    // 10 MiB in five seconds.
    assert_eq!(rate_bps(10_485_760, 5_000_000), 16_777_216);
    assert_eq!(rate_bps(1, 3), 2_666_666);
}

#[test]
fn rate_saturates() {
    assert_eq!(rate_bps(u64::MAX, 1), u64::MAX);
}

#[test]
fn progress_is_capped_at_whole_phase() {
    assert_eq!(progress_ppm(0), 0);
    assert_eq!(progress_ppm(2_500_000), 500_000);
    assert_eq!(progress_ppm(5_000_000), PROGRESS_SCALE);
    assert_eq!(progress_ppm(7_300_000), PROGRESS_SCALE);
}

#[test]
fn progress_never_decreases_within_a_phase() {
    let mut s = Sampler::new(Phase::Download, 0);
    let mut last = 0;
    for t in [0u64, 100_000, 100_000, 2_000_000, 4_999_999, 5_000_000, 6_000_000] {
        let p = s.record(Outcome::Downloaded(1000), t);
        assert!(p.progress_ppm >= last);
        assert!(p.progress_ppm <= PROGRESS_SCALE);
        last = p.progress_ppm;
    }
}

#[test]
fn no_speed_while_settling() {
    let mut s = Sampler::new(Phase::Download, 0);
    let p = s.record(Outcome::Downloaded(10_485_760), 100_000);
    assert_eq!(p.current_speed_bps, 0);
    let p = s.record(Outcome::Downloaded(10_485_760), 300_000);
    assert_eq!(p.current_speed_bps, 0);
    let p = s.record(Outcome::Downloaded(0), 300_001);
    assert!(p.current_speed_bps > 0);
}

#[test]
fn credit_by_outcome() {
    assert_eq!(credit(Outcome::Failed), 0);
    assert_eq!(credit(Outcome::Downloaded(1234)), 1234);
    assert_eq!(credit(Outcome::Uploaded), UPLOAD_CHUNK_BYTES);
}

#[test]
fn failed_attempt_still_reports_progress() {
    let mut s = Sampler::new(Phase::Upload, 2);
    let p = s.record(Outcome::Uploaded, 1_000_000);
    assert_eq!(p.current_speed_bps, 8_388_608);
    let p = s.record(Outcome::Failed, 2_000_000);
    assert_eq!(s.total_bytes, 1_048_576);
    assert_eq!(p.progress_ppm, 400_000);
    assert_eq!(p.current_speed_bps, 4_194_304);
    assert_eq!(p.phase, Phase::Upload);
    assert_eq!(p.run, 2);
}

#[test]
fn phase_runs_until_deadline() {
    let s = Sampler::new(Phase::Download, 0);
    assert!(s.is_running(0));
    assert!(s.is_running(4_999_999));
    assert!(!s.is_running(5_000_000));
}

#[test]
fn final_rate_uses_true_elapsed_time() {
    let mut s = Sampler::new(Phase::Download, 0);
    s.record(Outcome::Downloaded(10_485_760), 2_000_000);
    s.record(Outcome::Downloaded(10_485_760), 5_200_000);
    assert_eq!(s.finish(5_242_880), 32_000_000);
}

#[test]
fn starting_snapshot_is_empty() {
    let p = starting_progress(Phase::Upload, 3);
    assert_eq!(p.phase, Phase::Upload);
    assert_eq!(p.progress_ppm, 0);
    assert_eq!(p.current_speed_bps, 0);
    assert_eq!(p.run, 3);
}
