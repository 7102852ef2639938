use wifi_survey::aggregator::{clamp_runs, Action, Aggregator};
use wifi_survey::sampler::Phase;

#[test]
fn run_count_is_clamped() {
    assert_eq!(clamp_runs(None), 1);
    assert_eq!(clamp_runs(Some(0)), 1);
    assert_eq!(clamp_runs(Some(-3)), 1);
    assert_eq!(clamp_runs(Some(3)), 3);
    assert_eq!(clamp_runs(Some(10)), 5);
    assert_eq!(clamp_runs(Some(i32::MIN)), 1);
    assert_eq!(clamp_runs(Some(i32::MAX)), 5);
}

#[test]
fn runs_alternate_download_and_upload() {
    let mut a = Aggregator::new(Some(2));
    assert_eq!(a.next(), Action::Measure(Phase::Download, 0));
    assert!(a.record(100).is_none());
    assert_eq!(a.next(), Action::Measure(Phase::Upload, 0));
    let r = a.record(10).unwrap();
    assert_eq!((r.download_bps, r.upload_bps, r.run, r.total_runs), (100, 10, 0, 2));
    assert_eq!(a.next(), Action::Measure(Phase::Download, 1));
    assert!(a.record(300).is_none());
    assert_eq!(a.next(), Action::Measure(Phase::Upload, 1));
    let r = a.record(30).unwrap();
    assert_eq!((r.download_bps, r.upload_bps, r.run, r.total_runs), (300, 30, 1, 2));
    assert_eq!(a.next(), Action::Finished);
    let s = a.summary();
    assert_eq!((s.download_bps, s.upload_bps, s.run, s.total_runs), (200, 20, 2, 2));
}

#[test]
fn summary_is_marked_by_run_equal_to_total() {
    let mut a = Aggregator::new(Some(10));
    let rates = [[1, 50], [2, 60], [100, 70], [3, 80], [4, 90]];
    let mut seen = 0;
    while let Action::Measure(phase, run) = a.next() {
        let r = rates[run as usize][if phase == Phase::Download { 0 } else { 1 }];
        if let Some(res) = a.record(r) {
            assert!(res.run < res.total_runs);
            seen += 1;
        }
    }
    assert_eq!(seen, 5);
    let s = a.summary();
    assert_eq!(s.run, 5);
    assert_eq!(s.total_runs, 5);
    assert_eq!(s.download_bps, 3);
    assert_eq!(s.upload_bps, 70);
}

#[test]
fn single_run_by_default() {
    let mut a = Aggregator::new(None);
    assert_eq!(a.total_runs, 1);
    a.record(7);
    a.record(9);
    assert_eq!(a.next(), Action::Finished);
    let s = a.summary();
    assert_eq!((s.download_bps, s.upload_bps, s.run, s.total_runs), (7, 9, 1, 1));
}
