//! Sequencing of a multi-run speed test and reduction of its per-run rates.
//! The caller runs each phase it is told to and hands the rate back.
use vstd::prelude::*;
use crate::sampler::Phase;
use crate::stats::{trimmed_mean, trimmed_mean_of};

verus! {

/// Fewest runs in one test.
pub const MIN_RUNS: i32 = 1;

/// Most runs in one test.
pub const MAX_RUNS: i32 = 5;

/// Outcome of one run, or of the whole test when `run == total_runs`.
#[derive(PartialEq, Eq, Structural, Clone, Copy, Debug)]
pub struct SpeedTestResult {
    /// Download rate in bits per second.
    pub download_bps: u64,
    /// Upload rate in bits per second.
    pub upload_bps: u64,
    pub run: i32,
    pub total_runs: i32,
}

/// What the caller is to do next.
#[derive(PartialEq, Eq, Structural, Clone, Copy, Debug)]
pub enum Action {
    /// Run one phase of the given run index.
    Measure(Phase, i32),
    /// Every run is done; the summary is ready.
    Finished,
}

/// Requested run count brought into `[MIN_RUNS, MAX_RUNS]`; one run when none
/// is asked for.
pub open spec fn clamped_runs(runs: Option<i32>) -> i32 {
    match runs {
        None => MIN_RUNS,
        Some(n) => if n < MIN_RUNS {
            MIN_RUNS
        } else if n > MAX_RUNS {
            MAX_RUNS
        } else {
            n
        },
    }
}

/// Run count to use for a request.
pub fn clamp_runs(runs: Option<i32>) -> (r: i32)
    ensures
        r == clamped_runs(runs),
        MIN_RUNS <= r <= MAX_RUNS,
{
    let n = match runs {
        None => 1,
        Some(n) => n,
    };
    if n < MIN_RUNS {
        MIN_RUNS
    } else if n > MAX_RUNS {
        MAX_RUNS
    } else {
        n
    }
}

/// Rates gathered so far. Runs go in order, download before upload, so the
/// download list is as long as the upload list or one longer.
pub struct Aggregator {
    pub total_runs: i32,
    pub downloads: Vec<u64>,
    pub uploads: Vec<u64>,
}

impl Aggregator {
    pub open spec fn wf(&self) -> bool {
        &&& MIN_RUNS <= self.total_runs <= MAX_RUNS
        &&& self.uploads@.len() <= self.downloads@.len() <= self.uploads@.len() + 1
        &&& self.downloads@.len() <= self.total_runs
    }

    /// Whether every run has both of its rates.
    pub open spec fn is_done(&self) -> bool {
        &&& self.downloads@.len() == self.uploads@.len()
        &&& self.uploads@.len() == self.total_runs
    }

    /// The step that comes next.
    pub open spec fn next_action(&self) -> Action {
        if self.downloads@.len() > self.uploads@.len() {
            Action::Measure(Phase::Upload, self.uploads@.len() as i32)
        } else if self.downloads@.len() < self.total_runs {
            Action::Measure(Phase::Download, self.downloads@.len() as i32)
        } else {
            Action::Finished
        }
    }

    /// A test with no rates yet, of the clamped number of runs.
    pub fn new(runs: Option<i32>) -> (r: Aggregator)
        ensures
            r.wf(),
            r.total_runs == clamped_runs(runs),
            r.downloads@.len() == 0,
            r.uploads@.len() == 0,
    {
        Aggregator { total_runs: clamp_runs(runs), downloads: Vec::new(), uploads: Vec::new() }
    }

    /// The step that comes next: the download of a run, then its upload, and
    /// once all runs are done, the summary.
    pub fn next(&self) -> (r: Action)
        requires
            self.wf(),
        ensures
            r == self.next_action(),
            (r == Action::Finished) == self.is_done(),
    {
        let d = self.downloads.len();
        let u = self.uploads.len();
        if d > u {
            Action::Measure(Phase::Upload, u as i32)
        } else if d < self.total_runs as usize {
            Action::Measure(Phase::Download, d as i32)
        } else {
            Action::Finished
        }
    }

    /// Records the rate of the phase that `next` asked for. When that phase
    /// was an upload, the run is complete and its result is returned.
    pub fn record(&mut self, rate_bps: u64) -> (r: Option<SpeedTestResult>)
        requires
            old(self).wf(),
            !old(self).is_done(),
        ensures
            final(self).wf(),
            final(self).total_runs == old(self).total_runs,
            old(self).downloads@.len() == old(self).uploads@.len() ==> {
                &&& final(self).downloads@ == old(self).downloads@.push(rate_bps)
                &&& final(self).uploads@ == old(self).uploads@
                &&& r is None
            },
            old(self).downloads@.len() > old(self).uploads@.len() ==> {
                &&& final(self).downloads@ == old(self).downloads@
                &&& final(self).uploads@ == old(self).uploads@.push(rate_bps)
                &&& r == Some(
                    SpeedTestResult {
                        download_bps: old(self).downloads@.last(),
                        upload_bps: rate_bps,
                        run: old(self).uploads@.len() as i32,
                        total_runs: old(self).total_runs,
                    },
                )
            },
            r matches Some(res) ==> 0 <= res.run < res.total_runs,
    {
        let d = self.downloads.len();
        let u = self.uploads.len();
        if d > u {
            self.uploads.push(rate_bps);
            Some(
                SpeedTestResult {
                    download_bps: self.downloads[d - 1],
                    upload_bps: rate_bps,
                    run: u as i32,
                    total_runs: self.total_runs,
                },
            )
        } else {
            self.downloads.push(rate_bps);
            None
        }
    }

    /// The final result: the trimmed mean of each direction, marked with
    /// `run == total_runs`.
    pub fn summary(&self) -> (r: SpeedTestResult)
        requires
            self.wf(),
            self.is_done(),
        ensures
            r.download_bps == trimmed_mean_of(self.downloads@),
            r.upload_bps == trimmed_mean_of(self.uploads@),
            r.run == self.total_runs,
            r.total_runs == self.total_runs,
    {
        SpeedTestResult {
            download_bps: trimmed_mean(&self.downloads),
            upload_bps: trimmed_mean(&self.uploads),
            run: self.total_runs,
            total_runs: self.total_runs,
        }
    }
}

} // verus!
