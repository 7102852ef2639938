//! Decisions of one time-boxed throughput phase. The caller owns the clock and
//! the network: it asks whether the phase is still running, makes one request,
//! and hands the outcome and the elapsed time back to the sampler, which keeps
//! the byte count and says what progress to report.
use vstd::prelude::*;

verus! {

/// Length of one phase, in microseconds (5 s).
pub const TEST_DURATION_MICROS: u64 = 5_000_000;

/// Below or at this elapsed time (0.3 s) no instantaneous rate is reported.
pub const SETTLING_MICROS: u64 = 300_000;

/// Size of the payload asked for by each download request (10 MiB).
pub const DOWNLOAD_PAYLOAD_BYTES: u64 = 10_485_760;

/// Size of the zero-filled body sent by each upload request (1 MiB).
pub const UPLOAD_CHUNK_BYTES: u64 = 1_048_576;

/// Progress is reported in parts per million of the phase.
pub const PROGRESS_SCALE: u64 = 1_000_000;

/// Direction of a phase.
#[derive(PartialEq, Eq, Structural, Clone, Copy, Debug)]
pub enum Phase {
    Download,
    Upload,
}

/// What one request attempt brought.
#[derive(PartialEq, Eq, Structural, Clone, Copy, Debug)]
pub enum Outcome {
    /// The request failed; no bytes are credited.
    Failed,
    /// A download completed with a body of this many bytes.
    Downloaded(u64),
    /// An upload of one chunk was accepted.
    Uploaded,
}

/// One live progress snapshot.
#[derive(PartialEq, Eq, Structural, Clone, Copy, Debug)]
pub struct SpeedTestProgress {
    pub phase: Phase,
    /// Fraction of the phase elapsed, in parts per million, at most
    /// `PROGRESS_SCALE`.
    pub progress_ppm: u64,
    /// Rate so far in bits per second; `0` while settling.
    pub current_speed_bps: u64,
    pub run: i32,
}

/// State of one phase in flight.
#[derive(Clone, Copy, Debug)]
pub struct Sampler {
    pub phase: Phase,
    pub run: i32,
    /// Bytes credited so far.
    pub total_bytes: u64,
    /// Elapsed time at the last recorded attempt.
    pub last_elapsed_micros: u64,
}

/// Rate in bits per second of `bytes` moved in `micros` microseconds, rounded
/// down, saturating at `u64::MAX`.
pub open spec fn rate_of(bytes: int, micros: int) -> int {
    let exact = bytes * 8 * 1_000_000 / micros;
    if exact > u64::MAX {
        u64::MAX as int
    } else {
        exact
    }
}

/// Progress in parts per million: `min(elapsed / duration, 1)`, rounded down.
pub open spec fn progress_of(elapsed: int) -> int {
    if elapsed >= TEST_DURATION_MICROS {
        PROGRESS_SCALE as int
    } else {
        elapsed * (PROGRESS_SCALE as int) / (TEST_DURATION_MICROS as int)
    }
}

/// Instantaneous rate reported at `elapsed`: zero until the settling time has
/// passed.
pub open spec fn current_speed_of(bytes: int, elapsed: int) -> int {
    if elapsed > SETTLING_MICROS {
        rate_of(bytes, elapsed)
    } else {
        0
    }
}

/// Bytes credited for one attempt.
pub open spec fn credit_of(outcome: Outcome) -> int {
    match outcome {
        Outcome::Failed => 0,
        Outcome::Downloaded(n) => n as int,
        Outcome::Uploaded => UPLOAD_CHUNK_BYTES as int,
    }
}

/// Rate in bits per second, rounded down and saturating.
pub fn rate_bps(bytes: u64, micros: u64) -> (r: u64)
    requires
        micros > 0,
    ensures
        r == rate_of(bytes as int, micros as int),
{
    let exact: u128 = (bytes as u128) * 8_000_000 / (micros as u128);
    if exact > u64::MAX as u128 {
        u64::MAX
    } else {
        exact as u64
    }
}

/// Progress in parts per million for an elapsed time.
pub fn progress_ppm(elapsed_micros: u64) -> (r: u64)
    ensures
        r == progress_of(elapsed_micros as int),
        r <= PROGRESS_SCALE,
{
    if elapsed_micros >= TEST_DURATION_MICROS {
        PROGRESS_SCALE
    } else {
        assert(elapsed_micros * 1_000_000 / 5_000_000 <= 1_000_000) by (nonlinear_arith)
            requires
                elapsed_micros < 5_000_000,
        ;
        elapsed_micros * PROGRESS_SCALE / TEST_DURATION_MICROS
    }
}

/// Progress never goes back as time goes on, and never passes the whole phase.
pub proof fn lemma_progress_monotone(earlier: int, later: int)
    requires
        0 <= earlier <= later,
    ensures
        progress_of(earlier) <= progress_of(later) <= PROGRESS_SCALE,
{
    if later < TEST_DURATION_MICROS {
        assert(earlier * 1_000_000 / 5_000_000 <= later * 1_000_000 / 5_000_000)
            by (nonlinear_arith)
            requires
                0 <= earlier <= later,
        ;
    } else if earlier < TEST_DURATION_MICROS {
        assert(earlier * 1_000_000 / 5_000_000 <= 1_000_000) by (nonlinear_arith)
            requires
                0 <= earlier < 5_000_000,
        ;
    }
    if later < TEST_DURATION_MICROS {
        assert(later * 1_000_000 / 5_000_000 <= 1_000_000) by (nonlinear_arith)
            requires
                0 <= later < 5_000_000,
        ;
    }
}

/// While the settling time has not passed, the reported rate is exactly zero,
/// whatever was moved.
pub proof fn lemma_no_speed_while_settling(bytes: int, elapsed: int)
    requires
        elapsed <= SETTLING_MICROS,
    ensures
        current_speed_of(bytes, elapsed) == 0,
{
}

/// Bytes credited for one attempt.
pub fn credit(outcome: Outcome) -> (r: u64)
    ensures
        r == credit_of(outcome),
{
    match outcome {
        Outcome::Failed => 0,
        Outcome::Downloaded(n) => n,
        Outcome::Uploaded => UPLOAD_CHUNK_BYTES,
    }
}

/// The snapshot emitted before a phase starts: no progress, no rate.
pub fn starting_progress(phase: Phase, run: i32) -> (r: SpeedTestProgress)
    ensures
        r == (SpeedTestProgress { phase, progress_ppm: 0, current_speed_bps: 0, run }),
{
    SpeedTestProgress { phase, progress_ppm: 0, current_speed_bps: 0, run }
}

impl Sampler {
    /// A phase that has moved nothing yet.
    pub fn new(phase: Phase, run: i32) -> (r: Sampler)
        ensures
            r.phase == phase,
            r.run == run,
            r.total_bytes == 0,
            r.last_elapsed_micros == 0,
    {
        Sampler { phase, run, total_bytes: 0, last_elapsed_micros: 0 }
    }

    /// Whether another request is to be made: the deadline is checked before
    /// each attempt.
    pub fn is_running(&self, elapsed_micros: u64) -> (r: bool)
        ensures
            r == (elapsed_micros < TEST_DURATION_MICROS),
    {
        elapsed_micros < TEST_DURATION_MICROS
    }

    /// Records one attempt, failed or not, finished at `elapsed_micros`, and
    /// returns the snapshot to emit for it.
    pub fn record(&mut self, outcome: Outcome, elapsed_micros: u64) -> (r: SpeedTestProgress)
        requires
            old(self).last_elapsed_micros <= elapsed_micros,
            old(self).total_bytes + credit_of(outcome) <= u64::MAX,
        ensures
            final(self).phase == old(self).phase,
            final(self).run == old(self).run,
            final(self).total_bytes == old(self).total_bytes + credit_of(outcome),
            final(self).last_elapsed_micros == elapsed_micros,
            r.phase == old(self).phase,
            r.run == old(self).run,
            r.progress_ppm == progress_of(elapsed_micros as int),
            r.current_speed_bps == current_speed_of(
                final(self).total_bytes as int,
                elapsed_micros as int,
            ),
            progress_of(old(self).last_elapsed_micros as int) <= r.progress_ppm <= PROGRESS_SCALE,
            elapsed_micros <= SETTLING_MICROS ==> r.current_speed_bps == 0,
    {
        proof {
            lemma_progress_monotone(self.last_elapsed_micros as int, elapsed_micros as int);
        }
        let c = credit(outcome);
        self.total_bytes = self.total_bytes + c;
        self.last_elapsed_micros = elapsed_micros;
        let speed = if elapsed_micros > SETTLING_MICROS {
            rate_bps(self.total_bytes, elapsed_micros)
        } else {
            0
        };
        SpeedTestProgress {
            phase: self.phase,
            progress_ppm: progress_ppm(elapsed_micros),
            current_speed_bps: speed,
            run: self.run,
        }
    }

    /// Rate of the whole phase, measured against the true elapsed time.
    pub fn finish(&self, elapsed_micros: u64) -> (r: u64)
        requires
            elapsed_micros > 0,
        ensures
            r == rate_of(self.total_bytes as int, elapsed_micros as int),
    {
        rate_bps(self.total_bytes, elapsed_micros)
    }
}

} // verus!
