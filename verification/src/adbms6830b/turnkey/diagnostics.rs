//! Diagnostics collected and reported by the Service.

use vstd::prelude::*;

use super::accumulator::State;
use super::api::{ChipState, LineId, OnLineA};
use super::service::{StartupReason, StartupResult};
use crate::adbms6830b::line::Error;
use crate::adbms6830b::time::Duration;

verus! {

/// The PEC error accumulator's view of one update.
#[derive(Copy, Clone, Debug, PartialEq, Eq)]
pub struct AccumulatorDiagnostics<const N: usize> {
    /// State of the accumulator before this update.
    previous_state: State,
    /// State of the accumulator after this update.
    state: State,
    /// PEC failures counted for each chip during this window.
    failed: [usize; N],
    /// Read attempts counted for each chip during this window.
    attempts: [usize; N],
    /// Each chip's PEC failure rate over this window, as a percentage (0 - 100).
    failure_pct: [u8; N],
    /// Percentage of reads that must fail their PEC for a chip to count as failing.
    failure_pct_threshold: u8,
    /// How long an evaluation window stays open, in ms.
    accumulator_window_period: u64,
    /// Fewest reads a chip must have taken part in before its failure rate means anything.
    min_attempts_for_fail: usize,
    /// How many times a chip was passed over for opening a window because it had too few reads in its update.
    below_min_attempts_to_open_window_count: usize,
    /// How many times a chip could not be judged because it had too few reads over the window.
    below_min_attempts_for_fail_count: usize,
    /// Fewest reads in a single update before that update's failure rate can open a window.
    min_attempts_to_open_window: usize,
    /// The configured grace period after startup or a sleep, in ms.
    recovery_startup_time: u64,
}

impl<const N: usize> AccumulatorDiagnostics<N> {
    /// State of the accumulator before this update, as a value in specifications.
    pub closed spec fn spec_previous_state(&self) -> State {
        self.previous_state
    }

    /// State of the accumulator after this update, as a value in specifications.
    pub closed spec fn spec_state(&self) -> State {
        self.state
    }

    /// PEC failures counted for each chip during this window, as a value in specifications.
    pub closed spec fn spec_failed(&self) -> [usize; N] {
        self.failed
    }

    /// Read attempts counted for each chip during this window, as a value in specifications.
    pub closed spec fn spec_attempts(&self) -> [usize; N] {
        self.attempts
    }

    /// Each chip's PEC failure rate over this window, as a percentage (0 - 100), as a value in specifications.
    pub closed spec fn spec_failure_pct(&self) -> [u8; N] {
        self.failure_pct
    }

    /// Percentage of reads that must fail their PEC for a chip to count as failing, as a value in specifications.
    pub closed spec fn spec_failure_pct_threshold(&self) -> u8 {
        self.failure_pct_threshold
    }

    /// How long an evaluation window stays open, in ms, as a value in specifications.
    pub closed spec fn spec_accumulator_window_period(&self) -> u64 {
        self.accumulator_window_period
    }

    /// Fewest reads a chip must have taken part in before its failure rate means anything, as a value in specifications.
    pub closed spec fn spec_min_attempts_for_fail(&self) -> usize {
        self.min_attempts_for_fail
    }

    /// How many times a chip was passed over for opening a window because it had too few reads in its update, as a value in specifications.
    pub closed spec fn spec_below_min_attempts_to_open_window_count(&self) -> usize {
        self.below_min_attempts_to_open_window_count
    }

    /// How many times a chip could not be judged because it had too few reads over the window, as a value in specifications.
    pub closed spec fn spec_below_min_attempts_for_fail_count(&self) -> usize {
        self.below_min_attempts_for_fail_count
    }

    /// Fewest reads in a single update before that update's failure rate can open a window, as a value in specifications.
    pub closed spec fn spec_min_attempts_to_open_window(&self) -> usize {
        self.min_attempts_to_open_window
    }

    /// The configured grace period after startup or a sleep, in ms, as a value in specifications.
    pub closed spec fn spec_recovery_startup_time(&self) -> u64 {
        self.recovery_startup_time
    }

    /// State of the accumulator before this update.
    #[verifier::when_used_as_spec(spec_previous_state)]
    pub fn previous_state(&self) -> (r: State)
        ensures
            r == self.previous_state(),
    {
        self.previous_state
    }

    /// State of the accumulator after this update.
    #[verifier::when_used_as_spec(spec_state)]
    pub fn state(&self) -> (r: State)
        ensures
            r == self.state(),
    {
        self.state
    }

    /// PEC failures counted for each chip during this window.
    #[verifier::when_used_as_spec(spec_failed)]
    pub fn failed(&self) -> (r: [usize; N])
        ensures
            r == self.failed(),
    {
        self.failed
    }

    /// Read attempts counted for each chip during this window.
    #[verifier::when_used_as_spec(spec_attempts)]
    pub fn attempts(&self) -> (r: [usize; N])
        ensures
            r == self.attempts(),
    {
        self.attempts
    }

    /// Each chip's PEC failure rate over this window, as a percentage (0 - 100).
    #[verifier::when_used_as_spec(spec_failure_pct)]
    pub fn failure_pct(&self) -> (r: [u8; N])
        ensures
            r == self.failure_pct(),
    {
        self.failure_pct
    }

    /// Percentage of reads that must fail their PEC for a chip to count as failing.
    #[verifier::when_used_as_spec(spec_failure_pct_threshold)]
    pub fn failure_pct_threshold(&self) -> (r: u8)
        ensures
            r == self.failure_pct_threshold(),
    {
        self.failure_pct_threshold
    }

    /// How long an evaluation window stays open, in ms.
    #[verifier::when_used_as_spec(spec_accumulator_window_period)]
    pub fn accumulator_window_period(&self) -> (r: u64)
        ensures
            r == self.accumulator_window_period(),
    {
        self.accumulator_window_period
    }

    /// Fewest reads a chip must have taken part in before its failure rate means anything.
    #[verifier::when_used_as_spec(spec_min_attempts_for_fail)]
    pub fn min_attempts_for_fail(&self) -> (r: usize)
        ensures
            r == self.min_attempts_for_fail(),
    {
        self.min_attempts_for_fail
    }

    /// How many times a chip was passed over for opening a window because it had too few reads in its update.
    #[verifier::when_used_as_spec(spec_below_min_attempts_to_open_window_count)]
    pub fn below_min_attempts_to_open_window_count(&self) -> (r: usize)
        ensures
            r == self.below_min_attempts_to_open_window_count(),
    {
        self.below_min_attempts_to_open_window_count
    }

    /// How many times a chip could not be judged because it had too few reads over the window.
    #[verifier::when_used_as_spec(spec_below_min_attempts_for_fail_count)]
    pub fn below_min_attempts_for_fail_count(&self) -> (r: usize)
        ensures
            r == self.below_min_attempts_for_fail_count(),
    {
        self.below_min_attempts_for_fail_count
    }

    /// Fewest reads in a single update before that update's failure rate can open a window.
    #[verifier::when_used_as_spec(spec_min_attempts_to_open_window)]
    pub fn min_attempts_to_open_window(&self) -> (r: usize)
        ensures
            r == self.min_attempts_to_open_window(),
    {
        self.min_attempts_to_open_window
    }

    /// The configured grace period after startup or a sleep, in ms.
    #[verifier::when_used_as_spec(spec_recovery_startup_time)]
    pub fn recovery_startup_time(&self) -> (r: u64)
        ensures
            r == self.recovery_startup_time(),
    {
        self.recovery_startup_time
    }

    /// Gathers the values.
    pub fn new(
        previous_state: State,
        state: State,
        failed: [usize; N],
        attempts: [usize; N],
        failure_pct: [u8; N],
        failure_pct_threshold: u8,
        accumulator_window_period: u64,
        min_attempts_for_fail: usize,
        below_min_attempts_to_open_window_count: usize,
        below_min_attempts_for_fail_count: usize,
        min_attempts_to_open_window: usize,
        recovery_startup_time: u64,
    ) -> (r: AccumulatorDiagnostics<N>)
        ensures
            r.previous_state() == previous_state,
            r.state() == state,
            r.failed() == failed,
            r.attempts() == attempts,
            r.failure_pct() == failure_pct,
            r.failure_pct_threshold() == failure_pct_threshold,
            r.accumulator_window_period() == accumulator_window_period,
            r.min_attempts_for_fail() == min_attempts_for_fail,
            r.below_min_attempts_to_open_window_count() == below_min_attempts_to_open_window_count,
            r.below_min_attempts_for_fail_count() == below_min_attempts_for_fail_count,
            r.min_attempts_to_open_window() == min_attempts_to_open_window,
            r.recovery_startup_time() == recovery_startup_time,
    {
        AccumulatorDiagnostics { previous_state, state, failed, attempts, failure_pct, failure_pct_threshold, accumulator_window_period, min_attempts_for_fail, below_min_attempts_to_open_window_count, below_min_attempts_for_fail_count, min_attempts_to_open_window, recovery_startup_time }
    }
}

/// How often and how long the Service runs.
#[derive(Copy, Clone, Debug, PartialEq, Eq)]
pub struct TimingDiagnostics {
    /// Time between the last two Service cycles; `None` after the first cycle.
    period: Option<Duration>,
    /// Longest `period` observed so far.
    max_period: Duration,
    /// How long the work of the last Service cycle took, once it held the lock.
    work: Duration,
    /// Longest `work` observed so far.
    max_work: Duration,
    /// How long the last Service cycle waited for the lock.
    lock_wait: Duration,
    /// Longest `lock_wait` observed so far.
    max_lock_wait: Duration,
    /// The configured time the Service waits between cycles, in ms.
    service_frequency: u64,
}

impl TimingDiagnostics {
    /// Time between the last two Service cycles; `None` after the first cycle, as a value in specifications.
    pub closed spec fn spec_period(&self) -> Option<Duration> {
        self.period
    }

    /// Longest `period` observed so far, as a value in specifications.
    pub closed spec fn spec_max_period(&self) -> Duration {
        self.max_period
    }

    /// How long the work of the last Service cycle took, once it held the lock, as a value in specifications.
    pub closed spec fn spec_work(&self) -> Duration {
        self.work
    }

    /// Longest `work` observed so far, as a value in specifications.
    pub closed spec fn spec_max_work(&self) -> Duration {
        self.max_work
    }

    /// How long the last Service cycle waited for the lock, as a value in specifications.
    pub closed spec fn spec_lock_wait(&self) -> Duration {
        self.lock_wait
    }

    /// Longest `lock_wait` observed so far, as a value in specifications.
    pub closed spec fn spec_max_lock_wait(&self) -> Duration {
        self.max_lock_wait
    }

    /// The configured time the Service waits between cycles, in ms, as a value in specifications.
    pub closed spec fn spec_service_frequency(&self) -> u64 {
        self.service_frequency
    }

    /// Time between the last two Service cycles; `None` after the first cycle.
    #[verifier::when_used_as_spec(spec_period)]
    pub fn period(&self) -> (r: Option<Duration>)
        ensures
            r == self.period(),
    {
        self.period
    }

    /// Longest `period` observed so far.
    #[verifier::when_used_as_spec(spec_max_period)]
    pub fn max_period(&self) -> (r: Duration)
        ensures
            r == self.max_period(),
    {
        self.max_period
    }

    /// How long the work of the last Service cycle took, once it held the lock.
    #[verifier::when_used_as_spec(spec_work)]
    pub fn work(&self) -> (r: Duration)
        ensures
            r == self.work(),
    {
        self.work
    }

    /// Longest `work` observed so far.
    #[verifier::when_used_as_spec(spec_max_work)]
    pub fn max_work(&self) -> (r: Duration)
        ensures
            r == self.max_work(),
    {
        self.max_work
    }

    /// How long the last Service cycle waited for the lock.
    #[verifier::when_used_as_spec(spec_lock_wait)]
    pub fn lock_wait(&self) -> (r: Duration)
        ensures
            r == self.lock_wait(),
    {
        self.lock_wait
    }

    /// Longest `lock_wait` observed so far.
    #[verifier::when_used_as_spec(spec_max_lock_wait)]
    pub fn max_lock_wait(&self) -> (r: Duration)
        ensures
            r == self.max_lock_wait(),
    {
        self.max_lock_wait
    }

    /// The configured time the Service waits between cycles, in ms.
    #[verifier::when_used_as_spec(spec_service_frequency)]
    pub fn service_frequency(&self) -> (r: u64)
        ensures
            r == self.service_frequency(),
    {
        self.service_frequency
    }

    /// Gathers the values.
    pub fn new(
        period: Option<Duration>,
        max_period: Duration,
        work: Duration,
        max_work: Duration,
        lock_wait: Duration,
        max_lock_wait: Duration,
        service_frequency: u64,
    ) -> (r: TimingDiagnostics)
        ensures
            r.period() == period,
            r.max_period() == max_period,
            r.work() == work,
            r.max_work() == max_work,
            r.lock_wait() == lock_wait,
            r.max_lock_wait() == max_lock_wait,
            r.service_frequency() == service_frequency,
    {
        TimingDiagnostics { period, max_period, work, max_work, lock_wait, max_lock_wait, service_frequency }
    }
}

/// The state of every chip at the end of a Service cycle.
#[derive(Copy, Clone, Debug, PartialEq, Eq)]
pub struct ChipStateDiagnostics<const N: usize> {
    /// State of each chip.
    chip_state: [ChipState; N],
    /// Which line each chip is on.
    chip_line: [LineId; N],
}

impl<const N: usize> ChipStateDiagnostics<N> {
    /// State of each chip, as a value in specifications.
    pub closed spec fn spec_chip_state(&self) -> [ChipState; N] {
        self.chip_state
    }

    /// Which line each chip is on, as a value in specifications.
    pub closed spec fn spec_chip_line(&self) -> [LineId; N] {
        self.chip_line
    }

    /// State of each chip.
    #[verifier::when_used_as_spec(spec_chip_state)]
    pub fn chip_state(&self) -> (r: [ChipState; N])
        ensures
            r == self.chip_state(),
    {
        self.chip_state
    }

    /// Which line each chip is on.
    #[verifier::when_used_as_spec(spec_chip_line)]
    pub fn chip_line(&self) -> (r: [LineId; N])
        ensures
            r == self.chip_line(),
    {
        self.chip_line
    }

    /// Gathers the values.
    pub fn new(
        chip_state: [ChipState; N],
        chip_line: [LineId; N],
    ) -> (r: ChipStateDiagnostics<N>)
        ensures
            r.chip_state() == chip_state,
            r.chip_line() == chip_line,
    {
        ChipStateDiagnostics { chip_state, chip_line }
    }
}

/// Diagnostics of the two isoSPI lines.
#[derive(Copy, Clone, Debug, PartialEq, Eq)]
pub struct LineDiagnostics {
    /// Number of SPI errors on Line A so far.
    line_a_error_count: usize,
    /// Most recent SPI error on Line A; `None` if there was none.
    most_recent_line_a_error: Option<Error<embedded_hal::spi::ErrorKind>>,
    /// Number of SPI errors on Line B so far.
    line_b_error_count: usize,
    /// Most recent SPI error on Line B; `None` if there was none.
    most_recent_line_b_error: Option<Error<embedded_hal::spi::ErrorKind>>,
    /// Number of chips reachable from Line A, or the error of the read that counts them.
    line_a_chips_detected_count: Result<usize, Error<embedded_hal::spi::ErrorKind>>,
    /// Number of chips reachable from Line B, or the error of the read that counts them.
    line_b_chips_detected_count: Result<usize, Error<embedded_hal::spi::ErrorKind>>,
}

impl LineDiagnostics {
    /// Number of SPI errors on Line A so far, as a value in specifications.
    pub closed spec fn spec_line_a_error_count(&self) -> usize {
        self.line_a_error_count
    }

    /// Most recent SPI error on Line A; `None` if there was none, as a value in specifications.
    pub closed spec fn spec_most_recent_line_a_error(&self) -> Option<Error<embedded_hal::spi::ErrorKind>> {
        self.most_recent_line_a_error
    }

    /// Number of SPI errors on Line B so far, as a value in specifications.
    pub closed spec fn spec_line_b_error_count(&self) -> usize {
        self.line_b_error_count
    }

    /// Most recent SPI error on Line B; `None` if there was none, as a value in specifications.
    pub closed spec fn spec_most_recent_line_b_error(&self) -> Option<Error<embedded_hal::spi::ErrorKind>> {
        self.most_recent_line_b_error
    }

    /// Number of chips reachable from Line A, or the error of the read that counts them, as a value in specifications.
    pub closed spec fn spec_line_a_chips_detected_count(&self) -> Result<usize, Error<embedded_hal::spi::ErrorKind>> {
        self.line_a_chips_detected_count
    }

    /// Number of chips reachable from Line B, or the error of the read that counts them, as a value in specifications.
    pub closed spec fn spec_line_b_chips_detected_count(&self) -> Result<usize, Error<embedded_hal::spi::ErrorKind>> {
        self.line_b_chips_detected_count
    }

    /// Number of SPI errors on Line A so far.
    #[verifier::when_used_as_spec(spec_line_a_error_count)]
    pub fn line_a_error_count(&self) -> (r: usize)
        ensures
            r == self.line_a_error_count(),
    {
        self.line_a_error_count
    }

    /// Most recent SPI error on Line A; `None` if there was none.
    #[verifier::when_used_as_spec(spec_most_recent_line_a_error)]
    pub fn most_recent_line_a_error(&self) -> (r: Option<Error<embedded_hal::spi::ErrorKind>>)
        ensures
            r == self.most_recent_line_a_error(),
    {
        self.most_recent_line_a_error
    }

    /// Number of SPI errors on Line B so far.
    #[verifier::when_used_as_spec(spec_line_b_error_count)]
    pub fn line_b_error_count(&self) -> (r: usize)
        ensures
            r == self.line_b_error_count(),
    {
        self.line_b_error_count
    }

    /// Most recent SPI error on Line B; `None` if there was none.
    #[verifier::when_used_as_spec(spec_most_recent_line_b_error)]
    pub fn most_recent_line_b_error(&self) -> (r: Option<Error<embedded_hal::spi::ErrorKind>>)
        ensures
            r == self.most_recent_line_b_error(),
    {
        self.most_recent_line_b_error
    }

    /// Number of chips reachable from Line A, or the error of the read that counts them.
    #[verifier::when_used_as_spec(spec_line_a_chips_detected_count)]
    pub fn line_a_chips_detected_count(&self) -> (r: Result<usize, Error<embedded_hal::spi::ErrorKind>>)
        ensures
            r == self.line_a_chips_detected_count(),
    {
        self.line_a_chips_detected_count
    }

    /// Number of chips reachable from Line B, or the error of the read that counts them.
    #[verifier::when_used_as_spec(spec_line_b_chips_detected_count)]
    pub fn line_b_chips_detected_count(&self) -> (r: Result<usize, Error<embedded_hal::spi::ErrorKind>>)
        ensures
            r == self.line_b_chips_detected_count(),
    {
        self.line_b_chips_detected_count
    }

    /// Gathers the values.
    pub fn new(
        line_a_error_count: usize,
        most_recent_line_a_error: Option<Error<embedded_hal::spi::ErrorKind>>,
        line_b_error_count: usize,
        most_recent_line_b_error: Option<Error<embedded_hal::spi::ErrorKind>>,
        line_a_chips_detected_count: Result<usize, Error<embedded_hal::spi::ErrorKind>>,
        line_b_chips_detected_count: Result<usize, Error<embedded_hal::spi::ErrorKind>>,
    ) -> (r: LineDiagnostics)
        ensures
            r.line_a_error_count() == line_a_error_count,
            r.most_recent_line_a_error() == most_recent_line_a_error,
            r.line_b_error_count() == line_b_error_count,
            r.most_recent_line_b_error() == most_recent_line_b_error,
            r.line_a_chips_detected_count() == line_a_chips_detected_count,
            r.line_b_chips_detected_count() == line_b_chips_detected_count,
    {
        LineDiagnostics { line_a_error_count, most_recent_line_a_error, line_b_error_count, most_recent_line_b_error, line_a_chips_detected_count, line_b_chips_detected_count }
    }
}

/// Everything the Service reports about one of its cycles.
#[derive(Copy, Clone, Debug, PartialEq, Eq)]
pub struct ServiceDiagnostics<const N: usize> {
    /// PEC error accumulator diagnostics.
    accumulator_diagnostics: AccumulatorDiagnostics<N>,
    /// How often and how long the Service runs.
    timing_diagnostics: TimingDiagnostics,
    /// Chip state diagnostics.
    chip_state_diagnostics: ChipStateDiagnostics<N>,
    /// Diagnostics of the two lines.
    line_diagnostics: LineDiagnostics,
    /// Number of times sleep detection failed on an SPI error.
    sleep_detection_spi_error_count: usize,
    /// Number of times break handling failed on an SPI error.
    break_detection_spi_error_count: usize,
    /// Number of Service cycles so far, this one included.
    cycles_count: usize,
    /// The current split of the chips between the two lines.
    split: OnLineA,
    /// The configured maximum number of split attempts.
    segment_isospi_max_split_attempts: usize,
    /// The configured maximum number of failed verification windows.
    segment_isospi_max_failed_verification_attempts: usize,
    /// Why the startup routine was last called.
    startup_reason: StartupReason,
    /// What the startup routine last returned.
    startup_result: StartupResult,
    /// Number of startups so far.
    startups_count: usize,
    /// Number of times a startup for another reason was requested before the current one completed.
    startups_overtaken_by_another_startup_counts: usize,
}

impl<const N: usize> ServiceDiagnostics<N> {
    /// PEC error accumulator diagnostics, as a value in specifications.
    pub closed spec fn spec_accumulator(&self) -> AccumulatorDiagnostics<N> {
        self.accumulator_diagnostics
    }

    /// How often and how long the Service runs, as a value in specifications.
    pub closed spec fn spec_timing(&self) -> TimingDiagnostics {
        self.timing_diagnostics
    }

    /// Chip state diagnostics, as a value in specifications.
    pub closed spec fn spec_chip_state_diagnostics(&self) -> ChipStateDiagnostics<N> {
        self.chip_state_diagnostics
    }

    /// Diagnostics of the two lines, as a value in specifications.
    pub closed spec fn spec_line_diagnostics(&self) -> LineDiagnostics {
        self.line_diagnostics
    }

    /// Number of times sleep detection failed on an SPI error, as a value in specifications.
    pub closed spec fn spec_sleep_detection_spi_error_count(&self) -> usize {
        self.sleep_detection_spi_error_count
    }

    /// Number of times break handling failed on an SPI error, as a value in specifications.
    pub closed spec fn spec_break_detection_spi_error_count(&self) -> usize {
        self.break_detection_spi_error_count
    }

    /// Number of Service cycles so far, this one included, as a value in specifications.
    pub closed spec fn spec_cycles_count(&self) -> usize {
        self.cycles_count
    }

    /// The current split of the chips between the two lines, as a value in specifications.
    pub closed spec fn spec_split(&self) -> OnLineA {
        self.split
    }

    /// The configured maximum number of split attempts, as a value in specifications.
    pub closed spec fn spec_max_split_attempts(&self) -> usize {
        self.segment_isospi_max_split_attempts
    }

    /// The configured maximum number of failed verification windows, as a value in specifications.
    pub closed spec fn spec_max_verification_attempts(&self) -> usize {
        self.segment_isospi_max_failed_verification_attempts
    }

    /// Why the startup routine was last called, as a value in specifications.
    pub closed spec fn spec_startup_reason(&self) -> StartupReason {
        self.startup_reason
    }

    /// What the startup routine last returned, as a value in specifications.
    pub closed spec fn spec_startup_result(&self) -> StartupResult {
        self.startup_result
    }

    /// Number of startups so far, as a value in specifications.
    pub closed spec fn spec_startups_count(&self) -> usize {
        self.startups_count
    }

    /// Number of times a startup for another reason was requested before the current one completed, as a value in specifications.
    pub closed spec fn spec_startups_overtaken_by_another_startup_counts(&self) -> usize {
        self.startups_overtaken_by_another_startup_counts
    }

    /// PEC error accumulator diagnostics.
    #[verifier::when_used_as_spec(spec_accumulator)]
    pub fn accumulator(&self) -> (r: AccumulatorDiagnostics<N>)
        ensures
            r == self.accumulator(),
    {
        self.accumulator_diagnostics
    }

    /// How often and how long the Service runs.
    #[verifier::when_used_as_spec(spec_timing)]
    pub fn timing(&self) -> (r: TimingDiagnostics)
        ensures
            r == self.timing(),
    {
        self.timing_diagnostics
    }

    /// Chip state diagnostics.
    #[verifier::when_used_as_spec(spec_chip_state_diagnostics)]
    pub fn chip_state_diagnostics(&self) -> (r: ChipStateDiagnostics<N>)
        ensures
            r == self.chip_state_diagnostics(),
    {
        self.chip_state_diagnostics
    }

    /// Diagnostics of the two lines.
    #[verifier::when_used_as_spec(spec_line_diagnostics)]
    pub fn line_diagnostics(&self) -> (r: LineDiagnostics)
        ensures
            r == self.line_diagnostics(),
    {
        self.line_diagnostics
    }

    /// Number of times sleep detection failed on an SPI error.
    #[verifier::when_used_as_spec(spec_sleep_detection_spi_error_count)]
    pub fn sleep_detection_spi_error_count(&self) -> (r: usize)
        ensures
            r == self.sleep_detection_spi_error_count(),
    {
        self.sleep_detection_spi_error_count
    }

    /// Number of times break handling failed on an SPI error.
    #[verifier::when_used_as_spec(spec_break_detection_spi_error_count)]
    pub fn break_detection_spi_error_count(&self) -> (r: usize)
        ensures
            r == self.break_detection_spi_error_count(),
    {
        self.break_detection_spi_error_count
    }

    /// Number of Service cycles so far, this one included.
    #[verifier::when_used_as_spec(spec_cycles_count)]
    pub fn cycles_count(&self) -> (r: usize)
        ensures
            r == self.cycles_count(),
    {
        self.cycles_count
    }

    /// The current split of the chips between the two lines.
    #[verifier::when_used_as_spec(spec_split)]
    pub fn split(&self) -> (r: OnLineA)
        ensures
            r == self.split(),
    {
        self.split
    }

    /// The configured maximum number of split attempts.
    #[verifier::when_used_as_spec(spec_max_split_attempts)]
    pub fn max_split_attempts(&self) -> (r: usize)
        ensures
            r == self.max_split_attempts(),
    {
        self.segment_isospi_max_split_attempts
    }

    /// The configured maximum number of failed verification windows.
    #[verifier::when_used_as_spec(spec_max_verification_attempts)]
    pub fn max_verification_attempts(&self) -> (r: usize)
        ensures
            r == self.max_verification_attempts(),
    {
        self.segment_isospi_max_failed_verification_attempts
    }

    /// Why the startup routine was last called.
    #[verifier::when_used_as_spec(spec_startup_reason)]
    pub fn startup_reason(&self) -> (r: StartupReason)
        ensures
            r == self.startup_reason(),
    {
        self.startup_reason
    }

    /// What the startup routine last returned.
    #[verifier::when_used_as_spec(spec_startup_result)]
    pub fn startup_result(&self) -> (r: StartupResult)
        ensures
            r == self.startup_result(),
    {
        self.startup_result
    }

    /// Number of startups so far.
    #[verifier::when_used_as_spec(spec_startups_count)]
    pub fn startups_count(&self) -> (r: usize)
        ensures
            r == self.startups_count(),
    {
        self.startups_count
    }

    /// Number of times a startup for another reason was requested before the current one completed.
    #[verifier::when_used_as_spec(spec_startups_overtaken_by_another_startup_counts)]
    pub fn startups_overtaken_by_another_startup_counts(&self) -> (r: usize)
        ensures
            r == self.startups_overtaken_by_another_startup_counts(),
    {
        self.startups_overtaken_by_another_startup_counts
    }

    /// Gathers the values.
    pub fn new(
        accumulator_diagnostics: AccumulatorDiagnostics<N>,
        timing_diagnostics: TimingDiagnostics,
        chip_state_diagnostics: ChipStateDiagnostics<N>,
        line_diagnostics: LineDiagnostics,
        sleep_detection_spi_error_count: usize,
        break_detection_spi_error_count: usize,
        cycles_count: usize,
        split: OnLineA,
        segment_isospi_max_split_attempts: usize,
        segment_isospi_max_failed_verification_attempts: usize,
        startup_reason: StartupReason,
        startup_result: StartupResult,
        startups_count: usize,
        startups_overtaken_by_another_startup_counts: usize,
    ) -> (r: ServiceDiagnostics<N>)
        ensures
            r.accumulator() == accumulator_diagnostics,
            r.timing() == timing_diagnostics,
            r.chip_state_diagnostics() == chip_state_diagnostics,
            r.line_diagnostics() == line_diagnostics,
            r.sleep_detection_spi_error_count() == sleep_detection_spi_error_count,
            r.break_detection_spi_error_count() == break_detection_spi_error_count,
            r.cycles_count() == cycles_count,
            r.split() == split,
            r.max_split_attempts() == segment_isospi_max_split_attempts,
            r.max_verification_attempts() == segment_isospi_max_failed_verification_attempts,
            r.startup_reason() == startup_reason,
            r.startup_result() == startup_result,
            r.startups_count() == startups_count,
            r.startups_overtaken_by_another_startup_counts() == startups_overtaken_by_another_startup_counts,
    {
        ServiceDiagnostics { accumulator_diagnostics, timing_diagnostics, chip_state_diagnostics, line_diagnostics, sleep_detection_spi_error_count, break_detection_spi_error_count, cycles_count, split, segment_isospi_max_split_attempts, segment_isospi_max_failed_verification_attempts, startup_reason, startup_result, startups_count, startups_overtaken_by_another_startup_counts }
    }
}

} // verus!
