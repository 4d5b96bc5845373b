//! Tracks each chip's PEC failure rate and reports where a break has opened in the chain.
//!
//! Each update adds the PEC outcomes each chip saw since the previous update to the current
//! window. A window opens when a chip starts failing its reads; when it closes, a run of failing
//! chips reaching the end of the chain means a break before the first of them. The chain is then
//! split there, and further windows check whether the chips past the split answer again.

use vstd::prelude::*;

use super::api::ChipState;
use super::diagnostics::AccumulatorDiagnostics;
use super::service::service_config::ServiceConfig;
use crate::adbms6830b::time::{Duration, Instant, MAX_MILLIS};

verus! {

/// Where the break detection and recovery stands.
#[derive(Copy, Clone, Debug, PartialEq, Eq, Structural)]
pub enum State {
    /// No window is open: each update is watched for a chip whose reads are failing. This is the
    /// state at startup.
    Idle,
    /// Summing PEC outcomes until `until`, when the window is evaluated.
    Accumulating { until: Instant },
    /// A break was found at chip `at`, and the split for it is being applied. `attempts` counts
    /// the failed attempts so far.
    Splitting { at: usize, attempts: usize },
    /// The split for the break at chip `at` was applied, and windows check whether the chips from
    /// `at` on answer again. `until` ends the current window; `total_attempts` counts the windows
    /// so far, and `failed_attempts` those that found a chip still failing.
    Verifying { at: usize, until: Instant, total_attempts: usize, failed_attempts: usize },
    /// The split at chip `at` was applied and verified. Recovery is done; nothing further is
    /// detected, since there are only two lines.
    Recovered { at: usize },
    /// Recovery for the break at chip `at` gave up: the split could not be applied, or the chips
    /// past it never answered again.
    Failed { at: usize },
}

/// What the caller has to do after an update.
#[derive(Copy, Clone, Debug, PartialEq, Eq, Structural)]
pub enum UpdateResult {
    /// Nothing.
    Okay,
    /// Apply the split at `break_chip_index` and report back with `Accumulator::was_split_applied()`.
    /// This comes back on every update until the split is reported applied or recovery gives up.
    BreakDetected {
        /// Index of the chip at which the break should be set.
        break_chip_index: usize,
    },
}

/// Whether a chip's reads over a window count as failed.
#[derive(Copy, Clone, Debug, PartialEq, Eq, Structural)]
pub enum IsChipFailedResult {
    /// The chip meets the failure criteria.
    ChipFailed,
    /// The chip meets the okay criteria: it is communicating normally.
    ChipOkay,
    /// The chip took part in too few reads over the window to be judged either way.
    Undetermiend,
}

/// The first `j` in `lo..hi` for which `p(j)` holds, or `hi` if there is none.
pub open spec fn first_where(p: spec_fn(int) -> bool, lo: int, hi: int) -> int
    decreases hi - lo,
{
    if lo >= hi {
        hi
    } else if p(lo) {
        lo
    } else {
        first_where(p, lo + 1, hi)
    }
}

/// The number of `j` in `lo..hi` for which `p(j)` holds.
pub open spec fn count_where(p: spec_fn(int) -> bool, lo: int, hi: int) -> nat
    decreases hi - lo,
{
    if hi <= lo {
        0
    } else {
        count_where(p, lo, hi - 1) + if p(hi - 1) {
            1nat
        } else {
            0nat
        }
    }
}

proof fn lemma_first_where_found(p: spec_fn(int) -> bool, lo: int, hi: int, k: int)
    requires
        lo <= k < hi,
        forall|j: int| lo <= j < k ==> !#[trigger] p(j),
        p(k),
    ensures
        first_where(p, lo, hi) == k,
    decreases k - lo,
{
    if lo < k {
        lemma_first_where_found(p, lo + 1, hi, k);
    }
}

proof fn lemma_first_where_none(p: spec_fn(int) -> bool, lo: int, hi: int)
    requires
        forall|j: int| lo <= j < hi ==> !#[trigger] p(j),
    ensures
        first_where(p, lo, hi) == hi,
    decreases hi - lo,
{
    if lo < hi {
        lemma_first_where_none(p, lo + 1, hi);
    }
}

proof fn lemma_first_where_bounds(p: spec_fn(int) -> bool, lo: int, hi: int)
    requires
        lo <= hi,
    ensures
        lo <= first_where(p, lo, hi) <= hi,
        first_where(p, lo, hi) < hi ==> p(first_where(p, lo, hi)),
        forall|j: int| lo <= j < first_where(p, lo, hi) ==> !#[trigger] p(j),
    decreases hi - lo,
{
    if lo < hi && !p(lo) {
        lemma_first_where_bounds(p, lo + 1, hi);
    }
}

proof fn lemma_count_where_bound(p: spec_fn(int) -> bool, lo: int, hi: int)
    requires
        lo <= hi,
    ensures
        count_where(p, lo, hi) <= hi - lo,
    decreases hi - lo,
{
    if lo < hi {
        lemma_count_where_bound(p, lo, hi - 1);
    }
}

/// A chip's PEC failure rate in percent, from `failed` failures over `attempts` reads; 0 when
/// there were no reads.
pub open spec fn pct_of(failed: usize, attempts: usize) -> u8 {
    if attempts == 0 {
        0
    } else {
        ((failed * 100) / (attempts as int)) as u8
    }
}

/// Whether chip `j`'s reads in this update open a window: it took part in enough of them and
/// enough of them failed.
pub open spec fn opens_window(att: Seq<usize>, pct: Seq<u8>, cfg: ServiceConfig, j: int) -> bool {
    att[j] >= cfg.segment_isospi_min_attempts_to_open_window && pct[j]
        >= cfg.segment_isospi_pec_failure_ratio_pct
}

/// Whether chip `j` counts as failed over a window.
pub open spec fn chip_status(
    att: Seq<usize>,
    pct: Seq<u8>,
    cfg: ServiceConfig,
    j: int,
) -> IsChipFailedResult {
    if att[j] < cfg.segment_isospi_min_attempts_for_fail {
        IsChipFailedResult::Undetermiend
    } else if pct[j] >= cfg.segment_isospi_pec_failure_ratio_pct {
        IsChipFailedResult::ChipFailed
    } else {
        IsChipFailedResult::ChipOkay
    }
}

/// The chips whose reads open a window.
pub open spec fn opens_pred(att: Seq<usize>, pct: Seq<u8>, cfg: ServiceConfig) -> spec_fn(int) -> bool {
    |j: int| opens_window(att, pct, cfg, j)
}

/// The chips that took part in fewer than `min` reads.
pub open spec fn below_pred(att: Seq<usize>, min: usize) -> spec_fn(int) -> bool {
    |j: int| att[j] < min
}

/// The chips whose status is `s`.
pub open spec fn status_pred(
    att: Seq<usize>,
    pct: Seq<u8>,
    cfg: ServiceConfig,
    s: IsChipFailedResult,
) -> spec_fn(int) -> bool {
    |j: int| chip_status(att, pct, cfg, j) == s
}

/// The chips whose status is not `s`.
pub open spec fn status_not_pred(
    att: Seq<usize>,
    pct: Seq<u8>,
    cfg: ServiceConfig,
    s: IsChipFailedResult,
) -> spec_fn(int) -> bool {
    |j: int| chip_status(att, pct, cfg, j) != s
}

/// A window's tallies after the counts `now` came in: what each chip's count moved by since
/// `last` is added, once there is a previous count to compare with.
pub open spec fn tally(seeded: bool, tallies: Seq<usize>, last: Seq<usize>, now: Seq<usize>) -> Seq<usize> {
    Seq::new(
        tallies.len(),
        |i: int|
            if seeded {
                (tallies[i] + (now[i] - last[i])) as usize
            } else {
                tallies[i]
            },
    )
}

/// Each chip's count of failed PECs.
pub open spec fn failed_counts(chips: Seq<ChipState>) -> Seq<usize> {
    chips.map_values(|c: ChipState| c.pec_failed_count())
}

/// Each chip's count of reads, failed or not.
pub open spec fn attempt_counts(chips: Seq<ChipState>) -> Seq<usize> {
    chips.map_values(|c: ChipState| (c.pec_failed_count() + c.pec_success_count()) as usize)
}

/// Each chip's failure rate from the tallies.
pub open spec fn pcts(failed: Seq<usize>, attempts: Seq<usize>) -> Seq<u8> {
    Seq::new(failed.len(), |i: int| pct_of(failed[i], attempts[i]))
}

/// `n` zeros.
pub open spec fn zeros(n: nat) -> Seq<usize> {
    Seq::new(n, |i: int| 0usize)
}

/// What one update does, from the state before it, the window's tallies and failure rates, the
/// configuration and the time: the next state, the result, whether the tallies start over, and
/// how much each of the two "too few reads" counters goes up.
///
/// - `Idle`: a window opens at the first chip whose reads in this update open one; otherwise the
///   tallies start over. Every chip looked at before it with too few reads is counted.
/// - `Accumulating`, once `until` is reached: the first failed chip marks a break if every chip
///   after it failed too; the chain is then to be split there. Otherwise the state goes back to
///   `Idle`. Chips looked at that could not be judged are counted.
/// - `Splitting`: the split is asked for again.
/// - `Verifying`, once `until` is reached: if a chip from `at` on could not be judged, another
///   window runs; if none failed, recovery is done; otherwise the window counts as failed, and
///   after too many of those recovery gives up.
/// - `Recovered` and `Failed` stay as they are.
pub open spec fn transition(
    state: State,
    att: Seq<usize>,
    pct: Seq<u8>,
    cfg: ServiceConfig,
    now: Instant,
) -> (State, UpdateResult, bool, nat, nat) {
    let n = att.len() as int;
    let next = now.later(Duration::millis(cfg.segment_isospi_eval_period_ms));
    match state {
        State::Idle => {
            let k = first_where(opens_pred(att, pct, cfg), 0, n);
            let skips = count_where(
                below_pred(att, cfg.segment_isospi_min_attempts_to_open_window),
                0,
                k,
            );
            if k < n {
                (State::Accumulating { until: next }, UpdateResult::Okay, false, skips, 0)
            } else {
                (State::Idle, UpdateResult::Okay, true, skips, 0)
            }
        },
        State::Accumulating { until } => {
            if now@ >= until@ {
                let idx = first_where(
                    status_pred(att, pct, cfg, IsChipFailedResult::ChipFailed),
                    0,
                    n,
                );
                let skips = count_where(
                    below_pred(att, cfg.segment_isospi_min_attempts_for_fail),
                    0,
                    idx,
                );
                if idx < n {
                    let m = first_where(
                        status_not_pred(att, pct, cfg, IsChipFailedResult::ChipFailed),
                        idx + 1,
                        n,
                    );
                    if m == n {
                        (
                            State::Splitting { at: idx as usize, attempts: 0 },
                            UpdateResult::BreakDetected { break_chip_index: idx as usize },
                            true,
                            0,
                            skips,
                        )
                    } else {
                        let extra: nat = if chip_status(att, pct, cfg, m)
                            == IsChipFailedResult::Undetermiend {
                            1
                        } else {
                            0
                        };
                        (State::Idle, UpdateResult::Okay, true, 0, skips + extra)
                    }
                } else {
                    (State::Idle, UpdateResult::Okay, true, 0, skips)
                }
            } else {
                (state, UpdateResult::Okay, false, 0, 0)
            }
        },
        State::Splitting { at, attempts } => (
            state,
            UpdateResult::BreakDetected { break_chip_index: at },
            true,
            0,
            0,
        ),
        State::Verifying { at, until, total_attempts, failed_attempts } => {
            if now@ >= until@ {
                let u = first_where(
                    status_pred(att, pct, cfg, IsChipFailedResult::Undetermiend),
                    at as int,
                    n,
                );
                if u < n {
                    (
                        State::Verifying {
                            at,
                            until: next,
                            total_attempts: (total_attempts + 1) as usize,
                            failed_attempts,
                        },
                        UpdateResult::Okay,
                        true,
                        0,
                        1,
                    )
                } else if first_where(
                    status_pred(att, pct, cfg, IsChipFailedResult::ChipFailed),
                    at as int,
                    n,
                ) == n {
                    (State::Recovered { at }, UpdateResult::Okay, true, 0, 0)
                } else if failed_attempts + 1 >= cfg.segment_isospi_max_failed_verification_attempts {
                    (State::Failed { at }, UpdateResult::Okay, true, 0, 0)
                } else {
                    (
                        State::Verifying {
                            at,
                            until: next,
                            total_attempts: (total_attempts + 1) as usize,
                            failed_attempts: (failed_attempts + 1) as usize,
                        },
                        UpdateResult::Okay,
                        true,
                        0,
                        0,
                    )
                }
            } else {
                (state, UpdateResult::Okay, false, 0, 0)
            }
        },
        State::Recovered { at } => (state, UpdateResult::Okay, true, 0, 0),
        State::Failed { at } => (state, UpdateResult::Okay, true, 0, 0),
    }
}

/// The state after the caller reported whether the split asked for was applied, at `now`: applied
/// starts verification; not applied asks for it again, up to the configured number of attempts.
/// Outside `Splitting` nothing changes.
pub open spec fn split_report(state: State, applied: bool, cfg: ServiceConfig, now: Instant) -> State {
    match state {
        State::Splitting { at, attempts } => {
            if applied {
                State::Verifying {
                    at,
                    until: now.later(Duration::millis(cfg.segment_isospi_eval_period_ms)),
                    total_attempts: 0,
                    failed_attempts: 0,
                }
            } else if attempts + 1 >= cfg.segment_isospi_max_split_attempts {
                State::Failed { at }
            } else {
                State::Splitting { at, attempts: (attempts + 1) as usize }
            }
        },
        _ => state,
    }
}

/// Whether chip state `c` can follow the counts `lf` (failed) and `la` (all reads) seen at the
/// previous update, with `f` and `a` tallied so far: the counts of a chip only grow, and nothing
/// overflows.
pub open spec fn chip_fits(seeded: bool, f: usize, a: usize, lf: usize, la: usize, c: ChipState) -> bool {
    let nf = c.pec_failed_count();
    let ns = c.pec_success_count();
    &&& nf + ns <= usize::MAX
    &&& seeded ==> {
        &&& nf >= lf
        &&& ns + lf >= la
        &&& f + (nf - lf) <= usize::MAX
        &&& a + (nf + ns - la) <= usize::MAX
    }
}

/// The PEC error accumulator of `N` chips.
#[derive(Clone, Debug)]
pub struct Accumulator<const N: usize> {
    state: State,
    /// PEC failures counted for each chip during this window.
    failed: [usize; N],
    /// Reads counted for each chip during this window.
    attempts: [usize; N],
    /// Each chip's failed count as of the last update.
    last_failed: [usize; N],
    /// Each chip's read count as of the last update.
    last_attempts: [usize; N],
    /// How many times a chip was passed over for opening a window for lack of reads.
    below_min_attempts_to_open_window_count: usize,
    /// How many times a chip could not be judged at the end of a window for lack of reads.
    below_min_attempts_for_fail_count: usize,
    /// Whether `last_failed` and `last_attempts` hold a real reading yet.
    seeded: bool,
    /// The Service configuration.
    config: ServiceConfig,
}

impl<const N: usize> Accumulator<N> {
    /// The current state, as a value in specifications.
    pub closed spec fn spec_state(self) -> State {
        self.state
    }

    /// The failures tallied in this window.
    pub closed spec fn spec_failed(self) -> Seq<usize> {
        self.failed@
    }

    /// The reads tallied in this window.
    pub closed spec fn spec_attempts(self) -> Seq<usize> {
        self.attempts@
    }

    /// The failed counts as of the last update.
    pub closed spec fn spec_last_failed(self) -> Seq<usize> {
        self.last_failed@
    }

    /// The read counts as of the last update.
    pub closed spec fn spec_last_attempts(self) -> Seq<usize> {
        self.last_attempts@
    }

    /// Whether a previous update has been seen.
    pub closed spec fn spec_seeded(self) -> bool {
        self.seeded
    }

    /// How many times a chip was passed over for opening a window for lack of reads.
    pub closed spec fn spec_below_open(self) -> usize {
        self.below_min_attempts_to_open_window_count
    }

    /// How many times a chip could not be judged for lack of reads.
    pub closed spec fn spec_below_fail(self) -> usize {
        self.below_min_attempts_for_fail_count
    }

    /// The configuration.
    pub closed spec fn spec_config(self) -> ServiceConfig {
        self.config
    }

    /// What holds of every accumulator: no chip has more failures than reads, a break is at a
    /// chip that exists, the retry counters stay under their limits, and the window length can
    /// be turned into ticks.
    pub open spec fn well_formed(self) -> bool {
        &&& self.spec_failed().len() == N
        &&& self.spec_attempts().len() == N
        &&& self.spec_last_failed().len() == N
        &&& self.spec_last_attempts().len() == N
        &&& forall|i: int| 0 <= i < N ==> #[trigger] self.spec_failed()[i] <= self.spec_attempts()[i]
        &&& forall|i: int|
            0 <= i < N ==> #[trigger] self.spec_last_failed()[i] <= self.spec_last_attempts()[i]
        &&& self.spec_config().segment_isospi_eval_period_ms <= MAX_MILLIS
        &&& match self.spec_state() {
            State::Splitting { at, attempts } => at < N && (attempts == 0 || attempts
                < self.spec_config().segment_isospi_max_split_attempts),
            State::Verifying { at, failed_attempts, .. } => at < N && (failed_attempts == 0
                || failed_attempts < self.spec_config().segment_isospi_max_failed_verification_attempts),
            State::Recovered { at } => at < N,
            State::Failed { at } => at < N,
            _ => true,
        }
    }

    /// Whether an update with chip states `chips` keeps to what the counters can hold: each
    /// chip's counts only grew since the last update, and no tally or counter overflows.
    pub open spec fn accepts_spec(self, chips: Seq<ChipState>) -> bool {
        &&& chips.len() == N
        &&& forall|i: int|
            0 <= i < N ==> #[trigger] chip_fits(
                self.spec_seeded(),
                self.spec_failed()[i],
                self.spec_attempts()[i],
                self.spec_last_failed()[i],
                self.spec_last_attempts()[i],
                chips[i],
            )
        &&& self.spec_below_open() + N <= usize::MAX
        &&& self.spec_below_fail() + N <= usize::MAX
        &&& (self.spec_state() matches State::Verifying { total_attempts, .. } ==> total_attempts
            < usize::MAX)
    }

    /// The failures tallied once `chips` came in.
    pub open spec fn next_failed(self, chips: Seq<ChipState>) -> Seq<usize> {
        tally(self.spec_seeded(), self.spec_failed(), self.spec_last_failed(), failed_counts(chips))
    }

    /// The reads tallied once `chips` came in.
    pub open spec fn next_attempts(self, chips: Seq<ChipState>) -> Seq<usize> {
        tally(
            self.spec_seeded(),
            self.spec_attempts(),
            self.spec_last_attempts(),
            attempt_counts(chips),
        )
    }

    /// The failure rates once `chips` came in.
    pub open spec fn next_pct(self, chips: Seq<ChipState>) -> Seq<u8> {
        pcts(self.next_failed(chips), self.next_attempts(chips))
    }

    /// What an update with `chips` at `now` does.
    pub open spec fn next_transition(self, chips: Seq<ChipState>, now: Instant) -> (
        State,
        UpdateResult,
        bool,
        nat,
        nat,
    ) {
        transition(
            self.spec_state(),
            self.next_attempts(chips),
            self.next_pct(chips),
            self.spec_config(),
            now,
        )
    }

    /// An idle accumulator with nothing tallied.
    pub fn new(config: ServiceConfig) -> (r: Accumulator<N>)
        requires
            config.segment_isospi_eval_period_ms <= MAX_MILLIS,
        ensures
            r.well_formed(),
            r.spec_state() == State::Idle,
            r.spec_failed() == zeros(N as nat),
            r.spec_attempts() == zeros(N as nat),
            r.spec_last_failed() == zeros(N as nat),
            r.spec_last_attempts() == zeros(N as nat),
            !r.spec_seeded(),
            r.spec_below_open() == 0,
            r.spec_below_fail() == 0,
            r.spec_config() == config,
    {
        let r = Accumulator {
            state: State::Idle,
            failed: [0; N],
            attempts: [0; N],
            last_failed: [0; N],
            last_attempts: [0; N],
            below_min_attempts_to_open_window_count: 0,
            below_min_attempts_for_fail_count: 0,
            seeded: false,
            config,
        };
        assert(r.failed@ =~= zeros(N as nat));
        assert(r.attempts@ =~= zeros(N as nat));
        assert(r.last_failed@ =~= zeros(N as nat));
        assert(r.last_attempts@ =~= zeros(N as nat));
        r
    }

    /// The current state.
    pub fn state(&self) -> (r: State)
        ensures
            r == self.spec_state(),
    {
        self.state
    }

    /// Zeroes this window's tallies for each chip.
    fn reset_chips(&mut self)
        ensures
            final(self).spec_failed() == zeros(N as nat),
            final(self).spec_attempts() == zeros(N as nat),
            final(self).spec_state() == old(self).spec_state(),
            final(self).spec_last_failed() == old(self).spec_last_failed(),
            final(self).spec_last_attempts() == old(self).spec_last_attempts(),
            final(self).spec_seeded() == old(self).spec_seeded(),
            final(self).spec_below_open() == old(self).spec_below_open(),
            final(self).spec_below_fail() == old(self).spec_below_fail(),
            final(self).spec_config() == old(self).spec_config(),
    {
        self.failed = [0; N];
        self.attempts = [0; N];
        assert(self.failed@ =~= zeros(N as nat));
        assert(self.attempts@ =~= zeros(N as nat));
    }

    /// Whether an update with `chips` keeps to what the counters can hold.
    pub fn accepts(&self, chips: &[ChipState; N]) -> (r: bool)
        requires
            self.well_formed(),
        ensures
            r == self.accepts_spec(chips@),
    {
        let mut i: usize = 0;
        while i < N
            invariant
                i <= N,
                self.well_formed(),
                forall|j: int|
                    0 <= j < i ==> #[trigger] chip_fits(
                        self.spec_seeded(),
                        self.spec_failed()[j],
                        self.spec_attempts()[j],
                        self.spec_last_failed()[j],
                        self.spec_last_attempts()[j],
                        chips@[j],
                    ),
            decreases N - i,
        {
            let nf = chips[i].pec_failed_count() as u128;
            let ns = chips[i].pec_success_count() as u128;
            let lf = self.last_failed[i] as u128;
            let la = self.last_attempts[i] as u128;
            let f = self.failed[i] as u128;
            let a = self.attempts[i] as u128;
            let max = usize::MAX as u128;
            let fits = nf + ns <= max && (!self.seeded || (nf >= lf && ns + lf >= la && f + (nf
                - lf) <= max && a + (nf + ns - la) <= max));
            assert(fits == chip_fits(
                self.spec_seeded(),
                self.spec_failed()[i as int],
                self.spec_attempts()[i as int],
                self.spec_last_failed()[i as int],
                self.spec_last_attempts()[i as int],
                chips@[i as int],
            ));
            if !fits {
                return false;
            }
            i = i + 1;
        }
        if self.below_min_attempts_to_open_window_count > usize::MAX - N {
            return false;
        }
        if self.below_min_attempts_for_fail_count > usize::MAX - N {
            return false;
        }
        match self.state {
            State::Verifying { total_attempts, .. } => total_attempts < usize::MAX,
            _ => true,
        }
    }

    /// Adds each chip's PEC outcomes since the last update to this window.
    fn update_chips(&mut self, chips: &[ChipState; N])
        requires
            old(self).well_formed(),
            old(self).accepts_spec(chips@),
        ensures
            final(self).well_formed(),
            final(self).spec_failed() == old(self).next_failed(chips@),
            final(self).spec_attempts() == old(self).next_attempts(chips@),
            final(self).spec_last_failed() == failed_counts(chips@),
            final(self).spec_last_attempts() == attempt_counts(chips@),
            final(self).spec_seeded(),
            final(self).spec_state() == old(self).spec_state(),
            final(self).spec_below_open() == old(self).spec_below_open(),
            final(self).spec_below_fail() == old(self).spec_below_fail(),
            final(self).spec_config() == old(self).spec_config(),
    {
        let ghost orig = *self;
        let mut chip: usize = 0;
        while chip < N
            invariant
                chip <= N,
                orig.well_formed(),
                orig.accepts_spec(chips@),
                self.state == orig.state,
                self.seeded == orig.seeded,
                self.config == orig.config,
                self.below_min_attempts_to_open_window_count
                    == orig.below_min_attempts_to_open_window_count,
                self.below_min_attempts_for_fail_count == orig.below_min_attempts_for_fail_count,
                self.failed@.len() == N,
                self.attempts@.len() == N,
                self.last_failed@.len() == N,
                self.last_attempts@.len() == N,
                forall|i: int| 0 <= i < N ==> #[trigger] self.failed@[i] <= self.attempts@[i],
                forall|i: int|
                    0 <= i < N ==> #[trigger] self.last_failed@[i] <= self.last_attempts@[i],
                forall|i: int|
                    0 <= i < N ==> #[trigger] self.failed@[i] == (if i < chip {
                        orig.next_failed(chips@)[i]
                    } else {
                        orig.failed@[i]
                    }),
                forall|i: int|
                    0 <= i < N ==> #[trigger] self.attempts@[i] == (if i < chip {
                        orig.next_attempts(chips@)[i]
                    } else {
                        orig.attempts@[i]
                    }),
                forall|i: int|
                    0 <= i < N ==> #[trigger] self.last_failed@[i] == (if i < chip {
                        failed_counts(chips@)[i]
                    } else {
                        orig.last_failed@[i]
                    }),
                forall|i: int|
                    0 <= i < N ==> #[trigger] self.last_attempts@[i] == (if i < chip {
                        attempt_counts(chips@)[i]
                    } else {
                        orig.last_attempts@[i]
                    }),
            decreases N - chip,
        {
            assert(chip_fits(
                orig.spec_seeded(),
                orig.spec_failed()[chip as int],
                orig.spec_attempts()[chip as int],
                orig.spec_last_failed()[chip as int],
                orig.spec_last_attempts()[chip as int],
                chips@[chip as int],
            ));
            let failed = chips[chip].pec_failed_count();
            let succeeded = chips[chip].pec_success_count();
            let attempts = failed + succeeded;
            if self.seeded {
                self.failed[chip] = self.failed[chip] + (failed - self.last_failed[chip]);
                self.attempts[chip] = self.attempts[chip] + (attempts - self.last_attempts[chip]);
            }
            self.last_failed[chip] = failed;
            self.last_attempts[chip] = attempts;
            chip = chip + 1;
        }
        self.seeded = true;
        assert(self.failed@ =~= orig.next_failed(chips@));
        assert(self.attempts@ =~= orig.next_attempts(chips@));
        assert(self.last_failed@ =~= failed_counts(chips@));
        assert(self.last_attempts@ =~= attempt_counts(chips@));
    }

    /// This chip's PEC failure rate over the current window, as a percentage; 0 with no reads.
    fn failure_pct(&self, chip: usize) -> (r: u8)
        requires
            self.well_formed(),
            chip < N,
        ensures
            r == pct_of(self.spec_failed()[chip as int], self.spec_attempts()[chip as int]),
            r <= 100,
    {
        if self.attempts[chip] == 0 {
            return 0;
        }
        let f = self.failed[chip] as u128;
        let a = self.attempts[chip] as u128;
        let p = (f * 100) / a;
        assert(p <= 100) by (nonlinear_arith)
            requires
                f <= a,
                a > 0,
                p == (f * 100) / (a as int),
        ;
        p as u8
    }

    /// Whether `chip`'s reads warrant opening a window; a chip with too few reads is counted in
    /// the diagnostics and passed over.
    fn should_we_open_window_for_chip(&mut self, failure_pct: &[u8; N], chip: usize) -> (r: bool)
        requires
            chip < N,
            old(self).spec_below_open() < usize::MAX,
        ensures
            r == opens_window(old(self).spec_attempts(), failure_pct@, old(self).spec_config(), chip as int),
            final(self).spec_below_open() == old(self).spec_below_open() + (if old(self).spec_attempts()[chip as int]
                < old(self).spec_config().segment_isospi_min_attempts_to_open_window {
                1int
            } else {
                0int
            }),
            final(self).spec_state() == old(self).spec_state(),
            final(self).spec_failed() == old(self).spec_failed(),
            final(self).spec_attempts() == old(self).spec_attempts(),
            final(self).spec_last_failed() == old(self).spec_last_failed(),
            final(self).spec_last_attempts() == old(self).spec_last_attempts(),
            final(self).spec_seeded() == old(self).spec_seeded(),
            final(self).spec_below_fail() == old(self).spec_below_fail(),
            final(self).spec_config() == old(self).spec_config(),
    {
        if self.attempts[chip] < self.config.segment_isospi_min_attempts_to_open_window {
            self.below_min_attempts_to_open_window_count =
                self.below_min_attempts_to_open_window_count + 1;
            return false;
        }
        failure_pct[chip] >= self.config.segment_isospi_pec_failure_ratio_pct
    }

    /// Whether `chip` meets the failure criteria over the window; a chip with too few reads is
    /// counted in the diagnostics and left undetermined.
    fn is_chip_failed(&mut self, failure_pct: &[u8; N], chip: usize) -> (r: IsChipFailedResult)
        requires
            chip < N,
            old(self).spec_below_fail() < usize::MAX,
        ensures
            r == chip_status(old(self).spec_attempts(), failure_pct@, old(self).spec_config(), chip as int),
            final(self).spec_below_fail() == old(self).spec_below_fail() + (if r
                == IsChipFailedResult::Undetermiend {
                1int
            } else {
                0int
            }),
            final(self).spec_state() == old(self).spec_state(),
            final(self).spec_failed() == old(self).spec_failed(),
            final(self).spec_attempts() == old(self).spec_attempts(),
            final(self).spec_last_failed() == old(self).spec_last_failed(),
            final(self).spec_last_attempts() == old(self).spec_last_attempts(),
            final(self).spec_seeded() == old(self).spec_seeded(),
            final(self).spec_below_open() == old(self).spec_below_open(),
            final(self).spec_config() == old(self).spec_config(),
    {
        if self.attempts[chip] < self.config.segment_isospi_min_attempts_for_fail {
            self.below_min_attempts_for_fail_count = self.below_min_attempts_for_fail_count + 1;
            return IsChipFailedResult::Undetermiend;
        }
        if failure_pct[chip] >= self.config.segment_isospi_pec_failure_ratio_pct {
            IsChipFailedResult::ChipFailed
        } else {
            IsChipFailedResult::ChipOkay
        }
    }
}

/// `new` is what one update step made of `old`, given the failure rates `pct` and the time.
spec fn stepped<const N: usize>(new: Accumulator<N>, old: Accumulator<N>, pct: Seq<u8>, now: Instant) -> bool {
    let t = transition(old.state, old.attempts@, pct, old.config, now);
    &&& new.state == t.0
    &&& new.failed@ == (if t.2 {
        zeros(N as nat)
    } else {
        old.failed@
    })
    &&& new.attempts@ == (if t.2 {
        zeros(N as nat)
    } else {
        old.attempts@
    })
    &&& new.last_failed@ == old.last_failed@
    &&& new.last_attempts@ == old.last_attempts@
    &&& new.seeded == old.seeded
    &&& new.below_min_attempts_to_open_window_count == old.below_min_attempts_to_open_window_count
        + t.3
    &&& new.below_min_attempts_for_fail_count == old.below_min_attempts_for_fail_count + t.4
    &&& new.config == old.config
}

impl<const N: usize> Accumulator<N> {
    /// The time a window opened at `now` closes.
    fn window_end(&self, now: Instant) -> (r: Instant)
        requires
            self.well_formed(),
        ensures
            r == now.later(Duration::millis(self.spec_config().segment_isospi_eval_period_ms)),
    {
        now.saturating_add(Duration::from_millis(self.config.segment_isospi_eval_period_ms))
    }

    /// The update step with no window open.
    fn step_idle(&mut self, failure_pct: &[u8; N], now: Instant)
        requires
            old(self).well_formed(),
            old(self).spec_state() == State::Idle,
            old(self).spec_below_open() + N <= usize::MAX,
        ensures
            final(self).well_formed(),
            stepped(*final(self), *old(self), failure_pct@, now),
    {
        let ghost orig = *self;
        let ghost att = orig.attempts@;
        let ghost cfg = orig.config;
        let ghost p = opens_pred(att, failure_pct@, cfg);
        let ghost below = below_pred(att, cfg.segment_isospi_min_attempts_to_open_window);
        let mut chip: usize = 0;
        let mut found = false;
        while chip < N
            invariant_except_break
                !found,
            invariant
                chip <= N,
                self.state == orig.state,
                self.failed == orig.failed,
                self.attempts == orig.attempts,
                self.last_failed == orig.last_failed,
                self.last_attempts == orig.last_attempts,
                self.seeded == orig.seeded,
                self.config == orig.config,
                self.below_min_attempts_for_fail_count == orig.below_min_attempts_for_fail_count,
                orig.below_min_attempts_to_open_window_count + N <= usize::MAX,
                att == orig.attempts@,
                cfg == orig.config,
                p == opens_pred(att, failure_pct@, cfg),
                below == below_pred(att, cfg.segment_isospi_min_attempts_to_open_window),
                forall|j: int| 0 <= j < chip ==> !#[trigger] p(j),
                self.below_min_attempts_to_open_window_count
                    == orig.below_min_attempts_to_open_window_count + count_where(below, 0, chip as int),
            ensures
                found ==> chip < N && p(chip as int),
                !found ==> chip == N,
                forall|j: int| 0 <= j < chip ==> !#[trigger] p(j),
                self.below_min_attempts_to_open_window_count
                    == orig.below_min_attempts_to_open_window_count + count_where(below, 0, chip as int),
                self.state == orig.state,
                self.failed == orig.failed,
                self.attempts == orig.attempts,
                self.last_failed == orig.last_failed,
                self.last_attempts == orig.last_attempts,
                self.seeded == orig.seeded,
                self.config == orig.config,
                self.below_min_attempts_for_fail_count == orig.below_min_attempts_for_fail_count,
            decreases N - chip,
        {
            proof {
                lemma_count_where_bound(below, 0, chip as int);
            }
            if self.should_we_open_window_for_chip(failure_pct, chip) {
                found = true;
                break;
            }
            chip = chip + 1;
        }
        if found {
            proof {
                lemma_first_where_found(p, 0, N as int, chip as int);
            }
            self.state = State::Accumulating { until: self.window_end(now) };
        } else {
            proof {
                lemma_first_where_none(p, 0, N as int);
            }
            self.reset_chips();
        }
    }

    /// The update step once an accumulation window has closed: is what it caught a break?
    fn step_evaluate(&mut self, failure_pct: &[u8; N], now: Instant) -> (r: UpdateResult)
        requires
            old(self).well_formed(),
            old(self).spec_state() matches State::Accumulating { until } && now@ >= until@,
            old(self).spec_below_fail() + N <= usize::MAX,
        ensures
            final(self).well_formed(),
            r == transition(
                old(self).spec_state(),
                old(self).spec_attempts(),
                failure_pct@,
                old(self).spec_config(),
                now,
            ).1,
            stepped(*final(self), *old(self), failure_pct@, now),
    {
        let ghost orig = *self;
        let ghost att = orig.attempts@;
        let ghost cfg = orig.config;
        let ghost failed_p = status_pred(att, failure_pct@, cfg, IsChipFailedResult::ChipFailed);
        let ghost not_failed_p = status_not_pred(
            att,
            failure_pct@,
            cfg,
            IsChipFailedResult::ChipFailed,
        );
        let ghost below = below_pred(att, cfg.segment_isospi_min_attempts_for_fail);
        let mut idx: usize = 0;
        let mut found = false;
        while idx < N
            invariant_except_break
                !found,
            invariant
                idx <= N,
                self.state == orig.state,
                self.failed == orig.failed,
                self.attempts == orig.attempts,
                self.last_failed == orig.last_failed,
                self.last_attempts == orig.last_attempts,
                self.seeded == orig.seeded,
                self.config == orig.config,
                self.below_min_attempts_to_open_window_count
                    == orig.below_min_attempts_to_open_window_count,
                orig.below_min_attempts_for_fail_count + N <= usize::MAX,
                att == orig.attempts@,
                cfg == orig.config,
                failed_p == status_pred(att, failure_pct@, cfg, IsChipFailedResult::ChipFailed),
                below == below_pred(att, cfg.segment_isospi_min_attempts_for_fail),
                forall|j: int| 0 <= j < idx ==> !#[trigger] failed_p(j),
                self.below_min_attempts_for_fail_count == orig.below_min_attempts_for_fail_count
                    + count_where(below, 0, idx as int),
            ensures
                found ==> idx < N && failed_p(idx as int),
                !found ==> idx == N,
                forall|j: int| 0 <= j < idx ==> !#[trigger] failed_p(j),
                self.below_min_attempts_for_fail_count == orig.below_min_attempts_for_fail_count
                    + count_where(below, 0, idx as int),
                self.state == orig.state,
                self.failed == orig.failed,
                self.attempts == orig.attempts,
                self.last_failed == orig.last_failed,
                self.last_attempts == orig.last_attempts,
                self.seeded == orig.seeded,
                self.config == orig.config,
                self.below_min_attempts_to_open_window_count
                    == orig.below_min_attempts_to_open_window_count,
            decreases N - idx,
        {
            proof {
                lemma_count_where_bound(below, 0, idx as int);
            }
            let status = self.is_chip_failed(failure_pct, idx);
            if matches!(status, IsChipFailedResult::ChipFailed) {
                found = true;
                break;
            }
            idx = idx + 1;
        }
        if !found {
            proof {
                lemma_first_where_none(failed_p, 0, N as int);
            }
            self.reset_chips();
            self.state = State::Idle;
            return UpdateResult::Okay;
        }
        proof {
            lemma_first_where_found(failed_p, 0, N as int, idx as int);
            lemma_count_where_bound(below, 0, idx as int);
        }
        let ghost fail_before = self.below_min_attempts_for_fail_count;
        let mut m: usize = idx + 1;
        let mut all = true;
        while m < N
            invariant_except_break
                all,
                self.below_min_attempts_for_fail_count == fail_before,
            invariant
                idx < m <= N,
                self.state == orig.state,
                self.failed == orig.failed,
                self.attempts == orig.attempts,
                self.last_failed == orig.last_failed,
                self.last_attempts == orig.last_attempts,
                self.seeded == orig.seeded,
                self.config == orig.config,
                self.below_min_attempts_to_open_window_count
                    == orig.below_min_attempts_to_open_window_count,
                fail_before < usize::MAX,
                att == orig.attempts@,
                cfg == orig.config,
                not_failed_p == status_not_pred(
                    att,
                    failure_pct@,
                    cfg,
                    IsChipFailedResult::ChipFailed,
                ),
                forall|j: int| idx + 1 <= j < m ==> !#[trigger] not_failed_p(j),
            ensures
                all ==> m == N,
                !all ==> m < N && not_failed_p(m as int) && self.below_min_attempts_for_fail_count
                    == fail_before + (if chip_status(att, failure_pct@, cfg, m as int)
                    == IsChipFailedResult::Undetermiend {
                    1int
                } else {
                    0int
                }),
                all ==> self.below_min_attempts_for_fail_count == fail_before,
                forall|j: int| idx + 1 <= j < m ==> !#[trigger] not_failed_p(j),
                self.state == orig.state,
                self.failed == orig.failed,
                self.attempts == orig.attempts,
                self.last_failed == orig.last_failed,
                self.last_attempts == orig.last_attempts,
                self.seeded == orig.seeded,
                self.config == orig.config,
                self.below_min_attempts_to_open_window_count
                    == orig.below_min_attempts_to_open_window_count,
            decreases N - m,
        {
            let status = self.is_chip_failed(failure_pct, m);
            if !matches!(status, IsChipFailedResult::ChipFailed) {
                all = false;
                break;
            }
            m = m + 1;
        }
        self.reset_chips();
        if all {
            proof {
                lemma_first_where_none(not_failed_p, idx + 1, N as int);
            }
            self.state = State::Splitting { at: idx, attempts: 0 };
            UpdateResult::BreakDetected { break_chip_index: idx }
        } else {
            proof {
                lemma_first_where_found(not_failed_p, idx + 1, N as int, m as int);
            }
            self.state = State::Idle;
            UpdateResult::Okay
        }
    }

    /// The update step once a verification window has closed: do the chips past the split
    /// answer again?
    fn step_verify(&mut self, failure_pct: &[u8; N], now: Instant)
        requires
            old(self).well_formed(),
            old(self).spec_state() matches State::Verifying { until, total_attempts, .. } && now@
                >= until@ && total_attempts < usize::MAX,
            old(self).spec_below_fail() + N <= usize::MAX,
        ensures
            final(self).well_formed(),
            stepped(*final(self), *old(self), failure_pct@, now),
    {
        let ghost orig = *self;
        let ghost att = orig.attempts@;
        let ghost cfg = orig.config;
        let ghost undet_p = status_pred(att, failure_pct@, cfg, IsChipFailedResult::Undetermiend);
        let ghost failed_p = status_pred(att, failure_pct@, cfg, IsChipFailedResult::ChipFailed);
        let (at, total_attempts, failed_attempts) = match self.state {
            State::Verifying { at, total_attempts, failed_attempts, .. } => (
                at,
                total_attempts,
                failed_attempts,
            ),
            _ => {
                return;
            },
        };
        let mut chip: usize = at;
        let mut undetermined = false;
        let mut num_failed: usize = 0;
        while chip < N
            invariant_except_break
                !undetermined,
                self.below_min_attempts_for_fail_count == orig.below_min_attempts_for_fail_count,
            invariant
                at <= chip <= N,
                at < N,
                num_failed <= chip - at,
                self.state == orig.state,
                self.failed == orig.failed,
                self.attempts == orig.attempts,
                self.last_failed == orig.last_failed,
                self.last_attempts == orig.last_attempts,
                self.seeded == orig.seeded,
                self.config == orig.config,
                self.below_min_attempts_to_open_window_count
                    == orig.below_min_attempts_to_open_window_count,
                orig.below_min_attempts_for_fail_count + N <= usize::MAX,
                att == orig.attempts@,
                cfg == orig.config,
                undet_p == status_pred(att, failure_pct@, cfg, IsChipFailedResult::Undetermiend),
                failed_p == status_pred(att, failure_pct@, cfg, IsChipFailedResult::ChipFailed),
                forall|j: int| at <= j < chip ==> !#[trigger] undet_p(j),
                (num_failed == 0) == (forall|j: int| at <= j < chip ==> !#[trigger] failed_p(j)),
            ensures
                undetermined ==> chip < N && undet_p(chip as int)
                    && self.below_min_attempts_for_fail_count
                    == orig.below_min_attempts_for_fail_count + 1,
                !undetermined ==> chip == N && self.below_min_attempts_for_fail_count
                    == orig.below_min_attempts_for_fail_count,
                forall|j: int| at <= j < chip ==> !#[trigger] undet_p(j),
                !undetermined ==> (num_failed == 0) == (forall|j: int|
                    at <= j < N ==> !#[trigger] failed_p(j)),
                self.state == orig.state,
                self.failed == orig.failed,
                self.attempts == orig.attempts,
                self.last_failed == orig.last_failed,
                self.last_attempts == orig.last_attempts,
                self.seeded == orig.seeded,
                self.config == orig.config,
                self.below_min_attempts_to_open_window_count
                    == orig.below_min_attempts_to_open_window_count,
            decreases N - chip,
        {
            let status = self.is_chip_failed(failure_pct, chip);
            match status {
                IsChipFailedResult::Undetermiend => {
                    undetermined = true;
                    break;
                },
                IsChipFailedResult::ChipFailed => {
                    assert(failed_p(chip as int));
                    num_failed = num_failed + 1;
                },
                IsChipFailedResult::ChipOkay => {
                    assert(!failed_p(chip as int));
                },
            }
            chip = chip + 1;
        }
        let next = self.window_end(now);
        self.reset_chips();
        if undetermined {
            proof {
                lemma_first_where_found(undet_p, at as int, N as int, chip as int);
            }
            self.state = State::Verifying {
                at,
                until: next,
                total_attempts: total_attempts + 1,
                failed_attempts,
            };
            return;
        }
        proof {
            lemma_first_where_none(undet_p, at as int, N as int);
            lemma_first_where_bounds(failed_p, at as int, N as int);
        }
        if num_failed == 0 {
            proof {
                lemma_first_where_none(failed_p, at as int, N as int);
            }
            self.state = State::Recovered { at };
        } else if failed_attempts + 1 >= self.config.segment_isospi_max_failed_verification_attempts {
            self.state = State::Failed { at };
        } else {
            self.state = State::Verifying {
                at,
                until: next,
                total_attempts: total_attempts + 1,
                failed_attempts: failed_attempts + 1,
            };
        }
    }
}

impl<const N: usize> Accumulator<N> {
    /// Reports back, at `now`, whether the split asked for by `UpdateResult::BreakDetected` was
    /// applied.
    ///
    /// Applied: verification of the split starts, from fresh tallies. Not applied: the split is
    /// asked for again on the next update, up to `segment_isospi_max_split_attempts` attempts,
    /// after which recovery gives up. In any state other than `Splitting` this does nothing.
    pub fn was_split_applied_at(&mut self, applied: bool, now: Instant)
        requires
            old(self).well_formed(),
        ensures
            final(self).well_formed(),
            final(self).spec_state() == split_report(
                old(self).spec_state(),
                applied,
                old(self).spec_config(),
                now,
            ),
            final(self).spec_failed() == (if applied && old(self).spec_state() is Splitting {
                zeros(N as nat)
            } else {
                old(self).spec_failed()
            }),
            final(self).spec_attempts() == (if applied && old(self).spec_state() is Splitting {
                zeros(N as nat)
            } else {
                old(self).spec_attempts()
            }),
            final(self).spec_last_failed() == old(self).spec_last_failed(),
            final(self).spec_last_attempts() == old(self).spec_last_attempts(),
            final(self).spec_seeded() == old(self).spec_seeded(),
            final(self).spec_below_open() == old(self).spec_below_open(),
            final(self).spec_below_fail() == old(self).spec_below_fail(),
            final(self).spec_config() == old(self).spec_config(),
    {
        match self.state {
            State::Splitting { at, attempts } => {
                if applied {
                    let until = self.window_end(now);
                    self.reset_chips();
                    self.state = State::Verifying {
                        at,
                        until,
                        total_attempts: 0,
                        failed_attempts: 0,
                    };
                } else if attempts + 1 >= self.config.segment_isospi_max_split_attempts {
                    self.state = State::Failed { at };
                } else {
                    self.state = State::Splitting { at, attempts: attempts + 1 };
                }
            },
            _ => {},
        }
    }

    /// Reports back whether the split asked for by `UpdateResult::BreakDetected` was applied;
    /// see `was_split_applied_at`. The verification window, if one starts, runs from the time of
    /// the call.
    pub fn was_split_applied(&mut self, applied: bool)
        requires
            old(self).well_formed(),
        ensures
            final(self).well_formed(),
            exists|now: Instant|
                final(self).spec_state() == #[trigger] split_report(
                    old(self).spec_state(),
                    applied,
                    old(self).spec_config(),
                    now,
                ),
            final(self).spec_failed() == (if applied && old(self).spec_state() is Splitting {
                zeros(N as nat)
            } else {
                old(self).spec_failed()
            }),
            final(self).spec_attempts() == (if applied && old(self).spec_state() is Splitting {
                zeros(N as nat)
            } else {
                old(self).spec_attempts()
            }),
            final(self).spec_last_failed() == old(self).spec_last_failed(),
            final(self).spec_last_attempts() == old(self).spec_last_attempts(),
            final(self).spec_seeded() == old(self).spec_seeded(),
            final(self).spec_below_open() == old(self).spec_below_open(),
            final(self).spec_below_fail() == old(self).spec_below_fail(),
            final(self).spec_config() == old(self).spec_config(),
    {
        let now = Instant::now();
        self.was_split_applied_at(applied, now);
    }

    /// Updates the PEC error accumulator with the chip states `chips`, at `now`, and says whether
    /// a break should be split.
    ///
    /// Each chip's new PEC outcomes since the previous update are added to the window (the first
    /// update only records where the counts stand), the failure rates are worked out, and the
    /// state moves on as `transition` describes. The diagnostics of the update come back with
    /// the result: the tallies and failure rates as they stood before any of them were cleared.
    pub fn update_at(&mut self, chips: &[ChipState; N], now: Instant) -> (r: (
        UpdateResult,
        AccumulatorDiagnostics<N>,
    ))
        requires
            old(self).well_formed(),
            old(self).accepts_spec(chips@),
        ensures
            final(self).well_formed(),
            final(self).spec_state() == old(self).next_transition(chips@, now).0,
            r.0 == old(self).next_transition(chips@, now).1,
            final(self).spec_failed() == (if old(self).next_transition(chips@, now).2 {
                zeros(N as nat)
            } else {
                old(self).next_failed(chips@)
            }),
            final(self).spec_attempts() == (if old(self).next_transition(chips@, now).2 {
                zeros(N as nat)
            } else {
                old(self).next_attempts(chips@)
            }),
            final(self).spec_last_failed() == failed_counts(chips@),
            final(self).spec_last_attempts() == attempt_counts(chips@),
            final(self).spec_seeded(),
            final(self).spec_below_open() == old(self).spec_below_open() + old(
                self,
            ).next_transition(chips@, now).3,
            final(self).spec_below_fail() == old(self).spec_below_fail() + old(
                self,
            ).next_transition(chips@, now).4,
            final(self).spec_config() == old(self).spec_config(),
            r.1.previous_state() == old(self).spec_state(),
            r.1.state() == final(self).spec_state(),
            r.1.failed()@ == old(self).next_failed(chips@),
            r.1.attempts()@ == old(self).next_attempts(chips@),
            r.1.failure_pct()@ == old(self).next_pct(chips@),
            r.1.failure_pct_threshold() == old(self).spec_config().segment_isospi_pec_failure_ratio_pct,
            r.1.accumulator_window_period() == old(self).spec_config().segment_isospi_eval_period_ms,
            r.1.min_attempts_for_fail() == old(self).spec_config().segment_isospi_min_attempts_for_fail,
            r.1.below_min_attempts_to_open_window_count() == final(self).spec_below_open(),
            r.1.below_min_attempts_for_fail_count() == final(self).spec_below_fail(),
            r.1.min_attempts_to_open_window()
                == old(self).spec_config().segment_isospi_min_attempts_to_open_window,
            r.1.recovery_startup_time()
                == old(self).spec_config().segment_isospi_recovery_startup_time_ms,
    {
        let ghost start = *self;
        self.update_chips(chips);
        let ghost tallied = *self;
        let mut failure_pct: [u8; N] = [0; N];
        let mut chip: usize = 0;
        while chip < N
            invariant
                chip <= N,
                *self == tallied,
                tallied.well_formed(),
                failure_pct@.len() == N,
                forall|i: int|
                    0 <= i < chip ==> #[trigger] failure_pct@[i] == pct_of(
                        tallied.failed@[i],
                        tallied.attempts@[i],
                    ),
            decreases N - chip,
        {
            failure_pct[chip] = self.failure_pct(chip);
            chip = chip + 1;
        }
        assert(failure_pct@ =~= start.next_pct(chips@));
        let failed = self.failed;
        let attempts = self.attempts;
        let old_state = self.state;
        let result = match self.state {
            State::Idle => {
                self.step_idle(&failure_pct, now);
                UpdateResult::Okay
            },
            State::Accumulating { until } => {
                if now.reached(until) {
                    self.step_evaluate(&failure_pct, now)
                } else {
                    UpdateResult::Okay
                }
            },
            State::Splitting { at, .. } => {
                self.reset_chips();
                UpdateResult::BreakDetected { break_chip_index: at }
            },
            State::Verifying { until, .. } => {
                if now.reached(until) {
                    self.step_verify(&failure_pct, now);
                }
                UpdateResult::Okay
            },
            State::Recovered { .. } => {
                self.reset_chips();
                UpdateResult::Okay
            },
            State::Failed { .. } => {
                self.reset_chips();
                UpdateResult::Okay
            },
        };
        assert(stepped(*self, tallied, failure_pct@, now));
        let diagnostics = AccumulatorDiagnostics::new(
            old_state,
            self.state,
            failed,
            attempts,
            failure_pct,
            self.config.segment_isospi_pec_failure_ratio_pct,
            self.config.segment_isospi_eval_period_ms,
            self.config.segment_isospi_min_attempts_for_fail,
            self.below_min_attempts_to_open_window_count,
            self.below_min_attempts_for_fail_count,
            self.config.segment_isospi_min_attempts_to_open_window,
            self.config.segment_isospi_recovery_startup_time_ms,
        );
        (result, diagnostics)
    }

    /// Updates the PEC error accumulator with the chip states `chips`; see `update_at`. The time
    /// of the update is read from the clock.
    pub fn update(&mut self, chips: &[ChipState; N]) -> (r: (UpdateResult, AccumulatorDiagnostics<N>))
        requires
            old(self).well_formed(),
            old(self).accepts_spec(chips@),
        ensures
            final(self).well_formed(),
            exists|now: Instant|
                {
                    &&& final(self).spec_state() == (#[trigger] old(self).next_transition(
                        chips@,
                        now,
                    )).0
                    &&& r.0 == old(self).next_transition(chips@, now).1
                    &&& final(self).spec_below_open() == old(self).spec_below_open() + old(
                        self,
                    ).next_transition(chips@, now).3
                    &&& final(self).spec_below_fail() == old(self).spec_below_fail() + old(
                        self,
                    ).next_transition(chips@, now).4
                    &&& final(self).spec_failed() == (if old(self).next_transition(
                        chips@,
                        now,
                    ).2 {
                        zeros(N as nat)
                    } else {
                        old(self).next_failed(chips@)
                    })
                    &&& final(self).spec_attempts() == (if old(self).next_transition(
                        chips@,
                        now,
                    ).2 {
                        zeros(N as nat)
                    } else {
                        old(self).next_attempts(chips@)
                    })
                },
            final(self).spec_last_failed() == failed_counts(chips@),
            final(self).spec_last_attempts() == attempt_counts(chips@),
            final(self).spec_seeded(),
            final(self).spec_config() == old(self).spec_config(),
            r.1.previous_state() == old(self).spec_state(),
            r.1.state() == final(self).spec_state(),
            r.1.failed()@ == old(self).next_failed(chips@),
            r.1.attempts()@ == old(self).next_attempts(chips@),
            r.1.failure_pct()@ == old(self).next_pct(chips@),
            r.1.failure_pct_threshold() == old(self).spec_config().segment_isospi_pec_failure_ratio_pct,
            r.1.accumulator_window_period() == old(self).spec_config().segment_isospi_eval_period_ms,
            r.1.min_attempts_for_fail() == old(self).spec_config().segment_isospi_min_attempts_for_fail,
            r.1.below_min_attempts_to_open_window_count() == final(self).spec_below_open(),
            r.1.below_min_attempts_for_fail_count() == final(self).spec_below_fail(),
            r.1.min_attempts_to_open_window()
                == old(self).spec_config().segment_isospi_min_attempts_to_open_window,
            r.1.recovery_startup_time()
                == old(self).spec_config().segment_isospi_recovery_startup_time_ms,
    {
        let now = Instant::now();
        self.update_at(chips, now)
    }
}

/// Once recovery is over, whether it succeeded or gave up, nothing moves the accumulator out of
/// that state: no update and no report of a split. Every update then reports `Okay` and starts
/// the tallies over.
pub proof fn lemma_recovery_over_is_final(
    state: State,
    att: Seq<usize>,
    pct: Seq<u8>,
    cfg: ServiceConfig,
    now: Instant,
    applied: bool,
)
    requires
        state is Recovered || state is Failed,
    ensures
        transition(state, att, pct, cfg, now).0 == state,
        transition(state, att, pct, cfg, now).1 == UpdateResult::Okay,
        transition(state, att, pct, cfg, now).2,
        split_report(state, applied, cfg, now) == state,
{
}

/// The failure rates an update reports are well defined: for every chip, no more failures than
/// reads are tallied, and its rate is `failed * 100 / attempts` (0 with no reads), at most 100.
pub proof fn lemma_failure_rates<const N: usize>(acc: Accumulator<N>, chips: Seq<ChipState>)
    requires
        acc.well_formed(),
        acc.accepts_spec(chips),
    ensures
        acc.next_failed(chips).len() == N,
        acc.next_attempts(chips).len() == N,
        acc.next_pct(chips).len() == N,
        forall|i: int|
            0 <= i < N ==> {
                &&& #[trigger] acc.next_failed(chips)[i] <= acc.next_attempts(chips)[i]
                &&& acc.next_pct(chips)[i] == (if acc.next_attempts(chips)[i] == 0 {
                    0
                } else {
                    acc.next_failed(chips)[i] * 100 / (acc.next_attempts(chips)[i] as int)
                })
                &&& acc.next_pct(chips)[i] <= 100
            },
{
    assert forall|i: int| 0 <= i < N implies {
        &&& #[trigger] acc.next_failed(chips)[i] <= acc.next_attempts(chips)[i]
        &&& acc.next_pct(chips)[i] == (if acc.next_attempts(chips)[i] == 0 {
            0
        } else {
            acc.next_failed(chips)[i] * 100 / (acc.next_attempts(chips)[i] as int)
        })
        &&& acc.next_pct(chips)[i] <= 100
    } by {
        assert(chip_fits(
            acc.spec_seeded(),
            acc.spec_failed()[i],
            acc.spec_attempts()[i],
            acc.spec_last_failed()[i],
            acc.spec_last_attempts()[i],
            chips[i],
        ));
        let f = acc.next_failed(chips)[i];
        let a = acc.next_attempts(chips)[i];
        assert(f <= a);
        if a != 0 {
            assert(0 <= f * 100 / (a as int) <= 100) by (nonlinear_arith)
                requires
                    0 <= f <= a,
                    a > 0,
            ;
        }
    }
}

/// How a verification window ends, once its time is up. If some chip from the split on took
/// part in too few reads to be judged, another window runs with the same count of failed
/// windows. Otherwise, if none of them failed, recovery is done; if some failed, the window
/// counts as failed: recovery gives up once `max_failed_verification_attempts` windows have
/// failed, and until then another window runs with one more failed window counted.
pub proof fn lemma_verification_outcome(
    at: usize,
    until: Instant,
    total_attempts: usize,
    failed_attempts: usize,
    att: Seq<usize>,
    pct: Seq<u8>,
    cfg: ServiceConfig,
    now: Instant,
)
    requires
        at <= att.len(),
        pct.len() == att.len(),
        now@ >= until@,
    ensures
        ({
            let state = State::Verifying { at, until, total_attempts, failed_attempts };
            let next = now.later(Duration::millis(cfg.segment_isospi_eval_period_ms));
            let out = transition(state, att, pct, cfg, now);
            &&& out.1 == UpdateResult::Okay
            &&& (exists|j: int|
                at <= j < att.len() && #[trigger] chip_status(att, pct, cfg, j)
                    == IsChipFailedResult::Undetermiend) ==> out.0 == (State::Verifying {
                at,
                until: next,
                total_attempts: (total_attempts + 1) as usize,
                failed_attempts,
            })
            &&& (forall|j: int|
                at <= j < att.len() ==> #[trigger] chip_status(att, pct, cfg, j)
                    == IsChipFailedResult::ChipOkay) ==> out.0 == (State::Recovered { at })
            &&& ((forall|j: int|
                at <= j < att.len() ==> #[trigger] chip_status(att, pct, cfg, j)
                    != IsChipFailedResult::Undetermiend) && (exists|j: int|
                at <= j < att.len() && #[trigger] chip_status(att, pct, cfg, j)
                    == IsChipFailedResult::ChipFailed)) ==> out.0 == (if failed_attempts + 1
                >= cfg.segment_isospi_max_failed_verification_attempts {
                State::Failed { at }
            } else {
                State::Verifying {
                    at,
                    until: next,
                    total_attempts: (total_attempts + 1) as usize,
                    failed_attempts: (failed_attempts + 1) as usize,
                }
            })
        }),
{
    let n = att.len() as int;
    let pu = status_pred(att, pct, cfg, IsChipFailedResult::Undetermiend);
    let pf = status_pred(att, pct, cfg, IsChipFailedResult::ChipFailed);
    lemma_first_where_bounds(pu, at as int, n);
    lemma_first_where_bounds(pf, at as int, n);
    let u = first_where(pu, at as int, n);
    let f = first_where(pf, at as int, n);
    if exists|j: int| at <= j < n && #[trigger] chip_status(att, pct, cfg, j)
        == IsChipFailedResult::Undetermiend {
        let j = choose|j: int| at <= j < n && #[trigger] chip_status(att, pct, cfg, j)
            == IsChipFailedResult::Undetermiend;
        assert(pu(j));
        assert(u < n);
    }
    if forall|j: int| at <= j < n ==> #[trigger] chip_status(att, pct, cfg, j)
        == IsChipFailedResult::ChipOkay {
        lemma_first_where_none(pu, at as int, n);
        lemma_first_where_none(pf, at as int, n);
    }
    if (forall|j: int| at <= j < n ==> #[trigger] chip_status(att, pct, cfg, j)
        != IsChipFailedResult::Undetermiend) && (exists|j: int| at <= j < n
        && #[trigger] chip_status(att, pct, cfg, j) == IsChipFailedResult::ChipFailed) {
        lemma_first_where_none(pu, at as int, n);
        let j = choose|j: int| at <= j < n && #[trigger] chip_status(att, pct, cfg, j)
            == IsChipFailedResult::ChipFailed;
        assert(pf(j));
        assert(f < n);
    }
}

/// An update asks for a split exactly when it leaves the accumulator splitting, and it asks for
/// the split at the chip the accumulator is splitting at.
pub proof fn lemma_break_detected_iff_splitting(
    state: State,
    att: Seq<usize>,
    pct: Seq<u8>,
    cfg: ServiceConfig,
    now: Instant,
)
    ensures
        (transition(state, att, pct, cfg, now).1 is BreakDetected) <==> (transition(
            state,
            att,
            pct,
            cfg,
            now,
        ).0 is Splitting),
        transition(state, att, pct, cfg, now).0 is Splitting ==> transition(
            state,
            att,
            pct,
            cfg,
            now,
        ).1 == (UpdateResult::BreakDetected {
            break_chip_index: transition(state, att, pct, cfg, now).0->Splitting_at,
        }),
        transition(state, att, pct, cfg, now).0 is Splitting ==> state is Splitting || state is Accumulating,
{
    let t = transition(state, att, pct, cfg, now);
    match state {
        State::Idle => {},
        State::Accumulating { until } => {},
        State::Splitting { at, attempts } => {},
        State::Verifying { at, until, total_attempts, failed_attempts } => {},
        State::Recovered { at } => {},
        State::Failed { at } => {},
    }
}

/// A break is reported at chip `idx` only when, at the end of a window, `idx` is the first chip
/// meeting the failure criteria and every chip from `idx` to the end of the chain meets them too.
pub proof fn lemma_break_means_tail_failed(
    until: Instant,
    att: Seq<usize>,
    pct: Seq<u8>,
    cfg: ServiceConfig,
    now: Instant,
    idx: usize,
)
    requires
        att.len() <= usize::MAX,
        transition(State::Accumulating { until }, att, pct, cfg, now).1
            == (UpdateResult::BreakDetected { break_chip_index: idx }),
    ensures
        now@ >= until@,
        idx < att.len(),
        forall|j: int|
            0 <= j < idx ==> chip_status(att, pct, cfg, j) != IsChipFailedResult::ChipFailed,
        forall|j: int|
            idx <= j < att.len() ==> chip_status(att, pct, cfg, j)
                == IsChipFailedResult::ChipFailed,
{
    let n = att.len() as int;
    let fp = status_pred(att, pct, cfg, IsChipFailedResult::ChipFailed);
    let nfp = status_not_pred(att, pct, cfg, IsChipFailedResult::ChipFailed);
    lemma_first_where_bounds(fp, 0, n);
    let i = first_where(fp, 0, n);
    assert(i == idx);
    lemma_first_where_bounds(nfp, i + 1, n);
    assert forall|j: int| 0 <= j < idx implies chip_status(att, pct, cfg, j)
        != IsChipFailedResult::ChipFailed by {
        assert(!fp(j));
    }
    assert forall|j: int| idx <= j < n implies chip_status(att, pct, cfg, j)
        == IsChipFailedResult::ChipFailed by {
        if j > idx {
            assert(!nfp(j));
        } else {
            assert(fp(j));
        }
    }
}

/// Recovery is declared done only when, at the end of a verification window, every chip from
/// the split on took part in enough reads to be judged and none of them meets the failure
/// criteria.
pub proof fn lemma_recovered_means_chips_okay(
    at: usize,
    until: Instant,
    total_attempts: usize,
    failed_attempts: usize,
    att: Seq<usize>,
    pct: Seq<u8>,
    cfg: ServiceConfig,
    now: Instant,
)
    requires
        at <= att.len(),
        transition(
            State::Verifying { at, until, total_attempts, failed_attempts },
            att,
            pct,
            cfg,
            now,
        ).0 is Recovered,
    ensures
        now@ >= until@,
        forall|j: int|
            at <= j < att.len() ==> chip_status(att, pct, cfg, j) == IsChipFailedResult::ChipOkay,
{
    let n = att.len() as int;
    let up = status_pred(att, pct, cfg, IsChipFailedResult::Undetermiend);
    let fp = status_pred(att, pct, cfg, IsChipFailedResult::ChipFailed);
    lemma_first_where_bounds(up, at as int, n);
    lemma_first_where_bounds(fp, at as int, n);
    assert forall|j: int| at <= j < n implies chip_status(att, pct, cfg, j)
        == IsChipFailedResult::ChipOkay by {
        assert(!up(j));
        assert(!fp(j));
    }
}

/// A window opens at an idle update exactly when some chip took part in enough reads and failed
/// enough of them, and it then runs for one evaluation period from the update; an idle update
/// that opens no window stays idle and starts the tallies over. An idle update never asks for a
/// split.
pub proof fn lemma_window_opens_on_failing_chip(
    att: Seq<usize>,
    pct: Seq<u8>,
    cfg: ServiceConfig,
    now: Instant,
)
    ensures
        transition(State::Idle, att, pct, cfg, now).0 is Accumulating <==> exists|j: int|
            0 <= j < att.len() && #[trigger] opens_window(att, pct, cfg, j),
        transition(State::Idle, att, pct, cfg, now).0 is Accumulating ==> transition(
            State::Idle,
            att,
            pct,
            cfg,
            now,
        ).0 == (State::Accumulating {
            until: now.later(Duration::millis(cfg.segment_isospi_eval_period_ms)),
        }),
        transition(State::Idle, att, pct, cfg, now).1 == UpdateResult::Okay,
        transition(State::Idle, att, pct, cfg, now).0 is Accumulating || transition(
            State::Idle,
            att,
            pct,
            cfg,
            now,
        ).0 is Idle,
        transition(State::Idle, att, pct, cfg, now).0 is Idle ==> transition(
            State::Idle,
            att,
            pct,
            cfg,
            now,
        ).2,
{
    let n = att.len() as int;
    let p = opens_pred(att, pct, cfg);
    lemma_first_where_bounds(p, 0, n);
    let k = first_where(p, 0, n);
    if exists|j: int| 0 <= j < n && #[trigger] opens_window(att, pct, cfg, j) {
        let j = choose|j: int| 0 <= j < n && #[trigger] opens_window(att, pct, cfg, j);
        assert(p(j));
    }
    if k < n {
        assert(opens_window(att, pct, cfg, k));
    }
}

/// A failed split is retried until the configured number of attempts is used up: a report that
/// the split was not applied either leaves one more attempt below the limit, or gives up.
pub proof fn lemma_split_retries_bounded(
    at: usize,
    attempts: usize,
    cfg: ServiceConfig,
    now: Instant,
)
    requires
        attempts + 1 <= usize::MAX,
    ensures
        split_report(State::Splitting { at, attempts }, false, cfg, now) == (if attempts + 1
            >= cfg.segment_isospi_max_split_attempts {
            State::Failed { at }
        } else {
            State::Splitting { at, attempts: (attempts + 1) as usize }
        }),
        split_report(State::Splitting { at, attempts }, false, cfg, now) matches State::Splitting {
            attempts: a,
            ..
        } ==> a < cfg.segment_isospi_max_split_attempts,
{
}

/// Whether the chips meeting the failure criteria are exactly those from `k` to the end of the
/// chain, and there is at least one.
pub open spec fn failures_start_at(att: Seq<usize>, pct: Seq<u8>, cfg: ServiceConfig, k: int) -> bool {
    &&& 0 <= k < att.len()
    &&& forall|j: int|
        0 <= j < att.len() ==> (#[trigger] chip_status(att, pct, cfg, j)
            == IsChipFailedResult::ChipFailed <==> k <= j)
}

/// How an accumulation window ends, once its time is up: a break is reported, at chip `idx`,
/// exactly when the chips that meet the failure criteria are those from `idx` to the end of the
/// chain (and there is at least one); the accumulator then splits there, with no attempt made
/// yet. Otherwise it goes back to idle and reports nothing.
pub proof fn lemma_window_end_outcome(
    until: Instant,
    att: Seq<usize>,
    pct: Seq<u8>,
    cfg: ServiceConfig,
    now: Instant,
    idx: usize,
)
    requires
        now@ >= until@,
    ensures
        failures_start_at(att, pct, cfg, idx as int) ==> transition(
            State::Accumulating { until },
            att,
            pct,
            cfg,
            now,
        ).0 == (State::Splitting { at: idx, attempts: 0 }) && transition(
            State::Accumulating { until },
            att,
            pct,
            cfg,
            now,
        ).1 == (UpdateResult::BreakDetected { break_chip_index: idx }),
        (!exists|k: int| #[trigger] failures_start_at(att, pct, cfg, k)) ==> transition(
            State::Accumulating { until },
            att,
            pct,
            cfg,
            now,
        ).0 == State::Idle && transition(State::Accumulating { until }, att, pct, cfg, now).1
            == UpdateResult::Okay,
{
    let n = att.len() as int;
    let fp = status_pred(att, pct, cfg, IsChipFailedResult::ChipFailed);
    let nfp = status_not_pred(att, pct, cfg, IsChipFailedResult::ChipFailed);
    lemma_first_where_bounds(fp, 0, n);
    let i = first_where(fp, 0, n);
    if i < n {
        lemma_first_where_bounds(nfp, i + 1, n);
    }
    if failures_start_at(att, pct, cfg, idx as int) {
        assert(chip_status(att, pct, cfg, idx as int) == IsChipFailedResult::ChipFailed);
        assert(fp(idx as int));
        assert forall|j: int| 0 <= j < idx implies !#[trigger] fp(j) by {
            assert(chip_status(att, pct, cfg, j) != IsChipFailedResult::ChipFailed);
        }
        lemma_first_where_found(fp, 0, n, idx as int);
        assert forall|j: int| idx + 1 <= j < n implies !#[trigger] nfp(j) by {
            assert(chip_status(att, pct, cfg, j) == IsChipFailedResult::ChipFailed);
        }
        lemma_first_where_none(nfp, idx + 1, n);
    }
    if !exists|k: int| #[trigger] failures_start_at(att, pct, cfg, k) {
        if i < n && first_where(nfp, i + 1, n) == n {
            assert forall|j: int| 0 <= j < n implies (#[trigger] chip_status(att, pct, cfg, j)
                == IsChipFailedResult::ChipFailed <==> i <= j) by {
                if j < i {
                    assert(!fp(j));
                } else if j == i {
                    assert(fp(j));
                } else {
                    assert(!nfp(j));
                }
            }
            assert(failures_start_at(att, pct, cfg, i));
        }
    }
}

/// Before its time is up, a window (accumulating or verifying) goes on: the state stays, nothing
/// is reported and the tallies are kept.
pub proof fn lemma_window_waits(state: State, att: Seq<usize>, pct: Seq<u8>, cfg: ServiceConfig, now: Instant)
    requires
        (state matches State::Accumulating { until } && now@ < until@) || (
        state matches State::Verifying { until, .. } && now@ < until@),
    ensures
        transition(state, att, pct, cfg, now).0 == state,
        transition(state, att, pct, cfg, now).1 == UpdateResult::Okay,
        !transition(state, att, pct, cfg, now).2,
{
}

/// While splitting, every update asks for the split at the same chip again and stays splitting.
pub proof fn lemma_splitting_repeats(
    at: usize,
    attempts: usize,
    att: Seq<usize>,
    pct: Seq<u8>,
    cfg: ServiceConfig,
    now: Instant,
)
    ensures
        transition(State::Splitting { at, attempts }, att, pct, cfg, now).0 == (State::Splitting {
            at,
            attempts,
        }),
        transition(State::Splitting { at, attempts }, att, pct, cfg, now).1
            == (UpdateResult::BreakDetected { break_chip_index: at }),
{
}

/// A split reported applied starts verification at the same chip: one window of the evaluation
/// period from the report, with no window counted yet.
pub proof fn lemma_split_applied_starts_verification(at: usize, attempts: usize, cfg: ServiceConfig, now: Instant)
    ensures
        split_report(State::Splitting { at, attempts }, true, cfg, now) == (State::Verifying {
            at,
            until: now.later(Duration::millis(cfg.segment_isospi_eval_period_ms)),
            total_attempts: 0,
            failed_attempts: 0,
        }),
{
}

} // verus!
