//! The decisions of the Service that runs the two-line configuration.
//!
//! The Service loop itself (locking, waiting, the user's callbacks) runs around this module; what
//! it decides each cycle, from the values it collected, is here.

use vstd::prelude::*;

use crate::bits::get_bits;
use crate::adbms6830b::chip::registers::status::StatusC;
use crate::adbms6830b::chip::registers::status::types::c::SleepModeDetection;
use crate::adbms6830b::line::PecStatus;
use super::api::Responses;
use super::accumulator::UpdateResult;

pub mod service_config;

verus! {

/// Where the startup routine stands; the Service calls it every cycle until it is `Complete`.
#[derive(Clone, Copy, Debug, PartialEq, Eq, Structural)]
pub enum StartupResult {
    /// Startup is not complete yet. This is the state at boot.
    Incomplete,
    /// Startup finished with no errors.
    Complete,
}

impl StartupResult {
    /// Whether or not this is `StartupResult::Incomplete`.
    pub fn is_incomplete(&self) -> (r: bool)
        ensures
            r == (*self == StartupResult::Incomplete),
    {
        match self {
            StartupResult::Incomplete => true,
            StartupResult::Complete => false,
        }
    }
}

/// Why the Service has called the startup routine.
#[derive(Clone, Copy, Debug, PartialEq, Eq, Structural)]
pub enum StartupReason {
    /// The chips are waking up from sleep: at boot, or because a sleep was detected at runtime
    /// (on any chip at all). The routine must clear the SLEEP bit, or the sleep is reported again.
    FromSleep,
    /// An isoSPI break was detected, so every chip is being re-initialized.
    IsospiBreak,
}

impl StartupReason {
    /// Whether this is `StartupReason::IsospiBreak`.
    pub fn is_isospi_break(&self) -> (r: bool)
        ensures
            r == (*self == StartupReason::IsospiBreak),
    {
        match self {
            StartupReason::IsospiBreak => true,
            StartupReason::FromSleep => false,
        }
    }

    /// Whether this is `StartupReason::FromSleep`.
    pub fn is_from_sleep(&self) -> (r: bool)
        ensures
            r == (*self == StartupReason::FromSleep),
    {
        match self {
            StartupReason::FromSleep => true,
            StartupReason::IsospiBreak => false,
        }
    }
}

/// The startup bookkeeping of the Service: where the startup routine stands, why it was last
/// called, and how often.
#[derive(Clone, Copy, Debug, PartialEq, Eq, Structural)]
pub struct Startups {
    result: StartupResult,
    reason: StartupReason,
    count: usize,
    overtaken: usize,
}

impl Startups {
    /// What the startup routine last returned, as a value in specifications.
    pub closed spec fn spec_result(&self) -> StartupResult {
        self.result
    }

    /// Why the startup routine was last called, as a value in specifications.
    pub closed spec fn spec_reason(&self) -> StartupReason {
        self.reason
    }

    /// How many startups were begun, as a value in specifications.
    pub closed spec fn spec_count(&self) -> usize {
        self.count
    }

    /// How many startups were overtaken by one for another reason, as a value in specifications.
    pub closed spec fn spec_overtaken(&self) -> usize {
        self.overtaken
    }

    /// The state at boot, as a value in specifications.
    pub closed spec fn initial() -> Startups {
        Startups { result: StartupResult::Incomplete, reason: StartupReason::FromSleep, count: 0, overtaken: 0 }
    }

    /// This bookkeeping once a startup for `reason` has begun, as a value in specifications.
    pub closed spec fn begun(self, reason: StartupReason) -> Startups {
        Startups {
            reason,
            count: (self.count + 1) as usize,
            overtaken: if self.result == StartupResult::Incomplete && reason != self.reason {
                (self.overtaken + 1) as usize
            } else {
                self.overtaken
            },
            ..self
        }
    }

    /// This bookkeeping once the startup routine has returned `result`, as a value in
    /// specifications.
    pub closed spec fn finished(self, result: StartupResult) -> Startups {
        Startups { result, ..self }
    }

    /// The reason the startup routine must run with this cycle, if it must run, as a value in
    /// specifications.
    pub open spec fn spec_due(self) -> Option<StartupReason> {
        if self.result() == StartupResult::Incomplete {
            Some(self.reason())
        } else {
            None
        }
    }

    /// What beginning a startup changes: the reason, the count, and the overtaken count when an
    /// incomplete startup for another reason is overtaken.
    pub proof fn lemma_begun(self, reason: StartupReason)
        requires
            self.count() < usize::MAX,
            self.overtaken() < usize::MAX,
        ensures
            self.begun(reason).result() == self.result(),
            self.begun(reason).reason() == reason,
            self.begun(reason).count() == self.count() + 1,
            self.begun(reason).overtaken() == self.overtaken() + (if self.result()
                == StartupResult::Incomplete && reason != self.reason() {
                1int
            } else {
                0int
            }),
    {
    }

    /// What finishing a startup changes: the result, and nothing else.
    pub proof fn lemma_finished(self, result: StartupResult)
        ensures
            self.finished(result).result() == result,
            self.finished(result).reason() == self.reason(),
            self.finished(result).count() == self.count(),
            self.finished(result).overtaken() == self.overtaken(),
    {
    }

    /// The state at boot: startup is incomplete and due to waking from sleep.
    pub fn new() -> (r: Startups)
        ensures
            r == Startups::initial(),
            r.result() == StartupResult::Incomplete,
            r.reason() == StartupReason::FromSleep,
            r.count() == 0,
            r.overtaken() == 0,
    {
        Startups {
            result: StartupResult::Incomplete,
            reason: StartupReason::FromSleep,
            count: 0,
            overtaken: 0,
        }
    }

    /// What the startup routine last returned.
    #[verifier::when_used_as_spec(spec_result)]
    pub fn result(&self) -> (r: StartupResult)
        ensures
            r == self.result(),
    {
        self.result
    }

    /// Why the startup routine was last called.
    #[verifier::when_used_as_spec(spec_reason)]
    pub fn reason(&self) -> (r: StartupReason)
        ensures
            r == self.reason(),
    {
        self.reason
    }

    /// How many startups were begun.
    #[verifier::when_used_as_spec(spec_count)]
    pub fn count(&self) -> (r: usize)
        ensures
            r == self.count(),
    {
        self.count
    }

    /// How many times a startup for another reason was begun before the current one completed.
    #[verifier::when_used_as_spec(spec_overtaken)]
    pub fn overtaken(&self) -> (r: usize)
        ensures
            r == self.overtaken(),
    {
        self.overtaken
    }

    /// Begins a startup for `reason`: it is counted, and counted as overtaking the current one if
    /// that one is incomplete and had another reason. Gives the reason to call the routine with.
    pub fn begin(&mut self, reason: StartupReason) -> (r: StartupReason)
        requires
            old(self).count() < usize::MAX,
            old(self).overtaken() < usize::MAX,
        ensures
            r == reason,
            *final(self) == old(self).begun(reason),
            final(self).reason() == reason,
            final(self).count() == old(self).count() + 1,
            final(self).overtaken() == old(self).overtaken() + (if old(self).result()
                == StartupResult::Incomplete && reason != old(self).reason() {
                1int
            } else {
                0int
            }),
            final(self).result() == old(self).result(),
    {
        self.count = self.count + 1;
        if self.result.is_incomplete() && reason != self.reason {
            self.overtaken = self.overtaken + 1;
        }
        self.reason = reason;
        reason
    }

    /// Whether the startup routine must run this cycle, and for which reason: it runs every cycle,
    /// with the reason of the startup under way, until it has returned `StartupResult::Complete`.
    pub fn due(&self) -> (r: Option<StartupReason>)
        ensures
            r == self.spec_due(),
            self.result() == StartupResult::Incomplete ==> r == Some(self.reason()),
            self.result() == StartupResult::Complete ==> r is None,
    {
        if self.result.is_incomplete() {
            Some(self.reason)
        } else {
            None
        }
    }

    /// Records what the startup routine returned.
    pub fn finish(&mut self, result: StartupResult)
        ensures
            *final(self) == old(self).finished(result),
            final(self).result() == result,
            final(self).reason() == old(self).reason(),
            final(self).count() == old(self).count(),
            final(self).overtaken() == old(self).overtaken(),
    {
        self.result = result;
    }
}

/// What the sleep check of a Service cycle found.
#[derive(Clone, Copy, Debug, PartialEq, Eq, Structural)]
pub enum SleepCheck {
    /// Some chip answered with a good PEC and reports a sleep.
    Detected,
    /// No sleep was seen.
    NotDetected,
    /// The SPI transactions of the check failed.
    Failed,
}

/// The state the Service carries from one cycle to the next, apart from the accumulator and the
/// timing: the startup bookkeeping and the error and cycle counters it reports.
///
/// A cycle goes: run the startup routine if one is `due` (`start`, then `finish`); check for a
/// sleep (`after_sleep_check`, and run the routine if it asks to); update the accumulator and,
/// where `after_update` gives a chip, apply the split there and report it (`after_split`, then
/// run the routine); and `end_cycle`.
#[derive(Clone, Copy, Debug, PartialEq, Eq, Structural)]
pub struct ServiceCycle {
    startups: Startups,
    sleep_detection_spi_error_count: usize,
    break_detection_spi_error_count: usize,
    cycles_count: usize,
}

impl ServiceCycle {
    /// The startup bookkeeping, as a value in specifications.
    pub closed spec fn spec_startups(&self) -> Startups {
        self.startups
    }

    /// The failed sleep checks, as a value in specifications.
    pub closed spec fn spec_sleep_detection_spi_error_count(&self) -> usize {
        self.sleep_detection_spi_error_count
    }

    /// The splits that could not be applied, as a value in specifications.
    pub closed spec fn spec_break_detection_spi_error_count(&self) -> usize {
        self.break_detection_spi_error_count
    }

    /// The finished cycles, as a value in specifications.
    pub closed spec fn spec_cycles_count(&self) -> usize {
        self.cycles_count
    }

    /// The state before the first cycle, as a value in specifications.
    pub closed spec fn initial() -> ServiceCycle {
        ServiceCycle {
            startups: Startups::initial(),
            sleep_detection_spi_error_count: 0,
            break_detection_spi_error_count: 0,
            cycles_count: 0,
        }
    }

    /// This state once a startup for `reason` has begun, as a value in specifications.
    pub closed spec fn started(self, reason: StartupReason) -> ServiceCycle {
        ServiceCycle { startups: self.startups.begun(reason), ..self }
    }

    /// This state once the startup routine has returned `result`, as a value in specifications.
    pub closed spec fn finished(self, result: StartupResult) -> ServiceCycle {
        ServiceCycle { startups: self.startups.finished(result), ..self }
    }

    /// This state after a sleep check that found `check`, as a value in specifications.
    pub closed spec fn checked(self, check: SleepCheck) -> ServiceCycle {
        match check {
            SleepCheck::Detected => self.started(StartupReason::FromSleep),
            SleepCheck::NotDetected => self,
            SleepCheck::Failed => ServiceCycle {
                sleep_detection_spi_error_count: (self.sleep_detection_spi_error_count + 1) as usize,
                ..self
            },
        }
    }

    /// This state after a split was reported `applied` or not, as a value in specifications.
    pub closed spec fn split_reported(self, applied: bool) -> ServiceCycle {
        ServiceCycle {
            break_detection_spi_error_count: if applied {
                self.break_detection_spi_error_count
            } else {
                (self.break_detection_spi_error_count + 1) as usize
            },
            ..self
        }.started(StartupReason::IsospiBreak)
    }

    /// This state at the end of a cycle, as a value in specifications.
    pub closed spec fn ended(self) -> ServiceCycle {
        ServiceCycle { cycles_count: (self.cycles_count + 1) as usize, ..self }
    }

    /// The state before the first cycle: no startup has run, so one from sleep is due, and every
    /// counter is zero.
    pub fn new() -> (r: ServiceCycle)
        ensures
            r == ServiceCycle::initial(),
            r.startups() == Startups::initial(),
            r.startups().result() == StartupResult::Incomplete,
            r.startups().reason() == StartupReason::FromSleep,
            r.startups().count() == 0,
            r.startups().overtaken() == 0,
            r.sleep_detection_spi_error_count() == 0,
            r.break_detection_spi_error_count() == 0,
            r.cycles_count() == 0,
    {
        ServiceCycle {
            startups: Startups::new(),
            sleep_detection_spi_error_count: 0,
            break_detection_spi_error_count: 0,
            cycles_count: 0,
        }
    }

    /// The startup bookkeeping.
    #[verifier::when_used_as_spec(spec_startups)]
    pub fn startups(&self) -> (r: Startups)
        ensures
            r == self.startups(),
    {
        self.startups
    }

    /// How many sleep checks failed on SPI.
    #[verifier::when_used_as_spec(spec_sleep_detection_spi_error_count)]
    pub fn sleep_detection_spi_error_count(&self) -> (r: usize)
        ensures
            r == self.sleep_detection_spi_error_count(),
    {
        self.sleep_detection_spi_error_count
    }

    /// How many splits could not be applied because of SPI errors.
    #[verifier::when_used_as_spec(spec_break_detection_spi_error_count)]
    pub fn break_detection_spi_error_count(&self) -> (r: usize)
        ensures
            r == self.break_detection_spi_error_count(),
    {
        self.break_detection_spi_error_count
    }

    /// How many cycles have finished.
    #[verifier::when_used_as_spec(spec_cycles_count)]
    pub fn cycles_count(&self) -> (r: usize)
        ensures
            r == self.cycles_count(),
    {
        self.cycles_count
    }

    /// Whether the startup routine must run at the start of this cycle, and with which reason:
    /// `Some(reason)` exactly while the startup under way is incomplete.
    pub fn due(&self) -> (r: Option<StartupReason>)
        ensures
            r == self.startups().spec_due(),
            self.startups().result() == StartupResult::Incomplete ==> r == Some(self.startups().reason()),
            self.startups().result() == StartupResult::Complete ==> r is None,
    {
        self.startups.due()
    }

    /// Begins a startup for `reason`; gives the reason to call the routine with.
    pub fn start(&mut self, reason: StartupReason) -> (r: StartupReason)
        requires
            old(self).startups().count() < usize::MAX,
            old(self).startups().overtaken() < usize::MAX,
        ensures
            r == reason,
            *final(self) == old(self).started(reason),
            final(self).startups() == old(self).startups().begun(reason),
            final(self).startups().reason() == reason,
            final(self).startups().count() == old(self).startups().count() + 1,
            final(self).startups().result() == old(self).startups().result(),
            final(self).sleep_detection_spi_error_count() == old(self).sleep_detection_spi_error_count(),
            final(self).break_detection_spi_error_count() == old(self).break_detection_spi_error_count(),
            final(self).cycles_count() == old(self).cycles_count(),
    {
        self.startups.begin(reason)
    }

    /// Records what the startup routine returned.
    pub fn finish(&mut self, result: StartupResult)
        ensures
            *final(self) == old(self).finished(result),
            final(self).startups() == old(self).startups().finished(result),
            final(self).startups().result() == result,
            final(self).startups().reason() == old(self).startups().reason(),
            final(self).startups().count() == old(self).startups().count(),
            final(self).startups().overtaken() == old(self).startups().overtaken(),
            final(self).sleep_detection_spi_error_count() == old(self).sleep_detection_spi_error_count(),
            final(self).break_detection_spi_error_count() == old(self).break_detection_spi_error_count(),
            final(self).cycles_count() == old(self).cycles_count(),
    {
        self.startups.finish(result);
    }

    /// Takes in what the sleep check found. A detected sleep begins a startup from sleep and
    /// gives its reason, for the routine to be called with; a failed check is counted; otherwise
    /// nothing changes.
    pub fn after_sleep_check(&mut self, check: SleepCheck) -> (r: Option<StartupReason>)
        requires
            check == SleepCheck::Detected ==> old(self).startups().count() < usize::MAX
                && old(self).startups().overtaken() < usize::MAX,
            check == SleepCheck::Failed ==> old(self).sleep_detection_spi_error_count() < usize::MAX,
        ensures
            *final(self) == old(self).checked(check),
            check == SleepCheck::Detected ==> r == Some(StartupReason::FromSleep)
                && final(self).startups() == old(self).startups().begun(StartupReason::FromSleep)
                && final(self).startups().reason() == StartupReason::FromSleep
                && final(self).sleep_detection_spi_error_count() == old(self).sleep_detection_spi_error_count(),
            check == SleepCheck::Failed ==> r is None && final(self).startups() == old(self).startups()
                && final(self).sleep_detection_spi_error_count() == old(self).sleep_detection_spi_error_count() + 1,
            check == SleepCheck::NotDetected ==> r is None && *final(self) == *old(self),
            final(self).startups().count() == old(self).startups().count() + (if check == SleepCheck::Detected { 1int } else { 0int }),
            final(self).break_detection_spi_error_count() == old(self).break_detection_spi_error_count(),
            final(self).cycles_count() == old(self).cycles_count(),
    {
        match check {
            SleepCheck::Detected => Some(self.start(StartupReason::FromSleep)),
            SleepCheck::NotDetected => None,
            SleepCheck::Failed => {
                self.sleep_detection_spi_error_count = self.sleep_detection_spi_error_count + 1;
                None
            },
        }
    }

    /// The chip at which a split must be applied after an accumulator update, if any.
    pub fn after_update(&self, update: UpdateResult) -> (r: Option<usize>)
        ensures
            update matches UpdateResult::BreakDetected { break_chip_index } ==> r == Some(break_chip_index),
            update is Okay ==> r is None,
    {
        match update {
            UpdateResult::BreakDetected { break_chip_index } => Some(break_chip_index),
            UpdateResult::Okay => None,
        }
    }

    /// Takes in whether the split asked for was applied. A split that was not applied is counted
    /// as a break-detection error; either way every chip is re-initialized, so a startup for the
    /// isoSPI break begins and its reason is given.
    pub fn after_split(&mut self, applied: bool) -> (r: StartupReason)
        requires
            !applied ==> old(self).break_detection_spi_error_count() < usize::MAX,
            old(self).startups().count() < usize::MAX,
            old(self).startups().overtaken() < usize::MAX,
        ensures
            r == StartupReason::IsospiBreak,
            *final(self) == old(self).split_reported(applied),
            final(self).break_detection_spi_error_count() == old(self).break_detection_spi_error_count()
                + (if applied { 0int } else { 1int }),
            final(self).startups() == old(self).startups().begun(StartupReason::IsospiBreak),
            final(self).startups().count() == old(self).startups().count() + 1,
            final(self).startups().reason() == StartupReason::IsospiBreak,
            final(self).sleep_detection_spi_error_count() == old(self).sleep_detection_spi_error_count(),
            final(self).cycles_count() == old(self).cycles_count(),
    {
        if !applied {
            self.break_detection_spi_error_count = self.break_detection_spi_error_count + 1;
        }
        self.start(StartupReason::IsospiBreak)
    }

    /// Counts the cycle as finished.
    pub fn end_cycle(&mut self)
        requires
            old(self).cycles_count() < usize::MAX,
        ensures
            *final(self) == old(self).ended(),
            final(self).cycles_count() == old(self).cycles_count() + 1,
            final(self).startups() == old(self).startups(),
            final(self).sleep_detection_spi_error_count() == old(self).sleep_detection_spi_error_count(),
            final(self).break_detection_spi_error_count() == old(self).break_detection_spi_error_count(),
    {
        self.cycles_count = self.cycles_count + 1;
    }
}

/// One Service cycle in which the sleep check sees no sleep and the accumulator reports no
/// break, where the startup routine returns `Incomplete` on its first `k` calls and `Complete`
/// on every later one.
pub open spec fn quiet_cycle(c: ServiceCycle, k: nat) -> ServiceCycle {
    let after_startup = match c.startups().spec_due() {
        Some(reason) => {
            let begun = c.started(reason);
            begun.finished(
                if begun.startups().count() <= k {
                    StartupResult::Incomplete
                } else {
                    StartupResult::Complete
                },
            )
        },
        None => c,
    };
    after_startup.checked(SleepCheck::NotDetected).ended()
}

/// The state after `n` such cycles from boot.
pub open spec fn quiet_cycles(n: nat, k: nat) -> ServiceCycle
    decreases n,
{
    if n == 0 {
        ServiceCycle::initial()
    } else {
        quiet_cycle(quiet_cycles((n - 1) as nat, k), k)
    }
}

/// The startup routine runs at boot and on every cycle until it returns `Complete`: where it
/// returns `Incomplete` on its first `k` calls, and no sleep or break intervenes, it is called,
/// for a startup from sleep, in each of the cycles 1 to `k + 1` and in none after; the `j`-th
/// cycle ends with `j` cycles counted and the startup `Incomplete` exactly when `j <= k`.
pub proof fn lemma_startup_until_complete(j: nat, k: nat)
    requires
        j < usize::MAX,
    ensures
        quiet_cycles(j, k).startups().spec_due() == (if j <= k {
            Some(StartupReason::FromSleep)
        } else {
            None
        }),
        quiet_cycles(j, k).cycles_count() == j,
        quiet_cycles(j, k).startups().count() == (if j <= k + 1 { j } else { k + 1 }),
        quiet_cycles(j, k).startups().reason() == StartupReason::FromSleep,
        quiet_cycles(j, k).startups().overtaken() == 0,
        j >= 1 ==> quiet_cycles(j, k).startups().result() == (if j <= k {
            StartupResult::Incomplete
        } else {
            StartupResult::Complete
        }),
        quiet_cycles(j, k).sleep_detection_spi_error_count() == 0,
        quiet_cycles(j, k).break_detection_spi_error_count() == 0,
    decreases j,
{
    if j > 0 {
        lemma_startup_until_complete((j - 1) as nat, k);
    }
}

/// Whether a Status C register group reports that its chip power cycled or went to sleep.
pub open spec fn reports_sleep(status: StatusC) -> bool {
    SleepModeDetection::spec_from_bits(get_bits(status@, 43, 0x1) as u8)
        == SleepModeDetection::SleepModeDetected
}

/// Whether a read of Status C shows that no chip slept: every chip answered with a good PEC and
/// none reports a sleep. Anything else calls for waking the chain and reading again.
pub fn sleep_ruled_out<E, const N: usize>(statuses: &Responses<StatusC, E, N>) -> (r: bool)
    ensures
        r == forall|i: int|
            0 <= i < N ==> (#[trigger] statuses.spec_chips()[i] matches Some(c) && c@.2
                == PecStatus::Success && !reports_sleep(c@.0)),
{
    proof {
        statuses.lemma_len();
    }
    let mut i: usize = 0;
    while i < N
        invariant
            i <= N,
            statuses.spec_chips().len() == N,
            forall|j: int|
                0 <= j < i ==> (#[trigger] statuses.spec_chips()[j] matches Some(c) && c@.2
                    == PecStatus::Success && !reports_sleep(c@.0)),
        decreases N - i,
    {
        match statuses.chip(i) {
            Some(c) => {
                if !c.pec().is_success() {
                    return false;
                }
                let data = c.data();
                if matches!(data.sleep(), SleepModeDetection::SleepModeDetected) {
                    return false;
                }
            },
            None => {
                return false;
            },
        }
        i = i + 1;
    }
    true
}

/// Whether a read of Status C shows a sleep: some chip answered with a good PEC and reports one.
pub fn sleep_seen<E, const N: usize>(statuses: &Responses<StatusC, E, N>) -> (r: bool)
    ensures
        r == exists|i: int|
            0 <= i < N && (#[trigger] statuses.spec_chips()[i] matches Some(c) && c@.2
                == PecStatus::Success && reports_sleep(c@.0)),
{
    proof {
        statuses.lemma_len();
    }
    let mut i: usize = 0;
    while i < N
        invariant
            i <= N,
            statuses.spec_chips().len() == N,
            forall|j: int|
                0 <= j < i ==> !(#[trigger] statuses.spec_chips()[j] matches Some(c) && c@.2
                    == PecStatus::Success && reports_sleep(c@.0)),
        decreases N - i,
    {
        match statuses.chip(i) {
            Some(c) => {
                if c.pec().is_success() {
                    let data = c.data();
                    if matches!(data.sleep(), SleepModeDetection::SleepModeDetected) {
                        assert(statuses.spec_chips()[i as int] matches Some(c) && c@.2
                            == PecStatus::Success && reports_sleep(c@.0));
                        return true;
                    }
                }
            },
            None => {},
        }
        i = i + 1;
    }
    false
}

} // verus!
