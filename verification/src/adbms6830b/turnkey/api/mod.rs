//! Manages `N` ADBMS6830B chips reachable from two isoSPI lines.
//!
//! "Logical order" is the order of the chips as seen from Line A: chip `0` is the nearest to Line
//! A's end of the chain and chip `N - 1` the nearest to Line B's end.
//!
//! This module keeps the bookkeeping of the two lines: which chip is reached from which line, the
//! command counter each chip should hold, PEC statistics per chip, and the cached Config A that
//! carries the split. The bus transactions themselves are made by the caller, which reports their
//! outcomes back here.

use vstd::prelude::*;

pub mod writeables;

use crate::bits::set_bits;
use crate::adbms6830b::chip::commands::{CommandFrame, RSTCC_CODE, SRST_CODE};
use crate::adbms6830b::chip::registers::config_a::ConfigA;
use crate::adbms6830b::chip::registers::config_a::types::CommunicationBreak;
use crate::adbms6830b::chip::commands::adc::AdcvRedundancy;
use crate::adbms6830b::line::{
    ChipResponse, Error, Line, PecStatus, Responses as LineResponses, C_ADC_MS, S_ADC_MS,
};
use crate::adbms6830b::time::{Duration, Instant, MAX_MILLIS};

verus! {

/// The error kinds of `embedded-hal`'s SPI errors, kept as the driver's record of the last failure.
#[verifier::external_type_specification]
#[verifier::external_body]
pub struct ExSpiErrorKind(embedded_hal::spi::ErrorKind);

/// Highest value `CCNT[5:0]` reaches before rolling over.
const CCNT_MAX: u8 = 63;

/// Which isoSPI line a chip is reached from.
#[derive(Copy, Clone, Debug, PartialEq, Eq, Structural)]
pub enum LineId {
    /// Reaches chips from logical index `0` upwards.
    A,
    /// Reaches chips from logical index `N - 1` downwards.
    B,
}

/// Command count data of one chip.
#[derive(Copy, Clone, Debug, PartialEq, Eq, Structural)]
pub struct CommandCount {
    /// Expected command count.
    expected: u8,
    /// Reported command count (reported via reads).
    reported: u8,
}

impl CommandCount {
    /// The expected count, as a value in specifications.
    pub closed spec fn spec_expected(&self) -> u8 {
        self.expected
    }

    /// The reported count, as a value in specifications.
    pub closed spec fn spec_reported(&self) -> u8 {
        self.reported
    }

    /// The counts of a chip nobody has sent anything to.
    pub fn new() -> (r: CommandCount)
        ensures
            r.expected() == 0,
            r.reported() == 0,
    {
        CommandCount { expected: 0, reported: 0 }
    }

    /// What this chip's counter "should" be. This is tracked from the commands sent to it.
    #[verifier::when_used_as_spec(spec_expected)]
    pub fn expected(&self) -> (r: u8)
        ensures
            r == self.expected(),
    {
        self.expected
    }

    /// What this chip reported on the last read of it that passed its PEC.
    #[verifier::when_used_as_spec(spec_reported)]
    pub fn reported(&self) -> (r: u8)
        ensures
            r == self.reported(),
    {
        self.reported
    }

    /// Whether the reported counter matches the expected one.
    ///
    /// This can be expected to be false in some cases, like after isoSPI recovers from a break.
    pub fn in_sync(&self) -> (r: bool)
        ensures
            r == (self.expected() == self.reported()),
    {
        self.expected == self.reported
    }
}

/// Command counter state for one chip.
#[derive(Copy, Clone, Debug, PartialEq, Eq, Structural)]
pub struct ChipState {
    /// Command Count metadata.
    command_count: CommandCount,
    /// Number of times the command count for this chip has been reset due to a sleep.
    command_count_resets: usize,
    /// Last time we heard from this chip with a good PEC. `None` means never.
    last_contacted: Option<Instant>,
    /// Number of times this chip has read in a successful PEC.
    pec_success_count: usize,
    /// Number of times this chip has read in a failed PEC.
    pec_failed_count: usize,
}

impl ChipState {
    /// The command counts, as a value in specifications.
    pub closed spec fn spec_command_count(&self) -> CommandCount {
        self.command_count
    }

    /// The number of counter resets, as a value in specifications.
    pub closed spec fn spec_command_count_resets(&self) -> usize {
        self.command_count_resets
    }

    /// The last good contact, as a value in specifications.
    pub closed spec fn spec_last_contacted(&self) -> Option<Instant> {
        self.last_contacted
    }

    /// The number of good PECs, as a value in specifications.
    pub closed spec fn spec_pec_success_count(&self) -> usize {
        self.pec_success_count
    }

    /// The number of failed PECs, as a value in specifications.
    pub closed spec fn spec_pec_failed_count(&self) -> usize {
        self.pec_failed_count
    }

    /// The state of a chip nothing has been sent to nor heard from.
    pub fn new() -> (r: ChipState)
        ensures
            r == ChipState::new_spec(),
            r.command_count().expected() == 0,
            r.command_count().reported() == 0,
            r.command_count_resets() == 0,
            r.last_contacted() is None,
            r.pec_success_count() == 0,
            r.pec_failed_count() == 0,
    {
        ChipState {
            command_count: CommandCount::new(),
            command_count_resets: 0,
            last_contacted: None,
            pec_success_count: 0,
            pec_failed_count: 0,
        }
    }

    /// Command Count metadata.
    #[verifier::when_used_as_spec(spec_command_count)]
    pub fn command_count(&self) -> (r: CommandCount)
        ensures
            r == self.command_count(),
    {
        self.command_count
    }

    /// Resets an already-initialized command counter. This is meant to be called after a sleep
    /// state is detected.
    ///
    /// `count` is what both `expected` and `reported` start from again; it should be read directly
    /// from the chip, so that counting starts over from a state both sides agree on.
    pub fn reset_command_count(&mut self, count: u8)
        requires
            old(self).command_count_resets() < usize::MAX,
        ensures
            final(self).command_count().expected() == count,
            final(self).command_count().reported() == count,
            final(self).command_count_resets() == old(self).command_count_resets() + 1,
            final(self).last_contacted() == old(self).last_contacted(),
            final(self).pec_success_count() == old(self).pec_success_count(),
            final(self).pec_failed_count() == old(self).pec_failed_count(),
    {
        self.command_count = CommandCount { expected: count, reported: count };
        self.command_count_resets = self.command_count_resets + 1;
    }

    /// Last time we heard from this chip with a good PEC. `None` means we haven't heard from it yet.
    #[verifier::when_used_as_spec(spec_last_contacted)]
    pub fn last_contacted(&self) -> (r: Option<Instant>)
        ensures
            r == self.last_contacted(),
    {
        self.last_contacted
    }

    /// The number of times the command counter of this chip has been reset due to a sleep; so
    /// also the number of times a sleep has been detected for it.
    #[verifier::when_used_as_spec(spec_command_count_resets)]
    pub fn command_count_resets(&self) -> (r: usize)
        ensures
            r == self.command_count_resets(),
    {
        self.command_count_resets
    }

    /// Number of times this chip has read in a successful PEC.
    #[verifier::when_used_as_spec(spec_pec_success_count)]
    pub fn pec_success_count(&self) -> (r: usize)
        ensures
            r == self.pec_success_count(),
    {
        self.pec_success_count
    }

    /// Number of times this chip has read in a failed PEC.
    #[verifier::when_used_as_spec(spec_pec_failed_count)]
    pub fn pec_failed_count(&self) -> (r: usize)
        ensures
            r == self.pec_failed_count(),
    {
        self.pec_failed_count
    }

    /// This state with the expected command count replaced.
    pub closed spec fn with_expected(self, expected: u8) -> ChipState {
        ChipState { command_count: CommandCount { expected, ..self.command_count }, ..self }
    }

    /// This state after a read of the chip that passed its PEC and reported `counter`, at `now`.
    pub closed spec fn heard(self, counter: u8, now: Instant) -> ChipState {
        ChipState {
            command_count: CommandCount { reported: counter, ..self.command_count },
            last_contacted: Some(now),
            pec_success_count: (self.pec_success_count + 1) as usize,
            ..self
        }
    }

    /// This state after a read of the chip whose PEC failed.
    pub closed spec fn misheard(self) -> ChipState {
        ChipState { pec_failed_count: (self.pec_failed_count + 1) as usize, ..self }
    }

    /// What `with_expected` changes: the expected command count, and nothing else.
    pub proof fn lemma_with_expected(self, expected: u8)
        ensures
            self.with_expected(expected).command_count().expected() == expected,
            self.with_expected(expected).command_count().reported() == self.command_count().reported(),
            self.with_expected(expected).command_count_resets() == self.command_count_resets(),
            self.with_expected(expected).last_contacted() == self.last_contacted(),
            self.with_expected(expected).pec_success_count() == self.pec_success_count(),
            self.with_expected(expected).pec_failed_count() == self.pec_failed_count(),
    {
    }

    /// What `heard` and `misheard` change.
    pub proof fn lemma_read_effects(self, counter: u8, now: Instant)
        ensures
            self.heard(counter, now).command_count().expected() == self.command_count().expected(),
            self.heard(counter, now).command_count().reported() == counter,
            self.heard(counter, now).last_contacted() == Some(now),
            self.heard(counter, now).command_count_resets() == self.command_count_resets(),
            self.pec_success_count() < usize::MAX ==> self.heard(counter, now).pec_success_count()
                == self.pec_success_count() + 1,
            self.heard(counter, now).pec_failed_count() == self.pec_failed_count(),
            self.misheard().command_count() == self.command_count(),
            self.misheard().last_contacted() == self.last_contacted(),
            self.misheard().command_count_resets() == self.command_count_resets(),
            self.misheard().pec_success_count() == self.pec_success_count(),
            self.pec_failed_count() < usize::MAX ==> self.misheard().pec_failed_count()
                == self.pec_failed_count() + 1,
    {
    }
}

/// The expected counter after a frame that increments it or resets it: a reset goes to 0, and
/// otherwise the counter goes up by one, rolling over from 63 to 1 since 0 is reserved for resets.
pub open spec fn next_expected(expected: u8, resets: bool) -> u8 {
    if resets {
        0
    } else if expected >= 63 {
        1
    } else {
        (expected + 1) as u8
    }
}

/// Whether the command with code `code` resets the command counters.
pub open spec fn frame_resets(code: u16) -> bool {
    code == RSTCC_CODE || code == SRST_CODE
}

/// A chip's state after a frame `(increments, code)` was sent to it.
pub open spec fn counter_step(c: ChipState, frame: (bool, u16)) -> ChipState {
    if frame.0 || frame_resets(frame.1) {
        c.with_expected(next_expected(c.command_count().expected(), frame_resets(frame.1)))
    } else {
        c
    }
}

/// Per-chip results of a read on both lines.
#[derive(Copy, Clone, Debug, PartialEq, Eq)]
pub struct Responses<G, E, const N: usize> {
    chips: [Option<ChipResponse<G>>; N],
    errors: [Option<Error<E>>; 2],
}

impl<G, E, const N: usize> Responses<G, E, N> {
    /// Every chip's response in logical order.
    pub closed spec fn spec_chips(self) -> Seq<Option<ChipResponse<G>>> {
        self.chips@
    }

    /// The error that failed the transaction on `line`, if it failed.
    pub closed spec fn spec_error(self, line: LineId) -> Option<Error<E>> {
        match line {
            LineId::A => self.errors@[0],
            LineId::B => self.errors@[1],
        }
    }

    /// There is one response slot per chip.
    pub proof fn lemma_len(self)
        ensures
            self.spec_chips().len() == N,
    {
    }
}

impl<G: Copy, E, const N: usize> Responses<G, E, N> {
    /// The response from one chip.
    ///
    /// If the chip's line transaction failed, this is `None` (that line carried no data); the
    /// culprit is given by `line_error()`.
    pub fn chip(&self, chip: usize) -> (r: Option<ChipResponse<G>>)
        requires
            chip < N,
        ensures
            r == self.spec_chips()[chip as int],
    {
        self.chips[chip]
    }

    /// Every chip's response in logical order.
    pub fn iter(&self) -> (r: Vec<Option<ChipResponse<G>>>)
        ensures
            r@ == self.spec_chips(),
    {
        let mut out: Vec<Option<ChipResponse<G>>> = Vec::new();
        let mut i: usize = 0;
        while i < N
            invariant
                i <= N,
                self.chips@.len() == N,
                out@ == self.chips@.take(i as int),
            decreases N - i,
        {
            out.push(self.chips[i]);
            assert(self.chips@.take(i + 1) =~= self.chips@.take(i as int).push(self.chips@[i as int]));
            i = i + 1;
        }
        assert(self.chips@.take(N as int) =~= self.chips@);
        out
    }

    /// The error that failed a line's transaction, or `None` if the line's transaction succeeded.
    pub fn line_error(&self, line: LineId) -> (r: Option<&Error<E>>)
        ensures
            r is Some <==> self.spec_error(line) is Some,
            r is Some ==> *r->0 == self.spec_error(line)->0,
    {
        let slot: &Option<Error<E>> = match line {
            LineId::A => &self.errors[0],
            LineId::B => &self.errors[1],
        };
        match slot {
            Some(e) => Some(e),
            None => None,
        }
    }

    /// Whether every chip answered and passed its PEC check.
    pub fn all_ok(&self) -> (r: bool)
        ensures
            r == forall|i: int|
                0 <= i < N ==> (#[trigger] self.spec_chips()[i] matches Some(c) && c@.2
                    == PecStatus::Success),
    {
        let mut i: usize = 0;
        while i < N
            invariant
                i <= N,
                self.chips@.len() == N,
                forall|j: int|
                    0 <= j < i ==> (#[trigger] self.chips@[j] matches Some(c) && c@.2
                        == PecStatus::Success),
            decreases N - i,
        {
            match self.chips[i] {
                Some(c) => {
                    if !c.pec().is_success() {
                        return false;
                    }
                },
                None => {
                    return false;
                },
            }
            i = i + 1;
        }
        true
    }
}

/// How many chips are on Line A: chips `0..self.0` are reached from Line A and the rest from
/// Line B.
///
/// `OnLineA(N)` puts every chip on Line A and `OnLineA(0)` every chip on Line B. With `N = 10`,
/// `OnLineA(4)` puts chips 0 to 3 on Line A and chips 4 to 9 on Line B.
#[derive(Copy, Clone, Debug, Eq, PartialEq, Structural)]
pub struct OnLineA(pub usize);

impl From<usize> for OnLineA {
    fn from(num: usize) -> (r: OnLineA) {
        OnLineA(num)
    }
}

impl vstd::std_specs::convert::FromSpecImpl<usize> for OnLineA {
    open spec fn obeys_from_spec() -> bool {
        true
    }

    open spec fn from_spec(num: usize) -> OnLineA {
        OnLineA(num)
    }
}

impl From<OnLineA> for usize {
    fn from(num: OnLineA) -> (r: usize) {
        num.0
    }
}

impl vstd::std_specs::convert::FromSpecImpl<OnLineA> for usize {
    open spec fn obeys_from_spec() -> bool {
        true
    }

    open spec fn from_spec(num: OnLineA) -> usize {
        num.0
    }
}

/// The line chip `chip` is reached from when `split` chips are on Line A.
pub open spec fn line_of_chip(split: usize, chip: int) -> LineId {
    if chip < split {
        LineId::A
    } else {
        LineId::B
    }
}

/// The position of chip `chip` on its line: Line A counts up from chip 0, Line B counts down
/// from chip `n - 1`.
pub open spec fn index_on_line(split: usize, n: usize, chip: int) -> int {
    if chip < split {
        chip
    } else {
        n - 1 - chip
    }
}

/// The number of chips on `line` when `split` of the `n` chips are on Line A.
pub open spec fn chips_on_line(split: usize, n: usize, line: LineId) -> int {
    match line {
        LineId::A => split as int,
        LineId::B => n - split,
    }
}

/// Whether chip `i` gets `COMM_BK` set: it sits on either side of a boundary strictly inside
/// the chain.
pub open spec fn comm_bk_at(split: usize, n: usize, i: int) -> bool {
    0 < split < n && (i == split || i == split - 1)
}

/// Config A with its `COMM_BK` bit set as the split asks for chip `i`.
pub open spec fn config_with_split(config: ConfigA, split: usize, n: usize, i: int) -> u64 {
    set_bits(config@, 43, 0x1, if comm_bk_at(split, n, i) {
        1
    } else {
        0
    })
}

/// Two isoSPI lines reaching `N` chips, plus the state tracked for those chips.
pub struct Api<SPI, const N: usize> {
    line_a: Line<SPI, N>,
    line_b: Line<SPI, N>,
    on_line_a: OnLineA,
    /// State metadata for each chip.
    chips: [ChipState; N],
    /// Cached Config A, for the isoSPI recovery.
    config_a: [ConfigA; N],
    /// Count of SPI errors on Line A.
    line_a_error_count: usize,
    /// Count of SPI errors on Line B.
    line_b_error_count: usize,
    /// Most recent error on Line A, if any.
    most_recent_line_a_error: Option<Error<embedded_hal::spi::ErrorKind>>,
    /// Most recent error on Line B, if any.
    most_recent_line_b_error: Option<Error<embedded_hal::spi::ErrorKind>>,
}

impl<SPI, const N: usize> Api<SPI, N> {
    /// How many chips are routed to Line A.
    pub closed spec fn spec_split(self) -> usize {
        self.on_line_a.0
    }

    /// The state tracked for each chip, in logical order.
    pub closed spec fn spec_chips(self) -> Seq<ChipState> {
        self.chips@
    }

    /// The cached Config A of each chip, in logical order.
    pub closed spec fn spec_config_a(self) -> Seq<ConfigA> {
        self.config_a@
    }

    /// The number of SPI errors seen on `line`.
    pub closed spec fn spec_error_count(self, line: LineId) -> usize {
        match line {
            LineId::A => self.line_a_error_count,
            LineId::B => self.line_b_error_count,
        }
    }

    /// The most recent SPI error on `line`.
    pub closed spec fn spec_recent_error(self, line: LineId) -> Option<
        Error<embedded_hal::spi::ErrorKind>,
    > {
        match line {
            LineId::A => self.most_recent_line_a_error,
            LineId::B => self.most_recent_line_b_error,
        }
    }

    /// The line driver for `line`.
    pub closed spec fn spec_line(self, line: LineId) -> Line<SPI, N> {
        match line {
            LineId::A => self.line_a,
            LineId::B => self.line_b,
        }
    }

    /// The split never routes more chips to Line A than there are.
    pub closed spec fn well_formed(self) -> bool {
        self.on_line_a.0 <= N
    }

    /// A well-formed `Api` routes at most `N` chips to Line A.
    pub proof fn lemma_well_formed(self)
        requires
            self.well_formed(),
        ensures
            self.spec_split() <= N,
    {
    }

    /// Every per-chip table has one entry per chip.
    pub proof fn lemma_tables(self)
        ensures
            self.spec_chips().len() == N,
            self.spec_config_a().len() == N,
    {
    }

    /// The error records and the lines are those of `other`.
    pub open spec fn same_records(self, other: Self) -> bool {
        &&& self.spec_error_count(LineId::A) == other.spec_error_count(LineId::A)
        &&& self.spec_error_count(LineId::B) == other.spec_error_count(LineId::B)
        &&& self.spec_recent_error(LineId::A) == other.spec_recent_error(LineId::A)
        &&& self.spec_recent_error(LineId::B) == other.spec_recent_error(LineId::B)
        &&& self.spec_line(LineId::A) == other.spec_line(LineId::A)
        &&& self.spec_line(LineId::B) == other.spec_line(LineId::B)
    }

    /// Builds an `Api`. Every chip starts routed to Line A.
    pub fn new(line_a: Line<SPI, N>, line_b: Line<SPI, N>) -> (r: Api<SPI, N>)
        ensures
            r.well_formed(),
            r.spec_split() == N,
            forall|i: int|
                0 <= i < N ==> (#[trigger] r.spec_chips()[i]) == ChipState::new_spec(),
            forall|i: int| 0 <= i < N ==> (#[trigger] r.spec_config_a()[i])@ == 0x3ff000001u64,
            r.spec_error_count(LineId::A) == 0,
            r.spec_error_count(LineId::B) == 0,
            r.spec_recent_error(LineId::A) is None,
            r.spec_recent_error(LineId::B) is None,
            r.spec_line(LineId::A) == line_a,
            r.spec_line(LineId::B) == line_b,
    {
        let chip = ChipState::new();
        let config = ConfigA::new();
        Api {
            line_a,
            line_b,
            on_line_a: OnLineA(N),
            chips: [chip; N],
            config_a: [config; N],
            line_a_error_count: 0,
            line_b_error_count: 0,
            most_recent_line_a_error: None,
            most_recent_line_b_error: None,
        }
    }

    /// Releases both lines' SPI devices.
    pub fn release(self) -> (r: (SPI, SPI))
        ensures
            r.0 == self.spec_line(LineId::A).spi(),
            r.1 == self.spec_line(LineId::B).spi(),
    {
        (self.line_a.release(), self.line_b.release())
    }

    /// Per-chip metadata.
    pub fn chips(&self) -> (r: &[ChipState; N])
        ensures
            r@ == self.spec_chips(),
    {
        &self.chips
    }

    /// How many chips are currently routed to Line A.
    pub fn split(&self) -> (r: OnLineA)
        ensures
            r.0 == self.spec_split(),
    {
        self.on_line_a
    }

    /// Routes chips `0..on_line_a` to Line A and `on_line_a..N` to Line B.
    ///
    /// This only changes the tracked state: the caller sets `COMM_BK` on the chips. When splitting
    /// a healthy chain, set `COMM_BK` first; when recovering from a real break, call this first.
    ///
    /// Returns `Err(Error::TooManyDevices)`, and changes nothing, if `on_line_a` is over `N`.
    pub fn set_split<E>(&mut self, on_line_a: OnLineA) -> (r: Result<(), Error<E>>)
        requires
            old(self).well_formed(),
        ensures
            final(self).well_formed(),
            on_line_a.0 > N ==> r is Err && r->Err_0 == Error::<E>::TooManyDevices && *final(self)
                == *old(self),
            on_line_a.0 <= N ==> r is Ok && final(self).spec_split() == on_line_a.0,
            final(self).spec_chips() == old(self).spec_chips(),
            final(self).spec_config_a() == old(self).spec_config_a(),
            final(self).same_records(*old(self)),
    {
        if on_line_a.0 > N {
            return Err(Error::TooManyDevices);
        }
        self.on_line_a = on_line_a;
        Ok(())
    }

    /// Which line a chip is currently reached from.
    pub fn line_of(&self, chip: usize) -> (r: LineId)
        ensures
            r == line_of_chip(self.spec_split(), chip as int),
    {
        if chip < self.on_line_a.0 {
            LineId::A
        } else {
            LineId::B
        }
    }

    /// A chip's index from the point of view of its line.
    pub fn index_of(&self, chip: usize) -> (r: usize)
        requires
            chip < N,
        ensures
            r == index_on_line(self.spec_split(), N, chip as int),
    {
        if chip < self.on_line_a.0 {
            chip
        } else {
            N - 1 - chip
        }
    }

    /// How many chips are on a line.
    pub fn count(&self, line: LineId) -> (r: usize)
        requires
            self.well_formed(),
        ensures
            r == chips_on_line(self.spec_split(), N, line),
    {
        match line {
            LineId::A => self.on_line_a.0,
            LineId::B => N - self.on_line_a.0,
        }
    }

    /// The line driver for `line`, to run a transaction on.
    pub fn line_mut(&mut self, line: LineId) -> (r: &mut Line<SPI, N>)
        ensures
            *r == old(self).spec_line(line),
            final(self).spec_line(line) == *final(r),
            final(self).spec_line(other_line(line)) == old(self).spec_line(other_line(line)),
            final(self).spec_split() == old(self).spec_split(),
            final(self).spec_chips() == old(self).spec_chips(),
            final(self).spec_config_a() == old(self).spec_config_a(),
            final(self).spec_error_count(LineId::A) == old(self).spec_error_count(LineId::A),
            final(self).spec_error_count(LineId::B) == old(self).spec_error_count(LineId::B),
            final(self).spec_recent_error(LineId::A) == old(self).spec_recent_error(LineId::A),
            final(self).spec_recent_error(LineId::B) == old(self).spec_recent_error(LineId::B),
    {
        match line {
            LineId::A => &mut self.line_a,
            LineId::B => &mut self.line_b,
        }
    }

    /// Applies a dispatched frame to the tracked counters of every chip on `line`.
    ///
    /// A frame that resets the counters sets them to 0; one that increments them moves them on by
    /// one, rolling over from 63 to 1; any other frame leaves them alone.
    pub fn note(&mut self, line: LineId, frame: CommandFrame)
        requires
            old(self).well_formed(),
        ensures
            final(self).well_formed(),
            forall|i: int|
                0 <= i < N ==> #[trigger] final(self).spec_chips()[i] == (if line_of_chip(
                    old(self).spec_split(),
                    i,
                ) == line {
                    counter_step(old(self).spec_chips()[i], frame@)
                } else {
                    old(self).spec_chips()[i]
                }),
            final(self).spec_split() == old(self).spec_split(),
            final(self).spec_config_a() == old(self).spec_config_a(),
            final(self).same_records(*old(self)),
    {
        let resets = frame.resets_counter();
        if !frame.increments() && !resets {
            return;
        }
        let (lo, hi) = match line {
            LineId::A => (0, self.on_line_a.0),
            LineId::B => (self.on_line_a.0, N),
        };
        let ghost before = self.chips@;
        let ghost orig = *self;
        let mut chip = lo;
        while chip < hi
            invariant
                lo <= chip <= hi <= N,
                self.on_line_a == orig.on_line_a,
                self.config_a == orig.config_a,
                self.line_a == orig.line_a,
                self.line_b == orig.line_b,
                self.line_a_error_count == orig.line_a_error_count,
                self.line_b_error_count == orig.line_b_error_count,
                self.most_recent_line_a_error == orig.most_recent_line_a_error,
                self.most_recent_line_b_error == orig.most_recent_line_b_error,
                self.on_line_a.0 <= N,
                lo == (if line == LineId::A {
                    0
                } else {
                    self.on_line_a.0
                }),
                hi == (if line == LineId::A {
                    self.on_line_a.0
                } else {
                    N
                }),
                self.chips@.len() == N,
                before.len() == N,
                resets == frame_resets(frame@.1),
                frame@.0 || resets,
                forall|i: int|
                    0 <= i < N ==> #[trigger] self.chips@[i] == (if lo <= i < chip {
                        counter_step(before[i], frame@)
                    } else {
                        before[i]
                    }),
            decreases hi - chip,
        {
            let expected = self.chips[chip].command_count.expected;
            let next: u8 = if resets {
                0
            } else if expected >= CCNT_MAX {
                1
            } else {
                expected + 1
            };
            let mut state = self.chips[chip];
            state.command_count.expected = next;
            self.chips[chip] = state;
            chip = chip + 1;
        }
    }

    /// Sets the `COMM_BK` bit of every Config A in `configs` as the current split asks for: set
    /// on the two chips on either side of the boundary, clear everywhere else, and clear on every
    /// chip when all of them are on one line.
    pub fn overwrite_configa_with_split(&self, configs: &mut [ConfigA; N])
        requires
            self.well_formed(),
        ensures
            forall|i: int|
                0 <= i < N ==> (#[trigger] final(configs)@[i])@ == config_with_split(
                    old(configs)@[i],
                    self.spec_split(),
                    N,
                    i,
                ),
    {
        let boundary = self.on_line_a.0;
        let split_active = boundary > 0 && boundary < N;
        let ghost before = configs@;
        let mut i: usize = 0;
        while i < N
            invariant
                i <= N,
                boundary == self.on_line_a.0,
                boundary <= N,
                split_active == (0 < boundary < N),
                configs@.len() == N,
                before.len() == N,
                forall|j: int|
                    0 <= j < N ==> (#[trigger] configs@[j])@ == (if j < i {
                        config_with_split(before[j], boundary, N, j)
                    } else {
                        before[j]@
                    }),
            decreases N - i,
        {
            let bk = if split_active && (i == boundary || i == boundary - 1) {
                CommunicationBreak::Enable
            } else {
                CommunicationBreak::Disable
            };
            configs[i] = configs[i].with_comm_bk(bk);
            i = i + 1;
        }
    }

    /// The cached Config A of every chip.
    pub fn configa(&self) -> (r: &[ConfigA; N])
        ensures
            r@ == self.spec_config_a(),
    {
        &self.config_a
    }

    /// Takes the Config A to write to every chip: `COMM_BK` is set as the current split asks,
    /// whatever `configs` held, and the result is cached and returned for writing.
    pub fn prepare_configa(&mut self, configs: &[ConfigA; N]) -> (r: [ConfigA; N])
        requires
            old(self).well_formed(),
        ensures
            final(self).well_formed(),
            forall|i: int|
                0 <= i < N ==> (#[trigger] r@[i])@ == config_with_split(
                    configs@[i],
                    old(self).spec_split(),
                    N,
                    i,
                ),
            final(self).spec_config_a() == r@,
            final(self).spec_split() == old(self).spec_split(),
            final(self).spec_chips() == old(self).spec_chips(),
            final(self).same_records(*old(self)),
    {
        let mut out = *configs;
        self.overwrite_configa_with_split(&mut out);
        self.config_a = out;
        out
    }

    /// The cached Config A of every chip with `COMM_BK` set as the current split asks: what a
    /// split writes back to the chips without reading them first.
    pub fn split_configs(&self) -> (r: [ConfigA; N])
        requires
            self.well_formed(),
        ensures
            forall|i: int|
                0 <= i < N ==> (#[trigger] r@[i])@ == config_with_split(
                    self.spec_config_a()[i],
                    self.spec_split(),
                    N,
                    i,
                ),
    {
        let mut out = self.config_a;
        self.overwrite_configa_with_split(&mut out);
        out
    }

    /// The number of SPI errors seen on `line`.
    pub fn error_count(&self, line: LineId) -> (r: usize)
        ensures
            r == self.spec_error_count(line),
    {
        match line {
            LineId::A => self.line_a_error_count,
            LineId::B => self.line_b_error_count,
        }
    }

    /// The most recent SPI error on `line`, if there was one.
    pub fn recent_error(&self, line: LineId) -> (r: Option<Error<embedded_hal::spi::ErrorKind>>)
        ensures
            r == self.spec_recent_error(line),
    {
        match line {
            LineId::A => self.most_recent_line_a_error,
            LineId::B => self.most_recent_line_b_error,
        }
    }

    /// Records an SPI error on `line`: its error count goes up by one and it becomes the line's
    /// most recent error.
    pub fn record_error(&mut self, line: LineId, error: Error<embedded_hal::spi::ErrorKind>)
        requires
            old(self).spec_error_count(line) < usize::MAX,
        ensures
            final(self).spec_error_count(line) == old(self).spec_error_count(line) + 1,
            final(self).spec_recent_error(line) == Some(error),
            final(self).spec_error_count(other_line(line)) == old(self).spec_error_count(
                other_line(line),
            ),
            final(self).spec_recent_error(other_line(line)) == old(self).spec_recent_error(
                other_line(line),
            ),
            final(self).spec_line(LineId::A) == old(self).spec_line(LineId::A),
            final(self).spec_line(LineId::B) == old(self).spec_line(LineId::B),
            final(self).spec_split() == old(self).spec_split(),
            final(self).spec_chips() == old(self).spec_chips(),
            final(self).spec_config_a() == old(self).spec_config_a(),
            final(self).well_formed() == old(self).well_formed(),
    {
        match line {
            LineId::A => {
                self.line_a_error_count = self.line_a_error_count + 1;
                self.most_recent_line_a_error = Some(error);
            },
            LineId::B => {
                self.line_b_error_count = self.line_b_error_count + 1;
                self.most_recent_line_b_error = Some(error);
            },
        }
    }

    /// The groups to write on each line, from one group per chip in logical order: Line A gets
    /// the groups of its chips in order, Line B the groups of its chips from chip `N - 1` down.
    pub fn split_groups<G: Copy>(&self, groups: &[G; N]) -> (r: (Vec<G>, Vec<G>))
        requires
            self.well_formed(),
        ensures
            r.0@ == groups_for_line(groups@, self.spec_split(), LineId::A),
            r.1@ == groups_for_line(groups@, self.spec_split(), LineId::B),
    {
        let count_a = self.on_line_a.0;
        let count_b = N - count_a;
        let mut a: Vec<G> = Vec::new();
        let mut i: usize = 0;
        while i < count_a
            invariant
                i <= count_a <= N,
                a@ == groups@.take(i as int),
            decreases count_a - i,
        {
            a.push(groups[i]);
            assert(groups@.take(i + 1) =~= groups@.take(i as int).push(groups@[i as int]));
            i = i + 1;
        }
        let mut b: Vec<G> = Vec::new();
        let mut j: usize = 0;
        while j < count_b
            invariant
                j <= count_b <= N,
                b@.len() == j,
                forall|k: int| 0 <= k < j ==> #[trigger] b@[k] == groups@[N - 1 - k],
            decreases count_b - j,
        {
            b.push(groups[N - 1 - j]);
            j = j + 1;
        }
        assert(b@ =~= groups_for_line(groups@, count_a, LineId::B));
        (a, b)
    }
}

/// What chip `chip` answered in a read whose Line A and Line B transactions gave `a` and `b`:
/// its line's response at its index on that line, if that line's transaction succeeded.
pub open spec fn read_slot<G, E, const N: usize>(
    split: usize,
    chip: int,
    a: Result<LineResponses<G, N>, Error<E>>,
    b: Result<LineResponses<G, N>, Error<E>>,
) -> Option<ChipResponse<G>> {
    let res = if line_of_chip(split, chip) == LineId::A {
        a
    } else {
        b
    };
    let idx = index_on_line(split, N, chip);
    match res {
        Ok(r) => if 0 <= idx < r@.len() {
            Some(r@[idx])
        } else {
            None
        },
        Err(_) => None,
    }
}

/// A chip's state after the read gave it `slot`: a response that passed its PEC updates its
/// reported counter, last contact and success count; one that failed adds a failure; no
/// response leaves it alone.
pub open spec fn read_step<G>(c: ChipState, slot: Option<ChipResponse<G>>, now: Instant) -> ChipState {
    match slot {
        Some(resp) => if resp@.2 == PecStatus::Success {
            c.heard(resp@.1, now)
        } else {
            c.misheard()
        },
        None => c,
    }
}

impl<SPI, const N: usize> Api<SPI, N> {
    /// Takes in the outcomes of a read of one register group on both lines, made at `now`: the
    /// response of each chip is picked from its line, and each chip's PEC statistics, reported
    /// counter and last contact are updated from it.
    pub fn record_read<G: Copy, E>(
        &mut self,
        line_a: Result<LineResponses<G, N>, Error<E>>,
        line_b: Result<LineResponses<G, N>, Error<E>>,
        now: Instant,
    ) -> (r: Responses<G, E, N>)
        requires
            old(self).well_formed(),
            forall|i: int|
                0 <= i < N ==> (#[trigger] old(self).spec_chips()[i]).pec_success_count()
                    < usize::MAX && old(self).spec_chips()[i].pec_failed_count() < usize::MAX,
        ensures
            final(self).well_formed(),
            forall|i: int|
                0 <= i < N ==> #[trigger] r.spec_chips()[i] == read_slot(
                    old(self).spec_split(),
                    i,
                    line_a,
                    line_b,
                ),
            forall|i: int|
                0 <= i < N ==> #[trigger] final(self).spec_chips()[i] == read_step(
                    old(self).spec_chips()[i],
                    read_slot(old(self).spec_split(), i, line_a, line_b),
                    now,
                ),
            r.spec_error(LineId::A) == (match line_a {
                Ok(_) => None,
                Err(e) => Some(e),
            }),
            r.spec_error(LineId::B) == (match line_b {
                Ok(_) => None,
                Err(e) => Some(e),
            }),
            final(self).spec_split() == old(self).spec_split(),
            final(self).spec_config_a() == old(self).spec_config_a(),
            final(self).same_records(*old(self)),
    {
        let ghost before = self.chips@;
        let ghost orig = *self;
        let mut chips: [Option<ChipResponse<G>>; N] = [None; N];
        let mut chip: usize = 0;
        while chip < N
            invariant
                chip <= N,
                self.on_line_a == orig.on_line_a,
                self.on_line_a.0 <= N,
                self.config_a == orig.config_a,
                self.line_a == orig.line_a,
                self.line_b == orig.line_b,
                self.line_a_error_count == orig.line_a_error_count,
                self.line_b_error_count == orig.line_b_error_count,
                self.most_recent_line_a_error == orig.most_recent_line_a_error,
                self.most_recent_line_b_error == orig.most_recent_line_b_error,
                before == orig.chips@,
                chips@.len() == N,
                self.chips@.len() == N,
                forall|i: int|
                    0 <= i < N ==> (#[trigger] before[i]).pec_success_count() < usize::MAX
                        && before[i].pec_failed_count() < usize::MAX,
                forall|i: int|
                    0 <= i < chip ==> #[trigger] chips@[i] == read_slot(
                        orig.on_line_a.0,
                        i,
                        line_a,
                        line_b,
                    ),
                forall|i: int|
                    0 <= i < N ==> #[trigger] self.chips@[i] == (if i < chip {
                        read_step(
                            before[i],
                            read_slot(orig.on_line_a.0, i, line_a, line_b),
                            now,
                        )
                    } else {
                        before[i]
                    }),
            decreases N - chip,
        {
            let on_a = chip < self.on_line_a.0;
            let index = self.index_of(chip);
            let responses = if on_a {
                &line_a
            } else {
                &line_b
            };
            let slot: Option<ChipResponse<G>> = match responses {
                Ok(rs) => rs.get(index),
                Err(_) => None,
            };
            match slot {
                Some(response) => {
                    let mut state = self.chips[chip];
                    if response.pec().is_success() {
                        state.command_count.reported = response.command_counter();
                        state.last_contacted = Some(now);
                        state.pec_success_count = state.pec_success_count + 1;
                    } else {
                        state.pec_failed_count = state.pec_failed_count + 1;
                    }
                    self.chips[chip] = state;
                },
                None => {},
            }
            chips[chip] = slot;
            chip = chip + 1;
        }
        let err_a = match line_a {
            Ok(_) => None,
            Err(e) => Some(e),
        };
        let err_b = match line_b {
            Ok(_) => None,
            Err(e) => Some(e),
        };
        Responses { chips, errors: [err_a, err_b] }
    }
}

/// The outcome of an operation made on both lines: Line A's error if it failed, else Line B's
/// outcome.
pub fn both<E>(line_a: Result<(), Error<E>>, line_b: Result<(), Error<E>>) -> (r: Result<(), Error<E>>)
    ensures
        r == (match line_a {
            Err(e) => Err(e),
            Ok(_) => line_b,
        }),
{
    match line_a {
        Err(e) => Err(e),
        Ok(_) => line_b,
    }
}

/// The outcome of a poll of both lines: Line A's error if it failed, else Line B's error if it
/// failed, else whether both lines reported that their chips are done.
pub fn both_done<E>(line_a: Result<bool, Error<E>>, line_b: Result<bool, Error<E>>) -> (r: Result<bool, Error<E>>)
    ensures
        r == (match line_a {
            Err(e) => Err(e),
            Ok(a) => match line_b {
                Err(e) => Err(e),
                Ok(b) => Ok(a && b),
            },
        }),
{
    match line_a {
        Err(e) => Err(e),
        Ok(a) => match line_b {
            Err(e) => Err(e),
            Ok(b) => Ok(a && b),
        },
    }
}

/// How long a cell voltage conversion takes, in milliseconds: the S-ADC time when the redundant
/// conversion runs, else the C-ADC time.
pub fn adcv_conversion_ms(redundancy: AdcvRedundancy) -> (r: u64)
    ensures
        r == (match redundancy {
            AdcvRedundancy::Enabled => S_ADC_MS,
            AdcvRedundancy::Disabled => C_ADC_MS,
        }),
{
    match redundancy {
        AdcvRedundancy::Enabled => S_ADC_MS,
        AdcvRedundancy::Disabled => C_ADC_MS,
    }
}

/// How long to wait between polls once the expected conversion time has elapsed, in milliseconds.
pub const POLL_INTERVAL_MS: u64 = 1;

/// The time by which a conversion started at `now` must be done, `timeout_ms` later.
pub fn conversion_deadline(now: Instant, timeout_ms: u64) -> (r: Instant)
    requires
        timeout_ms <= MAX_MILLIS,
    ensures
        r@ == (if now@ + crate::adbms6830b::time::ticks_of_millis(timeout_ms) > u64::MAX {
            u64::MAX
        } else {
            (now@ + crate::adbms6830b::time::ticks_of_millis(timeout_ms)) as u64
        }),
{
    now.saturating_add(Duration::from_millis(timeout_ms))
}

/// One step of waiting for a conversion: done once the chips report done, timed out once the
/// deadline has passed without that, else `None` to poll again.
pub fn conversion_step<E>(done: bool, now: Instant, deadline: Instant) -> (r: Option<Result<(), Error<E>>>)
    ensures
        done ==> r == Some(Ok::<(), Error<E>>(())),
        !done && now@ >= deadline@ ==> r == Some(Err::<(), Error<E>>(Error::Timeout)),
        !done && now@ < deadline@ ==> r is None,
{
    if done {
        Some(Ok(()))
    } else if now.reached(deadline) {
        Some(Err(Error::Timeout))
    } else {
        None
    }
}

/// The groups written on `line`, one per chip of the line in the line's order, from one group per
/// chip in logical order.
pub open spec fn groups_for_line<G>(groups: Seq<G>, split: usize, line: LineId) -> Seq<G> {
    match line {
        LineId::A => groups.take(split as int),
        LineId::B => Seq::new(
            (groups.len() - split) as nat,
            |j: int| groups[groups.len() - 1 - j],
        ),
    }
}

/// The routing of the chips is a bijection: each chip has a position on its line below the
/// number of chips on that line, no two chips of a line share a position, and the two lines
/// together hold every chip.
pub proof fn lemma_routing_bijective(split: usize, n: usize)
    requires
        split <= n,
    ensures
        chips_on_line(split, n, LineId::A) + chips_on_line(split, n, LineId::B) == n,
        forall|c: int|
            0 <= c < n ==> 0 <= #[trigger] index_on_line(split, n, c) < chips_on_line(
                split,
                n,
                line_of_chip(split, c),
            ),
        forall|c: int, d: int|
            0 <= c < n && 0 <= d < n && c != d && line_of_chip(split, c) == line_of_chip(split, d)
                ==> #[trigger] index_on_line(split, n, c) != #[trigger] index_on_line(split, n, d),
{
}

/// A write reaches every chip with its own group: the group a line carries at a chip's position
/// on that line is the chip's group in logical order.
pub proof fn lemma_write_reaches_each_chip<G>(groups: Seq<G>, split: usize, chip: int)
    requires
        groups.len() <= usize::MAX,
        split <= groups.len(),
        0 <= chip < groups.len(),
    ensures
        groups_for_line(groups, split, line_of_chip(split, chip))[index_on_line(
            split,
            groups.len() as usize,
            chip,
        )] == groups[chip],
        0 <= index_on_line(split, groups.len() as usize, chip) < groups_for_line(
            groups,
            split,
            line_of_chip(split, chip),
        ).len(),
{
    if chip >= split {
        let b = groups_for_line(groups, split, LineId::B);
        let j = groups.len() - 1 - chip;
        assert(b[j] == groups[groups.len() - 1 - j]);
    }
}

/// The command counter a chip is expected to hold stays a valid `CCNT` value: a reset gives 0,
/// and anything else counts up by one, from 1 to 63, wrapping from 63 back to 1.
pub proof fn lemma_counter_stays_in_range(expected: u8, resets: bool)
    requires
        expected <= 63,
    ensures
        resets ==> next_expected(expected, resets) == 0,
        !resets ==> 1 <= next_expected(expected, resets) <= 63,
        !resets && expected == 63 ==> next_expected(expected, resets) == 1,
        !resets && expected < 63 ==> next_expected(expected, resets) == expected + 1,
{
}

/// How the chain is laid over the two lines: a split at `split` puts chips `0..split` on Line A,
/// where chip `c` is the `c`-th device from the host, and the rest on Line B, which reaches them
/// from the far end, so chip `n - 1` is its first device. Moving a chip one step further along
/// the chain moves it one step further from Line A's end and one step nearer Line B's.
pub proof fn lemma_routing_layout(split: usize, n: usize, c: int)
    requires
        split <= n,
        0 <= c < n,
    ensures
        (line_of_chip(split, c) == LineId::A) == (c < split),
        c < split ==> index_on_line(split, n, c) == c,
        c >= split ==> index_on_line(split, n, c) == n - 1 - c,
        c + 1 < split ==> index_on_line(split, n, c + 1) == index_on_line(split, n, c) + 1,
        split <= c && c + 1 < n ==> index_on_line(split, n, c + 1) == index_on_line(split, n, c) - 1,
{
}

/// The other line.
pub open spec fn other_line(line: LineId) -> LineId {
    match line {
        LineId::A => LineId::B,
        LineId::B => LineId::A,
    }
}

impl ChipState {
    /// The state of a chip nothing has been sent to nor heard from, as a value in specifications.
    pub closed spec fn new_spec() -> ChipState {
        ChipState {
            command_count: CommandCount { expected: 0, reported: 0 },
            command_count_resets: 0,
            last_contacted: None,
            pec_success_count: 0,
            pec_failed_count: 0,
        }
    }
}

} // verus!
