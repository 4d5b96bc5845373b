//! The PTP hardware clock of the STM32 Ethernet MAC: what is written to its registers to set and
//! adjust the time. The register accesses themselves are made by the caller.

use vstd::prelude::*;

verus! {

/// A time of the hardware clock: whole seconds and nanoseconds.
#[derive(Clone, Copy, Debug, PartialEq, Eq, Structural)]
pub struct HardwareClockTime {
    /// Whole seconds.
    pub seconds: u32,
    /// Nanoseconds within the second.
    pub ns: u32,
}

/// A hardware clock that can be read, set and nudged.
pub trait HardwareClock {
    /// The current time of the clock.
    fn get_time(&self) -> HardwareClockTime;

    /// Sets the clock to `time`.
    fn set_time(&self, time: HardwareClockTime);

    /// Moves the clock by `time_ns` nanoseconds, forwards when positive.
    fn adjust_time(&self, time_ns: i32);
}

/// The PTP clock of the STM32 Ethernet MAC.
#[derive(Clone, Copy, Debug)]
pub struct Stm32EthPtpClock;

/// The time the clock is set to when it starts.
pub fn initial_time() -> (r: HardwareClockTime)
    ensures
        r.seconds == 1_000_000_000,
        r.ns == 0,
{
    HardwareClockTime { seconds: 1_000_000_000, ns: 0 }
}

/// The MACSTNUR word that sets the nanoseconds of `time`: the `ADDSUB` bit (31) clear and the
/// nanoseconds in `TSSS` (bits 30:0).
pub fn set_time_word(time: HardwareClockTime) -> (r: u32)
    ensures
        r == time.ns & 0x7FFF_FFFF,
{
    time.ns & 0x7FFF_FFFF
}

/// The MACSTNUR word that moves the clock by `time_ns` nanoseconds.
///
/// Forwards, the word is the nanoseconds to add. Backwards, the `ADDSUB` bit (31) is set and
/// `TSSS` holds the complement of the nanoseconds to one second, as the MAC subtracts it that way.
pub fn adjust_time_word(time_ns: i32) -> (r: u32)
    requires
        time_ns >= -1_000_000_000,
    ensures
        time_ns >= 0 ==> r == time_ns,
        time_ns < 0 ==> r == 0x8000_0000u32 + (1_000_000_000 + time_ns),
{
    if time_ns >= 0 {
        time_ns as u32
    } else {
        let magnitude: u32 = (-(time_ns as i64)) as u32;
        let comp: u32 = 1_000_000_000 - magnitude;
        assert(comp < 0x8000_0000);
        assert((comp & 0x7FFF_FFFF) | 0x8000_0000u32 == 0x8000_0000u32 + comp) by (bit_vector)
            requires
                comp < 0x8000_0000u32,
        ;
        (comp & 0x7FFF_FFFF) | 0x8000_0000u32
    }
}

} // verus!
