# firmware_rs

Verified building blocks of battery-management firmware for ADBMS6830 / ADBMS6830B
cell monitors on isoSPI daisy chains.

- `src/` is the library, written in Verus: register layouts and command codes of the
  ADBMS6830B (`adbms6830b::chip`, `adbms6830b::adbms6830b_pac`), the command and data
  PECs (`crc`), framing and decoding of one isoSPI line (`adbms6830b::line`), the
  two-line routing, counter tracking and split logic (`adbms6830b::turnkey::api`), the
  PEC-error accumulator that detects a chain break and drives its recovery
  (`adbms6830b::turnkey::accumulator`), the service's per-cycle decisions
  and startup bookkeeping (`adbms6830b::turnkey::service`), the older ADBMS6830 driver's framing and register
  types (`adbms6830`), CAN integer encoding (`cangen`) and the PTP clock word
  arithmetic (`eth_ptp_time`). Every function carries a contract; the public `lemma_*`
  proof functions state the properties that hold across calls.
- `app/` holds what cannot be verified: the async SPI transactions, the service loop
  that performs them and hands each outcome to `ServiceCycle`, conversions to and from floating point, and CAN frame building.
- `tests/` runs the library on concrete values.

## What is not here

The Service is meant to mask PEC errors for a while after a sleep (a `set_masked()` on the
accumulator, a `PecMask` state and an `updates_while_masked_count` in its diagnostics), but no
definition of that mask or of how it behaves exists to build on. The sleep-time PEC mask and
the two diagnostics `pec_mask()` and `updates_while_masked_count()` are therefore left out; the
configured grace period is still reported as `recovery_startup_time()`.

## Time

The crate enables the `std` feature of `embassy-time`, which fixes the timebase at one million
ticks per second (`TICKS_PER_MILLI`). A span of milliseconds is turned into ticks by multiplying
by 1000, so `MAX_MILLIS`, the longest span accepted, is `u64::MAX / 1000`.
