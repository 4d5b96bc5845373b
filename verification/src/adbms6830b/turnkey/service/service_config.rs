//! Configuration parameters of the Service, with their defaults.

use vstd::prelude::*;

verus! {

/// Default value for `ServiceConfig::service_frequency_ms`.
pub const SERVICE_FREQUENCY_MS: u64 = 300;

/// Default value for `ServiceConfig::segment_isospi_eval_period_ms`.
pub const SEGMENT_ISOSPI_EVAL_PERIOD_MS: u64 = 4000;

/// Default value for `ServiceConfig::segment_isospi_min_attempts_for_fail`.
pub const SEGMENT_ISOSPI_MIN_ATTEMPTS_FOR_FAIL: usize = 8;

/// Default value for `ServiceConfig::segment_isospi_pec_failure_ratio_pct`.
pub const SEGMENT_ISOSPI_PEC_FAILURE_RATIO_PCT: u8 = 75;

/// Default value for `ServiceConfig::segment_isospi_min_attempts_to_open_window`.
pub const SEGMENT_ISOSPI_MIN_ATTEMPTS_TO_OPEN_WINDOW: usize = 2;

/// Default value for `ServiceConfig::segment_isospi_max_split_attempts`.
pub const SEGMENT_ISOSPI_MAX_SPLIT_ATTEMPTS: usize = 5;

/// Default value for `ServiceConfig::segment_isospi_max_failed_verification_attempts`.
pub const SEGMENT_ISOSPI_MAX_FAILED_VERIFICATION_ATTEMPTS: usize = 5;

/// Default value for `ServiceConfig::segment_isospi_recovery_startup_time_ms`.
pub const SEGMENT_ISOSPI_RECOVERY_STARTUP_TIME_MS: u64 = 1500;

/// Configuration of a Service. `ServiceConfig::default()` gives the values above.
#[derive(Clone, Copy, Debug, PartialEq, Eq, Structural)]
pub struct ServiceConfig {
    /// How often the service runs, in ms.
    pub service_frequency_ms: u64,
    /// How long each evaluation window of the PEC accumulator lasts, in ms.
    pub segment_isospi_eval_period_ms: u64,
    /// Fewest reads a chip must have taken part in over a window before its failure rate means
    /// anything.
    ///
    /// Set it as low as possible but above the PEC noise level: above the number of reads the
    /// application makes in a window, break detection never concludes anything.
    pub segment_isospi_min_attempts_for_fail: usize,
    /// Percentage of reads that must fail their PEC for a chip to look unreachable.
    ///
    /// A break fails the affected chips' reads essentially every time, so this is meant to be high.
    pub segment_isospi_pec_failure_ratio_pct: u8,
    /// Fewest reads in a single update before that update's failure rate can open a window.
    ///
    /// Keep it low (1 or 2): above the number of reads the application makes per service cycle,
    /// no window ever opens.
    pub segment_isospi_min_attempts_to_open_window: usize,
    /// How many times the Service tries to apply a split before giving up on recovery.
    pub segment_isospi_max_split_attempts: usize,
    /// How many evaluation windows may fail to show that a split worked before recovery gives up.
    pub segment_isospi_max_failed_verification_attempts: usize,
    /// Grace period after startup and after a detected sleep during which no window accumulates,
    /// in ms, so that the chips settle down first.
    pub segment_isospi_recovery_startup_time_ms: u64,
}

impl Default for ServiceConfig {
    fn default() -> (r: ServiceConfig)
        ensures
            r.service_frequency_ms == SERVICE_FREQUENCY_MS,
            r.segment_isospi_eval_period_ms == SEGMENT_ISOSPI_EVAL_PERIOD_MS,
            r.segment_isospi_min_attempts_for_fail == SEGMENT_ISOSPI_MIN_ATTEMPTS_FOR_FAIL,
            r.segment_isospi_pec_failure_ratio_pct == SEGMENT_ISOSPI_PEC_FAILURE_RATIO_PCT,
            r.segment_isospi_min_attempts_to_open_window
                == SEGMENT_ISOSPI_MIN_ATTEMPTS_TO_OPEN_WINDOW,
            r.segment_isospi_max_split_attempts == SEGMENT_ISOSPI_MAX_SPLIT_ATTEMPTS,
            r.segment_isospi_max_failed_verification_attempts
                == SEGMENT_ISOSPI_MAX_FAILED_VERIFICATION_ATTEMPTS,
            r.segment_isospi_recovery_startup_time_ms == SEGMENT_ISOSPI_RECOVERY_STARTUP_TIME_MS,
    {
        ServiceConfig {
            service_frequency_ms: SERVICE_FREQUENCY_MS,
            segment_isospi_eval_period_ms: SEGMENT_ISOSPI_EVAL_PERIOD_MS,
            segment_isospi_min_attempts_for_fail: SEGMENT_ISOSPI_MIN_ATTEMPTS_FOR_FAIL,
            segment_isospi_pec_failure_ratio_pct: SEGMENT_ISOSPI_PEC_FAILURE_RATIO_PCT,
            segment_isospi_min_attempts_to_open_window: SEGMENT_ISOSPI_MIN_ATTEMPTS_TO_OPEN_WINDOW,
            segment_isospi_max_split_attempts: SEGMENT_ISOSPI_MAX_SPLIT_ATTEMPTS,
            segment_isospi_max_failed_verification_attempts:
                SEGMENT_ISOSPI_MAX_FAILED_VERIFICATION_ATTEMPTS,
            segment_isospi_recovery_startup_time_ms: SEGMENT_ISOSPI_RECOVERY_STARTUP_TIME_MS,
        }
    }
}

} // verus!
