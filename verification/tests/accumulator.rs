use firmware_rs::adbms6830b::chip::registers::status::StatusA;
use firmware_rs::adbms6830b::line::{Line, Responses as LineResponses};
use firmware_rs::adbms6830b::time::{Duration, Instant};
use firmware_rs::adbms6830b::turnkey::accumulator::{Accumulator, State, UpdateResult};
use firmware_rs::adbms6830b::turnkey::api::Api;
use firmware_rs::adbms6830b::turnkey::service::service_config::ServiceConfig;
use firmware_rs::crc::data_pec;

fn rx_block(good: bool) -> [u8; 8] {
    let data = [9, 8, 7, 6, 5, 4];
    let pec = data_pec(&data, 0) ^ if good { 0 } else { 1 };
    [data[0], data[1], data[2], data[3], data[4], data[5], (pec >> 8) as u8, (pec & 0xFF) as u8]
}

/// One read of all four chips on Line A: `good[i]` says whether chip `i`'s PEC checks out.
fn read(api: &mut Api<(), 4>, good: [bool; 4], now: Instant) {
    let blocks = [rx_block(good[0]), rx_block(good[1]), rx_block(good[2]), rx_block(good[3])];
    let line_a: LineResponses<StatusA, 4> = LineResponses::from_blocks(&blocks, 4);
    api.record_read::<StatusA, ()>(Ok(line_a), Ok(LineResponses::empty()), now);
}

fn update(acc: &mut Accumulator<4>, api: &Api<(), 4>, now: Instant) -> UpdateResult {
    assert!(acc.accepts(api.chips()));
    acc.update_at(api.chips(), now).0
}

fn window_ticks() -> u64 {
    Duration::from_millis(ServiceConfig::default().segment_isospi_eval_period_ms).as_ticks()
}

#[test]
fn the_timebase_counts_microseconds() {
    assert_eq!(Duration::from_millis(4000).as_ticks(), 4_000_000);
    assert_eq!(window_ticks(), 4_000_000);
}

#[test]
fn a_quiet_chain_stays_idle() {
    let mut api: Api<(), 4> = Api::new(Line::new(()), Line::new(()));
    let mut acc: Accumulator<4> = Accumulator::new(ServiceConfig::default());
    for cycle in 0..10u64 {
        read(&mut api, [true; 4], Instant::from_ticks(cycle));
        read(&mut api, [true; 4], Instant::from_ticks(cycle));
        assert_eq!(update(&mut acc, &api, Instant::from_ticks(cycle * 300_000)), UpdateResult::Okay);
        assert_eq!(acc.state(), State::Idle);
    }
}

/// Runs cycles of two reads each until the accumulator asks for a split; returns the time.
fn drive_to_break(api: &mut Api<(), 4>, acc: &mut Accumulator<4>) -> u64 {
    let mut t = 0u64;
    // the first update only records where the counts stand
    assert_eq!(update(acc, api, Instant::from_ticks(t)), UpdateResult::Okay);
    for _ in 0..40 {
        t += 300_000;
        read(api, [true, true, false, false], Instant::from_ticks(t));
        read(api, [true, true, false, false], Instant::from_ticks(t));
        match update(acc, api, Instant::from_ticks(t)) {
            UpdateResult::BreakDetected { break_chip_index } => {
                assert_eq!(break_chip_index, 2);
                return t;
            }
            UpdateResult::Okay => {
                assert!(matches!(acc.state(), State::Accumulating { .. }));
            }
        }
    }
    panic!("no break detected");
}

#[test]
fn a_break_is_found_at_the_first_silent_chip_and_recovered() {
    let mut api: Api<(), 4> = Api::new(Line::new(()), Line::new(()));
    let mut acc: Accumulator<4> = Accumulator::new(ServiceConfig::default());
    let mut t = drive_to_break(&mut api, &mut acc);
    assert_eq!(acc.state(), State::Splitting { at: 2, attempts: 0 });
    // until the split is reported, it is asked for again
    t += 300_000;
    assert_eq!(update(&mut acc, &api, Instant::from_ticks(t)), UpdateResult::BreakDetected { break_chip_index: 2 });
    acc.was_split_applied_at(true, Instant::from_ticks(t));
    let until = Instant::from_ticks(t + window_ticks());
    assert_eq!(acc.state(), State::Verifying { at: 2, until, total_attempts: 0, failed_attempts: 0 });
    // the chips past the split answer again
    for _ in 0..20 {
        t += 300_000;
        read(&mut api, [true; 4], Instant::from_ticks(t));
        read(&mut api, [true; 4], Instant::from_ticks(t));
        assert_eq!(update(&mut acc, &api, Instant::from_ticks(t)), UpdateResult::Okay);
        if acc.state() == (State::Recovered { at: 2 }) {
            break;
        }
    }
    assert_eq!(acc.state(), State::Recovered { at: 2 });
    // recovery is over for good
    for _ in 0..5 {
        t += 300_000;
        read(&mut api, [false; 4], Instant::from_ticks(t));
        assert_eq!(update(&mut acc, &api, Instant::from_ticks(t)), UpdateResult::Okay);
        assert_eq!(acc.state(), State::Recovered { at: 2 });
    }
}

#[test]
fn a_split_that_never_applies_gives_up() {
    let mut api: Api<(), 4> = Api::new(Line::new(()), Line::new(()));
    let mut acc: Accumulator<4> = Accumulator::new(ServiceConfig::default());
    let t = drive_to_break(&mut api, &mut acc);
    for attempt in 1..5 {
        acc.was_split_applied_at(false, Instant::from_ticks(t));
        assert_eq!(acc.state(), State::Splitting { at: 2, attempts: attempt });
    }
    acc.was_split_applied_at(false, Instant::from_ticks(t));
    assert_eq!(acc.state(), State::Failed { at: 2 });
    // reports outside of a split change nothing
    acc.was_split_applied_at(true, Instant::from_ticks(t));
    assert_eq!(acc.state(), State::Failed { at: 2 });
}

#[test]
fn a_chip_failing_alone_in_the_middle_is_no_break() {
    let mut api: Api<(), 4> = Api::new(Line::new(()), Line::new(()));
    let mut acc: Accumulator<4> = Accumulator::new(ServiceConfig::default());
    let mut t = 0u64;
    update(&mut acc, &api, Instant::from_ticks(t));
    let mut opened = false;
    for _ in 0..40 {
        t += 300_000;
        read(&mut api, [true, false, true, true], Instant::from_ticks(t));
        read(&mut api, [true, false, true, true], Instant::from_ticks(t));
        assert_eq!(update(&mut acc, &api, Instant::from_ticks(t)), UpdateResult::Okay);
        if matches!(acc.state(), State::Accumulating { .. }) {
            opened = true;
        }
    }
    assert!(opened);
    assert!(matches!(acc.state(), State::Idle | State::Accumulating { .. }));
}

#[test]
fn too_few_reads_open_no_window() {
    let mut api: Api<(), 4> = Api::new(Line::new(()), Line::new(()));
    let mut acc: Accumulator<4> = Accumulator::new(ServiceConfig::default());
    // the first update sees no reads at all, so every chip is passed over once
    update(&mut acc, &api, Instant::from_ticks(0));
    // one read per update is under the two needed to open a window
    read(&mut api, [false; 4], Instant::from_ticks(1));
    assert!(acc.accepts(api.chips()));
    let (result, diagnostics) = acc.update_at(api.chips(), Instant::from_ticks(1));
    assert_eq!(result, UpdateResult::Okay);
    assert_eq!(acc.state(), State::Idle);
    assert_eq!(diagnostics.below_min_attempts_to_open_window_count(), 8);
    assert_eq!(diagnostics.attempts(), [1; 4]);
    assert_eq!(diagnostics.failed(), [1; 4]);
    assert_eq!(diagnostics.failure_pct(), [100; 4]);
    assert_eq!(diagnostics.previous_state(), State::Idle);
    assert_eq!(diagnostics.failure_pct_threshold(), 75);
    assert_eq!(diagnostics.min_attempts_for_fail(), 8);
    assert_eq!(diagnostics.min_attempts_to_open_window(), 2);
    assert_eq!(diagnostics.accumulator_window_period(), 4000);
}

#[test]
fn the_default_configuration() {
    let c = ServiceConfig::default();
    assert_eq!(c.service_frequency_ms, 300);
    assert_eq!(c.segment_isospi_eval_period_ms, 4000);
    assert_eq!(c.segment_isospi_min_attempts_for_fail, 8);
    assert_eq!(c.segment_isospi_pec_failure_ratio_pct, 75);
    assert_eq!(c.segment_isospi_min_attempts_to_open_window, 2);
    assert_eq!(c.segment_isospi_max_split_attempts, 5);
    assert_eq!(c.segment_isospi_max_failed_verification_attempts, 5);
    assert_eq!(c.segment_isospi_recovery_startup_time_ms, 1500);
}
