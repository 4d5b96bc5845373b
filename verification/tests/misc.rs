use firmware_rs::adbms6830b::adbms6830b_pac::registers::config_a::{ComparisonThresholdVoltage, ConfigA0, ReferenceOn};
use firmware_rs::adbms6830b::adbms6830b_pac::registers::results::types::{CellVoltage, GpioVoltage, RedundantGpioVoltage, VPlusVoltage};
use firmware_rs::adbms6830b::adbms6830b_pac::registers::results::CellVoltagesA;
use firmware_rs::adbms6830b::adbms6830b_pac::registers::{RegisterGroup, RegisterKind};
use firmware_rs::adbms6830b::time::{Duration, Instant};
use firmware_rs::adbms6830b::turnkey::service::{sleep_ruled_out, sleep_seen, ServiceCycle, SleepCheck, StartupReason, StartupResult, Startups};
use firmware_rs::adbms6830b::turnkey::accumulator::UpdateResult;
use firmware_rs::adbms6830b::time::MAX_MILLIS;
use firmware_rs::cangen::CanRepr;
use firmware_rs::adbms6830b::chip::registers::status::StatusC;
use firmware_rs::adbms6830b::line::{Line, Responses as LineResponses};
use firmware_rs::adbms6830b::turnkey::api::Api;
use firmware_rs::crc::data_pec;
use firmware_rs::eth_ptp_time::{adjust_time_word, initial_time, set_time_word, HardwareClockTime};

#[test]
fn cell_voltage_codes_in_microvolts() {
    let v = CellVoltage::new();
    assert_eq!(v.into_bits(), 0x8000);
    assert_eq!(v.as_microvolts(), -3_415_200);
    let v = CellVoltage::from_microvolts(3_700_000).unwrap();
    assert_eq!(v.as_microvolts(), 3_700_050);
    assert!(CellVoltage::from_microvolts(7_000_000).is_none());
    let p = VPlusVoltage::from_bits(0);
    assert_eq!(p.as_microvolts(), 37_500_000);
}

#[test]
fn gpio_voltages_convert_both_ways() {
    let g = GpioVoltage::from_bits(0x1234);
    let r = RedundantGpioVoltage::from_standard(g);
    assert_eq!(r.into_bits(), 0x1234);
    let back: GpioVoltage = r.into();
    assert_eq!(back, g);
    assert_eq!(GpioVoltage::from_redundant(r), g);
}

#[test]
fn result_groups_start_cleared() {
    let g = CellVoltagesA::new();
    assert_eq!(g.c1v().into_bits(), 0x8000);
    assert_eq!(g.c3v().into_bits(), 0x8000);
}

#[test]
fn config_a_first_register() {
    let r = ConfigA0::new();
    assert_eq!(r.into_bits(), 0);
    assert_eq!(r.cth(), ComparisonThresholdVoltage::Mv5_1);
    assert_eq!(r.refon(), ReferenceOn::Off);
    let r = r.with_cth(ComparisonThresholdVoltage::Mv8_1).with_refon(ReferenceOn::On);
    assert_eq!(r.into_bits(), 0x81);
    assert_eq!(r.cth(), ComparisonThresholdVoltage::Mv8_1);
    assert_eq!(ConfigA0::kind(), RegisterKind::ReadWrite);
}

#[test]
fn time_arithmetic() {
    let a = Instant::from_ticks(10);
    let b = Instant::from_ticks(25);
    assert_eq!(b.saturating_duration_since(a).as_ticks(), 15);
    assert_eq!(a.saturating_duration_since(b).as_ticks(), 0);
    assert_eq!(Instant::from_ticks(u64::MAX - 1).saturating_add(Duration::from_ticks(5)).as_ticks(), u64::MAX);
    assert!(b.reached(a));
    assert!(!a.reached(b));
    assert_eq!(Duration::from_ticks(3).max(Duration::from_ticks(9)).as_ticks(), 9);
    assert_eq!(Duration::zero().as_ticks(), 0);
    let before = Instant::now();
    let after = Instant::now();
    assert!(after.reached(before));
}

#[test]
fn startup_bookkeeping() {
    let mut s = Startups::new();
    assert_eq!(s.result(), StartupResult::Incomplete);
    assert_eq!(s.reason(), StartupReason::FromSleep);
    // an isoSPI break interrupts a startup from sleep that has not completed
    assert_eq!(s.begin(StartupReason::IsospiBreak), StartupReason::IsospiBreak);
    assert_eq!(s.count(), 1);
    assert_eq!(s.overtaken(), 1);
    s.finish(StartupResult::Complete);
    s.begin(StartupReason::FromSleep);
    assert_eq!(s.overtaken(), 1);
    assert_eq!(s.count(), 2);
    assert!(StartupReason::IsospiBreak.is_isospi_break());
    assert!(StartupReason::FromSleep.is_from_sleep());
    assert!(StartupResult::Incomplete.is_incomplete());
}

#[test]
fn startup_repeats_until_complete() {
    let mut s = Startups::new();
    assert_eq!(s.due(), Some(StartupReason::FromSleep));
    s.begin(StartupReason::FromSleep);
    s.finish(StartupResult::Incomplete);
    assert_eq!(s.due(), Some(StartupReason::FromSleep));
    s.begin(StartupReason::IsospiBreak);
    s.finish(StartupResult::Incomplete);
    assert_eq!(s.due(), Some(StartupReason::IsospiBreak));
    s.finish(StartupResult::Complete);
    assert_eq!(s.due(), None);
}

#[test]
fn can_integers_go_little_endian() {
    assert_eq!(0x1234u16.to_le_bytes(), [0x34, 0x12]);
    assert_eq!(CanRepr::to_le_bytes(0x0102_0304u32), [4, 3, 2, 1]);
    assert_eq!(CanRepr::to_le_bytes(0x0102_0304_0506_0708u64), [8, 7, 6, 5, 4, 3, 2, 1]);
    assert_eq!(CanRepr::to_le_bytes(0xABu8), [0xAB]);
    let bytes = CanRepr::to_le_bytes(0x0102u16);
    assert_eq!(<u16 as CanRepr>::bytes_as_slice(&bytes), &[2, 1]);
}

#[test]
fn ptp_clock_words() {
    assert_eq!(initial_time(), HardwareClockTime { seconds: 1_000_000_000, ns: 0 });
    assert_eq!(set_time_word(HardwareClockTime { seconds: 0, ns: 500 }), 500);
    assert_eq!(adjust_time_word(250), 250);
    assert_eq!(adjust_time_word(-250), 0x8000_0000 | (1_000_000_000 - 250));
    assert_eq!(adjust_time_word(-1_000_000_000), 0x8000_0000);
}

#[test]
fn sleep_decisions_need_every_chip() {
    let mut api: Api<(), 2> = Api::new(Line::new(()), Line::new(()));
    let quiet: LineResponses<StatusC, 2> = LineResponses::from_blocks(&[status_c_block(false), status_c_block(false)], 2);
    let r = api.record_read::<StatusC, ()>(Ok(quiet), Ok(LineResponses::empty()), Instant::from_ticks(0));
    assert!(sleep_ruled_out(&r));
    assert!(!sleep_seen(&r));
    let slept: LineResponses<StatusC, 2> = LineResponses::from_blocks(&[status_c_block(false), status_c_block(true)], 2);
    let r = api.record_read::<StatusC, ()>(Ok(slept), Ok(LineResponses::empty()), Instant::from_ticks(0));
    assert!(!sleep_ruled_out(&r));
    assert!(sleep_seen(&r));
}

fn status_c_block(sleep: bool) -> [u8; 8] {
    // SLEEP is bit 43 of Status C: bit 3 of byte 5
    let data = [0, 0, 0, 0, 0, if sleep { 0x08 } else { 0 }];
    let pec = data_pec(&data, 0);
    [data[0], data[1], data[2], data[3], data[4], data[5], (pec >> 8) as u8, (pec & 0xFF) as u8]
}

#[test]
fn milliseconds_are_a_thousand_ticks() {
    assert_eq!(Duration::from_millis(5).as_ticks(), 5000);
    assert_eq!(Duration::from_millis(0).as_ticks(), 0);
    assert_eq!(MAX_MILLIS, u64::MAX / 1000);
    assert_eq!(Duration::from_millis(MAX_MILLIS).as_ticks(), MAX_MILLIS * 1000);
}

#[test]
fn service_cycle_startup_runs_until_complete() {
    let mut c = ServiceCycle::new();
    let k = 2;
    let mut calls = 0;
    for j in 1..=6usize {
        if let Some(reason) = c.due() {
            assert_eq!(reason, StartupReason::FromSleep);
            let reason = c.start(reason);
            assert_eq!(reason, StartupReason::FromSleep);
            calls += 1;
            c.finish(if calls <= k { StartupResult::Incomplete } else { StartupResult::Complete });
        }
        assert_eq!(c.after_sleep_check(SleepCheck::NotDetected), None);
        assert_eq!(c.after_update(UpdateResult::Okay), None);
        c.end_cycle();
        assert_eq!(c.cycles_count(), j);
        let expected = if j <= k { StartupResult::Incomplete } else { StartupResult::Complete };
        assert_eq!(c.startups().result(), expected);
    }
    assert_eq!(calls, k + 1);
    assert_eq!(c.startups().count(), k + 1);
    assert_eq!(c.startups().overtaken(), 0);
}

#[test]
fn service_cycle_sleep_and_break() {
    let mut c = ServiceCycle::new();
    c.start(StartupReason::FromSleep);
    c.finish(StartupResult::Complete);
    assert_eq!(c.due(), None);
    assert_eq!(c.after_sleep_check(SleepCheck::Failed), None);
    assert_eq!(c.sleep_detection_spi_error_count(), 1);
    assert_eq!(c.startups().count(), 1);
    assert_eq!(c.after_sleep_check(SleepCheck::Detected), Some(StartupReason::FromSleep));
    assert_eq!(c.startups().count(), 2);
    c.finish(StartupResult::Incomplete);
    assert_eq!(c.after_update(UpdateResult::BreakDetected { break_chip_index: 3 }), Some(3));
    // the break overtakes the incomplete startup from sleep
    assert_eq!(c.after_split(false), StartupReason::IsospiBreak);
    assert_eq!(c.break_detection_spi_error_count(), 1);
    assert_eq!(c.startups().overtaken(), 1);
    assert_eq!(c.after_split(true), StartupReason::IsospiBreak);
    assert_eq!(c.break_detection_spi_error_count(), 1);
    assert_eq!(c.startups().count(), 4);
    assert_eq!(c.due(), Some(StartupReason::IsospiBreak));
    c.end_cycle();
    assert_eq!(c.cycles_count(), 1);
}
