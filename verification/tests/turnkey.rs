use firmware_rs::adbms6830b::chip::commands::config::rdcfga;
use firmware_rs::adbms6830b::chip::commands::misc::rstcc;
use firmware_rs::adbms6830b::chip::commands::adc::AdcvRedundancy;
use firmware_rs::adbms6830b::chip::commands::config::wrcfga;
use firmware_rs::adbms6830b::chip::registers::config_a::ConfigA;
use firmware_rs::adbms6830b::chip::registers::status::StatusA;
use firmware_rs::adbms6830b::line::{Error, Line, PecStatus, Responses as LineResponses, C_ADC_MS, S_ADC_MS};
use firmware_rs::adbms6830b::time::Instant;
use firmware_rs::adbms6830b::turnkey::api::{
    adcv_conversion_ms, both, both_done, conversion_step, Api, ChipState, CommandCount, LineId, OnLineA,
};
use firmware_rs::crc::data_pec;

fn rx_block(ccnt: u8, good: bool) -> [u8; 8] {
    let data = [0x11, 0x22, 0x33, 0x44, 0x55, 0x66];
    let pec = data_pec(&data, ccnt) ^ if good { 0 } else { 1 };
    [data[0], data[1], data[2], data[3], data[4], data[5], (ccnt << 2) | (pec >> 8) as u8, (pec & 0xFF) as u8]
}

fn api4() -> Api<(), 4> {
    Api::new(Line::new(()), Line::new(()))
}

#[test]
fn every_chip_starts_on_line_a() {
    let api = api4();
    assert_eq!(api.split(), OnLineA(4));
    for chip in 0..4 {
        assert_eq!(api.line_of(chip), LineId::A);
        assert_eq!(api.index_of(chip), chip);
    }
    assert_eq!(api.count(LineId::A), 4);
    assert_eq!(api.count(LineId::B), 0);
    assert_eq!(api.chips()[0], ChipState::new());
}

#[test]
fn a_split_routes_the_far_chips_to_line_b() {
    let mut api = api4();
    assert_eq!(api.set_split::<()>(OnLineA(1)), Ok(()));
    assert_eq!(api.line_of(0), LineId::A);
    assert_eq!(api.line_of(1), LineId::B);
    // Line B counts from the far end of the chain
    assert_eq!(api.index_of(3), 0);
    assert_eq!(api.index_of(1), 2);
    assert_eq!(api.count(LineId::A), 1);
    assert_eq!(api.count(LineId::B), 3);
}

#[test]
fn a_split_past_the_chain_is_refused() {
    let mut api = api4();
    assert_eq!(api.set_split::<()>(OnLineA(5)), Err(Error::TooManyDevices));
    assert_eq!(api.split(), OnLineA(4));
}

#[test]
fn on_line_a_converts_both_ways() {
    let a: OnLineA = 3usize.into();
    assert_eq!(a, OnLineA(3));
    let n: usize = a.into();
    assert_eq!(n, 3);
}

#[test]
fn counters_roll_over_from_63_to_1() {
    let mut api = api4();
    for _ in 0..63 {
        api.note(LineId::A, wrcfga().frame());
    }
    assert_eq!(api.chips()[0].command_count().expected(), 63);
    api.note(LineId::A, wrcfga().frame());
    assert_eq!(api.chips()[0].command_count().expected(), 1);
    // a read command leaves the counter alone
    api.note(LineId::A, rdcfga().frame());
    assert_eq!(api.chips()[0].command_count().expected(), 1);
    // a reset clears it
    api.note(LineId::A, rstcc().frame());
    assert_eq!(api.chips()[3].command_count().expected(), 0);
}

#[test]
fn a_frame_counts_only_on_its_line() {
    let mut api = api4();
    api.set_split::<()>(OnLineA(2)).unwrap();
    api.note(LineId::B, wrcfga().frame());
    assert_eq!(api.chips()[0].command_count().expected(), 0);
    assert_eq!(api.chips()[2].command_count().expected(), 1);
    assert_eq!(api.chips()[3].command_count().expected(), 1);
}

#[test]
fn comm_bk_sits_on_both_sides_of_the_split() {
    let mut api = api4();
    let configs = [ConfigA::new(); 4];
    let out = api.prepare_configa(&configs);
    for c in out.iter() {
        assert_eq!(c.into_bits() >> 43 & 1, 0);
    }
    api.set_split::<()>(OnLineA(2)).unwrap();
    let out = api.prepare_configa(&configs);
    let bits: Vec<u64> = out.iter().map(|c| c.into_bits() >> 43 & 1).collect();
    assert_eq!(bits, vec![0, 1, 1, 0]);
    assert_eq!(api.configa(), &out);
    assert_eq!(api.split_configs(), out);
}

#[test]
fn each_line_gets_its_chips_groups() {
    let mut api = api4();
    api.set_split::<()>(OnLineA(1)).unwrap();
    let (a, b) = api.split_groups(&[10u8, 11, 12, 13]);
    assert_eq!(a, vec![10]);
    assert_eq!(b, vec![13, 12, 11]);
}

#[test]
fn a_read_updates_the_chip_statistics() {
    let mut api = api4();
    api.set_split::<()>(OnLineA(2)).unwrap();
    let a_blocks = [rx_block(3, true), rx_block(3, false), [0; 8], [0; 8]];
    let line_a: LineResponses<StatusA, 4> = LineResponses::from_blocks(&a_blocks, 2);
    let now = Instant::from_ticks(1234);
    let responses = api.record_read::<StatusA, ()>(Ok(line_a), Err(Error::Spi(())), now);
    assert_eq!(responses.chip(0).unwrap().pec(), PecStatus::Success);
    assert_eq!(responses.chip(1).unwrap().pec(), PecStatus::Failed);
    assert!(responses.chip(2).is_none());
    assert!(responses.line_error(LineId::A).is_none());
    assert_eq!(responses.line_error(LineId::B), Some(&Error::Spi(())));
    assert!(!responses.all_ok());
    assert_eq!(responses.iter().len(), 4);
    let chips = api.chips();
    assert_eq!(chips[0].pec_success_count(), 1);
    assert_eq!(chips[0].command_count().reported(), 3);
    assert_eq!(chips[0].last_contacted(), Some(now));
    assert_eq!(chips[1].pec_failed_count(), 1);
    assert_eq!(chips[1].last_contacted(), None);
    assert_eq!(chips[2], ChipState::new());
}

#[test]
fn line_b_answers_in_reverse() {
    let mut api = api4();
    api.set_split::<()>(OnLineA(0)).unwrap();
    // Line B sees chip 3 first
    let b_blocks = [rx_block(1, true), rx_block(2, true), rx_block(3, true), rx_block(4, false)];
    let line_b: LineResponses<StatusA, 4> = LineResponses::from_blocks(&b_blocks, 4);
    let responses = api.record_read::<StatusA, ()>(Ok(LineResponses::empty()), Ok(line_b), Instant::from_ticks(0));
    assert_eq!(responses.chip(3).unwrap().command_counter(), 1);
    assert_eq!(responses.chip(1).unwrap().command_counter(), 3);
    assert_eq!(responses.chip(0).unwrap().pec(), PecStatus::Failed);
}

#[test]
fn command_counts_compare() {
    let c = CommandCount::new();
    assert!(c.in_sync());
    let mut chip = ChipState::new();
    chip.reset_command_count(17);
    assert_eq!(chip.command_count().expected(), 17);
    assert_eq!(chip.command_count().reported(), 17);
    assert_eq!(chip.command_count_resets(), 1);
}

#[test]
fn outcomes_of_both_lines() {
    assert_eq!(both::<()>(Ok(()), Ok(())), Ok(()));
    assert_eq!(both::<u8>(Err(Error::Spi(1)), Err(Error::Spi(2))), Err(Error::Spi(1)));
    assert_eq!(both::<u8>(Ok(()), Err(Error::Spi(2))), Err(Error::Spi(2)));
    assert_eq!(both_done::<()>(Ok(true), Ok(false)), Ok(false));
    assert_eq!(both_done::<()>(Ok(true), Ok(true)), Ok(true));
    assert_eq!(both_done::<u8>(Ok(true), Err(Error::Spi(4))), Err(Error::Spi(4)));
}

#[test]
fn conversion_waits_until_done_or_timeout() {
    assert_eq!(adcv_conversion_ms(AdcvRedundancy::Enabled), S_ADC_MS);
    assert_eq!(adcv_conversion_ms(AdcvRedundancy::Disabled), C_ADC_MS);
    let deadline = Instant::from_ticks(100);
    assert_eq!(conversion_step::<()>(true, Instant::from_ticks(200), deadline), Some(Ok(())));
    assert_eq!(conversion_step::<()>(false, Instant::from_ticks(100), deadline), Some(Err(Error::Timeout)));
    assert_eq!(conversion_step::<()>(false, Instant::from_ticks(99), deadline), None);
}
