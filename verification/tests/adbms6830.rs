use firmware_rs::adbms6830::client::{
    buffers_fit, command_frame, parse_read, pec10_calc, pec15_calc, write_frame, RX_SIZE, TX_SIZE,
};
use firmware_rs::adbms6830::registers::{command_bytes, read_groups, write_payload, AdbmsCommand};
use firmware_rs::adbms6830::types::{
    Adax, Adax2, Adax2Channels, AdaxChannels, AdbmsCellVoltage, Adcv, Adsv, CellVoltageA, ClrCell,
    CompThreshold, ConfigA, ConfigB, IirCorner, OwSettings, SerialId, StatusC, StatusD, Threshold,
};
use firmware_rs::crc::{command_pec, data_pec};

#[test]
fn command_pec_matches_the_table() {
    assert_eq!(pec15_calc([0x00, 0x02]), 0x2B0A);
    assert_eq!(pec15_calc([0x07, 0x22]), command_pec(&[0x07, 0x22]));
    assert_eq!(command_frame([0x00, 0x01]), [0x00, 0x01, 0x3D, 0x6E]);
}

#[test]
fn data_pec_of_sent_and_received_blocks() {
    let data = [1u8, 2, 3, 4, 5, 6];
    assert_eq!(pec10_calc::<6, false>(&data), 0x131);
    let pec = data_pec(&data, 5);
    let rx = [1u8, 2, 3, 4, 5, 6, (5 << 2) | (pec >> 8) as u8, (pec & 0xFF) as u8];
    assert_eq!(pec10_calc::<8, true>(&rx), 0x382);
}

#[test]
fn the_command_code_goes_out_low_byte_first() {
    assert_eq!(command_bytes(0x0123), [0x23, 0x01]);
}

#[test]
fn a_write_frame_carries_the_far_ic_first() {
    let mut tx = [0xAAu8; 4 + 2 * RX_SIZE + 3];
    let data: [u8; 2 * TX_SIZE] = [1, 2, 3, 4, 5, 6, 7, 8, 9, 10, 11, 12];
    write_frame::<2, 12>(&mut tx, [0x00, 0x01], &data);
    assert_eq!(&tx[0..4], &[0x00, 0x01, 0x3D, 0x6E]);
    assert_eq!(&tx[4..10], &[7, 8, 9, 10, 11, 12]);
    let pec = data_pec(&[7, 8, 9, 10, 11, 12], 0);
    assert_eq!(tx[10], (pec >> 8) as u8);
    assert_eq!(tx[11], (pec & 0xFF) as u8);
    assert_eq!(&tx[12..18], &[1, 2, 3, 4, 5, 6]);
    assert_eq!(&tx[20..], &[0, 0, 0]);
}

fn rx_block(data: [u8; 6], ccnt: u8, good: bool) -> [u8; 8] {
    let pec = data_pec(&data, ccnt) ^ if good { 0 } else { 1 };
    [data[0], data[1], data[2], data[3], data[4], data[5], (ccnt << 2) | (pec >> 8) as u8, (pec & 0xFF) as u8]
}

#[test]
fn a_read_is_checked_block_by_block() {
    let mut rx = Vec::new();
    rx.extend_from_slice(&rx_block([1; 6], 7, true));
    rx.extend_from_slice(&rx_block([2; 6], 9, true));
    let mut cntr = [0u32; 2];
    let out = parse_read::<2, 16>(&rx, &mut cntr).unwrap();
    assert_eq!(&out[..], &rx[..]);
    assert_eq!(cntr, [7, 9]);
    let mut bad = rx.clone();
    bad[15] ^= 1;
    let mut cntr = [0u32; 2];
    assert_eq!(parse_read::<2, 16>(&bad, &mut cntr), Err(1));
    assert_eq!(cntr, [7, 9]);
    let mut bad = rx.clone();
    bad[0] ^= 1;
    let mut cntr = [5u32; 2];
    assert_eq!(parse_read::<2, 16>(&bad, &mut cntr), Err(0));
    assert_eq!(cntr, [7, 5]);
}

#[test]
fn buffers_must_hold_the_chain() {
    assert!(buffers_fit::<2, 16, 12>(20, 16));
    assert!(!buffers_fit::<2, 16, 12>(19, 16));
    assert!(!buffers_fit::<2, 15, 12>(20, 16));
    assert!(!buffers_fit::<0, 16, 12>(20, 16));
}

#[test]
fn register_payloads_are_six_bytes_each() {
    let regs = [ConfigB::from_bits(0x0000_0102_0304_0506), ConfigB::from_bits(0x0000_A1A2_A3A4_A5A6)];
    let data: [u8; 12] = write_payload::<ConfigB, 2, 12>(&regs);
    assert_eq!(data, [6, 5, 4, 3, 2, 1, 0xA6, 0xA5, 0xA4, 0xA3, 0xA2, 0xA1]);
    let mut raw = [0u8; 16];
    raw[..6].copy_from_slice(&[6, 5, 4, 3, 2, 1]);
    raw[8..14].copy_from_slice(&[0xA6, 0xA5, 0xA4, 0xA3, 0xA2, 0xA1]);
    let groups: Vec<CellVoltageA> = read_groups::<CellVoltageA, 2, 16>(&raw);
    assert_eq!(groups[0].c1v(), AdbmsCellVoltage(0x0506));
    assert_eq!(groups[1].c3v(), AdbmsCellVoltage(0xA1A2));
}

#[test]
fn config_a_defaults() {
    let c = ConfigA::new();
    assert_eq!(c.cth(), CompThreshold::Mv8_1);
    assert_eq!(c.gpo(), 0x3FF);
    assert!(!c.refon());
    let b = ConfigA::boot_default();
    assert!(b.refon());
    assert_eq!(b.with_refon(false), c);
    let c = c.with_fc(IirCorner::Fpa32).with_comm_bk(true);
    assert_eq!(c.fc(), IirCorner::Fpa32);
    assert!(c.comm_bk());
    assert_eq!(CompThreshold::from_bits(1), CompThreshold::Mv8_1);
    assert_eq!(IirCorner::from_bits(7).into_bits(), 7);
}

#[test]
fn three_bit_codes_saturate_at_the_last_variant() {
    for b in 0u8..7 {
        assert_eq!(CompThreshold::from_bits(b).into_bits(), b);
        assert_eq!(IirCorner::from_bits(b).into_bits(), b);
    }
    assert_eq!(IirCorner::from_bits(0), IirCorner::Disabled);
    for b in [7u8, 8, 9, 15, 255] {
        assert_eq!(CompThreshold::from_bits(b), CompThreshold::Mv40_05);
        assert_eq!(IirCorner::from_bits(b), IirCorner::Fpa256);
    }
}

#[test]
fn config_b_thresholds() {
    let c = ConfigB::new();
    assert_eq!(c.vuv().raw(), 0x800);
    assert_eq!(c.vov().raw(), 0x7FF);
    let c = c.with_vuv(Threshold(0xF123));
    assert_eq!(c.vuv().raw(), 0x123);
    assert_eq!(c.vov().raw(), 0x7FF);
}

#[test]
fn voltage_codes() {
    assert!(AdbmsCellVoltage(0x8000).is_cleared());
    assert!(!AdbmsCellVoltage(0x7FFF).is_cleared());
    assert_eq!(Threshold(0xFFFF).into_bits(), 0x0FFF);
    assert_eq!(AdbmsCellVoltage::default(), AdbmsCellVoltage(0));
}

#[test]
fn conversion_commands() {
    let c = Adcv { rd: true, dcp: false, cont: true, rstf: false, ow: OwSettings::OddOn };
    assert_eq!(c.get_command(), 0b0100110000 | 1 << 8 | 1 << 7 | 0b10);
    let s = Adsv { dcp: true, cont: false, ow: OwSettings::Off };
    assert_eq!(s.get_command(), 0b00101101000 | 1 << 4);
    let a = Adax { ow: true, pup: false, ch: AdaxChannels::VRES };
    assert_eq!(a.get_command(), 0b10000010000 | 1 << 9 | 1 << 7 | 1);
    let a2 = Adax2 { ch: Adax2Channels::GPIO10 };
    assert_eq!(a2.get_command(), 0b10000000000 | 10);
    assert_eq!(ClrCell {}.get_command(), 0b11100010001);
}

#[test]
fn status_c_counters() {
    // CT[10:6] = 0b10101 in the low five bits, CT[5:0] = 0b110011 in the top six, CTS = 0b10
    let raw: u64 = (0b10101 | 0b10 << 8 | 0b110011 << 10) << 16;
    let s = StatusC::from_bits(raw);
    assert_eq!(s.ct(), 0b10101 << 6 | 0b110011);
    assert_eq!(s.cts(), 0b10);
    assert_eq!(s.ccts(), (0b10101 << 6 | 0b110011) << 2 | 0b10);
}

#[test]
fn status_d_flags() {
    // cell 1 under, cell 2 over, cell 16 under and over
    let packed: u32 = 0b01 | 0b10 << 2 | 0b11 << 30;
    let s = StatusD::from_bits(packed as u64);
    assert!(s.cell_uv(1));
    assert!(!s.cell_ov(1));
    assert!(s.cell_ov(2));
    assert!(s.cell_uv(16) && s.cell_ov(16));
    assert_eq!(s.uv_mask(), 0b1000_0000_0000_0001);
    assert_eq!(s.ov_mask(), 0b1000_0000_0000_0010);
}

#[test]
fn serial_id_device() {
    let s = SerialId::from_bits(0b101011 << 9);
    assert_eq!(s.device_id(), 0b101011);
}

#[test]
fn registers_convert_to_and_from_bits() {
    let c: ConfigA = 0x1234u64.into();
    let bits: u64 = c.into();
    assert_eq!(bits, 0x1234);
}
