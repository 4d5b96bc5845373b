use firmware_rs::adbms6830b::chip::commands::config::{rdcfga, wrcfga};
use firmware_rs::adbms6830b::chip::pec::{DataPecRx, DataPecTx};
use firmware_rs::crc::{command_pec, crc15, data_pec};

#[test]
fn command_pec_of_rdcfga() {
    assert_eq!(command_pec(&[0x00, 0x02]), 0x2B0A);
}

#[test]
fn command_pec_of_wrcfga() {
    assert_eq!(command_pec(&[0x00, 0x01]), 0x3D6E);
}

#[test]
fn command_pec_is_crc15_shifted() {
    let bytes = [0x07, 0x22];
    assert_eq!(command_pec(&bytes), crc15(&bytes).wrapping_shl(1));
}

#[test]
fn command_frames_carry_their_pec() {
    assert_eq!(rdcfga().frame().to_bytes(), [0x00, 0x02, 0x2B, 0x0A]);
    assert_eq!(wrcfga().frame().to_bytes(), [0x00, 0x01, 0x3D, 0x6E]);
}

#[test]
fn data_pec_of_zeros() {
    assert_eq!(data_pec(&[0u8; 6], 0), 0x3E3);
}

#[test]
fn data_pec_of_counting_bytes() {
    assert_eq!(data_pec(&[1, 2, 3, 4, 5, 6], 0), 0x131);
}

#[test]
fn data_pec_covers_the_counter() {
    assert_eq!(data_pec(&[1, 2, 3, 4, 5, 6], 5), 0x382);
}

#[test]
fn data_pec_is_ten_bits() {
    for seed in 0u8..=255 {
        let data = [seed, seed.wrapping_mul(3), 0xFF, seed ^ 0x5A, 0, seed.wrapping_add(7)];
        assert!(data_pec(&data, seed) < 0x400);
    }
}

#[test]
fn a_sent_block_verifies_on_receipt() {
    let data = [0x12, 0x34, 0x56, 0x78, 0x9A, 0xBC];
    let tx = DataPecTx::new(&data);
    let rx = DataPecRx::from_bytes([tx.pec0(), tx.pec1()]);
    assert_eq!(rx.ccnt(), 0);
    assert!(rx.verify(&data));
}

#[test]
fn a_received_block_carries_its_counter() {
    let data = [1, 2, 3, 4, 5, 6];
    let pec = data_pec(&data, 5);
    let rx = DataPecRx::from_bytes([(5 << 2) | (pec >> 8) as u8, (pec & 0xFF) as u8]);
    assert_eq!(rx.ccnt(), 5);
    assert_eq!(rx.pec(), 0x382);
    assert!(rx.verify(&data));
    assert!(!rx.verify(&[1, 2, 3, 4, 5, 7]));
}
