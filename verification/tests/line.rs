use firmware_rs::adbms6830b::chip::registers::config_a::ConfigA;
use firmware_rs::adbms6830b::chip::registers::status::StatusA;
use firmware_rs::adbms6830b::line::{
    count_valid_blocks, poll_done, poll_len, read_len, write_blocks, ChipResponse, Error, Line,
    PecStatus, Responses, BLOCK_BYTES,
};
use firmware_rs::crc::data_pec;

fn rx_block(data: [u8; 6], ccnt: u8, good: bool) -> [u8; 8] {
    let pec = data_pec(&data, ccnt) ^ if good { 0 } else { 1 };
    [data[0], data[1], data[2], data[3], data[4], data[5], (ccnt << 2) | (pec >> 8) as u8, (pec & 0xFF) as u8]
}

#[test]
fn a_good_block_decodes() {
    let block = rx_block([1, 2, 3, 4, 5, 6], 9, true);
    let r: ChipResponse<StatusA> = ChipResponse::from_block(&block);
    assert_eq!(r.command_counter(), 9);
    assert_eq!(r.pec(), PecStatus::Success);
    assert!(r.pec().is_success());
    assert!(!r.pec().is_failed());
    assert_eq!(r.data().into_bits(), 0x060504030201);
}

#[test]
fn a_corrupted_block_fails_its_pec() {
    let block = rx_block([1, 2, 3, 4, 5, 6], 9, false);
    let r: ChipResponse<StatusA> = ChipResponse::from_block(&block);
    assert_eq!(r.pec(), PecStatus::Failed);
}

#[test]
fn responses_cover_the_devices_read() {
    let blocks = [rx_block([0; 6], 1, true), rx_block([0; 6], 1, false), rx_block([0; 6], 1, true), [0; 8]];
    let r: Responses<StatusA, 4> = Responses::from_blocks(&blocks, 3);
    assert_eq!(r.len(), 3);
    assert!(!r.is_empty());
    assert!(r.get(3).is_none());
    assert_eq!(r.get(1).unwrap().pec(), PecStatus::Failed);
    assert!(!r.all_ok());
    let all_good = [rx_block([0; 6], 1, true); 4];
    let r: Responses<StatusA, 4> = Responses::from_blocks(&all_good, 4);
    assert!(r.all_ok());
    let none: Responses<StatusA, 4> = Responses::empty();
    assert_eq!(none.len(), 0);
    assert!(none.is_empty());
    assert!(none.all_ok());
}

#[test]
fn blank_response_is_zero_and_failed() {
    let r: ChipResponse<StatusA> = ChipResponse::blank();
    assert_eq!(r.data().into_bits(), 0);
    assert_eq!(r.command_counter(), 0);
    assert_eq!(r.pec(), PecStatus::Failed);
}

#[test]
fn write_blocks_reverse_the_devices() {
    let groups = [ConfigA::from_bits(0x0000_0A0B_0C0D_0E0F), ConfigA::from_bits(0x0000_1112_1314_1516)];
    let bytes = write_blocks::<ConfigA, (), 4>(&groups).unwrap();
    assert_eq!(bytes.len(), 2 * BLOCK_BYTES);
    // the furthest device's block goes first
    assert_eq!(&bytes[0..6], &[0x16, 0x15, 0x14, 0x13, 0x12, 0x11]);
    assert_eq!(&bytes[8..14], &[0x0F, 0x0E, 0x0D, 0x0C, 0x0B, 0x0A]);
    let pec = data_pec(&bytes[0..6], 0);
    assert_eq!(bytes[6], (pec >> 8) as u8);
    assert_eq!(bytes[7], (pec & 0xFF) as u8);
}

#[test]
fn write_blocks_refuse_too_many_devices() {
    let groups = [ConfigA::new(); 3];
    assert_eq!(write_blocks::<ConfigA, (), 2>(&groups), Err(Error::TooManyDevices));
}

#[test]
fn read_and_poll_lengths() {
    assert_eq!(read_len::<(), 4>(3), Ok(24));
    assert_eq!(read_len::<(), 4>(5), Err(Error::TooManyDevices));
    assert_eq!(poll_len::<(), 10>(0), Ok(1));
    assert_eq!(poll_len::<(), 10>(1), Ok(2));
    assert_eq!(poll_len::<(), 10>(4), Ok(2));
    assert_eq!(poll_len::<(), 10>(5), Ok(3));
    assert_eq!(poll_len::<(), 10>(10), Ok(4));
    assert_eq!(poll_len::<(), 10>(11), Err(Error::TooManyDevices));
}

#[test]
fn polling_is_done_when_the_last_byte_is_high() {
    assert!(poll_done(&[0x00, 0xFF]));
    assert!(!poll_done(&[0xFF, 0x0F]));
}

#[test]
fn detection_stops_at_the_first_bad_pec() {
    let blocks = [rx_block([1; 6], 0, true), rx_block([2; 6], 0, true), rx_block([3; 6], 0, false), rx_block([4; 6], 0, true)];
    assert_eq!(count_valid_blocks(&blocks), 2);
    assert_eq!(count_valid_blocks(&blocks[..2]), 2);
    assert_eq!(count_valid_blocks(&[]), 0);
}

#[test]
fn a_line_gives_back_its_device() {
    let line: Line<u32, 4> = Line::new(7);
    assert_eq!(line.release(), 7);
}
