use myscontroller_rs::firmware::{Firmware, NewFirmware};

fn blink_records() -> Vec<String> {
    vec![
        ":10000000000102030405060708090A0B0C0D0E0F78".to_owned(),
        ":10001000101112131415161718191A1B1C1D1E1F68".to_owned(),
        ":00000001FF".to_owned(),
    ]
}

#[test]
fn firmware_reader_respects_all_newline_formats() {
    let mut input = String::new() + &"\n:100490008B002097E1F30E940000F9CF0895F894B3\r";
    input.pop();
    assert_eq!(
        String::from("8B002097E1F30E940000F9CF0895F894"),
        hex::encode_upper(Firmware::ihex_to_bin(&input.trim()).unwrap())
    );
}

#[test]
fn records_to_padded_image() {
    let fw_binary = Firmware::prepare_fw(10, 2, String::from("Blink"), &blink_records()).unwrap();
    assert_eq!(fw_binary.data.len(), 128);
    assert_eq!(fw_binary.blocks, 8);
    for i in 0..32 {
        assert_eq!(fw_binary.data[i], i as u8);
    }
    for i in 32..128 {
        assert_eq!(fw_binary.data[i], 0xFF);
    }
}

#[test]
fn extract_blocks_from_binary_data() {
    let fw_binary = Firmware::prepare_fw(10, 2, String::from("Blink"), &blink_records()).unwrap();
    assert_eq!(
        fw_binary.get_block(0),
        [0, 1, 2, 3, 4, 5, 6, 7, 8, 9, 10, 11, 12, 13, 14, 15]
    );
    assert_eq!(
        fw_binary.get_block(1),
        [16, 17, 18, 19, 20, 21, 22, 23, 24, 25, 26, 27, 28, 29, 30, 31]
    );
    assert_eq!(fw_binary.get_block(2), [0xFF; 16]);
    // Past the end of the image only zero filler is served.
    assert_eq!(fw_binary.get_block(9), [0; 16]);
    assert_eq!(fw_binary.get_block(1000), [0; 16]);
}

#[test]
fn compute_correct_crc_for_image() {
    let fw_binary = Firmware::prepare_fw(10, 2, String::from("Blink"), &blink_records()).unwrap();
    assert_eq!(Firmware::compute_crc(&fw_binary.data), 0x86EF);
    assert_eq!(fw_binary.crc, 0x86EF);
}

#[test]
fn compute_crc_matches_published_check_value() {
    // The documented CRC-16/MODBUS check value for the bytes "123456789".
    assert_eq!(Firmware::compute_crc(b"123456789"), 0x4B37);
    assert_eq!(Firmware::compute_crc(&[1u8, 2u8]), 0xE181);
    assert_ne!(Firmware::compute_crc(&[1u8, 2u8]), Firmware::compute_crc(&[2u8, 1u8]));
}

#[test]
fn malformed_records_are_rejected() {
    // A corrupted checksum must reject the whole upload.
    let records = vec![":10000000000102030405060708090A0B0C0D0E0F79".to_owned()];
    assert!(Firmware::prepare_fw(10, 2, String::from("Blink"), &records).is_none());
    // A record must start with the colon start code.
    let records = vec!["10000000000102030405060708090A0B0C0D0E0F78".to_owned()];
    assert!(Firmware::prepare_fw(10, 2, String::from("Blink"), &records).is_none());
    // Odd hex text cannot decode.
    let records = vec![":10000000F".to_owned()];
    assert!(Firmware::prepare_fw(10, 2, String::from("Blink"), &records).is_none());
    // Blank lines are fine.
    let records = vec!["".to_owned(), ":00000001FF".to_owned(), "  ".to_owned()];
    let fw = Firmware::prepare_fw(10, 2, String::from("Empty"), &records).unwrap();
    assert_eq!(fw.data.len(), 0);
    assert_eq!(fw.blocks, 0);
}

#[test]
fn non_data_records_contribute_nothing() {
    assert_eq!(Firmware::ihex_to_bin(":00000001FF").unwrap(), Vec::<u8>::new());
    // An extended-address record (type 4) carries bytes but contributes none.
    assert_eq!(Firmware::ihex_to_bin(":020000040000FA").unwrap(), Vec::<u8>::new());
    assert!(Firmware::ihex_to_bin("not a record").is_none());
}

#[test]
fn uploads_are_page_padded() {
    let nf = NewFirmware::build(7, 3, String::from("Pad"), vec![0xAB; 130]);
    assert_eq!(nf.data.len(), 256);
    assert_eq!(nf.blocks, 16);
    assert_eq!(nf.data[129], 0xAB);
    assert_eq!(nf.data[130], 0xFF);
    assert_eq!(nf.crc as u16, Firmware::compute_crc(&nf.data));
    // An already aligned image gains nothing.
    let nf = NewFirmware::build(7, 3, String::from("Pad"), vec![0u8; 128]);
    assert_eq!(nf.data.len(), 128);
}
