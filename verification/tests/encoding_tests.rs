use base64::Engine;

use tdx_seal::encoding::format_value;
use tdx_seal::keys::{derive_private_key, get_sealing_key, get_tdx_measurement_report};

#[test]
fn hex_format_of_known_bytes() {
    let data: Vec<u8> = vec![0x00, 0x01, 0x0A, 0x7F, 0x80, 0xFF];
    assert_eq!(format_value(&data, "hex"), "00010a7f80ff");
}

#[test]
fn hex_format_of_empty_buffer() {
    let data: Vec<u8> = Vec::new();
    assert_eq!(format_value(&data, "hex"), "");
    assert_eq!(format_value(&data, "base64"), "");
}

#[test]
fn base64_format_of_known_bytes() {
    // One group plus each padded tail length.
    assert_eq!(format_value(&vec![0x4D], "base64"), "TQ==");
    assert_eq!(format_value(&vec![0x4D, 0x61], "base64"), "TWE=");
    assert_eq!(format_value(&vec![0x4D, 0x61, 0x6E], "base64"), "TWFu");
    assert_eq!(format_value(&vec![0x4D, 0x61, 0x6E, 0x4D], "base64"), "TWFuTQ==");
}

#[test]
fn unknown_format_falls_back_to_hex() {
    let data: Vec<u8> = vec![0xDE, 0xAD, 0xBE, 0xEF];
    let hex_output = format_value(&data, "hex");
    assert_eq!(format_value(&data, "json"), hex_output);
    assert_eq!(format_value(&data, ""), hex_output);
    assert_eq!(format_value(&data, "BASE64"), hex_output);
}

#[test]
fn hex_round_trip_recovers_the_bytes() {
    let m = get_tdx_measurement_report().unwrap();
    let k = get_sealing_key(&m).unwrap();
    let p = derive_private_key(&k).unwrap();
    for buf in [&m, &k, &p] {
        let printed = format_value(buf, "hex");
        assert_eq!(hex::decode(&printed).unwrap(), **buf);
    }
}

#[test]
fn base64_round_trip_recovers_the_bytes() {
    let m = get_tdx_measurement_report().unwrap();
    let k = get_sealing_key(&m).unwrap();
    let p = derive_private_key(&k).unwrap();
    for buf in [&m, &k, &p] {
        let printed = format_value(buf, "base64");
        let decoded = base64::engine::general_purpose::STANDARD.decode(&printed).unwrap();
        assert_eq!(decoded, **buf);
    }
}

#[test]
fn pipeline_values_in_both_formats() {
    let m = get_tdx_measurement_report().unwrap();
    let k = get_sealing_key(&m).unwrap();
    let p = derive_private_key(&k).unwrap();
    assert_eq!(
        format_value(&m, "hex"),
        "abacadaeafb0b1b2b3b4b5b6b7b8b9babbbcbdbebfc0c1c2c3c4c5c6c7c8c9ca"
    );
    assert_eq!(
        format_value(&k, "hex"),
        "78797a7b7c7d7e7f808182838485868788898a8b8c8d8e8f9091929394959697"
    );
    assert_eq!(format_value(&m, "base64"), "q6ytrq+wsbKztLW2t7i5uru8vb6/wMHCw8TFxsfIyco=");
    assert_eq!(format_value(&k, "base64"), "eHl6e3x9fn+AgYKDhIWGh4iJiouMjY6PkJGSk5SVlpc=");
    assert_eq!(format_value(&p, "base64"), "HMo29rKTatjNV27/SCPfentmE5quM9VZxIUXvLSuY94=");
}
