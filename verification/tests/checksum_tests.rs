use lenlogo::checksum::crc32;
use lenlogo::checksum::select_and_compute;
use lenlogo::checksum::version_recognized;
use lenlogo::checksum::CRC_PROTOCOL_VERSION;
use lenlogo::checksum::SHA_PROTOCOL_VERSION;
use lenlogo::error::Error;

#[test]
fn crc32_known_value() {
    let data: Vec<u8> = b"123456789".to_vec();
    assert_eq!(crc32(&data), 0xCBF43926);
}

#[test]
fn crc32_empty_input() {
    assert_eq!(crc32(&Vec::new()), 0);
}

#[test]
fn crc_version_returns_little_endian_bytes() {
    let data: Vec<u8> = b"123456789".to_vec();
    let r = select_and_compute(&data, CRC_PROTOCOL_VERSION).unwrap();
    assert_eq!(r, vec![0x26, 0x39, 0xF4, 0xCB]);
}

#[test]
fn crc_of_short_file_covers_whole_file() {
    // fewer than 512 bytes: the bounded-prefix CRC-32 equals the CRC-32
    // of the whole file
    let data: Vec<u8> = (0..100u32).map(|i| (i % 251) as u8).collect();
    let bounded = select_and_compute(&data, CRC_PROTOCOL_VERSION).unwrap();
    assert_eq!(bounded, crc32(&data).to_le_bytes().to_vec());
}

#[test]
fn crc_of_long_file_covers_first_512_bytes_only() {
    let long: Vec<u8> = (0..2000u32).map(|i| (i % 251) as u8).collect();
    let prefix: Vec<u8> = long[..512].to_vec();
    let from_long = select_and_compute(&long, CRC_PROTOCOL_VERSION).unwrap();
    let from_prefix = select_and_compute(&prefix, CRC_PROTOCOL_VERSION).unwrap();
    assert_eq!(from_long, from_prefix);
    assert_eq!(from_long, crc32(&prefix).to_le_bytes().to_vec());
}

#[test]
fn sha256_of_empty_file_is_the_well_known_digest() {
    let r = select_and_compute(&Vec::new(), SHA_PROTOCOL_VERSION).unwrap();
    let expected: Vec<u8> = vec![
        0xe3, 0xb0, 0xc4, 0x42, 0x98, 0xfc, 0x1c, 0x14, 0x9a, 0xfb, 0xf4, 0xc8, 0x99, 0x6f,
        0xb9, 0x24, 0x27, 0xae, 0x41, 0xe4, 0x64, 0x9b, 0x93, 0x4c, 0xa4, 0x95, 0x99, 0x1b,
        0x78, 0x52, 0xb8, 0x55,
    ];
    assert_eq!(r, expected);
}

#[test]
fn sha256_digest_is_32_bytes_and_input_dependent() {
    let a = select_and_compute(&vec![1, 2, 3], SHA_PROTOCOL_VERSION).unwrap();
    let b = select_and_compute(&vec![1, 2, 4], SHA_PROTOCOL_VERSION).unwrap();
    assert_eq!(a.len(), 32);
    assert_eq!(b.len(), 32);
    assert_ne!(a, b);
}

#[test]
fn unrecognized_version_is_refused() {
    assert_eq!(
        select_and_compute(&vec![1, 2, 3], 0x1),
        Err(Error::UnsupportedVersion)
    );
    assert_eq!(select_and_compute(&Vec::new(), 0), Err(Error::UnsupportedVersion));
}

#[test]
fn recognized_versions() {
    assert!(version_recognized(0x20000));
    assert!(version_recognized(0x20003));
    assert!(!version_recognized(0x20001));
    assert!(!version_recognized(0));
}
