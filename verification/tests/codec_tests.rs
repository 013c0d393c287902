use lenlogo::codec::check_region_is_zero;
use lenlogo::codec::check_version;
use lenlogo::codec::decode_descriptor;
use lenlogo::codec::encode_descriptor;
use lenlogo::codec::patch_check;
use lenlogo::codec::with_enable;
use lenlogo::codec::zero_patch;
use lenlogo::codec::DeviceDescriptor;

fn sample_descriptor() -> DeviceDescriptor {
    DeviceDescriptor { enable: 1, width: 1920, height: 1080, support_mask: 0x21 }
}

#[test]
fn descriptor_encodes_to_fixed_layout() {
    let bytes = encode_descriptor(&sample_descriptor());
    assert_eq!(
        bytes,
        vec![1u8, 0x80, 0x07, 0x00, 0x00, 0x38, 0x04, 0x00, 0x00, 0x21]
    );
}

#[test]
fn descriptor_round_trip() {
    let d = sample_descriptor();
    let bytes = encode_descriptor(&d);
    let back = decode_descriptor(&bytes).unwrap();
    assert_eq!(back.enable, 1);
    assert_eq!(back.width, 1920);
    assert_eq!(back.height, 1080);
    assert_eq!(back.support_mask, 0x21);
}

#[test]
fn descriptor_round_trip_extremes() {
    for d in [
        DeviceDescriptor { enable: 0, width: 0, height: 0, support_mask: 0 },
        DeviceDescriptor { enable: 255, width: u32::MAX, height: 1, support_mask: 0xFF },
    ] {
        let back = decode_descriptor(&encode_descriptor(&d)).unwrap();
        assert_eq!(back, d);
    }
}

#[test]
fn descriptor_wrong_length_is_rejected() {
    assert!(decode_descriptor(&vec![0u8; 9]).is_none());
    assert!(decode_descriptor(&vec![0u8; 11]).is_none());
    assert!(decode_descriptor(&Vec::new()).is_none());
}

#[test]
fn check_version_reads_little_endian() {
    let mut record = vec![0u8; 40];
    record[0] = 0x03;
    record[1] = 0x00;
    record[2] = 0x02;
    record[3] = 0x00;
    assert_eq!(check_version(&record), 0x20003);
}

#[test]
fn with_enable_touches_only_first_byte() {
    let bytes = encode_descriptor(&sample_descriptor());
    let cleared = with_enable(&bytes, 0);
    assert_eq!(cleared[0], 0);
    assert_eq!(&cleared[1..], &bytes[1..]);
}

#[test]
fn patch_check_writes_at_offset_four() {
    let mut record = vec![0xAAu8; 40];
    record[0] = 0x00;
    record[1] = 0x00;
    record[2] = 0x02;
    record[3] = 0x00;
    let digest = vec![0x11u8; 32];
    let patched = patch_check(&record, &digest);
    assert_eq!(&patched[0..4], &record[0..4]);
    assert_eq!(&patched[4..36], &digest[..]);
    assert_eq!(&patched[36..40], &record[36..40]);
}

#[test]
fn zero_patch_length_follows_version() {
    assert_eq!(zero_patch(0x20000), vec![0u8; 4]);
    assert_eq!(zero_patch(0x20003), vec![0u8; 36]);
    assert_eq!(zero_patch(0x12345), vec![0u8; 36]);
}

#[test]
fn region_zero_check_follows_version() {
    let mut record = vec![0u8; 40];
    record[20] = 7;
    // the CRC-32 protocol owns bytes 4-8 only
    assert!(check_region_is_zero(&record, 0x20000));
    assert!(!check_region_is_zero(&record, 0x20003));
    record[20] = 0;
    record[5] = 1;
    assert!(!check_region_is_zero(&record, 0x20000));
}
