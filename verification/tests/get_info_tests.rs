use lenlogo::error::Error;
use lenlogo::formats::Format;
use lenlogo::lenlogo::check_privilege;
use lenlogo::lenlogo::get_info;
use lenlogo::lenlogo::PlatformInfo;
use lenlogo::lenlogo::VarReads;

fn descriptor_bytes() -> Vec<u8> {
    // enable=1, width=1920, height=1080, support_mask=0x21 (jpg+png)
    vec![1u8, 0x80, 0x07, 0x00, 0x00, 0x38, 0x04, 0x00, 0x00, 0x21]
}

fn check_bytes(version: u32) -> Vec<u8> {
    let mut v = vec![0u8; 40];
    v[0..4].copy_from_slice(&version.to_le_bytes());
    v
}

fn no_reads() -> VarReads {
    VarReads { desp: None, dvc: None, names: None, scan_desp: None, scan_dvc: None }
}

#[test]
fn canonical_reads_build_the_snapshot() {
    let reads = VarReads {
        desp: Some(descriptor_bytes()),
        dvc: Some(check_bytes(0x20003)),
        ..no_reads()
    };
    let info = get_info(&reads).unwrap();
    assert_eq!(info.enable, 1);
    assert_eq!(info.width, 1920);
    assert_eq!(info.height, 1080);
    assert_eq!(info.version, 0x20003);
    assert_eq!(info.support, vec![Format::Jpg, Format::Png]);
    assert_eq!(
        info.lbldesp_var_name,
        "LBLDESP-871455D0-5576-4FB8-9865-AF0824463B9E"
    );
    assert_eq!(
        info.lbldvc_var_name,
        "LBLDVC-871455D1-5576-4FB8-9865-AF0824463C9F"
    );
}

#[test]
fn missing_descriptor_fails_as_read_error() {
    assert!(matches!(get_info(&no_reads()), Err(Error::VariableReadError)));
}

#[test]
fn short_descriptor_fails_as_read_error() {
    let reads = VarReads { desp: Some(vec![0u8; 9]), ..no_reads() };
    assert!(matches!(get_info(&reads), Err(Error::VariableReadError)));
}

#[test]
fn wrong_length_check_record_is_corruption() {
    let reads = VarReads {
        desp: Some(descriptor_bytes()),
        dvc: Some(vec![0u8; 39]),
        ..no_reads()
    };
    assert!(matches!(get_info(&reads), Err(Error::SizeMismatch)));
}

#[test]
fn absent_check_record_degrades_to_descriptor_only() {
    let reads = VarReads { desp: Some(descriptor_bytes()), ..no_reads() };
    let info = get_info(&reads).unwrap();
    assert_eq!(info.enable, 1);
    assert_eq!(info.version, 0);
    assert_eq!(info.lbldvc_var_name, "");
    assert_eq!(info.lbldvc_var, vec![0u8; 40]);
}

#[test]
fn scan_fallback_adopts_both_names() {
    let reads = VarReads {
        desp: None,
        dvc: None,
        names: Some(vec![
            "Boot0000".to_string(),
            "lbldesp-vendor-guid".to_string(),
            "lbldvc-vendor-guid".to_string(),
        ]),
        scan_desp: Some(descriptor_bytes()),
        scan_dvc: Some(check_bytes(0x20000)),
    };
    let info = get_info(&reads).unwrap();
    assert_eq!(info.lbldesp_var_name, "lbldesp-vendor-guid");
    assert_eq!(info.lbldvc_var_name, "lbldvc-vendor-guid");
    assert_eq!(info.version, 0x20000);
}

#[test]
fn scan_without_matches_fails_as_read_error() {
    let reads = VarReads {
        names: Some(vec!["Boot0000".to_string()]),
        scan_desp: Some(descriptor_bytes()),
        scan_dvc: Some(check_bytes(0x20000)),
        ..no_reads()
    };
    assert!(matches!(get_info(&reads), Err(Error::VariableReadError)));
}

#[test]
fn named_but_unreadable_check_record_fails() {
    // the scan lists a check-record name, but its contents could not be
    // read: the operation fails rather than degrade
    let reads = VarReads {
        desp: Some(descriptor_bytes()),
        dvc: None,
        names: Some(vec!["LBLDVC-renamed".to_string()]),
        scan_desp: None,
        scan_dvc: None,
    };
    assert!(matches!(get_info(&reads), Err(Error::VariableReadError)));
}

#[test]
fn scan_without_check_match_degrades() {
    let reads = VarReads {
        desp: Some(descriptor_bytes()),
        dvc: None,
        names: Some(vec!["Boot0000".to_string()]),
        scan_desp: None,
        scan_dvc: None,
    };
    let info = get_info(&reads).unwrap();
    assert_eq!(info.lbldvc_var_name, "");
    assert_eq!(info.version, 0);
}

#[test]
fn default_snapshot_is_disabled_under_canonical_names() {
    let info = PlatformInfo::default();
    assert_eq!(info.enable, 0);
    assert_eq!(info.width, 0);
    assert_eq!(info.height, 0);
    assert_eq!(info.version, 0);
    assert!(info.support.is_empty());
    assert_eq!(
        info.lbldesp_var_name,
        "LBLDESP-871455D0-5576-4FB8-9865-AF0824463B9E"
    );
}

#[test]
fn privilege_gate() {
    assert_eq!(check_privilege(true), Ok(()));
    assert_eq!(check_privilege(false), Err(Error::PrivilegeError));
}
