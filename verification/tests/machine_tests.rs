use lenlogo::checksum::select_and_compute;
use lenlogo::error::Error;
use lenlogo::esp_partition::StageAction;
use lenlogo::esp_partition::StageMachine;
use lenlogo::esp_partition::StageState;
use lenlogo::lenlogo::get_info;
use lenlogo::lenlogo::LogoAction;
use lenlogo::lenlogo::PlatformInfo;
use lenlogo::lenlogo::VarReads;
use lenlogo::restore_logo::RestoreLogoMachine;
use lenlogo::set_logo::SetLogoMachine;
use lenlogo::set_logo::SetState;

fn descriptor_bytes(enable: u8) -> Vec<u8> {
    // width=1920, height=1080, support_mask=0x21 (jpg+png)
    vec![enable, 0x80, 0x07, 0x00, 0x00, 0x38, 0x04, 0x00, 0x00, 0x21]
}

fn check_bytes(version: u32) -> Vec<u8> {
    let mut v = vec![0u8; 40];
    v[0..4].copy_from_slice(&version.to_le_bytes());
    v
}

fn snapshot(enable: u8, version: u32) -> PlatformInfo {
    let reads = VarReads {
        desp: Some(descriptor_bytes(enable)),
        dvc: Some(check_bytes(version)),
        names: None,
        scan_desp: None,
        scan_dvc: None,
    };
    get_info(&reads).unwrap()
}

// ---- the staging flow and its mount guard ----

#[test]
fn stage_copy_flow_happy_path() {
    let (mut m, a) = StageMachine::stage_file();
    assert!(matches!(a, StageAction::CheckSource));
    let a = m.step(true);
    assert!(matches!(a, StageAction::Mount));
    let a = m.step(true);
    assert!(matches!(a, StageAction::RemoveOldDir));
    let a = m.step(true);
    assert!(matches!(a, StageAction::CreateDir));
    let a = m.step(true);
    assert!(matches!(a, StageAction::CopyFile));
    let a = m.step(true);
    assert!(matches!(a, StageAction::Unmount));
    let a = m.step(true);
    assert!(matches!(a, StageAction::Finish));
    assert!(m.result());
    assert!(!m.unmount_warning);
}

#[test]
fn copy_failure_after_mount_still_unmounts_exactly_once() {
    // a staging failure after a successful mount: the unmount request is
    // still issued, exactly once, before the flow reports failure
    let (mut m, a) = StageMachine::stage_file();
    assert!(matches!(a, StageAction::CheckSource));
    let mut unmounts = 0;
    let mut a = m.step(true); // source ok -> Mount
    loop {
        let ev = !matches!(a, StageAction::CopyFile); // fail only the copy
        a = match a {
            StageAction::Finish => break,
            StageAction::Unmount => {
                unmounts += 1;
                m.step(true)
            }
            _ => m.step(ev),
        };
    }
    assert_eq!(unmounts, 1);
    assert!(!m.result());
}

#[test]
fn mount_failure_never_unmounts() {
    let (mut m, _) = StageMachine::stage_file();
    let a = m.step(true); // source ok
    assert!(matches!(a, StageAction::Mount));
    let a = m.step(false); // mount fails
    assert!(matches!(a, StageAction::Finish));
    assert!(!m.result());
}

#[test]
fn missing_source_fails_before_mounting() {
    let (mut m, _) = StageMachine::stage_file();
    let a = m.step(false);
    assert!(matches!(a, StageAction::Finish));
    assert!(!m.result());
}

#[test]
fn unmount_failure_is_a_warning_not_a_failure() {
    let (mut m, _) = StageMachine::delete_logo();
    let a = m.step(true); // mounted -> remove
    assert!(matches!(a, StageAction::RemoveOldDir));
    let a = m.step(true); // removed -> unmount
    assert!(matches!(a, StageAction::Unmount));
    let a = m.step(false); // unmount fails
    assert!(matches!(a, StageAction::Finish));
    assert!(m.result());
    assert!(m.unmount_warning);
}

#[test]
fn delete_flow_skips_copy_states() {
    let (mut m, a) = StageMachine::delete_logo();
    assert!(matches!(a, StageAction::Mount));
    let a = m.step(true);
    assert!(matches!(a, StageAction::RemoveOldDir));
    let a = m.step(false); // removal fails
    assert!(matches!(a, StageAction::Unmount));
    let a = m.step(true);
    assert!(matches!(a, StageAction::Finish));
    assert!(matches!(m.state, StageState::Done { ok: false }));
}

// ---- set_logo ----

#[test]
fn set_logo_end_to_end_sha_version() {
    let info = snapshot(0, 0x20003);
    let image: Vec<u8> = (0..1000u32).map(|i| (i % 251) as u8).collect();
    let digest = select_and_compute(&image, 0x20003).unwrap();

    let (mut m, a) = SetLogoMachine::new(info, "logo.png".to_string());
    match &a {
        LogoAction::StageLogo { src, dst } => {
            assert_eq!(src, "logo.png");
            assert_eq!(dst, "/EFI/Lenovo/Logo/mylogo_1920x1080.png");
        }
        other => panic!("expected staging first, got {:?}", action_name(other)),
    }
    let a = m.step(true); // staged
    assert!(matches!(&a, LogoAction::ClearImmutable { name }
        if name == "LBLDESP-871455D0-5576-4FB8-9865-AF0824463B9E"));
    let a = m.step(true); // cleared
    match &a {
        LogoAction::WriteVar { name, bytes } => {
            assert_eq!(name, "LBLDESP-871455D0-5576-4FB8-9865-AF0824463B9E");
            assert_eq!(bytes, &descriptor_bytes(1));
        }
        other => panic!("expected the descriptor write, got {:?}", action_name(other)),
    }
    let a = m.step(true); // written
    assert!(matches!(a, LogoAction::RestoreImmutable { .. }));
    let a = m.step(true); // restored
    assert!(matches!(a, LogoAction::ComputeChecksum { version: 0x20003 }));
    let a = m.step_checksum(Some(digest.clone()));
    assert!(matches!(&a, LogoAction::ClearImmutable { name }
        if name == "LBLDVC-871455D1-5576-4FB8-9865-AF0824463C9F"));
    let a = m.step(true);
    match &a {
        LogoAction::WriteVar { name, bytes } => {
            assert_eq!(name, "LBLDVC-871455D1-5576-4FB8-9865-AF0824463C9F");
            let mut expected = check_bytes(0x20003);
            expected[4..36].copy_from_slice(&digest);
            assert_eq!(bytes, &expected);
        }
        other => panic!("expected the check write, got {:?}", action_name(other)),
    }
    let a = m.step(true);
    assert!(matches!(a, LogoAction::RestoreImmutable { .. }));
    let a = m.step(true);
    assert!(matches!(a, LogoAction::Finish));
    assert_eq!(m.result(), Ok(()));

    // a fresh read of what was written reflects the mutation
    let reads = VarReads {
        desp: Some(m.info.lbldesp_var.clone()),
        dvc: Some(m.info.lbldvc_var.clone()),
        names: None,
        scan_desp: None,
        scan_dvc: None,
    };
    let after = get_info(&reads).unwrap();
    assert_eq!(after.enable, 1);
    assert_eq!(&after.lbldvc_var[4..36], &digest[..]);
}

#[test]
fn set_logo_unrecognized_version_is_refused_untouched() {
    let info = snapshot(0, 0x1);
    let enable_before = info.enable;
    let (mut m, a) = SetLogoMachine::new(info, "logo.png".to_string());
    assert!(matches!(a, LogoAction::Finish));
    assert!(matches!(m.state, SetState::Done));
    assert_eq!(m.result(), Err(Error::UnsupportedVersion));
    assert_eq!(m.info.enable, enable_before);
    assert_eq!(m.info.lbldesp_var, descriptor_bytes(0));
}

#[test]
fn set_logo_staging_failure_writes_nothing() {
    let info = snapshot(0, 0x20003);
    let (mut m, _) = SetLogoMachine::new(info, "logo.png".to_string());
    let a = m.step(false); // staging failed
    assert!(matches!(a, LogoAction::Finish));
    assert_eq!(m.result(), Err(Error::StagingFailed));
    assert_eq!(m.info.enable, 0);
}

#[test]
fn set_logo_without_extension_cannot_stage() {
    let info = snapshot(0, 0x20003);
    let (m, a) = SetLogoMachine::new(info, "logo".to_string());
    assert!(matches!(a, LogoAction::Finish));
    assert_eq!(m.result(), Err(Error::StagingFailed));
}

#[test]
fn set_logo_checksum_failure_keeps_descriptor_committed() {
    let info = snapshot(0, 0x20003);
    let (mut m, _) = SetLogoMachine::new(info, "logo.png".to_string());
    m.step(true); // staged -> clear
    m.step(true); // cleared -> write
    m.step(true); // written -> restore
    let a = m.step(true); // restored -> checksum
    assert!(matches!(a, LogoAction::ComputeChecksum { .. }));
    let a = m.step_checksum(None); // hashing failed
    assert!(matches!(a, LogoAction::Finish));
    assert_eq!(m.result(), Err(Error::ChecksumFailed));
    // the descriptor mutation is deliberately not rolled back
    assert_eq!(m.info.enable, 1);
    assert_eq!(m.info.lbldesp_var[0], 1);
}

#[test]
fn set_logo_write_failure_is_reported() {
    let info = snapshot(0, 0x20003);
    let (mut m, _) = SetLogoMachine::new(info, "logo.png".to_string());
    m.step(true); // staged
    m.step(true); // cleared
    let a = m.step(false); // descriptor write fails
    assert!(matches!(a, LogoAction::RestoreImmutable { .. }));
    let a = m.step(true);
    assert!(matches!(a, LogoAction::Finish));
    assert_eq!(m.result(), Err(Error::VariableWriteError));
    assert_eq!(m.info.enable, 0);
}

#[test]
fn set_logo_toggle_failure_is_blamed_when_write_fails_too() {
    let info = snapshot(0, 0x20003);
    let (mut m, _) = SetLogoMachine::new(info, "logo.png".to_string());
    m.step(true); // staged
    m.step(false); // immutability clear fails; write still attempted
    let a = m.step(false); // and the write fails as well
    assert!(matches!(a, LogoAction::RestoreImmutable { .. }));
    m.step(true);
    assert_eq!(m.result(), Err(Error::ImmutabilityError));
    assert_eq!(m.imm_warnings, 1);
}

#[test]
fn set_logo_skips_checksum_without_check_record() {
    let reads = VarReads {
        desp: Some(descriptor_bytes(0)),
        dvc: None,
        names: None,
        scan_desp: None,
        scan_dvc: None,
    };
    let info = get_info(&reads).unwrap();
    let (mut m, _) = SetLogoMachine::new(info, "logo.png".to_string());
    m.step(true); // staged
    m.step(true); // cleared
    m.step(true); // written
    let a = m.step(true); // restored; no check record -> done
    assert!(matches!(a, LogoAction::Finish));
    assert_eq!(m.result(), Ok(()));
    assert_eq!(m.info.enable, 1);
}

#[test]
fn set_logo_succeeds_despite_toggle_failures() {
    let info = snapshot(0, 0x20003);
    let image = vec![1u8, 2, 3];
    let digest = select_and_compute(&image, 0x20003).unwrap();
    let (mut m, _) = SetLogoMachine::new(info, "logo.png".to_string());
    m.step(true); // staged
    m.step(false); // descriptor clear fails: write still attempted
    m.step(true); // and succeeds
    let a = m.step(false); // restore toggle fails: warning only
    assert!(matches!(a, LogoAction::ComputeChecksum { .. }));
    m.step_checksum(Some(digest));
    m.step(false); // check clear fails too
    m.step(true); // write succeeds
    let a = m.step(false); // restore toggle fails again
    assert!(matches!(a, LogoAction::Finish));
    assert_eq!(m.result(), Ok(()));
    assert_eq!(m.imm_warnings, 4);
}

// ---- restore_logo ----

fn run_restore(info: PlatformInfo) -> (RestoreLogoMachine, Vec<Vec<u8>>, usize) {
    let (mut m, mut a) = RestoreLogoMachine::new(info);
    let mut writes: Vec<Vec<u8>> = Vec::new();
    let mut steps = 0;
    loop {
        match a {
            LogoAction::Finish => break,
            LogoAction::WriteVar { ref bytes, .. } => {
                writes.push(bytes.clone());
            }
            _ => {}
        }
        a = m.step(true);
        steps += 1;
        assert!(steps < 20, "restore did not finish");
    }
    (m, writes, steps)
}

#[test]
fn restore_zeros_exactly_the_crc_region() {
    // version=0x20000: restore zeros exactly bytes 4-8 of the check
    // record, whatever the rest holds
    let reads = VarReads {
        desp: Some(descriptor_bytes(1)),
        dvc: Some({
            let mut v = check_bytes(0x20000);
            for i in 4..40 {
                v[i] = 0x5A;
            }
            v
        }),
        names: None,
        scan_desp: None,
        scan_dvc: None,
    };
    let info = get_info(&reads).unwrap();
    let (m, writes, _) = run_restore(info);
    assert!(m.result());
    assert_eq!(writes.len(), 2); // descriptor, then check record
    assert_eq!(writes[0], descriptor_bytes(0));
    let dvc = &writes[1];
    assert_eq!(&dvc[0..4], &0x20000u32.to_le_bytes());
    assert_eq!(&dvc[4..8], &[0u8; 4]);
    assert_eq!(&dvc[8..40], &[0x5Au8; 32]); // bytes 8-40 untouched
    assert_eq!(m.info.lbldvc_var, *dvc);
}

#[test]
fn restore_zeros_whole_tail_for_sha_version() {
    let reads = VarReads {
        desp: Some(descriptor_bytes(0)),
        dvc: Some({
            let mut v = check_bytes(0x20003);
            v[35] = 9;
            v
        }),
        names: None,
        scan_desp: None,
        scan_dvc: None,
    };
    let info = get_info(&reads).unwrap();
    let (m, writes, _) = run_restore(info);
    assert!(m.result());
    assert_eq!(writes.len(), 1); // enable already zero: only the check write
    assert_eq!(&writes[0][4..40], &[0u8; 36]);
}

#[test]
fn restore_twice_is_idempotent() {
    let reads = VarReads {
        desp: Some(descriptor_bytes(1)),
        dvc: Some({
            let mut v = check_bytes(0x20000);
            v[5] = 1;
            v
        }),
        names: None,
        scan_desp: None,
        scan_dvc: None,
    };
    let info = get_info(&reads).unwrap();
    let (first, first_writes, _) = run_restore(info);
    assert!(first.result());
    assert!(!first_writes.is_empty());

    // second run: nothing left to write, success at once
    let (second, second_writes, steps) = run_restore(first.info);
    assert!(second.result());
    assert!(second_writes.is_empty());
    assert_eq!(steps, 1); // delete outcome only, then Finish
}

#[test]
fn restore_keeps_going_after_delete_failure() {
    let info = snapshot(1, 0x20000);
    let (mut m, a) = RestoreLogoMachine::new(info);
    assert!(matches!(a, LogoAction::DeleteStagedLogo));
    let a = m.step(false); // delete failed; variable cleanup still runs
    assert!(matches!(a, LogoAction::ClearImmutable { .. }));
    let a = m.step(true);
    assert!(matches!(a, LogoAction::WriteVar { .. }));
    let a = m.step(true);
    assert!(matches!(a, LogoAction::RestoreImmutable { .. }));
    let a = m.step(true);
    assert!(matches!(a, LogoAction::Finish));
    assert!(!m.result()); // the delete failure folds into the result
    assert_eq!(m.info.enable, 0); // but the cleanup was still done
}

#[test]
fn restore_write_failure_folds_into_result() {
    let info = snapshot(1, 0x20000);
    let (mut m, _) = RestoreLogoMachine::new(info);
    m.step(true); // deleted -> clear
    m.step(true); // cleared -> write
    let a = m.step(false); // descriptor write fails
    assert!(matches!(a, LogoAction::RestoreImmutable { .. }));
    let a = m.step(true);
    assert!(matches!(a, LogoAction::Finish)); // region already zero
    assert!(!m.result());
    assert_eq!(m.info.enable, 1); // nothing committed
}

fn action_name(a: &LogoAction) -> &'static str {
    match a {
        LogoAction::StageLogo { .. } => "StageLogo",
        LogoAction::DeleteStagedLogo => "DeleteStagedLogo",
        LogoAction::ClearImmutable { .. } => "ClearImmutable",
        LogoAction::WriteVar { .. } => "WriteVar",
        LogoAction::RestoreImmutable { .. } => "RestoreImmutable",
        LogoAction::ComputeChecksum { .. } => "ComputeChecksum",
        LogoAction::Finish => "Finish",
    }
}
