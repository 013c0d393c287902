//! The set operation: stage a new logo image and commit both records.
//!
//! The sequence is fixed: refuse an unrecognized protocol version before
//! anything is touched, stage the image (no variable is written when
//! staging fails), write the descriptor with its enable flag set, hash
//! the image as the recorded version asks, and write the check record
//! with the fresh checksum at offset 4.  A failure after the descriptor
//! write is reported as an overall failure but the descriptor mutation
//! is deliberately not rolled back: callers re-read to learn the true
//! state.  Each variable write is wrapped in the immutability toggles; a
//! failed toggle is surfaced as a warning and the write is still
//! attempted.

use vstd::prelude::*;
use crate::checksum::spec_version_recognized;
use crate::checksum::version_recognized;
use crate::codec::spec_patch_check;
use crate::codec::copy_bytes;
use crate::codec::lemma_patch_check_keeps_version;
use crate::codec::lemma_with_enable_decode;
use crate::codec::patch_check;
use crate::codec::with_enable;
use crate::error::Error;
use crate::lenlogo::LogoAction;
use crate::lenlogo::PlatformInfo;
use crate::lenlogo::spec_info_eq;
use crate::paths::spec_file_extension;
use crate::paths::spec_logo_dst_path;
use crate::paths::file_extension;
use crate::paths::logo_dst_path;

verus! {

/// Where the set sequence stands.
#[derive(Clone, Copy, Debug, PartialEq, Eq, Structural)]
pub enum SetState {
    /// Waiting for the staging flow's outcome.
    Staging,
    /// Waiting for the descriptor variable's immutability clear.
    DespClearing,
    /// Waiting for the descriptor write.
    DespWriting {
        /// The immutability clear succeeded.
        clear_ok: bool,
    },
    /// Waiting for the descriptor variable's immutability restore.
    DespRestoring {
        /// The descriptor write succeeded.
        write_ok: bool,
    },
    /// Waiting for the image checksum.
    Hashing,
    /// Waiting for the check variable's immutability clear.
    DvcClearing,
    /// Waiting for the check-record write.
    DvcWriting {
        /// The immutability clear succeeded.
        clear_ok: bool,
    },
    /// Waiting for the check variable's immutability restore.
    DvcRestoring,
    /// Finished.
    Done,
}

/// The set state machine.  Construct it with [`SetLogoMachine::new`],
/// then repeat: perform the returned action and hand its outcome to
/// [`SetLogoMachine::step`] — or, for the checksum, to
/// [`SetLogoMachine::step_checksum`] — until the action is
/// [`LogoAction::Finish`].
pub struct SetLogoMachine {
    /// The snapshot being mutated; its record buffers track every
    /// committed write.
    pub info: PlatformInfo,
    /// Current position in the sequence.
    pub state: SetState,
    /// The first failure met, if any; `None` at the end means success.
    pub failure: Option<Error>,
    /// The record bytes of the write in flight.
    pub pending: Vec<u8>,
    /// The caller-supplied source path.
    pub src: String,
    /// The staging destination derived from the descriptor's resolution
    /// and the source extension.
    pub dst: String,
    /// Failed immutability toggles, surfaced as warnings only.
    pub imm_warnings: u32,
    /// How many variable writes have been requested.
    pub writes_issued: Ghost<int>,
    /// The snapshot the machine was built from.
    pub init: Ghost<PlatformInfo>,
}

impl SetLogoMachine {
    /// A descriptor write is being prepared or is in flight.
    pub open spec fn in_desp_write(self) -> bool {
        self.state is DespClearing || self.state is DespWriting
    }

    /// A check-record write is being prepared or is in flight.
    pub open spec fn in_dvc_write(self) -> bool {
        self.state is DvcClearing || self.state is DvcWriting
    }

    /// The checksum phase or later: the descriptor commit is behind us.
    pub open spec fn past_desp_commit(self) -> bool {
        self.state is Hashing || self.state is DvcClearing || self.state is DvcWriting
            || self.state is DvcRestoring
    }

    /// The machine's invariant: the snapshot stays well-formed, the
    /// pending bytes are exactly the write of the phase, the checksum
    /// phase is entered only with the descriptor committed and a
    /// recognized version, an unsupported version or a staging failure
    /// leaves the snapshot untouched with no write requested, and at
    /// most two writes are ever requested.
    pub open spec fn wf(self) -> bool {
        &&& self.info.wf()
        &&& (self.in_desp_write() ==> self.pending@ == self.info.lbldesp_var@.update(0, 1u8))
        &&& (self.in_dvc_write() ==> self.pending@.len() == 40 && self.pending@.subrange(0, 4)
            == self.info.lbldvc_var@.subrange(0, 4))
        &&& (self.past_desp_commit() ==> self.info.has_dvc() && spec_version_recognized(
            self.info.version,
        ) && self.info.enable == 1)
        &&& ((self.state is Hashing || self.state is DvcClearing || self.state is DvcWriting)
            ==> self.failure is None)
        &&& (!(self.state is Done) ==> (self.info.has_dvc() ==> spec_version_recognized(
            self.info.version,
        )))
        &&& ((self.state matches SetState::DespRestoring { write_ok } && write_ok)
            ==> self.info.enable == 1 && self.failure is None)
        &&& ((self.state matches SetState::DespRestoring { write_ok } && !write_ok)
            ==> self.failure is Some)
        &&& (self.failure == Some(Error::UnsupportedVersion) ==> self.state is Done
            && spec_info_eq(self.info, self.init@) && self.writes_issued@ == 0)
        &&& (self.failure == Some(Error::StagingFailed) ==> self.state is Done && spec_info_eq(
            self.info,
            self.init@,
        ) && self.writes_issued@ == 0)
        &&& (self.state is Staging ==> self.writes_issued@ == 0 && spec_info_eq(
            self.info,
            self.init@,
        ) && self.failure is None)
        &&& (self.state is DespClearing ==> self.writes_issued@ == 0 && self.failure is None)
        &&& (self.state is DespWriting ==> self.failure is None)
        &&& ((self.state is Done && self.failure is None) ==> self.info.enable == 1)
        &&& ((self.state is DespWriting || self.state is DespRestoring) ==> self.writes_issued@
            <= 1)
        &&& ((self.state is Hashing || self.state is DvcClearing) ==> self.writes_issued@ <= 1)
        &&& 0 <= self.writes_issued@ <= 2
    }

    /// Starts a set operation from a fresh snapshot and the source
    /// path.  An unrecognized protocol version (when a check record
    /// exists) is refused before anything is staged or written; a
    /// source path without an extension cannot be staged; otherwise the
    /// first action stages the image at the derived destination.
    pub fn new(info: PlatformInfo, src_path: String) -> (r: (SetLogoMachine, LogoAction))
        requires
            info.wf(),
        ensures
            r.0.wf(),
            r.0.init@ == info,
            spec_info_eq(r.0.info, info),
            r.0.imm_warnings == 0,
            r.0.writes_issued@ == 0,
            r.0.src@ == src_path@,
            (info.has_dvc() && !spec_version_recognized(info.version)) ==> (
            r.0.state is Done && r.0.failure == Some(Error::UnsupportedVersion) && r.1 is Finish),
            (!(info.has_dvc() && !spec_version_recognized(info.version))
                && spec_file_extension(src_path@) is None) ==> (r.0.state is Done && r.0.failure
                == Some(Error::StagingFailed) && r.1 is Finish),
            (!(info.has_dvc() && !spec_version_recognized(info.version))
                && spec_file_extension(src_path@) is Some) ==> {
                &&& r.0.state is Staging
                &&& r.0.failure is None
                &&& r.0.dst@ == spec_logo_dst_path(
                    info.width,
                    info.height,
                    spec_file_extension(src_path@)->0,
                )
                &&& (r.1 matches LogoAction::StageLogo { src, dst } && src@ == src_path@ && dst@
                    == r.0.dst@)
            },
    {
        if info.lbldvc_var_name.as_str().is_empty() == false && !version_recognized(info.version) {
            let m = SetLogoMachine {
                init: Ghost(info),
                info,
                state: SetState::Done,
                failure: Some(Error::UnsupportedVersion),
                pending: Vec::new(),
                src: src_path,
                dst: String::new(),
                imm_warnings: 0,
                writes_issued: Ghost(0),
            };
            (m, LogoAction::Finish)
        } else {
            match file_extension(src_path.as_str()) {
                None => {
                    let m = SetLogoMachine {
                        init: Ghost(info),
                        info,
                        state: SetState::Done,
                        failure: Some(Error::StagingFailed),
                        pending: Vec::new(),
                        src: src_path,
                        dst: String::new(),
                        imm_warnings: 0,
                        writes_issued: Ghost(0),
                    };
                    (m, LogoAction::Finish)
                },
                Some(ext) => {
                    let dst = logo_dst_path(info.width, info.height, ext.as_str());
                    let m = SetLogoMachine {
                        init: Ghost(info),
                        info,
                        state: SetState::Staging,
                        failure: None,
                        pending: Vec::new(),
                        src: src_path,
                        dst,
                        imm_warnings: 0,
                        writes_issued: Ghost(0),
                    };
                    let a = LogoAction::StageLogo { src: m.src.clone(), dst: m.dst.clone() };
                    (m, a)
                },
            }
        }
    }

    /// The state the next step moves to, given the outcome of the
    /// pending action.
    pub open spec fn spec_next_state(self, ev: bool) -> SetState {
        match self.state {
            SetState::Staging => if ev {
                SetState::DespClearing
            } else {
                SetState::Done
            },
            SetState::DespClearing => SetState::DespWriting { clear_ok: ev },
            SetState::DespWriting { .. } => SetState::DespRestoring { write_ok: ev },
            SetState::DespRestoring { write_ok } => if !write_ok {
                SetState::Done
            } else if self.info.has_dvc() {
                SetState::Hashing
            } else {
                SetState::Done
            },
            SetState::Hashing => SetState::Hashing,
            SetState::DvcClearing => SetState::DvcWriting { clear_ok: ev },
            SetState::DvcWriting { .. } => SetState::DvcRestoring,
            SetState::DvcRestoring => SetState::Done,
            SetState::Done => SetState::Done,
        }
    }

    /// The recorded failure after the next step: staging and write
    /// failures fold in; toggle outcomes do not.  A write that failed
    /// after a failed immutability clear is blamed on the toggle.
    pub open spec fn spec_next_failure(self, ev: bool) -> Option<Error> {
        match self.state {
            SetState::Staging => if ev {
                self.failure
            } else {
                Some(Error::StagingFailed)
            },
            SetState::DespWriting { clear_ok } => if ev {
                self.failure
            } else if clear_ok {
                Some(Error::VariableWriteError)
            } else {
                Some(Error::ImmutabilityError)
            },
            SetState::DvcWriting { clear_ok } => if ev {
                self.failure
            } else if clear_ok {
                Some(Error::VariableWriteError)
            } else {
                Some(Error::ImmutabilityError)
            },
            _ => self.failure,
        }
    }

    /// Feeds the outcome of the pending action in and returns the next
    /// action to perform.  The checksum outcome goes to
    /// [`SetLogoMachine::step_checksum`] instead.
    pub fn step(&mut self, ev: bool) -> (a: LogoAction)
        requires
            old(self).wf(),
            !(old(self).state is Done),
            !(old(self).state is Hashing),
        ensures
            final(self).wf(),
            final(self).state == old(self).spec_next_state(ev),
            final(self).failure == old(self).spec_next_failure(ev),
            final(self).init == old(self).init,
            final(self).dst@ == old(self).dst@,
            final(self).src@ == old(self).src@,
            // what the next action is, and what it carries
            (final(self).state is DespClearing ==> (a matches LogoAction::ClearImmutable { name }
                && name@ == old(self).info.lbldesp_var_name@) && final(self).pending@ == old(self).info.lbldesp_var@.update(0, 1u8)),
            (final(self).state is DespWriting ==> (a matches LogoAction::WriteVar { name, bytes }
                && name@ == old(self).info.lbldesp_var_name@ && bytes@ == old(self).pending@)),
            (final(self).state is DespRestoring ==> (a matches LogoAction::RestoreImmutable {
                name } && name@ == old(self).info.lbldesp_var_name@)),
            (final(self).state is Hashing ==> (a matches LogoAction::ComputeChecksum { version }
                && version == old(self).info.version)),
            (final(self).state is DvcWriting ==> (a matches LogoAction::WriteVar { name, bytes }
                && name@ == old(self).info.lbldvc_var_name@ && bytes@ == old(self).pending@)),
            (final(self).state is DvcRestoring ==> (a matches LogoAction::RestoreImmutable { name
                } && name@ == old(self).info.lbldvc_var_name@)),
            (final(self).state is Done ==> a is Finish),
            // how the snapshot changes: only a successful write commits
            (old(self).state is DespWriting && ev ==> final(self).info.lbldesp_var@ == old(self).pending@ && final(self).info.enable == 1 && final(self).info.width == old(self).info.width && final(self).info.height == old(self).info.height && final(self).info.version == old(self).info.version && final(self).info.lbldvc_var@ == old(self).info.lbldvc_var@ && final(self).info.lbldesp_var_name@ == old(self).info.lbldesp_var_name@ && final(self).info.lbldvc_var_name@ == old(self).info.lbldvc_var_name@),
            (old(self).state is DvcWriting && ev ==> final(self).info.lbldvc_var@ == old(self).pending@ && final(self).info.lbldesp_var@ == old(self).info.lbldesp_var@ && final(self).info.enable == old(self).info.enable && final(self).info.version == old(self).info.version && final(self).info.lbldesp_var_name@ == old(self).info.lbldesp_var_name@ && final(self).info.lbldvc_var_name@ == old(self).info.lbldvc_var_name@),
            (!(old(self).state is DespWriting || old(self).state is DvcWriting) || !ev
                ==> spec_info_eq(final(self).info, old(self).info)),
            // bookkeeping
            final(self).writes_issued@ == old(self).writes_issued@ + (if a is WriteVar {
                1int
            } else {
                0int
            }),
            final(self).imm_warnings >= old(self).imm_warnings,
    {
        match self.state {
            SetState::Staging => {
                if ev {
                    self.pending = with_enable(&self.info.lbldesp_var, 1);
                    self.state = SetState::DespClearing;
                    LogoAction::ClearImmutable { name: self.info.lbldesp_var_name.clone() }
                } else {
                    self.failure = Some(Error::StagingFailed);
                    self.state = SetState::Done;
                    LogoAction::Finish
                }
            },
            SetState::DespClearing => {
                if !ev {
                    self.record_warning();
                }
                self.state = SetState::DespWriting { clear_ok: ev };
                proof {
                    self.writes_issued@ = self.writes_issued@ + 1;
                }
                LogoAction::WriteVar {
                    name: self.info.lbldesp_var_name.clone(),
                    bytes: copy_bytes(&self.pending),
                }
            },
            SetState::DespWriting { clear_ok } => {
                if ev {
                    proof {
                        lemma_with_enable_decode(self.info.lbldesp_var@, 1);
                    }
                    self.info.lbldesp_var = copy_bytes(&self.pending);
                    self.info.enable = 1;
                } else {
                    self.failure = Some(
                        if clear_ok {
                            Error::VariableWriteError
                        } else {
                            Error::ImmutabilityError
                        },
                    );
                }
                self.state = SetState::DespRestoring { write_ok: ev };
                LogoAction::RestoreImmutable { name: self.info.lbldesp_var_name.clone() }
            },
            SetState::DespRestoring { write_ok } => {
                if !ev {
                    self.record_warning();
                }
                if !write_ok {
                    self.state = SetState::Done;
                    LogoAction::Finish
                } else if !self.info.lbldvc_var_name.as_str().is_empty() {
                    self.state = SetState::Hashing;
                    LogoAction::ComputeChecksum { version: self.info.version }
                } else {
                    self.state = SetState::Done;
                    LogoAction::Finish
                }
            },
            SetState::DvcClearing => {
                if !ev {
                    self.record_warning();
                }
                self.state = SetState::DvcWriting { clear_ok: ev };
                proof {
                    self.writes_issued@ = self.writes_issued@ + 1;
                }
                LogoAction::WriteVar {
                    name: self.info.lbldvc_var_name.clone(),
                    bytes: copy_bytes(&self.pending),
                }
            },
            SetState::DvcWriting { clear_ok } => {
                if ev {
                    proof {
                        assert(self.pending@.subrange(0, 4) == self.info.lbldvc_var@.subrange(
                            0,
                            4,
                        ));
                        assert(crate::codec::spec_check_version(self.pending@)
                            == crate::codec::spec_check_version(self.info.lbldvc_var@));
                    }
                    self.info.lbldvc_var = copy_bytes(&self.pending);
                } else {
                    self.failure = Some(
                        if clear_ok {
                            Error::VariableWriteError
                        } else {
                            Error::ImmutabilityError
                        },
                    );
                }
                self.state = SetState::DvcRestoring;
                LogoAction::RestoreImmutable { name: self.info.lbldvc_var_name.clone() }
            },
            SetState::DvcRestoring => {
                if !ev {
                    self.record_warning();
                }
                self.state = SetState::Done;
                LogoAction::Finish
            },
            SetState::Hashing => {
                // excluded by the precondition; kept total for the caller
                LogoAction::ComputeChecksum { version: self.info.version }
            },
            SetState::Done => {
                // excluded by the precondition; kept total for the caller
                LogoAction::Finish
            },
        }
    }

    /// Feeds the checksum outcome in.  A hashing failure finishes the
    /// operation as [`Error::ChecksumFailed`] — the already committed
    /// descriptor write is deliberately left in place.  A fresh digest
    /// is written over the check record's bytes starting at offset 4.
    pub fn step_checksum(&mut self, digest: Option<Vec<u8>>) -> (a: LogoAction)
        requires
            old(self).wf(),
            old(self).state is Hashing,
            digest matches Some(d) ==> d@.len() <= 36,
        ensures
            final(self).wf(),
            final(self).init == old(self).init,
            final(self).dst@ == old(self).dst@,
            final(self).src@ == old(self).src@,
            spec_info_eq(final(self).info, old(self).info),
            final(self).writes_issued@ == old(self).writes_issued@,
            digest is None ==> final(self).state is Done && final(self).failure == Some(
                Error::ChecksumFailed,
            ) && a is Finish,
            digest matches Some(d) ==> {
                &&& final(self).state is DvcClearing
                &&& final(self).failure == old(self).failure
                &&& final(self).pending@ == spec_patch_check(old(self).info.lbldvc_var@, d@)
                &&& (a matches LogoAction::ClearImmutable { name } && name@ == old(self).info.lbldvc_var_name@)
            },
    {
        match digest {
            None => {
                self.failure = Some(Error::ChecksumFailed);
                self.state = SetState::Done;
                LogoAction::Finish
            },
            Some(d) => {
                self.pending = patch_check(&self.info.lbldvc_var, &d);
                proof {
                    lemma_patch_check_keeps_version(self.info.lbldvc_var@, d@);
                    assert(self.pending@.subrange(0, 4) =~= self.info.lbldvc_var@.subrange(0, 4));
                }
                self.state = SetState::DvcClearing;
                LogoAction::ClearImmutable { name: self.info.lbldvc_var_name.clone() }
            },
        }
    }

    /// Counts a failed immutability toggle, saturating.
    fn record_warning(&mut self)
        ensures
            final(self).imm_warnings >= old(self).imm_warnings,
            final(self).info == old(self).info,
            final(self).state == old(self).state,
            final(self).failure == old(self).failure,
            final(self).pending == old(self).pending,
            final(self).src == old(self).src,
            final(self).dst == old(self).dst,
            final(self).writes_issued == old(self).writes_issued,
            final(self).init == old(self).init,
    {
        if self.imm_warnings < u32::MAX {
            self.imm_warnings = self.imm_warnings + 1;
        }
    }

    /// Reads the overall result once the sequence has finished.
    pub fn result(&self) -> (r: Result<(), Error>)
        requires
            self.state is Done,
        ensures
            r is Ok <==> self.failure is None,
            self.failure matches Some(e) ==> r == Err::<(), Error>(e),
    {
        match self.failure {
            None => Ok(()),
            Some(e) => Err(e),
        }
    }
}

/// An unrecognized protocol version refuses the whole operation before
/// any mutation: the machine finishes at once, the snapshot — the
/// descriptor's enable flag included — is exactly the one it started
/// from, and no variable write was ever requested.
pub proof fn lemma_unsupported_version_no_mutation(m: SetLogoMachine)
    requires
        m.wf(),
        m.failure == Some(Error::UnsupportedVersion),
    ensures
        m.state is Done,
        spec_info_eq(m.info, m.init@),
        m.info.enable == m.init@.enable,
        m.writes_issued@ == 0,
{
}

/// A set operation that reports success has committed its descriptor
/// write: the enable flag is set in the snapshot that a fresh read
/// would confirm.
pub proof fn lemma_set_success_enables(m: SetLogoMachine)
    requires
        m.wf(),
        m.state is Done,
        m.failure is None,
    ensures
        m.info.enable == 1,
{
}

/// A staging failure aborts before any variable is touched: the
/// snapshot is exactly the one the machine started from and no variable
/// write was ever requested.
pub proof fn lemma_staging_failure_no_write(m: SetLogoMachine)
    requires
        m.wf(),
        m.failure == Some(Error::StagingFailed),
    ensures
        m.state is Done,
        spec_info_eq(m.info, m.init@),
        m.writes_issued@ == 0,
{
}

} // verus!
