//! The restore operation: remove the staged logo and return both
//! records to their disabled state.
//!
//! Restore is best-effort across its three sub-steps: the staged
//! directory is deleted, the descriptor's enable flag is zeroed when it
//! is set, and the version-owned checksum region of the check record is
//! zeroed when any of its bytes is non-zero.  Every sub-step is
//! attempted regardless of earlier failures and the overall result is
//! the conjunction of their outcomes.  Each variable write is wrapped in
//! the immutability toggles; a failed toggle is surfaced as a warning
//! and the write is still attempted.

use vstd::prelude::*;
use crate::codec::spec_check_region_zero;
use crate::codec::spec_zeroed_check;
use crate::codec::check_region_is_zero;
use crate::codec::copy_bytes;
use crate::codec::lemma_patch_check_keeps_version;
use crate::codec::lemma_with_enable_decode;
use crate::codec::patch_check;
use crate::codec::with_enable;
use crate::codec::zero_patch;
use crate::lenlogo::LogoAction;
use crate::lenlogo::PlatformInfo;
use crate::lenlogo::spec_info_eq;

verus! {

/// The descriptor still carries a set enable flag that a restore must
/// zero.
pub open spec fn spec_needs_desp_restore(info: PlatformInfo) -> bool {
    info.lbldesp_var@[0] != 0
}

/// The check record still carries non-zero bytes in the version-owned
/// checksum region that a restore must zero.
pub open spec fn spec_needs_dvc_restore(info: PlatformInfo) -> bool {
    info.has_dvc() && !spec_check_region_zero(info.lbldvc_var@, info.version)
}

/// Where the restore sequence stands.
#[derive(Clone, Copy, Debug, PartialEq, Eq, Structural)]
pub enum RestoreState {
    /// Waiting for the staged-directory deletion.
    Deleting,
    /// Waiting for the descriptor variable's immutability clear.
    DespClearing,
    /// Waiting for the descriptor write.
    DespWriting {
        /// The immutability clear succeeded.
        clear_ok: bool,
    },
    /// Waiting for the descriptor variable's immutability restore.
    DespRestoring,
    /// Waiting for the check variable's immutability clear.
    DvcClearing,
    /// Waiting for the check-record write.
    DvcWriting {
        /// The immutability clear succeeded.
        clear_ok: bool,
    },
    /// Waiting for the check variable's immutability restore.
    DvcRestoring,
    /// Finished.
    Done,
}

/// The restore state machine.  Construct it with
/// [`RestoreLogoMachine::new`], then repeat: perform the returned
/// action and hand its outcome to [`RestoreLogoMachine::step`], until
/// the action is [`LogoAction::Finish`].
pub struct RestoreLogoMachine {
    /// The snapshot being restored; its record buffers track every
    /// committed write.
    pub info: PlatformInfo,
    /// Current position in the sequence.
    pub state: RestoreState,
    /// Conjunction of the outcomes so far.
    pub status: bool,
    /// The record bytes of the write in flight.
    pub pending: Vec<u8>,
    /// Failed immutability toggles, surfaced as warnings only.
    pub imm_warnings: u32,
    /// How many variable writes have been requested.
    pub writes_issued: Ghost<int>,
    /// The snapshot the machine was built from.
    pub init: Ghost<PlatformInfo>,
}

impl RestoreLogoMachine {
    /// A descriptor write is being prepared or is in flight.
    pub open spec fn in_desp_write(self) -> bool {
        self.state is DespClearing || self.state is DespWriting
    }

    /// A check-record write is being prepared or is in flight.
    pub open spec fn in_dvc_write(self) -> bool {
        self.state is DvcClearing || self.state is DvcWriting
    }

    /// The machine's invariant: the snapshot stays well-formed, the
    /// pending bytes are exactly the disabling write of the phase, a
    /// successful run has its descriptor committed once past the
    /// descriptor phase and both records clean when done, and nothing
    /// is written before the first phase begins.
    pub open spec fn wf(self) -> bool {
        &&& self.info.wf()
        &&& (self.in_desp_write() ==> self.pending@ == self.info.lbldesp_var@.update(0, 0u8))
        &&& (self.in_dvc_write() ==> self.pending@ == spec_zeroed_check(
            self.info.lbldvc_var@,
            self.info.version,
        ) && self.info.has_dvc())
        &&& ((self.state is DespRestoring || self.state is DvcClearing
            || self.state is DvcWriting || self.state is DvcRestoring || self.state is Done)
            && self.status ==> !spec_needs_desp_restore(self.info))
        &&& ((self.state is DvcRestoring || self.state is Done) && self.status
            ==> !spec_needs_dvc_restore(self.info))
        &&& (self.state is Deleting ==> self.writes_issued@ == 0 && spec_info_eq(
            self.info,
            self.init@,
        ) && self.status)
        &&& (self.state is DespClearing ==> self.writes_issued@ == 0)
        &&& ((self.state is DespWriting || self.state is DespRestoring
            || self.state is DvcClearing) ==> self.writes_issued@ <= 1)
        &&& 0 <= self.writes_issued@ <= 2
    }

    /// Starts a restore from a fresh snapshot; the first action deletes
    /// the staged logo directory.
    pub fn new(info: PlatformInfo) -> (r: (RestoreLogoMachine, LogoAction))
        requires
            info.wf(),
        ensures
            r.0.wf(),
            r.0.state == RestoreState::Deleting,
            r.0.init@ == info,
            spec_info_eq(r.0.info, info),
            r.0.status,
            r.0.imm_warnings == 0,
            r.0.writes_issued@ == 0,
            r.1 is DeleteStagedLogo,
    {
        (
            RestoreLogoMachine {
                init: Ghost(info),
                info,
                state: RestoreState::Deleting,
                status: true,
                pending: Vec::new(),
                imm_warnings: 0,
                writes_issued: Ghost(0),
            },
            LogoAction::DeleteStagedLogo,
        )
    }

    /// The state the next step moves to, given the outcome of the
    /// pending action.
    pub open spec fn spec_next_state(self, ev: bool) -> RestoreState {
        match self.state {
            RestoreState::Deleting => if spec_needs_desp_restore(self.info) {
                RestoreState::DespClearing
            } else if spec_needs_dvc_restore(self.info) {
                RestoreState::DvcClearing
            } else {
                RestoreState::Done
            },
            RestoreState::DespClearing => RestoreState::DespWriting { clear_ok: ev },
            RestoreState::DespWriting { .. } => RestoreState::DespRestoring,
            RestoreState::DespRestoring => if spec_needs_dvc_restore(self.info) {
                RestoreState::DvcClearing
            } else {
                RestoreState::Done
            },
            RestoreState::DvcClearing => RestoreState::DvcWriting { clear_ok: ev },
            RestoreState::DvcWriting { .. } => RestoreState::DvcRestoring,
            RestoreState::DvcRestoring => RestoreState::Done,
            RestoreState::Done => RestoreState::Done,
        }
    }

    /// The overall status after the next step: the delete outcome and
    /// each write outcome fold in; toggle outcomes do not.
    pub open spec fn spec_next_status(self, ev: bool) -> bool {
        match self.state {
            RestoreState::Deleting => self.status && ev,
            RestoreState::DespWriting { .. } => self.status && ev,
            RestoreState::DvcWriting { .. } => self.status && ev,
            _ => self.status,
        }
    }

    /// Feeds the outcome of the pending action in and returns the next
    /// action to perform.
    pub fn step(&mut self, ev: bool) -> (a: LogoAction)
        requires
            old(self).wf(),
            !(old(self).state is Done),
        ensures
            final(self).wf(),
            final(self).state == old(self).spec_next_state(ev),
            final(self).status == old(self).spec_next_status(ev),
            final(self).init == old(self).init,
            // what the next action is, and what it carries
            (final(self).state is DespClearing ==> (a matches LogoAction::ClearImmutable { name }
                && name@ == old(self).info.lbldesp_var_name@) && final(self).pending@ == old(self).info.lbldesp_var@.update(0, 0u8)),
            (final(self).state is DvcClearing ==> (a matches LogoAction::ClearImmutable { name }
                && name@ == old(self).info.lbldvc_var_name@) && final(self).pending@
                == spec_zeroed_check(old(self).info.lbldvc_var@, old(self).info.version)),
            (final(self).state matches RestoreState::DespWriting { clear_ok } ==> clear_ok == ev
                && (a matches LogoAction::WriteVar { name, bytes } && name@ == old(self).info.lbldesp_var_name@ && bytes@ == old(self).pending@)),
            (final(self).state matches RestoreState::DvcWriting { clear_ok } ==> clear_ok == ev
                && (a matches LogoAction::WriteVar { name, bytes } && name@ == old(self).info.lbldvc_var_name@ && bytes@ == old(self).pending@)),
            (final(self).state is DespRestoring ==> (a matches LogoAction::RestoreImmutable {
                name } && name@ == old(self).info.lbldesp_var_name@)),
            (final(self).state is DvcRestoring ==> (a matches LogoAction::RestoreImmutable { name
                } && name@ == old(self).info.lbldvc_var_name@)),
            (final(self).state is Done ==> a is Finish),
            // how the snapshot changes: only a successful write commits
            (old(self).state matches RestoreState::DespWriting { .. } && ev ==> final(self).info.lbldesp_var@ == old(self).pending@ && final(self).info.enable == 0),
            (old(self).state matches RestoreState::DvcWriting { .. } && ev ==> final(self).info.lbldvc_var@ == old(self).pending@),
            (!(old(self).state is DespWriting || old(self).state is DvcWriting) || !ev
                ==> spec_info_eq(final(self).info, old(self).info)),
            (old(self).state is DespWriting && ev ==> final(self).info.width == old(self).info.width && final(self).info.height == old(self).info.height && final(self).info.version == old(self).info.version && final(self).info.lbldvc_var@ == old(self).info.lbldvc_var@ && final(self).info.lbldesp_var_name@ == old(self).info.lbldesp_var_name@ && final(self).info.lbldvc_var_name@ == old(self).info.lbldvc_var_name@),
            (old(self).state is DvcWriting && ev ==> final(self).info.lbldesp_var@ == old(self).info.lbldesp_var@ && final(self).info.enable == old(self).info.enable && final(self).info.version == old(self).info.version && final(self).info.lbldesp_var_name@ == old(self).info.lbldesp_var_name@ && final(self).info.lbldvc_var_name@ == old(self).info.lbldvc_var_name@),
            // bookkeeping
            final(self).writes_issued@ == old(self).writes_issued@ + (if a is WriteVar {
                1int
            } else {
                0int
            }),
            final(self).imm_warnings >= old(self).imm_warnings,
    {
        match self.state {
            RestoreState::Deleting => {
                if !ev {
                    self.status = false;
                }
                let needs_desp = self.info.lbldesp_var[0] != 0;
                if needs_desp {
                    self.pending = with_enable(&self.info.lbldesp_var, 0);
                    self.state = RestoreState::DespClearing;
                    LogoAction::ClearImmutable { name: self.info.lbldesp_var_name.clone() }
                } else {
                    let needs_dvc = !self.info.lbldvc_var_name.as_str().is_empty() && !check_region_is_zero(
                        &self.info.lbldvc_var,
                        self.info.version,
                    );
                    if needs_dvc {
                        let zeros = zero_patch(self.info.version);
                        self.pending = patch_check(&self.info.lbldvc_var, &zeros);
                        proof {
                            assert(zeros@ =~= Seq::new(
                                crate::codec::spec_restore_region_len(self.info.version) as nat,
                                |i: int| 0u8,
                            ));
                        }
                        self.state = RestoreState::DvcClearing;
                        LogoAction::ClearImmutable { name: self.info.lbldvc_var_name.clone() }
                    } else {
                        self.state = RestoreState::Done;
                        LogoAction::Finish
                    }
                }
            },
            RestoreState::DespClearing => {
                if !ev {
                    self.record_warning();
                }
                self.state = RestoreState::DespWriting { clear_ok: ev };
                proof {
                    self.writes_issued@ = self.writes_issued@ + 1;
                }
                LogoAction::WriteVar {
                    name: self.info.lbldesp_var_name.clone(),
                    bytes: copy_bytes(&self.pending),
                }
            },
            RestoreState::DespWriting { .. } => {
                if ev {
                    proof {
                        lemma_with_enable_decode(self.info.lbldesp_var@, 0);
                    }
                    self.info.lbldesp_var = copy_bytes(&self.pending);
                    self.info.enable = 0;
                } else {
                    self.status = false;
                }
                self.state = RestoreState::DespRestoring;
                LogoAction::RestoreImmutable { name: self.info.lbldesp_var_name.clone() }
            },
            RestoreState::DespRestoring => {
                if !ev {
                    self.record_warning();
                }
                let needs_dvc = !self.info.lbldvc_var_name.as_str().is_empty() && !check_region_is_zero(
                    &self.info.lbldvc_var,
                    self.info.version,
                );
                if needs_dvc {
                    let zeros = zero_patch(self.info.version);
                    self.pending = patch_check(&self.info.lbldvc_var, &zeros);
                    proof {
                        assert(zeros@ =~= Seq::new(
                            crate::codec::spec_restore_region_len(self.info.version) as nat,
                            |i: int| 0u8,
                        ));
                    }
                    self.state = RestoreState::DvcClearing;
                    LogoAction::ClearImmutable { name: self.info.lbldvc_var_name.clone() }
                } else {
                    self.state = RestoreState::Done;
                    LogoAction::Finish
                }
            },
            RestoreState::DvcClearing => {
                if !ev {
                    self.record_warning();
                }
                self.state = RestoreState::DvcWriting { clear_ok: ev };
                proof {
                    self.writes_issued@ = self.writes_issued@ + 1;
                }
                LogoAction::WriteVar {
                    name: self.info.lbldvc_var_name.clone(),
                    bytes: copy_bytes(&self.pending),
                }
            },
            RestoreState::DvcWriting { .. } => {
                if ev {
                    proof {
                        lemma_patch_check_keeps_version(
                            self.info.lbldvc_var@,
                            Seq::new(
                                crate::codec::spec_restore_region_len(self.info.version) as nat,
                                |i: int| 0u8,
                            ),
                        );
                        assert(spec_check_region_zero(self.pending@, self.info.version));
                    }
                    self.info.lbldvc_var = copy_bytes(&self.pending);
                } else {
                    self.status = false;
                }
                self.state = RestoreState::DvcRestoring;
                LogoAction::RestoreImmutable { name: self.info.lbldvc_var_name.clone() }
            },
            RestoreState::DvcRestoring => {
                if !ev {
                    self.record_warning();
                }
                self.state = RestoreState::Done;
                LogoAction::Finish
            },
            RestoreState::Done => {
                // excluded by the precondition; kept total for the caller
                LogoAction::Finish
            },
        }
    }

    /// Counts a failed immutability toggle, saturating.
    fn record_warning(&mut self)
        ensures
            final(self).imm_warnings >= old(self).imm_warnings,
            final(self).info == old(self).info,
            final(self).state == old(self).state,
            final(self).status == old(self).status,
            final(self).pending == old(self).pending,
            final(self).writes_issued == old(self).writes_issued,
            final(self).init == old(self).init,
    {
        if self.imm_warnings < u32::MAX {
            self.imm_warnings = self.imm_warnings + 1;
        }
    }

    /// Reads the overall result once the sequence has finished.
    pub fn result(&self) -> (r: bool)
        requires
            self.state is Done,
        ensures
            r == self.status,
    {
        self.status
    }
}

/// First half of the idempotence law: a restore that finished with
/// overall success leaves the descriptor's enable flag zero and the
/// version-owned checksum region zero, so nothing remains for a second
/// restore to write.
pub proof fn lemma_restore_success_clean(m: RestoreLogoMachine)
    requires
        m.wf(),
        m.state is Done,
        m.status,
    ensures
        !spec_needs_desp_restore(m.info),
        !spec_needs_dvc_restore(m.info),
        m.info.enable == 0,
{
}

/// Second half of the idempotence law: a restore started on a snapshot
/// with nothing to restore issues no variable write; its first step
/// finishes at once, and it reports success exactly when the directory
/// deletion succeeded.
pub proof fn lemma_restore_clean_is_noop(m: RestoreLogoMachine, ev: bool)
    requires
        m.wf(),
        m.state is Deleting,
        !spec_needs_desp_restore(m.info),
        !spec_needs_dvc_restore(m.info),
    ensures
        m.spec_next_state(ev) == RestoreState::Done,
        m.spec_next_status(ev) == ev,
        m.writes_issued@ == 0,
{
}

} // verus!
