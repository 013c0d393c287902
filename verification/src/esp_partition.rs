//! The guarded staging protocol for the EFI System Partition.
//!
//! Staging copies a source file to a destination inside the ESP;
//! restoring removes the staged logo directory.  Both must mount the
//! partition first and are bound by the mount-guard contract: once a
//! mount succeeded, exactly one unmount request is issued before the
//! operation finishes, on every path, and an unmount failure is
//! surfaced as a warning without changing the operation's outcome.
//!
//! The machine here decides the whole sequence; the embedding
//! application only performs each requested action and reports whether
//! it succeeded.

use vstd::prelude::*;

verus! {

/// Which staging flow the machine runs.
#[derive(Clone, Copy, Debug, PartialEq, Eq, Structural)]
pub enum StageKind {
    /// Copy a source file onto the partition, replacing the staged
    /// directory.
    CopyLogo,
    /// Remove the staged logo directory; absence counts as success.
    DeleteLogo,
}

/// What the application is asked to do next.
#[derive(Clone, Copy, Debug, PartialEq, Eq, Structural)]
pub enum StageAction {
    /// Check that the source path names an existing regular file.
    CheckSource,
    /// Acquire a mount point and mount the EFI System Partition on it.
    Mount,
    /// Remove the staged logo directory recursively.  For the copy flow
    /// report failure only on a removal error; for the delete flow an
    /// absent directory is success.
    RemoveOldDir,
    /// Recreate the staged logo directory.
    CreateDir,
    /// Copy the source file byte-for-byte to the destination path
    /// resolved against the mount root.
    CopyFile,
    /// Release the mount.
    Unmount,
    /// Nothing further: the overall result is available.
    Finish,
}

/// Where the staging sequence stands.
#[derive(Clone, Copy, Debug, PartialEq, Eq, Structural)]
pub enum StageState {
    /// Waiting for the source-file check.
    CheckingSource,
    /// Waiting for the mount.
    Mounting,
    /// Mounted; waiting for the directory removal.
    Removing,
    /// Mounted; waiting for the directory creation.
    Creating,
    /// Mounted; waiting for the file copy.
    Copying,
    /// Unmount requested; the overall result is already decided.
    Unmounting {
        /// The decided overall result.
        pending: bool,
    },
    /// Finished.
    Done {
        /// Overall result of the flow.
        ok: bool,
    },
}

/// The staging state machine.  Construct it with [`StageMachine::stage_file`]
/// or [`StageMachine::delete_logo`], then repeat: perform the returned
/// action and hand its outcome to [`StageMachine::step`], until the
/// action is [`StageAction::Finish`].
pub struct StageMachine {
    /// The flow being run.
    pub kind: StageKind,
    /// Current position in the flow.
    pub state: StageState,
    /// An unmount was requested and reported failure; surfaced as a
    /// warning, never as an operation failure.
    pub unmount_warning: bool,
    /// How many mounts have succeeded.
    pub mounts: Ghost<int>,
    /// How many unmount requests have been issued.
    pub unmounts: Ghost<int>,
}

/// The successor state and the action it asks for, given the outcome of
/// the pending action.
pub open spec fn spec_stage_next(kind: StageKind, s: StageState, ok: bool) -> (StageState,
    StageAction) {
    match s {
        StageState::CheckingSource => if ok {
            (StageState::Mounting, StageAction::Mount)
        } else {
            (StageState::Done { ok: false }, StageAction::Finish)
        },
        StageState::Mounting => if ok {
            (StageState::Removing, StageAction::RemoveOldDir)
        } else {
            (StageState::Done { ok: false }, StageAction::Finish)
        },
        StageState::Removing => if !ok {
            (StageState::Unmounting { pending: false }, StageAction::Unmount)
        } else {
            match kind {
                StageKind::CopyLogo => (StageState::Creating, StageAction::CreateDir),
                StageKind::DeleteLogo => (
                    StageState::Unmounting { pending: true },
                    StageAction::Unmount,
                ),
            }
        },
        StageState::Creating => if ok {
            (StageState::Copying, StageAction::CopyFile)
        } else {
            (StageState::Unmounting { pending: false }, StageAction::Unmount)
        },
        StageState::Copying => (StageState::Unmounting { pending: ok }, StageAction::Unmount),
        StageState::Unmounting { pending } => (StageState::Done { ok: pending },
            StageAction::Finish),
        StageState::Done { ok: done_ok } => (StageState::Done { ok: done_ok },
            StageAction::Finish),
    }
}

impl StageMachine {
    /// A mount is currently held and its unmount request has not been
    /// issued yet.
    pub open spec fn mount_live(self) -> bool {
        self.state is Removing || self.state is Creating || self.state is Copying
    }

    /// The machine's invariant: at most one mount is ever made, the
    /// mount and unmount counts differ by exactly the live mount, no
    /// mount exists before the mount step, and the delete flow never
    /// visits the copy-only states.
    pub open spec fn wf(self) -> bool {
        &&& 0 <= self.mounts@ <= 1
        &&& 0 <= self.unmounts@
        &&& self.mounts@ - self.unmounts@ == (if self.mount_live() {
            1int
        } else {
            0int
        })
        &&& ((self.state is CheckingSource || self.state is Mounting) ==> self.mounts@ == 0)
        &&& (self.kind is DeleteLogo ==> !(self.state is CheckingSource || self.state is Creating
            || self.state is Copying))
    }

    /// Starts the copy flow: validate the source, mount, replace the
    /// staged directory, copy, unmount.
    pub fn stage_file() -> (r: (StageMachine, StageAction))
        ensures
            r.0.wf(),
            r.0.kind == StageKind::CopyLogo,
            r.0.state == StageState::CheckingSource,
            !r.0.unmount_warning,
            r.0.mounts@ == 0,
            r.0.unmounts@ == 0,
            r.1 == StageAction::CheckSource,
    {
        (
            StageMachine {
                kind: StageKind::CopyLogo,
                state: StageState::CheckingSource,
                unmount_warning: false,
                mounts: Ghost(0),
                unmounts: Ghost(0),
            },
            StageAction::CheckSource,
        )
    }

    /// Starts the delete flow: mount, remove the staged directory if
    /// present, unmount.
    pub fn delete_logo() -> (r: (StageMachine, StageAction))
        ensures
            r.0.wf(),
            r.0.kind == StageKind::DeleteLogo,
            r.0.state == StageState::Mounting,
            !r.0.unmount_warning,
            r.0.mounts@ == 0,
            r.0.unmounts@ == 0,
            r.1 == StageAction::Mount,
    {
        (
            StageMachine {
                kind: StageKind::DeleteLogo,
                state: StageState::Mounting,
                unmount_warning: false,
                mounts: Ghost(0),
                unmounts: Ghost(0),
            },
            StageAction::Mount,
        )
    }

    /// Feeds the outcome of the pending action in and returns the next
    /// action to perform.
    pub fn step(&mut self, ok: bool) -> (a: StageAction)
        requires
            old(self).wf(),
            !(old(self).state is Done),
        ensures
            final(self).wf(),
            final(self).kind == old(self).kind,
            final(self).state == spec_stage_next(old(self).kind, old(self).state, ok).0,
            a == spec_stage_next(old(self).kind, old(self).state, ok).1,
            final(self).mounts@ == old(self).mounts@ + (if old(self).state is Mounting && ok {
                1int
            } else {
                0int
            }),
            final(self).unmounts@ == old(self).unmounts@ + (if a is Unmount {
                1int
            } else {
                0int
            }),
            final(self).unmount_warning == (old(self).unmount_warning || (old(
                self,
            ).state is Unmounting && !ok)),
    {
        match self.state {
            StageState::CheckingSource => {
                if ok {
                    self.state = StageState::Mounting;
                    StageAction::Mount
                } else {
                    self.state = StageState::Done { ok: false };
                    StageAction::Finish
                }
            },
            StageState::Mounting => {
                if ok {
                    self.state = StageState::Removing;
                    proof {
                        self.mounts@ = self.mounts@ + 1;
                    }
                    StageAction::RemoveOldDir
                } else {
                    self.state = StageState::Done { ok: false };
                    StageAction::Finish
                }
            },
            StageState::Removing => {
                if !ok {
                    self.state = StageState::Unmounting { pending: false };
                    proof {
                        self.unmounts@ = self.unmounts@ + 1;
                    }
                    StageAction::Unmount
                } else {
                    match self.kind {
                        StageKind::CopyLogo => {
                            self.state = StageState::Creating;
                            StageAction::CreateDir
                        },
                        StageKind::DeleteLogo => {
                            self.state = StageState::Unmounting { pending: true };
                            proof {
                                self.unmounts@ = self.unmounts@ + 1;
                            }
                            StageAction::Unmount
                        },
                    }
                }
            },
            StageState::Creating => {
                if ok {
                    self.state = StageState::Copying;
                    StageAction::CopyFile
                } else {
                    self.state = StageState::Unmounting { pending: false };
                    proof {
                        self.unmounts@ = self.unmounts@ + 1;
                    }
                    StageAction::Unmount
                }
            },
            StageState::Copying => {
                self.state = StageState::Unmounting { pending: ok };
                proof {
                    self.unmounts@ = self.unmounts@ + 1;
                }
                StageAction::Unmount
            },
            StageState::Unmounting { pending } => {
                if !ok {
                    self.unmount_warning = true;
                }
                self.state = StageState::Done { ok: pending };
                StageAction::Finish
            },
            StageState::Done { ok: done_ok } => {
                // excluded by the precondition; kept total for the caller
                self.state = StageState::Done { ok: done_ok };
                StageAction::Finish
            },
        }
    }

    /// Reads the overall result once the flow has finished.
    pub fn result(&self) -> (r: bool)
        requires
            self.state is Done,
        ensures
            self.state == (StageState::Done { ok: r }),
    {
        match self.state {
            StageState::Done { ok } => ok,
            _ => false,
        }
    }
}

/// Mount-guard law: when a staging flow has finished, exactly as many
/// unmount requests were issued as mounts succeeded — an operation never
/// ends with a mount still held, and never unmounts what it did not
/// mount.  With the invariant that at most one mount is made, a staging
/// failure after a successful mount still sees its one unmount request
/// before the flow reports its result.
pub proof fn lemma_unmount_balanced(m: StageMachine)
    requires
        m.wf(),
        m.state is Done,
    ensures
        m.unmounts@ == m.mounts@,
        m.mounts@ <= 1,
{
}

} // verus!
