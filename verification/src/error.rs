//! Failure taxonomy of the logo subsystem.

use vstd::prelude::*;

verus! {

/// Everything that can go wrong while reading or mutating the firmware
/// records and the staged logo image.
#[derive(Clone, Copy, Debug, PartialEq, Eq, Structural)]
pub enum Error {
    /// A firmware variable is missing or unreadable, or the descriptor
    /// record does not have its fixed 10-byte length.
    VariableReadError,
    /// The device-check record exists but is not exactly 40 bytes long;
    /// treated as corruption and never auto-repaired.
    SizeMismatch,
    /// The recorded protocol version selects no known checksum algorithm;
    /// mutating operations refuse to proceed.
    UnsupportedVersion,
    /// The source file could not be staged onto the EFI System Partition:
    /// not a regular file, no mount point, mount failure, or a copy error.
    StagingFailed,
    /// Hashing the staged image failed.
    ChecksumFailed,
    /// The filesystem immutability attribute of a variable node could not
    /// be toggled, and the guarded write failed as well.
    ImmutabilityError,
    /// Writing a firmware variable failed.
    VariableWriteError,
    /// The caller does not hold the privileges needed to mutate firmware
    /// variables.
    PrivilegeError,
}

} // verus!
