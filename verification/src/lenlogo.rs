//! The decoded platform snapshot and the read path of the controller.
//!
//! Every operation starts by reading both firmware records fresh; the
//! decoded snapshot is never trusted across a mutating call.  The
//! embedding application performs the raw variable reads and the (Linux)
//! namespace enumeration and hands the outcomes in as a [`VarReads`]
//! bundle; [`get_info`] resolves which buffers and names apply, decodes
//! them, and builds the snapshot.

use vstd::prelude::*;
use vstd::string::StringExecFns;
use crate::codec::spec_check_version;
use crate::codec::DeviceDescriptor;
use crate::codec::spec_decode_descriptor;
use crate::codec::check_version;
use crate::codec::CHECK_LEN;
use crate::codec::copy_bytes;
use crate::codec::decode_descriptor;
use crate::discovery::spec_has_match;
use crate::discovery::spec_is_first_match;
use crate::discovery::spec_lbldesp_tag;
use crate::discovery::spec_lbldesp_var_name;
use crate::discovery::spec_lbldvc_tag;
use crate::discovery::spec_lbldvc_var_name;
use crate::discovery::spec_matches_tag;
use crate::discovery::find_lenovo_var;
use crate::discovery::find_lenovo_vars;
use crate::discovery::lbldesp_var_name;
use crate::discovery::lbldvc_tag;
use crate::discovery::lbldvc_var_name;
use crate::error::Error;
use crate::formats::Format;
use crate::formats::spec_support_format;
use crate::formats::support_format;

verus! {

/// The decoded state of the two firmware records, together with the
/// resolved variable names.  Built fresh by [`get_info`]; an empty check
/// variable name records that the platform exposes no check record and
/// that checksum writes are to be skipped.
pub struct PlatformInfo {
    /// Enable flag decoded from the descriptor record.
    pub enable: u8,
    /// Maximum logo width decoded from the descriptor record.
    pub width: u32,
    /// Maximum logo height decoded from the descriptor record.
    pub height: u32,
    /// Protocol version decoded from the check record; 0 when no check
    /// record is available.
    pub version: u32,
    /// The formats the support mask accepts, in fixed bit order.
    pub support: Vec<Format>,
    /// Raw 10-byte descriptor record as last read.
    pub lbldesp_var: Vec<u8>,
    /// Raw 40-byte check record as last read; all zero when absent.
    pub lbldvc_var: Vec<u8>,
    /// Resolved name of the descriptor variable.
    pub lbldesp_var_name: String,
    /// Resolved name of the check variable; empty when absent.
    pub lbldvc_var_name: String,
}

impl PlatformInfo {
    /// A check record is available for this platform.
    pub open spec fn has_dvc(self) -> bool {
        self.lbldvc_var_name@.len() > 0
    }

    /// The decoded fields agree with the raw records: the records have
    /// their fixed lengths, the scalar fields and the format list are
    /// the descriptor's decoding, and the version is the check record's
    /// version field (zero when no check record is available).
    pub open spec fn wf(self) -> bool {
        &&& self.lbldesp_var@.len() == 10
        &&& self.lbldvc_var@.len() == 40
        &&& self.enable == spec_decode_descriptor(self.lbldesp_var@).enable
        &&& self.width == spec_decode_descriptor(self.lbldesp_var@).width
        &&& self.height == spec_decode_descriptor(self.lbldesp_var@).height
        &&& self.support@ == spec_support_format(spec_decode_descriptor(
            self.lbldesp_var@,
        ).support_mask)
        &&& (self.has_dvc() ==> self.version == spec_check_version(self.lbldvc_var@))
        &&& (!self.has_dvc() ==> self.version == 0)
    }
}

impl Default for PlatformInfo {
    /// The not-yet-read snapshot: zeroed records under the canonical
    /// variable names, with every field the decoding of its record.
    fn default() -> (r: PlatformInfo)
        ensures
            r.wf(),
            r.enable == 0,
            r.support@ == spec_support_format(0),
            r.lbldesp_var@ == Seq::new(10, |i: int| 0u8),
            r.lbldvc_var@ == Seq::new(40, |i: int| 0u8),
            r.lbldesp_var_name@ == spec_lbldesp_var_name(),
            r.lbldvc_var_name@ == spec_lbldvc_var_name(),
    {
        let lbldesp_var: Vec<u8> = vec![0u8; 10];
        let lbldvc_var: Vec<u8> = vec![0u8; 40];
        let desc = match decode_descriptor(&lbldesp_var) {
            Some(desc) => desc,
            None => DeviceDescriptor { enable: 0, width: 0, height: 0, support_mask: 0 },
        };
        let version = check_version(&lbldvc_var);
        proof {
            crate::discovery::lemma_var_names_nonempty();
            assert(lbldesp_var@[0] == 0);
            assert(lbldesp_var@[9] == 0);
        }
        PlatformInfo {
            enable: desc.enable,
            width: desc.width,
            height: desc.height,
            version,
            support: support_format(desc.support_mask),
            lbldesp_var,
            lbldvc_var,
            lbldesp_var_name: String::from_str(lbldesp_var_name()),
            lbldvc_var_name: String::from_str(lbldvc_var_name()),
        }
    }
}

/// Two snapshots agree in every observable field.
pub open spec fn spec_info_eq(a: PlatformInfo, b: PlatformInfo) -> bool {
    &&& a.enable == b.enable
    &&& a.width == b.width
    &&& a.height == b.height
    &&& a.version == b.version
    &&& a.support@ == b.support@
    &&& a.lbldesp_var@ == b.lbldesp_var@
    &&& a.lbldvc_var@ == b.lbldvc_var@
    &&& a.lbldesp_var_name@ == b.lbldesp_var_name@
    &&& a.lbldvc_var_name@ == b.lbldvc_var_name@
}

/// The orchestrator's privilege gate: every mutating operation is
/// preceded by this check, and an unprivileged caller is refused before
/// anything is staged or written.
pub fn check_privilege(privileged: bool) -> (r: Result<(), Error>)
    ensures
        r is Ok <==> privileged,
        !privileged ==> r == Err::<(), Error>(Error::PrivilegeError),
{
    if privileged {
        Ok(())
    } else {
        Err(Error::PrivilegeError)
    }
}

/// What the application is asked to do next by a mutating operation.
/// Staging actions are carried out by running the corresponding flow of
/// [`crate::esp_partition::StageMachine`]; variable writes are guarded
/// by the immutability toggles around them.
pub enum LogoAction {
    /// Stage the source file at the destination path, both relative to
    /// the application's view of the filesystem.
    StageLogo {
        /// The caller-supplied source path.
        src: String,
        /// The destination path inside the EFI System Partition.
        dst: String,
    },
    /// Remove the staged logo directory; absence counts as success.
    DeleteStagedLogo,
    /// Clear the filesystem immutability attribute of the named
    /// variable's node, where the platform marks it immutable.
    ClearImmutable {
        /// The variable whose node is toggled.
        name: String,
    },
    /// Write the bytes to the named firmware variable.
    WriteVar {
        /// The variable to write.
        name: String,
        /// The exact record bytes to write.
        bytes: Vec<u8>,
    },
    /// Restore the immutability attribute of the named variable's node.
    RestoreImmutable {
        /// The variable whose node is toggled.
        name: String,
    },
    /// Hash the source file as the recorded protocol version asks,
    /// with [`crate::checksum::select_and_compute`] over its bytes.
    ComputeChecksum {
        /// The recorded protocol version.
        version: u32,
    },
    /// Nothing further: the overall result is available.
    Finish,
}

/// What the application gathered from the platform for one `get_info`
/// pass: the canonical reads, and, where the platform offers a variable
/// namespace enumeration, the name list and the reads of the adopted
/// fallback names.
pub struct VarReads {
    /// Contents of the canonical descriptor variable, if readable.
    pub desp: Option<Vec<u8>>,
    /// Contents of the canonical check variable, if readable.
    pub dvc: Option<Vec<u8>>,
    /// The variable namespace in enumeration order, where the platform
    /// can list it; `None` where it cannot.
    pub names: Option<Vec<String>>,
    /// Contents of the first name matching the descriptor tag, if the
    /// scan found one and it was readable.
    pub scan_desp: Option<Vec<u8>>,
    /// Contents of the first name matching the check tag, if the scan
    /// found one and it was readable.
    pub scan_dvc: Option<Vec<u8>>,
}

/// The namespace scan found adoptable names for both records.
pub open spec fn spec_scan_applies(reads: VarReads) -> bool {
    &&& reads.names is Some
    &&& spec_has_match(reads.names->0@, spec_lbldesp_tag())
    &&& spec_has_match(reads.names->0@, spec_lbldvc_tag())
}

/// The name the scan adopts for a tag: the first match in enumeration
/// order.
pub open spec fn spec_adopted_name(names: Seq<String>, tag: Seq<char>) -> Seq<char> {
    names[choose|i: int| spec_is_first_match(names, tag, i)]@
}

/// A descriptor record was obtained: from its canonical name, or through
/// the scan fallback.
pub open spec fn spec_desp_ok(reads: VarReads) -> bool {
    reads.desp is Some || (spec_scan_applies(reads) && reads.scan_desp is Some)
}

/// The descriptor bytes the read plan resolves to.
pub open spec fn spec_desp_buf(reads: VarReads) -> Seq<u8> {
    if reads.desp is Some {
        reads.desp->0@
    } else {
        reads.scan_desp->0@
    }
}

/// The descriptor variable name the read plan resolves to.
pub open spec fn spec_desp_name(reads: VarReads) -> Seq<char> {
    if reads.desp is Some {
        spec_lbldesp_var_name()
    } else {
        spec_adopted_name(reads.names->0@, spec_lbldesp_tag())
    }
}

/// A check-record name was found but its contents could not be read:
/// the operation fails rather than degrade.
pub open spec fn spec_dvc_err(reads: VarReads) -> bool {
    if reads.desp is Some {
        &&& reads.dvc is None
        &&& reads.names is Some
        &&& spec_has_match(reads.names->0@, spec_lbldvc_tag())
        &&& reads.scan_dvc is None
    } else {
        reads.scan_dvc is None
    }
}

/// No check record is available anywhere: the snapshot degrades to
/// descriptor-only information and checksum writes are marked skipped.
pub open spec fn spec_dvc_degraded(reads: VarReads) -> bool {
    &&& reads.desp is Some
    &&& reads.dvc is None
    &&& (reads.names is None || !spec_has_match(reads.names->0@, spec_lbldvc_tag()))
}

/// The check bytes the read plan resolves to, when it resolves to any.
pub open spec fn spec_dvc_buf(reads: VarReads) -> Seq<u8> {
    if reads.desp is Some && reads.dvc is Some {
        reads.dvc->0@
    } else {
        reads.scan_dvc->0@
    }
}

/// The check variable name the read plan resolves to.
pub open spec fn spec_dvc_name(reads: VarReads) -> Seq<char> {
    if reads.desp is Some && reads.dvc is Some {
        spec_lbldvc_var_name()
    } else {
        spec_adopted_name(reads.names->0@, spec_lbldvc_tag())
    }
}

/// The failure `get_info` reports for a read bundle, if any: a missing
/// or short descriptor and an unreadable check record are read errors,
/// while a check record of the wrong length is corruption.
pub open spec fn spec_get_info_err(reads: VarReads) -> Option<Error> {
    if !spec_desp_ok(reads) {
        Some(Error::VariableReadError)
    } else if spec_desp_buf(reads).len() != 10 {
        Some(Error::VariableReadError)
    } else if spec_dvc_err(reads) {
        Some(Error::VariableReadError)
    } else if !spec_dvc_degraded(reads) && spec_dvc_buf(reads).len() != 40 {
        Some(Error::SizeMismatch)
    } else {
        None
    }
}

/// Builds a fresh snapshot from one pass of reads, resolving the
/// canonical names first and the scan fallback second: the descriptor
/// fails as unreadable when neither source yields it or it is not
/// exactly 10 bytes; the check record degrades to "absent" when no name
/// for it exists, fails as unreadable when a name exists but its
/// contents do not, and fails as corrupt when it is not exactly 40
/// bytes.
pub fn get_info(reads: &VarReads) -> (r: Result<PlatformInfo, Error>)
    ensures
        r is Err <==> spec_get_info_err(*reads) is Some,
        r matches Err(e) ==> spec_get_info_err(*reads) == Some(e),
        r matches Ok(info) ==> {
            &&& info.wf()
            &&& info.lbldesp_var@ == spec_desp_buf(*reads)
            &&& info.lbldesp_var_name@ == spec_desp_name(*reads)
            &&& (spec_dvc_degraded(*reads) ==> !info.has_dvc() && info.lbldvc_var@ =~= Seq::new(
                40,
                |i: int| 0u8,
            ))
            &&& (!spec_dvc_degraded(*reads) ==> info.has_dvc() && info.lbldvc_var@
                == spec_dvc_buf(*reads) && info.lbldvc_var_name@ == spec_dvc_name(*reads))
        },
{
    proof {
        crate::discovery::lemma_var_names_nonempty();
    }
    let desp_buf: &Vec<u8>;
    let desp_name: String;
    let mut dvc_name: String;
    let via_scan: bool;
    match &reads.desp {
        Some(b) => {
            desp_buf = b;
            desp_name = String::from_str(lbldesp_var_name());
            dvc_name = String::from_str(lbldvc_var_name());
            via_scan = false;
        },
        None => {
            match &reads.names {
                None => {
                    return Err(Error::VariableReadError);
                },
                Some(names) => {
                    match find_lenovo_vars(names) {
                        None => {
                            return Err(Error::VariableReadError);
                        },
                        Some((d, v)) => {
                            match &reads.scan_desp {
                                None => {
                                    return Err(Error::VariableReadError);
                                },
                                Some(b) => {
                                    proof {
                                        lemma_adopted_name_is_first_match(
                                            reads.names->0@,
                                            spec_lbldesp_tag(),
                                            d@,
                                        );
                                        lemma_adopted_name_is_first_match(
                                            reads.names->0@,
                                            spec_lbldvc_tag(),
                                            v@,
                                        );
                                    }
                                    desp_buf = b;
                                    desp_name = d;
                                    dvc_name = v;
                                    via_scan = true;
                                },
                            }
                        },
                    }
                },
            }
        },
    }
    let desc = match decode_descriptor(desp_buf) {
        None => {
            return Err(Error::VariableReadError);
        },
        Some(desc) => desc,
    };
    let dvc_buf: Option<&Vec<u8>>;
    if via_scan {
        match &reads.scan_dvc {
            Some(b) => {
                dvc_buf = Some(b);
            },
            None => {
                return Err(Error::VariableReadError);
            },
        }
    } else {
        match &reads.dvc {
            Some(b) => {
                dvc_buf = Some(b);
            },
            None => {
                match &reads.names {
                    None => {
                        dvc_buf = None;
                    },
                    Some(names) => {
                        match find_lenovo_var(names, lbldvc_tag()) {
                            None => {
                                dvc_buf = None;
                            },
                            Some(v2) => {
                                match &reads.scan_dvc {
                                    Some(b) => {
                                        proof {
                                            lemma_adopted_name_is_first_match(
                                                reads.names->0@,
                                                spec_lbldvc_tag(),
                                                v2@,
                                            );
                                        }
                                        dvc_buf = Some(b);
                                        dvc_name = v2;
                                    },
                                    None => {
                                        return Err(Error::VariableReadError);
                                    },
                                }
                            },
                        }
                    },
                }
            },
        }
    }
    match dvc_buf {
        None => {
            Ok(
                PlatformInfo {
                    enable: desc.enable,
                    width: desc.width,
                    height: desc.height,
                    version: 0,
                    support: support_format(desc.support_mask),
                    lbldesp_var: copy_bytes(desp_buf),
                    lbldvc_var: vec![0u8; 40],
                    lbldesp_var_name: desp_name,
                    lbldvc_var_name: String::new(),
                },
            )
        },
        Some(b) => {
            if b.len() != CHECK_LEN {
                return Err(Error::SizeMismatch);
            }
            let version = check_version(b);
            Ok(
                PlatformInfo {
                    enable: desc.enable,
                    width: desc.width,
                    height: desc.height,
                    version,
                    support: support_format(desc.support_mask),
                    lbldesp_var: copy_bytes(desp_buf),
                    lbldvc_var: copy_bytes(b),
                    lbldesp_var_name: desp_name,
                    lbldvc_var_name: dvc_name,
                },
            )
        },
    }
}

/// A name the scan hands back is the adopted name: first matches are
/// unique.
proof fn lemma_adopted_name_is_first_match(names: Seq<String>, tag: Seq<char>, n: Seq<char>)
    requires
        exists|i: int| spec_is_first_match(names, tag, i) && n == names[i]@,
    ensures
        n == spec_adopted_name(names, tag),
{
    let i = choose|i: int| spec_is_first_match(names, tag, i) && n == names[i]@;
    let j = choose|j: int| spec_is_first_match(names, tag, j);
    assert(spec_is_first_match(names, tag, j));
    if i < j {
        assert(spec_matches_tag(names[i]@, tag));
    }
    if j < i {
        assert(spec_matches_tag(names[j]@, tag));
    }
}

} // verus!
