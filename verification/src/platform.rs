//! The platform capability seam, and the pure parts of the two
//! platform providers.
//!
//! Every OS system call sits behind one of the two traits below, which
//! the embedding application implements once per target.  The decisions
//! the providers make that do not need a system call — picking a free
//! drive letter out of the logical-drive bitmap, and picking the ESP
//! block device out of the partition listing — are verified functions
//! here, so a provider only gathers raw data and carries actions out.

use vstd::prelude::*;
use vstd::string::StrSliceExecFns;
use vstd::string::StringExecFns;

verus! {

/// Platform operations: privilege check, ESP mount handling, and the
/// boot-splash visibility flag.  Implemented by the application once
/// per target OS; every method performs I/O, so none carries a
/// contract.
pub trait PlatformOps {
    /// True when the process holds rights sufficient to read and write
    /// firmware variables; false on any introspection failure.
    fn is_admin() -> bool;

    /// Finds an unused mount target: a free drive letter on Windows, no
    /// letter on Linux, where a scratch directory is used instead.
    fn find_available_drive() -> Option<char>;

    /// Mounts the EFI System Partition at the given mount point.
    fn mount_esp(mount_point: &str) -> bool;

    /// Unmounts the EFI System Partition from the given mount point.
    fn unmount_esp(mount_point: &str) -> bool;

    /// Queries the OS boot-loader's loading-icon flag; platforms
    /// without the flag report a fixed value.
    fn get_loading_icon() -> bool;

    /// Sets the OS boot-loader's loading-icon flag; platforms without
    /// the flag succeed as a no-op.
    fn set_loading_icon(show_loading_icon: bool) -> bool;

    /// A path to a system font usable by a user interface, if one is
    /// known for the platform.
    fn get_system_font_path() -> Option<String>;
}

/// ESP staging operations, performed by driving
/// [`crate::esp_partition::StageMachine`].  Implemented by the
/// application once per target OS.
pub trait EspPartitionOps {
    /// Copies a file onto the EFI System Partition, replacing the
    /// staged logo directory; `dst` is relative to the partition root.
    fn copy_file_to_esp(src: &str, dst: &str) -> bool;

    /// Removes the staged logo directory from the EFI System
    /// Partition; absence counts as success.
    fn delete_logo_path() -> bool;
}

/// Bit `i` of the logical-drive bitmap is clear: the letter is free.
pub open spec fn spec_drive_free(drive_mask: u32, i: u32) -> bool {
    drive_mask & (1u32 << i) == 0
}

/// Scans the 26-bit logical-drive bitmap for the first free letter, A
/// through Z; `None` when every letter is taken.
pub fn find_available_drive(drive_mask: u32) -> (r: Option<char>)
    ensures
        r is Some <==> exists|i: u32| i < 26 && spec_drive_free(drive_mask, i),
        r matches Some(c) ==> {
            &&& 65 <= (c as u32)
            &&& (c as u32) < 91
            &&& spec_drive_free(drive_mask, (((c as u32) - 65) as u32))
            &&& forall|j: u32| (j as int) < (c as u32) - 65 ==> !spec_drive_free(drive_mask, j)
        },
{
    let mut i: u32 = 0;
    while i < 26
        invariant
            i <= 26,
            forall|j: u32| j < i ==> !spec_drive_free(drive_mask, j),
        decreases 26 - i,
    {
        if drive_mask & (1u32 << i) == 0 {
            let letter: u8 = 65 + (i as u8);
            let c = letter as char;
            proof {
                assert(letter as u32 == 65 + i) by (bit_vector)
                    requires
                        i < 26,
                        letter == 65 + (i as u8),
                ;
                assert(c as u32 == letter as u32);
                assert(spec_drive_free(drive_mask, i));
            }
            return Some(c);
        }
        i = i + 1;
    }
    None
}

/// The pattern occurs in `s` starting at position `k`.
pub open spec fn spec_contains_at(s: Seq<char>, pat: Seq<char>, k: int) -> bool {
    0 <= k && k + pat.len() <= s.len() && s.subrange(k, k + pat.len()) == pat
}

/// The pattern occurs somewhere in `s`.
pub open spec fn spec_contains(s: Seq<char>, pat: Seq<char>) -> bool {
    exists|k: int| spec_contains_at(s, pat, k)
}

/// Substring search.
pub fn contains_sub(s: &str, pat: &str) -> (r: bool)
    ensures
        r == spec_contains(s@, pat@),
{
    let slen = s.unicode_len();
    let plen = pat.unicode_len();
    if plen > slen {
        proof {
            assert(forall|k: int| !spec_contains_at(s@, pat@, k));
        }
        return false;
    }
    let mut k: usize = 0;
    while k <= slen - plen
        invariant
            slen == s@.len(),
            plen == pat@.len(),
            plen <= slen,
            k <= slen - plen + 1,
            forall|k2: int| 0 <= k2 < k ==> !spec_contains_at(s@, pat@, k2),
        decreases slen + 1 - plen - k,
    {
        let mut m: usize = 0;
        let mut matched = true;
        while matched && m < plen
            invariant
                slen == s@.len(),
                plen == pat@.len(),
                k + plen <= slen,
                m <= plen,
                matched ==> (forall|j: int| 0 <= j < m ==> s@[k + j] == pat@[j]),
                !matched ==> (exists|j: int| 0 <= j < plen && s@[k + j] != pat@[j]),
            decreases plen - m + (if matched {
                1int
            } else {
                0int
            }),
        {
            if s.get_char(k + m) != pat.get_char(m) {
                matched = false;
            } else {
                m = m + 1;
            }
        }
        if matched {
            proof {
                assert(s@.subrange(k as int, k + pat@.len()) =~= pat@);
                assert(spec_contains_at(s@, pat@, k as int));
            }
            return true;
        }
        proof {
            assert(!spec_contains_at(s@, pat@, k as int));
        }
        k = k + 1;
    }
    proof {
        assert(forall|k2: int| k2 > slen - plen ==> !spec_contains_at(s@, pat@, k2));
    }
    false
}

/// ASCII blank, as the partition listings separate their columns.
pub open spec fn spec_is_blank(c: char) -> bool {
    c == ' ' || c == '\t'
}

/// The first column of a listing line: the characters before the first
/// blank.  The whole line when it holds no blank.
pub open spec fn spec_first_column(s: Seq<char>) -> Seq<char>
    decreases s.len(),
{
    if s.len() == 0 || spec_is_blank(s[0]) {
        Seq::empty()
    } else {
        seq![s[0]] + spec_first_column(s.drop_first())
    }
}

/// Cuts the first blank-separated column off a listing line.
pub fn first_column(s: &str) -> (r: String)
    ensures
        r@ == spec_first_column(s@),
{
    let len = s.unicode_len();
    let mut i: usize = 0;
    let mut stopped = false;
    while !stopped && i < len
        invariant
            len == s@.len(),
            i <= len,
            forall|j: int| 0 <= j < i ==> !spec_is_blank(s@[j]),
            stopped ==> i < len && spec_is_blank(s@[i as int]),
        decreases len - i + (if stopped {
            0int
        } else {
            1int
        }),
    {
        let c = s.get_char(i);
        if c == ' ' || c == '\t' {
            stopped = true;
        } else {
            i = i + 1;
        }
    }
    let cut = s.substring_char(0, i);
    proof {
        lemma_first_column_prefix(s@, i as int);
    }
    String::from_str(cut)
}

/// When no blank occurs before `i` and `i` is the line's end or a
/// blank, the first column is exactly the prefix of length `i`.
proof fn lemma_first_column_prefix(s: Seq<char>, i: int)
    requires
        0 <= i <= s.len(),
        forall|j: int| 0 <= j < i ==> !spec_is_blank(s[j]),
        i == s.len() || spec_is_blank(s[i]),
    ensures
        spec_first_column(s) == s.subrange(0, i),
    decreases s.len(),
{
    if s.len() == 0 || spec_is_blank(s[0]) {
        assert(s.subrange(0, i) =~= Seq::empty());
    } else {
        lemma_first_column_prefix(s.drop_first(), i - 1);
        assert(s.drop_first().subrange(0, i - 1) =~= s.subrange(1, i));
        assert(seq![s[0]] + s.subrange(1, i) =~= s.subrange(0, i));
    }
}

/// A boot-configuration listing line reports the boot UX disabled: it
/// carries the marker and the affirmative.
pub open spec fn spec_bootux_disabled_line(line: Seq<char>) -> bool {
    spec_contains(line, "bootuxdisabled"@) && spec_contains(line, "Yes"@)
}

/// Reads the loading-icon state out of the boot-configuration listing:
/// the icon is reported shown unless some line marks the boot UX
/// disabled.
pub fn loading_icon_from_bcd_output(lines: &Vec<String>) -> (r: bool)
    ensures
        r == !(exists|i: int| 0 <= i < lines@.len() && spec_bootux_disabled_line(lines@[i]@)),
{
    let mut i: usize = 0;
    while i < lines.len()
        invariant
            i <= lines@.len(),
            forall|j: int| 0 <= j < i ==> !spec_bootux_disabled_line(lines@[j]@),
        decreases lines@.len() - i,
    {
        let line = lines[i].as_str();
        if contains_sub(line, "bootuxdisabled") && contains_sub(line, "Yes") {
            return false;
        }
        i = i + 1;
    }
    true
}

/// The partition-type GUID that marks an EFI System Partition.
pub open spec fn spec_esp_guid() -> Seq<char> {
    "c12a7328-f81f-11d2-ba4b-00a0c93ec93b"@
}

/// The ESP partition-type GUID, as the partition listing spells it.
pub fn esp_guid() -> (r: &'static str)
    ensures
        r@ == spec_esp_guid(),
{
    "c12a7328-f81f-11d2-ba4b-00a0c93ec93b"
}

/// A partition-listing line names the ESP: it carries the ESP
/// partition-type GUID.
pub open spec fn spec_lsblk_line_is_esp(line: Seq<char>) -> bool {
    spec_contains(line, spec_esp_guid())
}

/// A mounts-listing line names an EFI volume: it mentions the usual
/// mount point, or a FAT filesystem together with an EFI marker.
pub open spec fn spec_mounts_line_is_esp(line: Seq<char>) -> bool {
    spec_contains(line, "/boot/efi"@) || (spec_contains(line, "vfat"@) && spec_contains(
        line,
        "efi"@,
    ))
}

/// Picks the ESP block device out of the partition listing: the first
/// line carrying the ESP partition-type GUID yields its device name
/// prefixed with `/dev/`; otherwise the first active-mounts line that
/// names an EFI volume yields its device column; otherwise nothing.
pub fn find_esp_partition(lsblk_lines: &Vec<String>, mounts_lines: &Vec<String>) -> (r: Option<
    String,
>)
    ensures
        r is Some <==> ((exists|i: int|
            0 <= i < lsblk_lines@.len() && spec_lsblk_line_is_esp(lsblk_lines@[i]@)) || (
        exists|i: int|
            0 <= i < mounts_lines@.len() && spec_mounts_line_is_esp(mounts_lines@[i]@))),
        r matches Some(dev) ==> {
            ||| (exists|i: int|
                {
                    &&& 0 <= i < lsblk_lines@.len()
                    &&& spec_lsblk_line_is_esp(lsblk_lines@[i]@)
                    &&& (forall|j: int|
                        0 <= j < i ==> !spec_lsblk_line_is_esp(lsblk_lines@[j]@))
                    &&& dev@ == "/dev/"@ + spec_first_column(lsblk_lines@[i]@)
                })
            ||| ((forall|j: int|
                0 <= j < lsblk_lines@.len() ==> !spec_lsblk_line_is_esp(lsblk_lines@[j]@))
                && (exists|i: int|
                {
                    &&& 0 <= i < mounts_lines@.len()
                    &&& spec_mounts_line_is_esp(mounts_lines@[i]@)
                    &&& (forall|j: int|
                        0 <= j < i ==> !spec_mounts_line_is_esp(mounts_lines@[j]@))
                    &&& dev@ == spec_first_column(mounts_lines@[i]@)
                }))
        },
{
    let mut i: usize = 0;
    while i < lsblk_lines.len()
        invariant
            i <= lsblk_lines@.len(),
            forall|j: int| 0 <= j < i ==> !spec_lsblk_line_is_esp(lsblk_lines@[j]@),
        decreases lsblk_lines@.len() - i,
    {
        if contains_sub(lsblk_lines[i].as_str(), esp_guid()) {
            let mut dev = String::from_str("/dev/");
            let col = first_column(lsblk_lines[i].as_str());
            dev.append(col.as_str());
            return Some(dev);
        }
        i = i + 1;
    }
    let mut i: usize = 0;
    while i < mounts_lines.len()
        invariant
            i <= mounts_lines@.len(),
            forall|j: int| 0 <= j < i ==> !spec_mounts_line_is_esp(mounts_lines@[j]@),
            forall|j: int| 0 <= j < lsblk_lines@.len() ==> !spec_lsblk_line_is_esp(
                lsblk_lines@[j]@,
            ),
        decreases mounts_lines@.len() - i,
    {
        let line = mounts_lines[i].as_str();
        if contains_sub(line, "/boot/efi") || (contains_sub(line, "vfat") && contains_sub(
            line,
            "efi",
        )) {
            return Some(first_column(line));
        }
        i = i + 1;
    }
    None
}

} // verus!
