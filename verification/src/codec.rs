//! Binary codec for the two fixed-layout firmware records.
//!
//! The device-descriptor record is exactly 10 bytes: the enable flag at
//! offset 0, the maximum logo width and height as little-endian `u32`
//! fields at offsets 1-4 and 5-8, and the supported-format bitmask at
//! offset 9.  The device-check record is exactly 40 bytes: the protocol
//! version as a little-endian `u32` at offsets 0-3, followed by a 36-byte
//! tail that holds the checksum region.

use vstd::prelude::*;
use vstd::bytes::*;
use vstd::slice::slice_subrange;

verus! {

/// Byte length of the device-descriptor record.
pub const DESCRIPTOR_LEN: usize = 10;

/// Byte length of the device-check record.
pub const CHECK_LEN: usize = 40;

/// Decoded form of the device-descriptor record.
#[derive(Clone, Copy, Debug, PartialEq, Eq, Structural)]
pub struct DeviceDescriptor {
    /// 1 when a custom logo is active, 0 when disabled.
    pub enable: u8,
    /// Maximum logo width in pixels.
    pub width: u32,
    /// Maximum logo height in pixels.
    pub height: u32,
    /// Bitmask of the image formats the firmware accepts.
    pub support_mask: u8,
}

/// The 10 bytes that encode a descriptor.
pub open spec fn spec_encode_descriptor(d: DeviceDescriptor) -> Seq<u8> {
    seq![d.enable] + spec_u32_to_le_bytes(d.width) + spec_u32_to_le_bytes(d.height)
        + seq![d.support_mask]
}

/// The descriptor a 10-byte record decodes to.
pub open spec fn spec_decode_descriptor(s: Seq<u8>) -> DeviceDescriptor
    recommends
        s.len() == 10,
{
    DeviceDescriptor {
        enable: s[0],
        width: spec_u32_from_le_bytes(s.subrange(1, 5)),
        height: spec_u32_from_le_bytes(s.subrange(5, 9)),
        support_mask: s[9],
    }
}

/// Encodes a descriptor into its fixed 10-byte record.
pub fn encode_descriptor(d: &DeviceDescriptor) -> (r: Vec<u8>)
    ensures
        r@ == spec_encode_descriptor(*d),
        r@.len() == 10,
{
    let mut r: Vec<u8> = Vec::new();
    r.push(d.enable);
    let mut w = u32_to_le_bytes(d.width);
    r.append(&mut w);
    let mut h = u32_to_le_bytes(d.height);
    r.append(&mut h);
    r.push(d.support_mask);
    proof {
        assert(r@ =~= spec_encode_descriptor(*d));
    }
    r
}

/// Decodes a descriptor record; `None` exactly when the record does not
/// have its fixed 10-byte length.
pub fn decode_descriptor(bytes: &Vec<u8>) -> (r: Option<DeviceDescriptor>)
    ensures
        r is Some <==> bytes@.len() == 10,
        bytes@.len() == 10 ==> r == Some(spec_decode_descriptor(bytes@)),
{
    if bytes.len() != DESCRIPTOR_LEN {
        return None;
    }
    let enable = bytes[0];
    let width = u32_from_le_bytes(slice_subrange(bytes.as_slice(), 1, 5));
    let height = u32_from_le_bytes(slice_subrange(bytes.as_slice(), 5, 9));
    let support_mask = bytes[9];
    Some(DeviceDescriptor { enable, width, height, support_mask })
}

/// Encoding a descriptor and decoding the record again yields the same
/// enable flag, width, height and support mask, for every descriptor.
pub proof fn lemma_descriptor_round_trip(d: DeviceDescriptor)
    ensures
        spec_decode_descriptor(spec_encode_descriptor(d)) == d,
{
    lemma_auto_spec_u32_to_from_le_bytes();
    let s = spec_encode_descriptor(d);
    assert(s.subrange(1, 5) =~= spec_u32_to_le_bytes(d.width));
    assert(s.subrange(5, 9) =~= spec_u32_to_le_bytes(d.height));
}

/// Decoding a 10-byte record and encoding the descriptor again yields the
/// same bytes, for every 10-byte record.
pub proof fn lemma_descriptor_round_trip_bytes(s: Seq<u8>)
    requires
        s.len() == 10,
    ensures
        spec_encode_descriptor(spec_decode_descriptor(s)) == s,
{
    lemma_auto_spec_u32_to_from_le_bytes();
    assert(spec_encode_descriptor(spec_decode_descriptor(s)) =~= s);
}

/// The protocol version recorded in a 40-byte device-check record.
pub open spec fn spec_check_version(s: Seq<u8>) -> u32
    recommends
        s.len() == 40,
{
    spec_u32_from_le_bytes(s.subrange(0, 4))
}

/// Reads the protocol version out of a device-check record.
pub fn check_version(bytes: &Vec<u8>) -> (r: u32)
    requires
        bytes@.len() == 40,
    ensures
        r == spec_check_version(bytes@),
{
    u32_from_le_bytes(slice_subrange(bytes.as_slice(), 0, 4))
}

/// The check record with `patch` written over the bytes starting at
/// offset 4; every other byte is kept.
pub open spec fn spec_patch_check(s: Seq<u8>, patch: Seq<u8>) -> Seq<u8>
    recommends
        s.len() == 40,
        patch.len() <= 36,
{
    Seq::new(s.len(), |i: int| if 4 <= i < 4 + patch.len() { patch[i - 4] } else { s[i] })
}

/// Writes `patch` into a check record at offset 4, keeping the version
/// field and every byte past the patched range.
pub fn patch_check(bytes: &Vec<u8>, patch: &Vec<u8>) -> (r: Vec<u8>)
    requires
        bytes@.len() == 40,
        patch@.len() <= 36,
    ensures
        r@ == spec_patch_check(bytes@, patch@),
        r@.len() == 40,
{
    let mut r: Vec<u8> = Vec::new();
    let mut i: usize = 0;
    while i < bytes.len()
        invariant
            bytes@.len() == 40,
            patch@.len() <= 36,
            i <= 40,
            r@.len() == i,
            forall|j: int|
                0 <= j < i ==> r@[j] == (if 4 <= j < 4 + patch@.len() {
                    patch@[j - 4]
                } else {
                    bytes@[j]
                }),
        decreases bytes@.len() - i,
    {
        if 4 <= i && i < 4 + patch.len() {
            r.push(patch[i - 4]);
        } else {
            r.push(bytes[i]);
        }
        i = i + 1;
    }
    proof {
        assert(r@ =~= spec_patch_check(bytes@, patch@));
    }
    r
}

/// Copies a byte buffer.
pub fn copy_bytes(v: &Vec<u8>) -> (r: Vec<u8>)
    ensures
        r@ == v@,
{
    let mut r: Vec<u8> = Vec::new();
    let mut i: usize = 0;
    while i < v.len()
        invariant
            i <= v@.len(),
            r@ =~= v@.take(i as int),
        decreases v@.len() - i,
    {
        r.push(v[i]);
        i = i + 1;
    }
    proof {
        assert(v@.take(v@.len() as int) =~= v@);
    }
    r
}

/// The descriptor record with its enable byte replaced.
pub fn with_enable(bytes: &Vec<u8>, value: u8) -> (r: Vec<u8>)
    requires
        bytes@.len() == 10,
    ensures
        r@ == bytes@.update(0, value),
{
    let mut r: Vec<u8> = Vec::new();
    r.push(value);
    let mut i: usize = 1;
    while i < bytes.len()
        invariant
            bytes@.len() == 10,
            1 <= i <= 10,
            r@.len() == i,
            r@[0] == value,
            forall|j: int| 1 <= j < i ==> r@[j] == bytes@[j],
        decreases bytes@.len() - i,
    {
        r.push(bytes[i]);
        i = i + 1;
    }
    proof {
        assert(r@ =~= bytes@.update(0, value));
    }
    r
}

/// Replacing the enable byte leaves every decoded field but the enable
/// flag unchanged.
pub proof fn lemma_with_enable_decode(s: Seq<u8>, value: u8)
    requires
        s.len() == 10,
    ensures
        spec_decode_descriptor(s.update(0, value)).enable == value,
        spec_decode_descriptor(s.update(0, value)).width == spec_decode_descriptor(s).width,
        spec_decode_descriptor(s.update(0, value)).height == spec_decode_descriptor(s).height,
        spec_decode_descriptor(s.update(0, value)).support_mask == spec_decode_descriptor(
            s,
        ).support_mask,
{
    assert(s.update(0, value).subrange(1, 5) =~= s.subrange(1, 5));
    assert(s.update(0, value).subrange(5, 9) =~= s.subrange(5, 9));
}

/// How many checksum bytes the restore operation must zero for a recorded
/// protocol version: 4 bytes for the CRC-32 protocol, the whole 36-byte
/// tail for every other value.
pub open spec fn spec_restore_region_len(version: u32) -> int {
    if version == 0x20000 {
        4
    } else {
        36
    }
}

/// Patching the checksum region keeps the version field: the patch
/// starts at offset 4 and the version occupies offsets 0-3.
pub proof fn lemma_patch_check_keeps_version(s: Seq<u8>, patch: Seq<u8>)
    requires
        s.len() == 40,
        patch.len() <= 36,
    ensures
        spec_check_version(spec_patch_check(s, patch)) == spec_check_version(s),
        spec_patch_check(s, patch).len() == 40,
{
    assert(spec_patch_check(s, patch).subrange(0, 4) =~= s.subrange(0, 4));
}

/// The check record with the version-owned checksum region zeroed and
/// every other byte kept.
pub open spec fn spec_zeroed_check(s: Seq<u8>, version: u32) -> Seq<u8>
    recommends
        s.len() == 40,
{
    spec_patch_check(s, Seq::new(spec_restore_region_len(version) as nat, |i: int| 0u8))
}

/// What a restore write changes, byte for byte: exactly the
/// version-owned region is zeroed — 4 bytes from offset 4 for the
/// CRC-32 protocol, 36 bytes for every other version — and every byte
/// outside it, the version field included, keeps its prior content.
pub proof fn lemma_zeroed_check_bytes(s: Seq<u8>, version: u32)
    requires
        s.len() == 40,
    ensures
        spec_zeroed_check(s, version).len() == 40,
        forall|i: int|
            4 <= i < 4 + spec_restore_region_len(version) ==> spec_zeroed_check(s, version)[i]
                == 0,
        forall|i: int|
            0 <= i < 40 && !(4 <= i < 4 + spec_restore_region_len(version))
                ==> spec_zeroed_check(s, version)[i] == s[i],
{
}

/// True when the bytes a restore would zero are already all zero.
pub open spec fn spec_check_region_zero(s: Seq<u8>, version: u32) -> bool
    recommends
        s.len() == 40,
{
    forall|i: int| 4 <= i < 4 + spec_restore_region_len(version) ==> s[i] == 0
}

/// Tests whether the version-owned checksum region of a check record is
/// already zero.
pub fn check_region_is_zero(bytes: &Vec<u8>, version: u32) -> (r: bool)
    requires
        bytes@.len() == 40,
    ensures
        r == spec_check_region_zero(bytes@, version),
{
    let end: usize = if version == 0x20000 {
        8
    } else {
        40
    };
    let mut i: usize = 4;
    while i < end
        invariant
            bytes@.len() == 40,
            end == 4 + spec_restore_region_len(version),
            4 <= i <= end,
            forall|j: int| 4 <= j < i ==> bytes@[j] == 0,
        decreases end - i,
    {
        if bytes[i] != 0 {
            return false;
        }
        i = i + 1;
    }
    true
}

/// Zeros of the length the restore region has for `version`.
pub fn zero_patch(version: u32) -> (r: Vec<u8>)
    ensures
        r@.len() == spec_restore_region_len(version),
        forall|i: int| 0 <= i < r@.len() ==> r@[i] == 0,
{
    let len: usize = if version == 0x20000 {
        4
    } else {
        36
    };
    let mut r: Vec<u8> = Vec::new();
    let mut i: usize = 0;
    while i < len
        invariant
            i <= len,
            r@.len() == i,
            forall|j: int| 0 <= j < i ==> r@[j] == 0,
        decreases len - i,
    {
        r.push(0);
        i = i + 1;
    }
    r
}

} // verus!
