//! Version-dependent checksum selection.
//!
//! The protocol version recorded in the device-check record chooses the
//! integrity checksum the firmware verifies at boot: version 0x20000
//! takes a CRC-32 over at most the first 512 bytes of the logo image,
//! version 0x20003 takes a SHA-256 over the whole image.  The asymmetry
//! (bounded prefix against whole file) is a fixed protocol contract.

use vstd::prelude::*;
use vstd::bytes::spec_u32_to_le_bytes;
use vstd::bytes::u32_to_le_bytes;
use crate::error::Error;

use sha2::Digest;

verus! {

/// Protocol version that selects the CRC-32 checksum.
pub const CRC_PROTOCOL_VERSION: u32 = 0x20000;

/// Protocol version that selects the SHA-256 checksum.
pub const SHA_PROTOCOL_VERSION: u32 = 0x20003;

/// The CRC-32 checksum covers at most this many leading bytes.
pub const CRC_PREFIX_LEN: usize = 512;

/// True for the protocol versions this library knows a checksum for.
pub open spec fn spec_version_recognized(version: u32) -> bool {
    version == CRC_PROTOCOL_VERSION || version == SHA_PROTOCOL_VERSION
}

/// Tells whether a recorded protocol version selects a known checksum.
pub fn version_recognized(version: u32) -> (r: bool)
    ensures
        r == spec_version_recognized(version),
{
    version == CRC_PROTOCOL_VERSION || version == SHA_PROTOCOL_VERSION
}

/// One round of the reflected CRC-32 feedback shift, with the standard
/// polynomial used by common archive checksums.
pub open spec fn crc32_shift(c: u32) -> u32 {
    if c & 1 == 1 {
        (c >> 1) ^ 0xEDB88320u32
    } else {
        c >> 1
    }
}

/// The feedback shift applied `n` times.
pub open spec fn crc32_shift_n(c: u32, n: nat) -> u32
    decreases n,
{
    if n == 0 {
        c
    } else {
        crc32_shift(crc32_shift_n(c, (n - 1) as nat))
    }
}

/// The CRC-32 state after absorbing one byte.
pub open spec fn crc32_byte(c: u32, b: u8) -> u32 {
    crc32_shift_n(c ^ (b as u32), 8)
}

/// The CRC-32 state after absorbing a byte sequence, left to right.
pub open spec fn crc32_acc(c: u32, s: Seq<u8>) -> u32
    decreases s.len(),
{
    if s.len() == 0 {
        c
    } else {
        crc32_byte(crc32_acc(c, s.drop_last()), s.last())
    }
}

/// The CRC-32 of a byte sequence: all-ones initial state, final
/// complement.
pub open spec fn spec_crc32(s: Seq<u8>) -> u32 {
    crc32_acc(0xFFFFFFFFu32, s) ^ 0xFFFFFFFFu32
}

/// Computes the CRC-32 of the given bytes.
pub fn crc32(data: &Vec<u8>) -> (r: u32)
    ensures
        r == spec_crc32(data@),
{
    let mut c: u32 = 0xFFFFFFFF;
    let mut i: usize = 0;
    while i < data.len()
        invariant
            i <= data@.len(),
            c == crc32_acc(0xFFFFFFFFu32, data@.take(i as int)),
        decreases data@.len() - i,
    {
        let ghost c_in = c;
        c = c ^ (data[i] as u32);
        let ghost c_fed = c;
        let mut k: usize = 0;
        while k < 8
            invariant
                k <= 8,
                c == crc32_shift_n(c_fed, k as nat),
        decreases 8 - k,
        {
            c = if c & 1 == 1 {
                (c >> 1) ^ 0xEDB88320
            } else {
                c >> 1
            };
            k = k + 1;
        }
        proof {
            assert(c == crc32_byte(c_in, data@[i as int]));
            assert(data@.take(i + 1).drop_last() =~= data@.take(i as int));
            assert(data@.take(i + 1).last() == data@[i as int]);
        }
        i = i + 1;
    }
    proof {
        assert(data@.take(data@.len() as int) =~= data@);
    }
    c ^ 0xFFFFFFFF
}

/// The bytes the bounded-prefix CRC-32 covers: the whole input when it is
/// at most 512 bytes, its first 512 bytes otherwise.
pub open spec fn spec_crc_input(data: Seq<u8>) -> Seq<u8> {
    if data.len() <= 512 {
        data
    } else {
        data.take(512)
    }
}

/// What an SHA-256 digest is depends on the standard alone; the library
/// names the function and leaves its definition to the hashing crate.
pub uninterp spec fn sha256_of(data: Seq<u8>) -> Seq<u8>;

/// Relies on sha2's `Sha256` through the one-shot `Digest::digest` call:
/// the digest is 32 bytes and is a function of the input bytes alone.
#[verifier::external_body]
fn sha256_digest(data: &Vec<u8>) -> (r: Vec<u8>)
    ensures
        r@ == sha256_of(data@),
        r@.len() == 32,
{
    sha2::Sha256::digest(data.as_slice()).to_vec()
}

/// The checksum bytes a recognized protocol version asks for: the 32-byte
/// SHA-256 of the whole image, or the 4-byte little-endian CRC-32 of its
/// bounded prefix.
pub open spec fn spec_checksum_bytes(data: Seq<u8>, version: u32) -> Seq<u8>
    recommends
        spec_version_recognized(version),
{
    if version == SHA_PROTOCOL_VERSION {
        sha256_of(data)
    } else {
        spec_u32_to_le_bytes(spec_crc32(spec_crc_input(data)))
    }
}

/// Computes the checksum the recorded protocol version calls for, over
/// the full bytes of the logo image; fails exactly on an unrecognized
/// version, with no checksum attempted.
pub fn select_and_compute(data: &Vec<u8>, version: u32) -> (r: Result<Vec<u8>, Error>)
    ensures
        r is Ok <==> spec_version_recognized(version),
        spec_version_recognized(version) ==> (r matches Ok(d)
            && d@ == spec_checksum_bytes(data@, version)),
        version == SHA_PROTOCOL_VERSION ==> (r matches Ok(d) && d@.len() == 32),
        version == CRC_PROTOCOL_VERSION ==> (r matches Ok(d) && d@.len() == 4),
        !spec_version_recognized(version) ==> r == Err::<Vec<u8>, Error>(
            Error::UnsupportedVersion,
        ),
{
    if version == SHA_PROTOCOL_VERSION {
        Ok(sha256_digest(data))
    } else if version == CRC_PROTOCOL_VERSION {
        let prefix: Vec<u8> = crc_prefix(data);
        let c = crc32(&prefix);
        Ok(u32_to_le_bytes(c))
    } else {
        Err(Error::UnsupportedVersion)
    }
}

/// Copies the bytes the bounded-prefix CRC-32 covers.
fn crc_prefix(data: &Vec<u8>) -> (r: Vec<u8>)
    ensures
        r@ == spec_crc_input(data@),
{
    let end: usize = if data.len() <= CRC_PREFIX_LEN {
        data.len()
    } else {
        CRC_PREFIX_LEN
    };
    let mut r: Vec<u8> = Vec::new();
    let mut i: usize = 0;
    while i < end
        invariant
            end <= data@.len(),
            i <= end,
            r@ =~= data@.take(i as int),
        decreases end - i,
    {
        r.push(data[i]);
        i = i + 1;
    }
    proof {
        assert(r@ =~= spec_crc_input(data@));
    }
    r
}

/// The CRC-32 protocol hashes a bounded prefix: an image of at most 512
/// bytes is checksummed whole, and for a longer image only its first 512
/// bytes decide the checksum, so any two images sharing that prefix get
/// the same CRC-32 checksum bytes.
pub proof fn lemma_crc_bounded_prefix(data: Seq<u8>)
    ensures
        data.len() <= 512 ==> spec_crc_input(data) == data,
        data.len() >= 512 ==> spec_checksum_bytes(data, CRC_PROTOCOL_VERSION)
            == spec_checksum_bytes(data.take(512), CRC_PROTOCOL_VERSION),
{
    if data.len() >= 512 {
        assert(data.take(512).take(512) =~= data.take(512));
        if data.len() == 512 {
            assert(data.take(512) =~= data);
        }
    }
}

} // verus!
