//! Firmware boot-logo configuration library.
//!
//! The firmware keeps two fixed-layout NVRAM records: a 10-byte
//! device-descriptor (enable flag, maximum resolution, supported image
//! formats) and a 40-byte device-check record (protocol version plus an
//! integrity checksum over the staged logo image).  This crate holds the
//! verified core of a tool that mutates those records and stages a logo
//! image onto the EFI System Partition: the binary codec for both records,
//! the version-dependent checksum selection, the variable-name discovery
//! fallback, the staging / mount-guard protocol, and the orchestration of
//! the `get_info`, `set_logo` and `restore_logo` operations.
//!
//! All firmware, filesystem and process I/O is performed by the embedding
//! application; the library computes every decision and every byte that is
//! written, and the application only carries the requested actions out and
//! reports their outcomes back.

pub mod checksum;
pub mod codec;
pub mod discovery;
pub mod error;
pub mod esp_partition;
pub mod formats;
pub mod i18n;
pub mod lenlogo;
pub mod paths;
pub mod platform;
pub mod restore_logo;
pub mod set_logo;
