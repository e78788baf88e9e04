//! The options a caller sets, as they arrive from the command line.

use vstd::prelude::*;
use crate::auto::{AutoProfile, VerifyIntegrity};

verus! {

/// Smallest part size that can be asked for, in MiB.
pub const MIN_PART_SIZE_MB: i64 = 5;

/// Part size when none is asked for, in MiB.
pub const DEFAULT_PART_SIZE_MB: i64 = 256;

/// Largest part size that can be asked for, in MiB (5 GiB).
pub const MAX_PART_SIZE_MB: i64 = 5120;

/// Concurrency cap when none is asked for.
pub const DEFAULT_CONCURRENCY: usize = 50;

/// Largest concurrency cap that can be asked for.
pub const MAX_CONCURRENT_PARTS: usize = 1000;

/// Options of one copy.
#[derive(Clone, Debug, PartialEq, Eq)]
pub struct Args {
    /// Source bucket name.
    pub source_bucket: String,
    /// Source object key.
    pub source_key: String,
    /// Destination bucket name.
    pub dest_bucket: String,
    /// Destination object key.
    pub dest_key: String,
    /// Region of the clients, where the default is not wanted.
    pub region: Option<String>,
    /// Region of the destination bucket, where it differs.
    pub dest_region: Option<String>,
    /// Named credentials profile.
    pub profile: Option<String>,
    /// Part size in MiB for manual mode.
    pub part_size: Option<i64>,
    /// Hard cap on concurrent part copies.
    pub concurrency: Option<usize>,
    /// Storage class of the destination, overriding the source's.
    pub storage_class: Option<String>,
    /// Apply the bucket-owner-full-control ACL.
    pub full_control: bool,
    /// Tune part size and concurrency automatically.
    pub auto: bool,
    /// Which tables the auto mode uses.
    pub auto_profile: AutoProfile,
    /// Do not carry over standard and custom metadata.
    pub no_metadata: bool,
    /// Do not carry over tags.
    pub no_tags: bool,
    /// Do not inherit the source's storage class.
    pub no_storage_class: bool,
    /// Do not apply the ACL.
    pub no_acl: bool,
    /// Print nothing but errors.
    pub quiet: bool,
    /// Write nothing to the store.
    pub dry_run: bool,
    /// Copy even where the destination already matches.
    pub force_copy: bool,
    /// What is compared after the copy.
    pub verify_integrity: VerifyIntegrity,
    /// Checksum algorithm of the destination (CRC32, CRC32C, SHA1, SHA256).
    pub checksum_algorithm: Option<String>,
    /// Server-side encryption algorithm (AES256, aws:kms).
    pub sse: Option<String>,
    /// KMS key for aws:kms encryption.
    pub sse_kms_key_id: Option<String>,
    /// Estimate the cost without copying.
    pub estimate: bool,
}

} // verus!
