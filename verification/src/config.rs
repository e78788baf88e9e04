//! The validated configuration that the engine is built from.

use vstd::prelude::*;
use crate::args::{
    Args, DEFAULT_CONCURRENCY, DEFAULT_PART_SIZE_MB, MAX_CONCURRENT_PARTS, MAX_PART_SIZE_MB,
    MIN_PART_SIZE_MB,
};
use crate::auto::{AutoProfile, VerifyIntegrity};
use crate::errors::{CopyError, CopyErrorView, LimitKind};
use crate::limits::MIB;
use crate::object::ObjectRef;
use crate::text::{copy_optional_text, copy_text, optional_text, Text};

verus! {

/// Everything that decides how one copy is made.
#[derive(Clone, Debug, PartialEq, Eq)]
pub struct CopyConfig {
    pub source: ObjectRef,
    pub destination: ObjectRef,
    /// Part size of manual mode, in bytes.
    pub manual_part_size: i64,
    pub concurrency_cap: usize,
    pub auto_enabled: bool,
    pub auto_profile: AutoProfile,
    pub skip_metadata: bool,
    pub skip_tags: bool,
    pub skip_storage_class: bool,
    pub skip_acl: bool,
    pub force_copy: bool,
    pub dry_run: bool,
    pub quiet: bool,
    pub storage_class_override: Option<String>,
    pub checksum_algorithm: Option<String>,
    pub sse: Option<String>,
    pub sse_kms_key_id: Option<String>,
    pub full_control_acl: bool,
    pub verify: VerifyIntegrity,
}

/// A configuration in contracts.
pub ghost struct CopyConfigView {
    pub source: (Text, Text),
    pub destination: (Text, Text),
    pub manual_part_size: i64,
    pub concurrency_cap: usize,
    pub auto_enabled: bool,
    pub auto_profile: AutoProfile,
    pub skip_metadata: bool,
    pub skip_tags: bool,
    pub skip_storage_class: bool,
    pub skip_acl: bool,
    pub force_copy: bool,
    pub dry_run: bool,
    pub quiet: bool,
    pub storage_class_override: Option<Text>,
    pub checksum_algorithm: Option<Text>,
    pub sse: Option<Text>,
    pub sse_kms_key_id: Option<Text>,
    pub full_control_acl: bool,
    pub verify: VerifyIntegrity,
}

impl DeepView for CopyConfig {
    type V = CopyConfigView;

    open spec fn deep_view(&self) -> CopyConfigView {
        CopyConfigView {
            source: (self.source.bucket@, self.source.key@),
            destination: (self.destination.bucket@, self.destination.key@),
            manual_part_size: self.manual_part_size,
            concurrency_cap: self.concurrency_cap,
            auto_enabled: self.auto_enabled,
            auto_profile: self.auto_profile,
            skip_metadata: self.skip_metadata,
            skip_tags: self.skip_tags,
            skip_storage_class: self.skip_storage_class,
            skip_acl: self.skip_acl,
            force_copy: self.force_copy,
            dry_run: self.dry_run,
            quiet: self.quiet,
            storage_class_override: optional_text(self.storage_class_override),
            checksum_algorithm: optional_text(self.checksum_algorithm),
            sse: optional_text(self.sse),
            sse_kms_key_id: optional_text(self.sse_kms_key_id),
            full_control_acl: self.full_control_acl,
            verify: self.verify,
        }
    }
}

/// The part size in MiB that the options ask for.
pub open spec fn asked_part_size_mb(args: Args) -> int {
    match args.part_size {
        Some(mb) => mb as int,
        None => DEFAULT_PART_SIZE_MB as int,
    }
}

/// The concurrency cap that the options ask for.
pub open spec fn asked_concurrency(args: Args) -> int {
    match args.concurrency {
        Some(cap) => cap as int,
        None => DEFAULT_CONCURRENCY as int,
    }
}

/// Which limit the options break, if any: the part size is looked at first.
pub open spec fn broken_limit(args: Args) -> Option<LimitKind> {
    if asked_part_size_mb(args) < MIN_PART_SIZE_MB || asked_part_size_mb(args) > MAX_PART_SIZE_MB {
        Some(LimitKind::PartSize)
    } else if asked_concurrency(args) < 1 || asked_concurrency(args) > MAX_CONCURRENT_PARTS {
        Some(LimitKind::Concurrency)
    } else {
        None
    }
}

/// The configuration that options within their limits stand for.
pub open spec fn config_of(args: Args) -> CopyConfigView {
    CopyConfigView {
        source: (args.source_bucket@, args.source_key@),
        destination: (args.dest_bucket@, args.dest_key@),
        manual_part_size: (asked_part_size_mb(args) * MIB) as i64,
        concurrency_cap: asked_concurrency(args) as usize,
        auto_enabled: args.auto,
        auto_profile: args.auto_profile,
        skip_metadata: args.no_metadata,
        skip_tags: args.no_tags,
        skip_storage_class: args.no_storage_class,
        skip_acl: args.no_acl,
        force_copy: args.force_copy,
        dry_run: args.dry_run,
        quiet: args.quiet,
        storage_class_override: optional_text(args.storage_class),
        checksum_algorithm: optional_text(args.checksum_algorithm),
        sse: optional_text(args.sse),
        sse_kms_key_id: optional_text(args.sse_kms_key_id),
        full_control_acl: args.full_control,
        verify: args.verify_integrity,
    }
}

/// How often a request is tried: 5 times in manual mode, else by profile.
pub open spec fn max_attempts_of(auto: bool, profile: AutoProfile) -> int {
    if auto {
        match profile {
            AutoProfile::Aggressive => 10,
            AutoProfile::Balanced => 8,
            AutoProfile::Conservative => 6,
            AutoProfile::CostEfficient => 6,
        }
    } else {
        5
    }
}

/// How often the store's client tries one request before it gives up.
pub fn retry_max_attempts(auto: bool, profile: AutoProfile) -> (attempts: u32)
    ensures
        attempts == max_attempts_of(auto, profile),
{
    if auto {
        match profile {
            AutoProfile::Aggressive => 10,
            AutoProfile::Balanced => 8,
            AutoProfile::Conservative => 6,
            AutoProfile::CostEfficient => 6,
        }
    } else {
        5
    }
}

impl CopyConfig {
    /// The configuration for the given options, or the limit that they break:
    /// a part size outside 5..=5120 MiB, or a concurrency outside 1..=1000.
    pub fn from_args(args: &Args) -> (config: Result<CopyConfig, CopyError>)
        ensures
            match config {
                Ok(c) => broken_limit(*args) is None && c.deep_view() == config_of(*args),
                Err(e) => broken_limit(*args) matches Some(kind) && e.deep_view()
                    == CopyErrorView::LimitExceeded(kind),
            },
    {
        let part_size_mb: i64 = match args.part_size {
            Some(mb) => mb,
            None => DEFAULT_PART_SIZE_MB,
        };
        let concurrency: usize = match args.concurrency {
            Some(cap) => cap,
            None => DEFAULT_CONCURRENCY,
        };
        if part_size_mb < MIN_PART_SIZE_MB || part_size_mb > MAX_PART_SIZE_MB {
            return Err(CopyError::LimitExceeded(LimitKind::PartSize));
        }
        if concurrency < 1 || concurrency > MAX_CONCURRENT_PARTS {
            return Err(CopyError::LimitExceeded(LimitKind::Concurrency));
        }
        Ok(
            CopyConfig {
                source: ObjectRef {
                    bucket: copy_text(&args.source_bucket),
                    key: copy_text(&args.source_key),
                },
                destination: ObjectRef {
                    bucket: copy_text(&args.dest_bucket),
                    key: copy_text(&args.dest_key),
                },
                manual_part_size: part_size_mb * MIB,
                concurrency_cap: concurrency,
                auto_enabled: args.auto,
                auto_profile: args.auto_profile,
                skip_metadata: args.no_metadata,
                skip_tags: args.no_tags,
                skip_storage_class: args.no_storage_class,
                skip_acl: args.no_acl,
                force_copy: args.force_copy,
                dry_run: args.dry_run,
                quiet: args.quiet,
                storage_class_override: copy_optional_text(&args.storage_class),
                checksum_algorithm: copy_optional_text(&args.checksum_algorithm),
                sse: copy_optional_text(&args.sse),
                sse_kms_key_id: copy_optional_text(&args.sse_kms_key_id),
                full_control_acl: args.full_control,
                verify: args.verify_integrity,
            },
        )
    }
}

} // verus!
