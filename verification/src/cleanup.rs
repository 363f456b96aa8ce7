//! Option and report types for the database-cleanup operations. The
//! operations themselves run against the remote backend and live
//! outside this crate; these types carry their configuration and what
//! they report back.

use vstd::prelude::*;

verus! {

/// Which cleanup passes to run and how.
#[derive(Debug)]
pub struct CleanupOptions {
    pub remove_test_data: Option<bool>,
    pub remove_inactive_records: Option<bool>,
    pub cleanup_drafts: Option<bool>,
    pub archive_old_records: Option<bool>,
    pub optimize_database: Option<bool>,
    pub days_threshold: Option<i64>,
    pub dry_run: Option<bool>,
}

/// Counters summarizing one cleanup run.
#[derive(Debug)]
pub struct CleanupReportSummary {
    pub test_data_removed: u64,
    pub inactive_records_archived: u64,
    pub drafts_cleaned: u64,
    pub orphan_records_removed: u64,
    pub logs_cleaned: u64,
    pub attachments_cleaned: u64,
    pub cache_cleared: bool,
    pub total_records_processed: u64,
}

/// One operation's outcome within a cleanup run.
#[derive(Debug)]
pub struct CleanupDetail {
    pub operation: String,
    pub model: String,
    pub records_affected: u64,
    pub details: String,
    pub status: String,
}

/// The full report of one cleanup run.
#[derive(Debug)]
pub struct CleanupReport {
    pub success: bool,
    pub timestamp: String,
    pub summary: CleanupReportSummary,
    pub details: Vec<CleanupDetail>,
    pub warnings: Vec<String>,
    pub errors: Vec<String>,
    pub dry_run: bool,
}

/// The cleanup tool's arguments as they arrive over the protocol.
#[derive(Debug)]
pub struct DatabaseCleanupArgs {
    pub instance: String,
    pub remove_test_data: Option<bool>,
    pub remove_inactiv_records: Option<bool>,
    pub cleanup_drafts: Option<bool>,
    pub archive_old_records: Option<bool>,
    pub optimize_database: Option<bool>,
    pub days_threshold: Option<i64>,
    pub dry_run: Option<bool>,
}

/// The deep-cleanup tool's arguments as they arrive over the protocol.
#[derive(Debug)]
pub struct DeepCleanupArgs {
    pub instance: String,
    pub dry_run: Option<bool>,
    pub keep_company_defaults: Option<bool>,
    pub keep_user_accounts: Option<bool>,
    pub keep_menus: Option<bool>,
    pub keep_groups: Option<bool>,
}

impl DatabaseCleanupArgs {
    /// The options a cleanup run gets from these arguments.
    pub fn to_options(self) -> (r: CleanupOptions)
        ensures
            r.remove_test_data == self.remove_test_data,
            r.remove_inactive_records == self.remove_inactiv_records,
            r.cleanup_drafts == self.cleanup_drafts,
            r.archive_old_records == self.archive_old_records,
            r.optimize_database == self.optimize_database,
            r.days_threshold == self.days_threshold,
            r.dry_run == self.dry_run,
    {
        CleanupOptions {
            remove_test_data: self.remove_test_data,
            remove_inactive_records: self.remove_inactiv_records,
            cleanup_drafts: self.cleanup_drafts,
            archive_old_records: self.archive_old_records,
            optimize_database: self.optimize_database,
            days_threshold: self.days_threshold,
            dry_run: self.dry_run,
        }
    }
}

} // verus!
