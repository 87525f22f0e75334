//! Shared distribution runtime for Rust command-line applications: release
//! version rules, release identity checks, checksum verification of updater
//! downloads, the decisions of the self-update flow, command-line rendering,
//! and the naming rules of a private application data directory.

pub mod build_support;
pub mod checksum;
pub mod error;
pub mod process;
pub mod secure_store;
pub mod text;
pub mod update;
pub mod update_flow;
pub mod version_order;

pub use build_support::{
    build_directives, cargo_version, check_environment_name, validate_version,
    version_file_version, VersionFormat,
};
pub use checksum::{expected_checksum, verify_artifact, verify_checksum};
pub use error::{outcome, Error, Failure, Result};
pub use process::{describe_failure, display, failure_message, quote, FailureCause};
pub use secure_store::{private_mode, FileLock, LockedJsonStore, SecureDir};
pub use update::{
    after_curl, after_wget, command_failure_text, curl_failure, curl_options, download_source, downloader_missing,
    installed_version, installer_name, powershell_download_command, powershell_download_failure,
    powershell_launch_failure, product_environment, release_location, validate_executable_name,
    validate_release_base, validate_requested_version, validate_spec, wget_failure,
    DownloadSource, DownloaderRun, ReleaseSpec, UpdateSummary,
};
pub use update_flow::{
    CommandArgument, UpdateEvent, UpdateFlow, UpdatePhase, UpdateStep, WINDOWS_HELPER,
};
pub use version_order::compare_versions;
