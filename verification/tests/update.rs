use std::cmp::Ordering;

use rust_cli_release::{
    after_curl, after_wget, command_failure_text, compare_versions, curl_failure, curl_options, download_source,
    installed_version, installer_name, product_environment, release_location,
    validate_executable_name, validate_release_base, validate_requested_version, validate_spec,
    verify_checksum, DownloadSource, DownloaderRun, Error, ReleaseSpec,
};
use sha2::{Digest, Sha256};

fn fixture() -> ReleaseSpec {
    ReleaseSpec::new("fixture", "Fixture", "owner/fixture", "FIXTURE", "1.0.0")
}

fn configuration_message<T: std::fmt::Debug>(result: Result<T, Error>) -> String {
    match result {
        Err(Error::Configuration(message)) => message,
        other => panic!("expected a configuration error, got {other:?}"),
    }
}

#[test]
fn release_base_requires_https_or_local_fixture() {
    assert!(validate_release_base("https://github.com/owner/repo/releases").is_ok());
    assert!(validate_release_base("file:///tmp/releases").is_ok());
    assert!(validate_release_base("http://example.com/releases").is_err());
}

#[test]
fn release_versions_are_validated_and_compared() {
    assert!(validate_requested_version("latest").is_ok());
    assert!(validate_requested_version("v2026.07.16.2").is_ok());
    assert!(validate_requested_version("../release").is_err());
    assert_eq!(
        compare_versions("2026.07.16.2", "2026.07.16.10"),
        Some(Ordering::Less)
    );
}

#[test]
fn release_spec_validates_product_identity() {
    validate_spec(&fixture()).unwrap();
    let invalid = ReleaseSpec::new("bad name", "Fixture", "owner/repo", "FIXTURE", "1");
    assert!(validate_spec(&invalid).is_err());
}

#[test]
fn checksum_verification_rejects_modified_content() {
    let digest = hex::encode(Sha256::digest(b"original"));
    let checksum = format!("{digest}  artifact\n");
    verify_checksum(&checksum, b"original").unwrap();
    assert!(verify_checksum(&checksum, b"modified").is_err());
}

#[test]
fn checksum_digests_match_in_either_case() {
    let digest = hex::encode(Sha256::digest(b"payload")).to_uppercase();
    verify_checksum(&format!("\n  {digest}\tinstall.sh"), b"payload").unwrap();
}

#[test]
fn malformed_checksum_files_are_security_errors() {
    let not_hex = "g".repeat(64);
    for contents in ["", "   \n", "abc123  install.sh", not_hex.as_str()] {
        match verify_checksum(contents, b"payload") {
            Err(Error::Security(message)) => {
                assert_eq!(message, "release checksum file is malformed")
            }
            other => panic!("expected a security error, got {other:?}"),
        }
    }
    let wrong = hex::encode(Sha256::digest(b"other"));
    match verify_checksum(&wrong, b"payload") {
        Err(Error::Security(message)) => {
            assert_eq!(message, "updater installer SHA-256 verification failed")
        }
        other => panic!("expected a security error, got {other:?}"),
    }
}

#[test]
fn versions_compare_numerically_and_ignore_one_leading_v() {
    assert_eq!(compare_versions("v1.2.3", "1.2.3"), Some(Ordering::Equal));
    assert_eq!(compare_versions("1.02", "1.2"), Some(Ordering::Equal));
    assert_eq!(compare_versions("1.2", "1.2.0"), Some(Ordering::Less));
    assert_eq!(compare_versions("1.10", "1.9"), Some(Ordering::Greater));
    assert_eq!(compare_versions("1.+2", "1.2"), Some(Ordering::Equal));
    assert_eq!(compare_versions("vv1", "1"), None);
    assert_eq!(compare_versions("1.2-rc", "1.2"), None);
    assert_eq!(compare_versions("", "1"), None);
    assert_eq!(compare_versions("18446744073709551616", "1"), None);
    assert_eq!(
        compare_versions("18446744073709551615", "1"),
        Some(Ordering::Greater)
    );
}

#[test]
fn release_spec_errors_name_the_problem() {
    let blank = ReleaseSpec::new("tool", "  ", "owner/tool", "TOOL", "1");
    assert_eq!(
        configuration_message(validate_spec(&blank)),
        "display name and owner/repository must be configured"
    );
    let nested = ReleaseSpec::new("tool", "Tool", "a/b/c", "TOOL", "1");
    assert!(validate_spec(&nested).is_err());
    let spaced = ReleaseSpec::new("tool", "Tool", "own er/tool", "TOOL", "1");
    assert!(validate_spec(&spaced).is_err());
    let lower = ReleaseSpec::new("tool", "Tool", "owner/tool", "tool", "1");
    assert_eq!(
        configuration_message(validate_spec(&lower)),
        "environment prefix must use uppercase ASCII, digits, and underscores"
    );
    assert_eq!(
        configuration_message(validate_spec(&ReleaseSpec::new("", "T", "o/t", "T", "1"))),
        "invalid binary name"
    );
}

#[test]
fn product_variables_join_prefix_and_suffix() {
    assert_eq!(
        product_environment(&fixture(), "RELEASE_BASE_URL").unwrap(),
        "FIXTURE_RELEASE_BASE_URL"
    );
}

#[test]
fn requested_versions_quote_the_rejected_text() {
    match validate_requested_version("v../x") {
        Err(Error::InvalidInput(message)) => {
            assert_eq!(message, "invalid release version \"../x\"")
        }
        other => panic!("unexpected {other:?}"),
    }
    assert!(validate_requested_version("v").is_err());
    assert!(validate_requested_version("").is_err());
    assert!(validate_requested_version("1.0.0-beta_1").is_ok());
}

#[test]
fn executable_names_must_match_the_binary() {
    let spec = fixture();
    assert!(validate_executable_name(&spec, Some("fixture"), false).is_ok());
    assert!(validate_executable_name(&spec, Some("fixture.exe"), true).is_ok());
    assert_eq!(
        configuration_message(validate_executable_name(&spec, Some("other"), false)),
        "the running executable is named \"other\", not fixture; reinstall Fixture with the \
         official installer before using `fixture update`"
    );
    assert!(validate_executable_name(&spec, None, false).is_err());
}

#[test]
fn release_locations_default_to_github_and_drop_trailing_slashes() {
    let spec = fixture();
    assert_eq!(
        release_location(&spec, None, None),
        (
            "owner/fixture".to_string(),
            "https://github.com/owner/fixture/releases".to_string()
        )
    );
    assert_eq!(
        release_location(&spec, Some("me/fork"), Some("file:///tmp/releases//")),
        ("me/fork".to_string(), "file:///tmp/releases".to_string())
    );
}

#[test]
fn installer_names_follow_the_platform() {
    assert_eq!(installer_name(false), "install.sh");
    assert_eq!(installer_name(true), "install.ps1");
}

#[test]
fn failure_text_prefers_stderr_and_escapes() {
    assert_eq!(command_failure_text(b"out\n", b"  bad\tthing \n"), "bad\\tthing");
    assert_eq!(command_failure_text(b" said it\n", b"   "), "said it");
    assert_eq!(command_failure_text(b"", b""), "no error output was produced");
    assert_eq!(command_failure_text(b"", "caf\u{e9}".as_bytes()), "caf\\u{e9}");
    assert_eq!(command_failure_text(b"", b"bad \xff byte"), "bad \\u{fffd} byte");
    assert_eq!(command_failure_text(b"", b"it's \"x\"\\"), "it\\'s \\\"x\\\"\\\\");
}

#[test]
fn installed_versions_follow_the_binary_name() {
    let spec = fixture();
    assert_eq!(
        installed_version(&spec, true, b"fixture 2.0.0\n").unwrap(),
        "2.0.0"
    );
    assert_eq!(
        configuration_message(installed_version(&spec, true, b"other 2.0.0")),
        "updated executable did not identify itself as Fixture"
    );
    assert_eq!(
        configuration_message(installed_version(&spec, false, b"fixture 2.0.0")),
        "updated executable did not report its version"
    );
}

#[test]
fn downloads_copy_local_files_and_require_https() {
    match download_source("file:///tmp/install.sh").unwrap() {
        DownloadSource::LocalFile(path) => assert_eq!(path, "/tmp/install.sh"),
        DownloadSource::Remote => panic!("a file URL is copied"),
    }
    assert!(matches!(
        download_source("https://example.com/install.sh").unwrap(),
        DownloadSource::Remote
    ));
    assert!(download_source("http://example.com/install.sh").is_err());
    assert_eq!(curl_options().len(), 12);
    assert_eq!(
        configuration_message::<()>(Err(curl_failure("https://x", "exit status: 22"))),
        "curl could not download https://x (exit status exit status: 22)"
    );
}

#[test]
fn wget_is_tried_only_when_curl_is_missing() {
    let url = "https://example.com/install.sh";
    assert!(after_curl(url, DownloaderRun::Succeeded).unwrap());
    assert!(!after_curl(url, DownloaderRun::Missing).unwrap());
    assert_eq!(
        configuration_message(after_curl(url, DownloaderRun::Exited { status: "exit status: 22".to_string() })),
        "curl could not download https://example.com/install.sh (exit status exit status: 22)"
    );
    let denied = std::io::Error::new(std::io::ErrorKind::PermissionDenied, "denied");
    match after_curl(url, DownloaderRun::Unstartable(denied)) {
        Err(Error::Io(error)) => {
            assert_eq!(error.kind(), std::io::ErrorKind::PermissionDenied);
            assert_eq!(error.to_string(), "denied");
        }
        other => panic!("expected the launch error, got {other:?}"),
    }
}

#[test]
fn wget_failures_name_the_downloader() {
    let url = "https://example.com/install.sh";
    assert!(after_wget(url, DownloaderRun::Succeeded).is_ok());
    assert_eq!(
        configuration_message(after_wget(url, DownloaderRun::Missing)),
        "curl or wget is required to update this CLI"
    );
    assert_eq!(
        configuration_message(after_wget(url, DownloaderRun::Exited { status: "exit status: 8".to_string() })),
        "wget could not download https://example.com/install.sh (exit status exit status: 8)"
    );
    let denied = std::io::Error::new(std::io::ErrorKind::PermissionDenied, "denied");
    assert!(matches!(after_wget(url, DownloaderRun::Unstartable(denied)), Err(Error::Io(_))));
}
