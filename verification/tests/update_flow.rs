use std::path::PathBuf;

use rust_cli_release::{
    CommandArgument, Error, ReleaseSpec, UpdateEvent, UpdateFlow, UpdatePhase, UpdateStep,
    WINDOWS_HELPER,
};
use sha2::{Digest, Sha256};

fn fixture() -> ReleaseSpec {
    ReleaseSpec::new("fixture", "Fixture", "owner/fixture", "FIXTURE", "1.0.0")
}

fn start(windows: bool) -> (UpdateFlow, UpdateStep) {
    UpdateFlow::start(
        fixture(),
        PathBuf::from("/opt/bin/fixture"),
        Some(if windows { "fixture.exe" } else { "fixture" }),
        Some(PathBuf::from("/opt/bin")),
        windows,
        "owner/fixture".to_string(),
        "https://example.com/releases".to_string(),
        "latest".to_string(),
        true,
    )
    .unwrap()
}

/// The arguments as text, with the places the caller fills in marked.
fn shown(arguments: &[CommandArgument]) -> Vec<String> {
    arguments
        .iter()
        .map(|argument| match argument {
            CommandArgument::Text(text) => text.clone(),
            CommandArgument::DownloadedFile(name) => format!("<work>/{name}"),
            CommandArgument::WorkDirectory => "<work>".to_string(),
            CommandArgument::InstallDirectory(path) => path.display().to_string(),
            CommandArgument::ProcessId => "<pid>".to_string(),
        })
        .collect()
}

fn downloads(installer: &[u8]) -> UpdateEvent {
    UpdateEvent::Downloads {
        checksum: format!("{}  install.sh\n", hex::encode(Sha256::digest(installer))),
        installer: installer.to_vec(),
    }
}

#[test]
fn a_unix_update_downloads_verifies_installs_and_reports() {
    let (mut flow, step) = start(false);
    match step {
        UpdateStep::Download { url, file_name } => {
            assert_eq!(url, "https://example.com/releases/latest/download/install.sh");
            assert_eq!(file_name, "install.sh");
        }
        _ => panic!("the installer is downloaded first"),
    }
    match flow.advance(UpdateEvent::Completed).unwrap() {
        UpdateStep::Download { url, file_name } => {
            assert_eq!(url, "https://example.com/releases/latest/download/install.sh.sha256");
            assert_eq!(file_name, "install.sh.sha256");
        }
        _ => panic!("the checksum is downloaded second"),
    }
    assert!(matches!(
        flow.advance(UpdateEvent::Completed).unwrap(),
        UpdateStep::ReadDownloads { .. }
    ));
    match flow.advance(downloads(b"#!/bin/sh\n")).unwrap() {
        UpdateStep::RunInstaller { program, arguments, variables } => {
            assert_eq!(program, "sh");
            assert_eq!(shown(&arguments), vec!["<work>/install.sh", "--install-dir", "/opt/bin"]);
            assert_eq!(
                variables,
                vec![
                    ("FIXTURE_VERSION".to_string(), "latest".to_string()),
                    ("FIXTURE_REPOSITORY".to_string(), "owner/fixture".to_string()),
                    (
                        "FIXTURE_RELEASE_BASE_URL".to_string(),
                        "https://example.com/releases".to_string()
                    ),
                ]
            );
        }
        _ => panic!("a verified installer runs"),
    }
    assert_eq!(flow.phase(), UpdatePhase::Install);
    assert!(matches!(
        flow.advance(UpdateEvent::InstallerExited {
            success: true,
            stdout: Vec::new(),
            stderr: Vec::new()
        })
        .unwrap(),
        UpdateStep::QueryVersion
    ));
    match flow
        .advance(UpdateEvent::VersionReported { success: true, stdout: b"fixture 1.1.0\n".to_vec() })
        .unwrap()
    {
        UpdateStep::Finish(summary) => {
            assert_eq!(summary.previous_version, "1.0.0");
            assert_eq!(summary.installed_version.as_deref(), Some("1.1.0"));
            assert_eq!(summary.executable, PathBuf::from("/opt/bin/fixture"));
            assert_eq!(summary.status, "updated");
        }
        _ => panic!("the update finishes"),
    }
    assert_eq!(flow.phase(), UpdatePhase::Done);
}

#[test]
fn a_tampered_installer_is_never_run() {
    let (mut flow, _) = start(false);
    flow.advance(UpdateEvent::Completed).unwrap();
    flow.advance(UpdateEvent::Completed).unwrap();
    let event = UpdateEvent::Downloads {
        checksum: format!("{}  install.sh\n", hex::encode(Sha256::digest(b"original"))),
        installer: b"modified".to_vec(),
    };
    match flow.advance(event) {
        Err(Error::Security(message)) => {
            assert_eq!(message, "updater installer SHA-256 verification failed")
        }
        _ => panic!("a modified installer is refused"),
    }
    assert_eq!(flow.phase(), UpdatePhase::Done);
}

#[test]
fn a_windows_update_is_scheduled() {
    let (mut flow, _) = start(true);
    flow.advance(UpdateEvent::Completed).unwrap();
    flow.advance(UpdateEvent::Completed).unwrap();
    match flow.advance(downloads(b"Write-Host install")).unwrap() {
        UpdateStep::ScheduleInstaller {
            helper_file,
            helper_script,
            program,
            arguments,
            discard_output,
        } => {
            assert_eq!(helper_file, "complete-update.ps1");
            assert_eq!(helper_script, WINDOWS_HELPER);
            assert!(helper_script.contains("Wait-Process -Id $ParentProcessId"));
            assert_eq!(program, "powershell.exe");
            assert_eq!(
                shown(&arguments),
                vec![
                    "-NoLogo",
                    "-NoProfile",
                    "-NonInteractive",
                    "-ExecutionPolicy",
                    "Bypass",
                    "-File",
                    "<work>/complete-update.ps1",
                    "-ParentProcessId",
                    "<pid>",
                    "-Installer",
                    "<work>/install.ps1",
                    "-InstallDirectory",
                    "/opt/bin",
                    "-Repository",
                    "owner/fixture",
                    "-ReleaseBaseUrl",
                    "https://example.com/releases",
                    "-RequestedVersion",
                    "latest",
                    "-TemporaryDirectory",
                    "<work>",
                ]
            );
            assert!(discard_output);
        }
        _ => panic!("windows schedules the installer"),
    }
    match flow.advance(UpdateEvent::Completed).unwrap() {
        UpdateStep::Finish(summary) => {
            assert_eq!(summary.installed_version, None);
            assert_eq!(summary.status, "scheduled");
        }
        _ => panic!("the update finishes"),
    }
}

#[test]
fn a_failed_installer_reports_its_output() {
    let (mut flow, _) = start(false);
    flow.advance(UpdateEvent::Completed).unwrap();
    flow.advance(UpdateEvent::Completed).unwrap();
    flow.advance(downloads(b"#!/bin/sh\n")).unwrap();
    match flow.advance(UpdateEvent::InstallerExited {
        success: false,
        stdout: b"ignored".to_vec(),
        stderr: b"disk full\n".to_vec(),
    }) {
        Err(Error::Configuration(message)) => {
            assert_eq!(message, "the Fixture installer failed: disk full")
        }
        _ => panic!("the installer failure is reported"),
    }
}

#[test]
fn unexpected_events_end_the_update() {
    let (mut flow, _) = start(false);
    match flow.advance(UpdateEvent::VersionReported { success: true, stdout: Vec::new() }) {
        Err(Error::Configuration(message)) => {
            assert_eq!(message, "the update was given a result it did not ask for")
        }
        _ => panic!("an unexpected event is refused"),
    }
    assert_eq!(flow.phase(), UpdatePhase::Done);
    assert!(flow.advance(UpdateEvent::Completed).is_err());
}

#[test]
fn an_update_starts_only_from_the_product_executable_over_https() {
    let begin = |name: Option<&str>, has_parent: bool, base: &str| {
        UpdateFlow::start(
            fixture(),
            PathBuf::from("/opt/bin/fixture"),
            name,
            if has_parent { Some(PathBuf::from("/opt/bin")) } else { None },
            false,
            "owner/fixture".to_string(),
            base.to_string(),
            "latest".to_string(),
            false,
        )
    };
    assert!(begin(Some("renamed"), true, "https://example.com").is_err());
    match begin(Some("fixture"), true, "http://example.com") {
        Err(Error::Configuration(message)) => {
            assert_eq!(message, "refusing non-HTTPS release URL: http://example.com")
        }
        _ => panic!("plain HTTP is refused"),
    }
    match begin(Some("fixture"), false, "https://example.com") {
        Err(Error::Configuration(message)) => {
            assert_eq!(message, "executable path has no parent directory")
        }
        _ => panic!("an executable without a directory is refused"),
    }
}
