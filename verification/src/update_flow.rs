//! The decisions of a self-update, as a state machine: the caller performs
//! each step (download, read back, run the installer, ask the new executable
//! for its version) and reports what happened; the flow decides what comes
//! next. The installer is only ever handed over after the downloaded
//! installer matched its published SHA-256 checksum.

use vstd::prelude::*;

use std::path::PathBuf;

use crate::checksum::{checksum_verdict, verify_checksum};
use crate::error::{Error, Failure, Result};
use crate::text::{chars_of, extend_text, string_of};
use crate::update::{
    command_failure_text, executable_name_check, failure_text, installed_version, installer_name,
    product_environment, product_variable, release_base_check, reported_version,
    validate_executable_name, validate_release_base, ReleaseSpec, UpdateSummary,
};

verus! {

/// Where an update stands.
#[derive(Clone, Copy, Debug, PartialEq, Eq, Structural)]
pub enum UpdatePhase {
    /// Waiting for the installer to be downloaded.
    FetchInstaller,
    /// Waiting for the checksum file to be downloaded.
    FetchChecksum,
    /// Waiting for the two downloads to be read back.
    Verify,
    /// Waiting for the installer to finish.
    Install,
    /// Waiting for the Windows helper to be started.
    Schedule,
    /// Waiting for the updated executable to report its version.
    ReportVersion,
    /// Finished, successfully or not.
    Done,
}

/// What the caller does next.
pub enum UpdateStep {
    /// Download `url` into the temporary directory as `file_name`.
    Download { url: String, file_name: String },
    /// Read the two downloaded files and report their contents.
    ReadDownloads { checksum_file: String, installer_file: String },
    /// Run `program` with `arguments` and these environment variables,
    /// capturing its output.
    RunInstaller {
        program: String,
        arguments: Vec<CommandArgument>,
        variables: Vec<(String, String)>,
    },
    /// Keep the temporary directory, write `helper_script` into it as
    /// `helper_file`, and start `program` with `arguments`, with no input and
    /// its output discarded when `discard_output`: the helper runs the
    /// installer once this process has exited.
    ScheduleInstaller {
        helper_file: String,
        helper_script: &'static str,
        program: String,
        arguments: Vec<CommandArgument>,
        discard_output: bool,
    },
    /// Run the updated executable with `--version`, capturing its output.
    QueryVersion,
    /// The update is complete.
    Finish(UpdateSummary),
}

/// An argument of a program the update runs.
#[derive(Debug)]
pub enum CommandArgument {
    /// This text.
    Text(String),
    /// The file of this name in the update's temporary directory.
    DownloadedFile(String),
    /// The update's temporary directory.
    WorkDirectory,
    /// The directory the product is installed into.
    InstallDirectory(PathBuf),
    /// The id of the running process.
    ProcessId,
}

/// A [`CommandArgument`] with its text as characters.
pub enum ArgumentView {
    Text(Seq<char>),
    DownloadedFile(Seq<char>),
    WorkDirectory,
    InstallDirectory(PathBuf),
    ProcessId,
}

impl View for CommandArgument {
    type V = ArgumentView;

    open spec fn view(&self) -> ArgumentView {
        match self {
            CommandArgument::Text(text) => ArgumentView::Text(text@),
            CommandArgument::DownloadedFile(name) => ArgumentView::DownloadedFile(name@),
            CommandArgument::WorkDirectory => ArgumentView::WorkDirectory,
            CommandArgument::InstallDirectory(path) => ArgumentView::InstallDirectory(*path),
            CommandArgument::ProcessId => ArgumentView::ProcessId,
        }
    }
}

/// The views of a program's arguments.
pub open spec fn argument_views(arguments: Seq<CommandArgument>) -> Seq<ArgumentView> {
    arguments.map_values(|a: CommandArgument| a@)
}

/// The arguments `sh` runs the installer with: the installer, then
/// `--install-dir` and the install directory.
pub open spec fn installer_arguments(installer: Seq<char>, install_directory: PathBuf) -> Seq<
    ArgumentView,
> {
    seq![
        ArgumentView::DownloadedFile(installer),
        ArgumentView::Text("--install-dir"@),
        ArgumentView::InstallDirectory(install_directory),
    ]
}

/// The arguments PowerShell starts the Windows helper `helper` with: the
/// script, then each of its parameters by name.
pub open spec fn helper_arguments(
    helper: Seq<char>,
    installer: Seq<char>,
    install_directory: PathBuf,
    repository: Seq<char>,
    release_base: Seq<char>,
    requested_version: Seq<char>,
) -> Seq<ArgumentView> {
    seq![
        ArgumentView::Text("-NoLogo"@),
        ArgumentView::Text("-NoProfile"@),
        ArgumentView::Text("-NonInteractive"@),
        ArgumentView::Text("-ExecutionPolicy"@),
        ArgumentView::Text("Bypass"@),
        ArgumentView::Text("-File"@),
        ArgumentView::DownloadedFile(helper),
        ArgumentView::Text("-ParentProcessId"@),
        ArgumentView::ProcessId,
        ArgumentView::Text("-Installer"@),
        ArgumentView::DownloadedFile(installer),
        ArgumentView::Text("-InstallDirectory"@),
        ArgumentView::InstallDirectory(install_directory),
        ArgumentView::Text("-Repository"@),
        ArgumentView::Text(repository),
        ArgumentView::Text("-ReleaseBaseUrl"@),
        ArgumentView::Text(release_base),
        ArgumentView::Text("-RequestedVersion"@),
        ArgumentView::Text(requested_version),
        ArgumentView::Text("-TemporaryDirectory"@),
        ArgumentView::WorkDirectory,
    ]
}

/// The Windows helper script: it waits for the updating process to exit,
/// runs the installer with the given version, directory and release location,
/// and removes the update's temporary directory whatever happened.
pub open spec fn windows_helper_text() -> Seq<char> {
    WINDOWS_HELPER@
}

/// The text of the Windows helper script.
pub const WINDOWS_HELPER: &'static str = r#"[CmdletBinding()]
param(
    [Parameter(Mandatory = $true)][int]$ParentProcessId,
    [Parameter(Mandatory = $true)][string]$Installer,
    [Parameter(Mandatory = $true)][string]$InstallDirectory,
    [Parameter(Mandatory = $true)][string]$Repository,
    [Parameter(Mandatory = $true)][string]$ReleaseBaseUrl,
    [Parameter(Mandatory = $true)][string]$RequestedVersion,
    [Parameter(Mandatory = $true)][string]$TemporaryDirectory
)
$ErrorActionPreference = "Stop"
try {
    Wait-Process -Id $ParentProcessId -ErrorAction SilentlyContinue
    & $Installer -Version $RequestedVersion -InstallDir $InstallDirectory -Repository $Repository -ReleaseBaseUrl $ReleaseBaseUrl -NoModifyPath
}
finally {
    Remove-Item -LiteralPath $TemporaryDirectory -Recurse -Force -ErrorAction SilentlyContinue
}
"#;

/// The phases before the installer is handed over.
pub open spec fn before_handover(phase: UpdatePhase) -> bool {
    ||| phase == UpdatePhase::FetchInstaller
    ||| phase == UpdatePhase::FetchChecksum
    ||| phase == UpdatePhase::Verify
}

fn text_argument(text: &str) -> (argument: CommandArgument)
    ensures
        argument@ == ArgumentView::Text(text@),
{
    CommandArgument::Text(text.to_owned())
}

/// What happened when the caller performed a step.
pub enum UpdateEvent {
    /// A download finished, or the Windows helper started.
    Completed,
    /// The text of the checksum file and the bytes of the installer.
    Downloads { checksum: String, installer: Vec<u8> },
    /// The installer exited.
    InstallerExited { success: bool, stdout: Vec<u8>, stderr: Vec<u8> },
    /// The updated executable answered `--version`.
    VersionReported { success: bool, stdout: Vec<u8> },
    /// The program of the step could not be started, for this reason.
    LaunchFailed { reason: String },
}

/// An update in progress.
pub struct UpdateFlow {
    spec: ReleaseSpec,
    executable: Option<PathBuf>,
    install_directory: Option<PathBuf>,
    installer: &'static str,
    repository: String,
    release_base: String,
    requested_version: String,
    windows: bool,
    quiet_background: bool,
    phase: UpdatePhase,
}

/// The directory releases are downloaded from.
pub open spec fn download_base(release_base: Seq<char>) -> Seq<char> {
    release_base + "/latest/download"@
}

/// The name of the checksum file published beside `installer`.
pub open spec fn checksum_file_name(installer: Seq<char>) -> Seq<char> {
    installer + ".sha256"@
}

/// The URL of a published release file.
pub open spec fn release_file_url(release_base: Seq<char>, file_name: Seq<char>) -> Seq<char> {
    download_base(release_base) + "/"@ + file_name
}

/// The environment variables the installer is run with, or the error for an
/// unusable prefix.
pub open spec fn installer_variables(
    prefix: Seq<char>,
    requested_version: Seq<char>,
    repository: Seq<char>,
    release_base: Seq<char>,
) -> core::result::Result<Seq<(Seq<char>, Seq<char>)>, Failure> {
    match product_variable(prefix, "VERSION"@) {
        Err(failure) => Err(failure),
        Ok(version_variable) => Ok(
            seq![
                (version_variable, requested_version),
                (prefix + seq!['_'] + "REPOSITORY"@, repository),
                (prefix + seq!['_'] + "RELEASE_BASE_URL"@, release_base),
            ],
        ),
    }
}

/// The views of name-value pairs.
pub open spec fn pair_texts(pairs: Seq<(String, String)>) -> Seq<(Seq<char>, Seq<char>)> {
    pairs.map_values(|p: (String, String)| (p.0@, p.1@))
}

/// A step of the flow: phases only move forward.
pub open spec fn phase_rank(phase: UpdatePhase) -> int {
    match phase {
        UpdatePhase::FetchInstaller => 0,
        UpdatePhase::FetchChecksum => 1,
        UpdatePhase::Verify => 2,
        UpdatePhase::Install => 3,
        UpdatePhase::Schedule => 3,
        UpdatePhase::ReportVersion => 4,
        UpdatePhase::Done => 5,
    }
}

/// `step` finishes the update with this summary.
pub open spec fn finishes_with(
    step: UpdateStep,
    previous_version: Seq<char>,
    installed: Option<Seq<char>>,
    executable: PathBuf,
    status: Seq<char>,
) -> bool {
    step matches UpdateStep::Finish(summary) && {
        &&& summary.previous_version@ == previous_version
        &&& match installed {
            Some(v) => summary.installed_version matches Some(w) && w@ == v,
            None => summary.installed_version is None,
        }
        &&& summary.executable == executable
        &&& summary.status@ == status
    }
}

/// `r` is an error whose view is `failure`.
pub open spec fn fails_as<T>(r: Result<T>, failure: Failure) -> bool {
    r matches Err(e) && e@ == failure
}

/// The step hands the installer over to be run.
pub open spec fn hands_over_installer(r: Result<UpdateStep>) -> bool {
    match r {
        Ok(UpdateStep::RunInstaller { .. }) => true,
        Ok(UpdateStep::ScheduleInstaller { .. }) => true,
        _ => false,
    }
}

/// The flow was verifying and the reported installer matches the reported
/// checksum file.
pub open spec fn verified_download(before: UpdateFlow, event: UpdateEvent) -> bool {
    &&& before.current_phase() == UpdatePhase::Verify
    &&& match event {
        UpdateEvent::Downloads { checksum, installer } => checksum_verdict(
            checksum@,
            installer@,
        ) is Ok,
        _ => false,
    }
}

/// What `advance` gives from the flow `before` and `event`, and the phase
/// it moves to.
pub open spec fn advance_result(
    before: UpdateFlow,
    event: UpdateEvent,
    r: Result<UpdateStep>,
    after: UpdatePhase,
) -> bool {
    let display = before.release().display_name@;
    match (before.current_phase(), event) {
        (UpdatePhase::FetchInstaller, UpdateEvent::Completed) => match r {
            Ok(UpdateStep::Download { url, file_name }) => {
                &&& url@ == release_file_url(
                    before.release_location(),
                    checksum_file_name(before.installer_file()),
                )
                &&& file_name@ == checksum_file_name(before.installer_file())
                &&& after == UpdatePhase::FetchChecksum
            },
            _ => false,
        },
        (UpdatePhase::FetchChecksum, UpdateEvent::Completed) => match r {
            Ok(UpdateStep::ReadDownloads { checksum_file, installer_file }) => {
                &&& checksum_file@ == checksum_file_name(before.installer_file())
                &&& installer_file@ == before.installer_file()
                &&& after == UpdatePhase::Verify
            },
            _ => false,
        },
        (UpdatePhase::Verify, UpdateEvent::Downloads { checksum, installer }) => match checksum_verdict(
            checksum@,
            installer@,
        ) {
            Err(failure) => fails_as(r, failure),
            Ok(()) => if before.on_windows() {
                match r {
                    Ok(
                        UpdateStep::ScheduleInstaller {
                            helper_file,
                            helper_script,
                            program,
                            arguments,
                            discard_output,
                        },
                    ) => {
                        &&& helper_file@ == "complete-update.ps1"@
                        &&& helper_script@ == windows_helper_text()
                        &&& program@ == "powershell.exe"@
                        &&& argument_views(arguments@) == helper_arguments(
                            helper_file@,
                            before.installer_file(),
                            before.install_target()->0,
                            before.repository_name(),
                            before.release_location(),
                            before.requested(),
                        )
                        &&& discard_output == before.quiet()
                        &&& after == UpdatePhase::Schedule
                    },
                    _ => false,
                }
            } else {
                match installer_variables(
                    before.release().environment_prefix@,
                    before.requested(),
                    before.repository_name(),
                    before.release_location(),
                ) {
                    Err(failure) => fails_as(r, failure),
                    Ok(expected) => match r {
                        Ok(UpdateStep::RunInstaller { program, arguments, variables }) => {
                            &&& program@ == "sh"@
                            &&& argument_views(arguments@) == installer_arguments(
                                before.installer_file(),
                                before.install_target()->0,
                            )
                            &&& pair_texts(variables@) == expected
                            &&& after == UpdatePhase::Install
                        },
                        _ => false,
                    },
                }
            },
        },
        (UpdatePhase::Install, UpdateEvent::InstallerExited { success, stdout, stderr }) => if success {
            r matches Ok(UpdateStep::QueryVersion) && after == UpdatePhase::ReportVersion
        } else {
            fails_as(
                r,
                Failure::Configuration(
                    "the "@ + display + " installer failed: "@ + failure_text(stdout@, stderr@),
                ),
            )
        },
        (UpdatePhase::Install, UpdateEvent::LaunchFailed { reason }) => fails_as(
            r,
            Failure::Configuration("could not launch the "@ + display + " installer: "@ + reason@),
        ),
        (UpdatePhase::ReportVersion, UpdateEvent::VersionReported { success, stdout }) => match reported_version(
            before.release(),
            success,
            stdout@,
        ) {
            Err(failure) => fails_as(r, failure),
            Ok(version) => match r {
                Ok(step) => finishes_with(
                    step,
                    before.release().current_version@,
                    Some(version),
                    before.executable_path()->0,
                    "updated"@,
                ) && after == UpdatePhase::Done,
                Err(_) => false,
            },
        },
        (UpdatePhase::ReportVersion, UpdateEvent::LaunchFailed { reason }) => fails_as(
            r,
            Failure::Configuration("updated executable could not be launched: "@ + reason@),
        ),
        (UpdatePhase::Schedule, UpdateEvent::Completed) => match r {
            Ok(step) => finishes_with(
                step,
                before.release().current_version@,
                None,
                before.executable_path()->0,
                "scheduled"@,
            ) && after == UpdatePhase::Done,
            Err(_) => false,
        },
        (UpdatePhase::Schedule, UpdateEvent::LaunchFailed { reason }) => fails_as(
            r,
            Failure::Configuration(
                "could not launch the "@ + display + " Windows update helper: "@ + reason@,
            ),
        ),
        _ => fails_as(
            r,
            Failure::Configuration("the update was given a result it did not ask for"@),
        ),
    }
}

/// The installer is run with the version the user requested, the repository
/// and the release location of the update, under the product's
/// `PREFIX_VERSION`, `PREFIX_REPOSITORY` and `PREFIX_RELEASE_BASE_URL`.
pub open spec fn runs_with_request(variables: Seq<(String, String)>, flow: UpdateFlow) -> bool {
    let prefix = flow.release().environment_prefix@;
    &&& variables.len() == 3
    &&& variables[0].0@ == prefix + "_VERSION"@
    &&& variables[0].1@ == flow.requested()
    &&& variables[1].0@ == prefix + "_REPOSITORY"@
    &&& variables[1].1@ == flow.repository_name()
    &&& variables[2].0@ == prefix + "_RELEASE_BASE_URL"@
    &&& variables[2].1@ == flow.release_location()
}

/// Whenever a step of the update runs the installer, its environment carries
/// the version the update was started for, never another one.
pub proof fn law_installer_gets_requested_version(
    before: UpdateFlow,
    event: UpdateEvent,
    r: Result<UpdateStep>,
    after: UpdatePhase,
)
    requires
        advance_result(before, event, r, after),
    ensures
        r matches Ok(UpdateStep::RunInstaller { variables, .. }) ==> runs_with_request(
            variables@,
            before,
        ),
{
    if let Ok(UpdateStep::RunInstaller { variables, .. }) = r {
        let prefix = before.release().environment_prefix@;
        let expected = installer_variables(
            prefix,
            before.requested(),
            before.repository_name(),
            before.release_location(),
        )->Ok_0;
        assert(pair_texts(variables@) == expected);
        assert(pair_texts(variables@)[0] == (variables@[0].0@, variables@[0].1@));
        assert(pair_texts(variables@)[1] == (variables@[1].0@, variables@[1].1@));
        assert(pair_texts(variables@)[2] == (variables@[2].0@, variables@[2].1@));
        reveal_strlit("_VERSION");
        reveal_strlit("VERSION");
        reveal_strlit("_REPOSITORY");
        reveal_strlit("REPOSITORY");
        reveal_strlit("_RELEASE_BASE_URL");
        reveal_strlit("RELEASE_BASE_URL");
        assert(prefix + seq!['_'] + "VERSION"@ =~= prefix + "_VERSION"@);
        assert(prefix + seq!['_'] + "REPOSITORY"@ =~= prefix + "_REPOSITORY"@);
        assert(prefix + seq!['_'] + "RELEASE_BASE_URL"@ =~= prefix + "_RELEASE_BASE_URL"@);
    }
}

impl UpdateFlow {
    /// The release identity being updated.
    pub closed spec fn release(&self) -> ReleaseSpec {
        self.spec
    }

    /// The executable being updated, until the summary that finishes the
    /// update hands it back.
    pub closed spec fn executable_path(&self) -> Option<PathBuf> {
        self.executable
    }

    /// The directory the installer installs into, until the installer is
    /// handed over with it.
    pub closed spec fn install_target(&self) -> Option<PathBuf> {
        self.install_directory
    }

    /// Whether the Windows helper's output is discarded.
    pub closed spec fn quiet(&self) -> bool {
        self.quiet_background
    }

    /// An update that is not done still holds the executable it updates, and
    /// one that has not handed the installer over still holds the install
    /// directory.
    #[verifier::type_invariant]
    spec fn holds_paths(&self) -> bool {
        &&& self.phase != UpdatePhase::Done ==> self.executable is Some
        &&& before_handover(self.phase) ==> self.install_directory is Some
    }

    /// The installer file name.
    pub closed spec fn installer_file(&self) -> Seq<char> {
        self.installer@
    }

    /// The repository handed to the installer.
    pub closed spec fn repository_name(&self) -> Seq<char> {
        self.repository@
    }

    /// The release location.
    pub closed spec fn release_location(&self) -> Seq<char> {
        self.release_base@
    }

    /// The version the user asked for.
    pub closed spec fn requested(&self) -> Seq<char> {
        self.requested_version@
    }

    /// Whether the update runs on Windows.
    pub closed spec fn on_windows(&self) -> bool {
        self.windows
    }

    /// Where the update stands.
    pub closed spec fn current_phase(&self) -> UpdatePhase {
        self.phase
    }

    /// `self` and `other` are the same update, perhaps at another phase.
    pub open spec fn same_update(&self, other: &UpdateFlow) -> bool {
        &&& self.release() == other.release()
        &&& self.installer_file() == other.installer_file()
        &&& self.repository_name() == other.repository_name()
        &&& self.release_location() == other.release_location()
        &&& self.requested() == other.requested()
        &&& self.on_windows() == other.on_windows()
        &&& self.quiet() == other.quiet()
    }

    /// Where the update stands.
    pub fn phase(&self) -> (phase: UpdatePhase)
        ensures
            phase == self.current_phase(),
    {
        self.phase
    }

    /// Starts an update of `executable`, whose file name is `executable_name`
    /// (`None` when not UTF-8), installing into its directory when it has one.
    pub fn start(
        spec: ReleaseSpec,
        executable: PathBuf,
        executable_name: Option<&str>,
        install_directory: Option<PathBuf>,
        windows: bool,
        repository: String,
        release_base: String,
        requested_version: String,
        quiet_background: bool,
    ) -> (r: Result<(UpdateFlow, UpdateStep)>)
        ensures
            executable_name_check(
                spec,
                match executable_name {
                    Some(name) => Some(name@),
                    None => None,
                },
                windows,
            ) matches Err(failure) ==> fails_as(r, failure),
            executable_name_check(
                spec,
                match executable_name {
                    Some(name) => Some(name@),
                    None => None,
                },
                windows,
            ) is Ok ==> {
                &&& release_base_check(release_base@) matches Err(failure) ==> fails_as(r, failure)
                &&& release_base_check(release_base@) is Ok && install_directory is None ==> fails_as(
                    r,
                    Failure::Configuration("executable path has no parent directory"@),
                )
                &&& release_base_check(release_base@) is Ok && install_directory is Some ==> (
                r matches Ok((flow, step)) && {
                    &&& flow.release() == spec
                    &&& flow.executable_path() == Some(executable)
                    &&& flow.install_target() == install_directory
                    &&& flow.quiet() == quiet_background
                    &&& flow.installer_file() == if windows {
                        "install.ps1"@
                    } else {
                        "install.sh"@
                    }
                    &&& flow.repository_name() == repository@
                    &&& flow.release_location() == release_base@
                    &&& flow.requested() == requested_version@
                    &&& flow.on_windows() == windows
                    &&& flow.current_phase() == UpdatePhase::FetchInstaller
                    &&& step matches UpdateStep::Download { url, file_name } && url@
                        == release_file_url(release_base@, flow.installer_file()) && file_name@
                        == flow.installer_file()
                })
            },
    {
        validate_executable_name(&spec, executable_name, windows)?;
        validate_release_base(release_base.as_str())?;
        if install_directory.is_none() {
            return Err(Error::Configuration("executable path has no parent directory".to_owned()));
        }
        let installer = installer_name(windows);
        let flow = UpdateFlow {
            spec,
            executable: Some(executable),
            install_directory,
            installer,
            repository,
            release_base,
            requested_version,
            windows,
            quiet_background,
            phase: UpdatePhase::FetchInstaller,
        };
        let url = flow.file_url(installer);
        let step = UpdateStep::Download { url, file_name: installer.to_owned() };
        Ok((flow, step))
    }

    fn file_url(&self, file_name: &str) -> (url: String)
        ensures
            url@ == release_file_url(self.release_base@, file_name@),
    {
        let mut url = chars_of(self.release_base.as_str());
        extend_text(&mut url, "/latest/download");
        extend_text(&mut url, "/");
        extend_text(&mut url, file_name);
        assert(url@ =~= release_file_url(self.release_base@, file_name@));
        string_of(&url)
    }

    fn checksum_file(&self) -> (name: String)
        ensures
            name@ == checksum_file_name(self.installer@),
    {
        let mut name = chars_of(self.installer);
        extend_text(&mut name, ".sha256");
        string_of(&name)
    }

    fn failure_with_display(&self, before: &str, after: &str, detail: &str) -> (e: Error)
        ensures
            e@ == Failure::Configuration(before@ + self.spec.display_name@ + after@ + detail@),
    {
        let mut message = chars_of(before);
        extend_text(&mut message, self.spec.display_name);
        extend_text(&mut message, after);
        extend_text(&mut message, detail);
        assert(message@ =~= before@ + self.spec.display_name@ + after@ + detail@);
        Error::Configuration(string_of(&message))
    }

    fn hand_over_install_directory(&mut self) -> (directory: PathBuf)
        requires
            old(self).install_directory is Some,
            old(self).phase == UpdatePhase::Done,
        ensures
            directory == old(self).install_directory->0,
            final(self).install_directory is None,
            final(self).executable == old(self).executable,
            final(self).phase == UpdatePhase::Done,
            final(self).same_update(old(self)),
    {
        let mut directory: Option<PathBuf> = None;
        std::mem::swap(&mut directory, &mut self.install_directory);
        directory.unwrap()
    }

    fn hand_over_executable(&mut self) -> (executable: PathBuf)
        requires
            old(self).executable is Some,
            old(self).phase == UpdatePhase::Done,
        ensures
            executable == old(self).executable->0,
            final(self).executable is None,
            final(self).phase == UpdatePhase::Done,
            final(self).same_update(old(self)),
    {
        let mut executable: Option<PathBuf> = None;
        std::mem::swap(&mut executable, &mut self.executable);
        executable.unwrap()
    }

    fn helper_arguments(&self, helper_file: &str, install_directory: PathBuf) -> (arguments: Vec<
        CommandArgument,
    >)
        ensures
            argument_views(arguments@) == helper_arguments(
                helper_file@,
                self.installer@,
                install_directory,
                self.repository@,
                self.release_base@,
                self.requested_version@,
            ),
    {
        let mut arguments: Vec<CommandArgument> = Vec::new();
        arguments.push(text_argument("-NoLogo"));
        arguments.push(text_argument("-NoProfile"));
        arguments.push(text_argument("-NonInteractive"));
        arguments.push(text_argument("-ExecutionPolicy"));
        arguments.push(text_argument("Bypass"));
        arguments.push(text_argument("-File"));
        arguments.push(CommandArgument::DownloadedFile(helper_file.to_owned()));
        arguments.push(text_argument("-ParentProcessId"));
        arguments.push(CommandArgument::ProcessId);
        arguments.push(text_argument("-Installer"));
        arguments.push(CommandArgument::DownloadedFile(self.installer.to_owned()));
        arguments.push(text_argument("-InstallDirectory"));
        arguments.push(CommandArgument::InstallDirectory(install_directory));
        arguments.push(text_argument("-Repository"));
        arguments.push(text_argument(self.repository.as_str()));
        arguments.push(text_argument("-ReleaseBaseUrl"));
        arguments.push(text_argument(self.release_base.as_str()));
        arguments.push(text_argument("-RequestedVersion"));
        arguments.push(text_argument(self.requested_version.as_str()));
        arguments.push(text_argument("-TemporaryDirectory"));
        arguments.push(CommandArgument::WorkDirectory);
        assert(argument_views(arguments@) =~= helper_arguments(
            helper_file@,
            self.installer@,
            install_directory,
            self.repository@,
            self.release_base@,
            self.requested_version@,
        ));
        arguments
    }

    fn summary(&self, executable: PathBuf, installed: Option<String>, status: &'static str) -> (
        summary: UpdateSummary)
        ensures
            summary.previous_version@ == self.spec.current_version@,
            summary.installed_version == installed,
            summary.executable == executable,
            summary.status == status,
    {
        UpdateSummary {
            previous_version: self.spec.current_version.to_owned(),
            installed_version: installed,
            executable,
            status,
        }
    }

    fn variables(&self) -> (r: Result<Vec<(String, String)>>)
        ensures
            match installer_variables(
                self.spec.environment_prefix@,
                self.requested_version@,
                self.repository@,
                self.release_base@,
            ) {
                Ok(expected) => (r matches Ok(variables) && pair_texts(variables@) == expected),
                Err(failure) => fails_as(r, failure),
            },
            r matches Ok(variables) ==> runs_with_request(variables@, *self),
    {
        let version_variable = product_environment(&self.spec, "VERSION")?;
        let repository_variable = product_environment(&self.spec, "REPOSITORY")?;
        let release_base_variable = product_environment(&self.spec, "RELEASE_BASE_URL")?;
        let mut variables: Vec<(String, String)> = Vec::new();
        variables.push(
            (version_variable, string_of(&chars_of(self.requested_version.as_str()))),
        );
        variables.push((repository_variable, string_of(&chars_of(self.repository.as_str()))));
        variables.push(
            (release_base_variable, string_of(&chars_of(self.release_base.as_str()))),
        );
        assert(pair_texts(variables@) =~= installer_variables(
            self.spec.environment_prefix@,
            self.requested_version@,
            self.repository@,
            self.release_base@,
        )->Ok_0);
        proof {
            let prefix = self.spec.environment_prefix@;
            reveal_strlit("_VERSION");
            reveal_strlit("VERSION");
            reveal_strlit("_REPOSITORY");
            reveal_strlit("REPOSITORY");
            reveal_strlit("_RELEASE_BASE_URL");
            reveal_strlit("RELEASE_BASE_URL");
            assert(prefix + seq!['_'] + "VERSION"@ =~= prefix + "_VERSION"@);
            assert(prefix + seq!['_'] + "REPOSITORY"@ =~= prefix + "_REPOSITORY"@);
            assert(prefix + seq!['_'] + "RELEASE_BASE_URL"@ =~= prefix + "_RELEASE_BASE_URL"@);
        }
        Ok(variables)
    }

    /// Takes in what happened at the last step and decides the next one.
    /// Any error ends the update.
    pub fn advance(&mut self, event: UpdateEvent) -> (r: Result<UpdateStep>)
        ensures
            final(self).same_update(old(self)),
            final(self).current_phase() != UpdatePhase::Done ==> final(self).executable_path()
                == old(self).executable_path(),
            before_handover(final(self).current_phase()) ==> final(self).install_target() == old(
                self,
            ).install_target(),
            r is Err ==> final(self).current_phase() == UpdatePhase::Done,
            old(self).current_phase() != UpdatePhase::Done ==> phase_rank(final(self).current_phase())
                > phase_rank(old(self).current_phase()),
            advance_result(*old(self), event, r, final(self).current_phase()),
            hands_over_installer(r) ==> verified_download(*old(self), event),
            r matches Ok(UpdateStep::RunInstaller { variables, .. }) ==> runs_with_request(
                variables@,
                *old(self),
            ),
    {
        proof {
            use_type_invariant(&*self);
        }
        let phase = self.phase;
        self.phase = UpdatePhase::Done;
        match (phase, event) {
            (UpdatePhase::FetchInstaller, UpdateEvent::Completed) => {
                let file_name = self.checksum_file();
                let url = self.file_url(file_name.as_str());
                self.phase = UpdatePhase::FetchChecksum;
                Ok(UpdateStep::Download { url, file_name })
            },
            (UpdatePhase::FetchChecksum, UpdateEvent::Completed) => {
                let checksum_file = self.checksum_file();
                self.phase = UpdatePhase::Verify;
                Ok(
                    UpdateStep::ReadDownloads {
                        checksum_file,
                        installer_file: self.installer.to_owned(),
                    },
                )
            },
            (UpdatePhase::Verify, UpdateEvent::Downloads { checksum, installer }) => {
                verify_checksum(checksum.as_str(), installer.as_slice())?;
                if self.windows {
                    let install_directory = self.hand_over_install_directory();
                    let helper_file = "complete-update.ps1".to_owned();
                    let arguments = self.helper_arguments(helper_file.as_str(), install_directory);
                    self.phase = UpdatePhase::Schedule;
                    Ok(
                        UpdateStep::ScheduleInstaller {
                            helper_file,
                            helper_script: WINDOWS_HELPER,
                            program: "powershell.exe".to_owned(),
                            arguments,
                            discard_output: self.quiet_background,
                        },
                    )
                } else {
                    let variables = self.variables()?;
                    let install_directory = self.hand_over_install_directory();
                    let mut arguments: Vec<CommandArgument> = Vec::new();
                    arguments.push(CommandArgument::DownloadedFile(self.installer.to_owned()));
                    arguments.push(text_argument("--install-dir"));
                    arguments.push(CommandArgument::InstallDirectory(install_directory));
                    assert(argument_views(arguments@) =~= installer_arguments(
                        self.installer@,
                        old(self).install_directory->0,
                    ));
                    self.phase = UpdatePhase::Install;
                    Ok(UpdateStep::RunInstaller { program: "sh".to_owned(), arguments, variables })
                }
            },
            (UpdatePhase::Install, UpdateEvent::InstallerExited { success, stdout, stderr }) => {
                if !success {
                    let text = command_failure_text(stdout.as_slice(), stderr.as_slice());
                    return Err(self.failure_with_display("the ", " installer failed: ", text.as_str()));
                }
                self.phase = UpdatePhase::ReportVersion;
                Ok(UpdateStep::QueryVersion)
            },
            (UpdatePhase::Install, UpdateEvent::LaunchFailed { reason }) => {
                Err(self.failure_with_display("could not launch the ", " installer: ", reason.as_str()))
            },
            (UpdatePhase::ReportVersion, UpdateEvent::VersionReported { success, stdout }) => {
                let version = installed_version(&self.spec, success, stdout.as_slice())?;
                let executable = self.hand_over_executable();
                let summary = self.summary(executable, Some(version), "updated");
                Ok(UpdateStep::Finish(summary))
            },
            (UpdatePhase::ReportVersion, UpdateEvent::LaunchFailed { reason }) => {
                let mut message = chars_of("updated executable could not be launched: ");
                extend_text(&mut message, reason.as_str());
                Err(Error::Configuration(string_of(&message)))
            },
            (UpdatePhase::Schedule, UpdateEvent::Completed) => {
                let executable = self.hand_over_executable();
                let summary = self.summary(executable, None, "scheduled");
                Ok(UpdateStep::Finish(summary))
            },
            (UpdatePhase::Schedule, UpdateEvent::LaunchFailed { reason }) => {
                Err(
                    self.failure_with_display(
                        "could not launch the ",
                        " Windows update helper: ",
                        reason.as_str(),
                    ),
                )
            },
            _ => Err(
                Error::Configuration("the update was given a result it did not ask for".to_owned()),
            ),
        }
    }
}

} // verus!
