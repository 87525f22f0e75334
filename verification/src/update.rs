//! The rules of a product's self-update: its release identity, the checks on
//! the requested version, the executable and the release location, and the
//! messages of a failed installer.

use vstd::prelude::*;

use crate::build_support::{environment_name_chars, environment_name_valid};
use crate::error::{outcome, Error, Failure, Result};
use crate::text::{
    ascii_alphanumeric, chars_of, contains_whitespace, debug_quoted, debug_text, escape_all,
    escaped, extend_chars, extend_text, has_prefix, has_whitespace, is_ascii_alphanumeric,
    lossy_text, same_text, split, split_chars, starts_with, string_of, texts, trim, trimmed,
    utf8_lossy,
};
use crate::version_order::version_body;

verus! {

/// The identity of a product that updates itself.
#[derive(Clone, Copy, Debug, PartialEq, Eq)]
pub struct ReleaseSpec {
    /// The executable's name, without `.exe`.
    pub binary_name: &'static str,
    /// The product's name in messages.
    pub display_name: &'static str,
    /// `owner/repository` of the product's releases.
    pub repository: &'static str,
    /// The prefix of the product's environment variables.
    pub environment_prefix: &'static str,
    /// The version that is running.
    pub current_version: &'static str,
}

impl ReleaseSpec {
    pub fn new(
        binary_name: &'static str,
        display_name: &'static str,
        repository: &'static str,
        environment_prefix: &'static str,
        current_version: &'static str,
    ) -> (spec: Self)
        ensures
            spec.binary_name == binary_name,
            spec.display_name == display_name,
            spec.repository == repository,
            spec.environment_prefix == environment_prefix,
            spec.current_version == current_version,
    {
        ReleaseSpec { binary_name, display_name, repository, environment_prefix, current_version }
    }
}

#[verifier::external_type_specification]
#[verifier::external_body]
pub struct ExPathBuf(std::path::PathBuf);

/// `PathBuf::clone`, which the derived `Clone` of [`UpdateSummary`] calls;
/// nothing is stated of the copy.
pub assume_specification[ <std::path::PathBuf as Clone>::clone ](path: &std::path::PathBuf) -> (
    copy: std::path::PathBuf);

/// What an update did.
#[derive(Clone, Debug)]
pub struct UpdateSummary {
    /// The version that ran the update.
    pub previous_version: String,
    /// The version the updated executable reports, when it ran already.
    pub installed_version: Option<String>,
    /// The executable that was updated.
    pub executable: std::path::PathBuf,
    /// `updated`, or `scheduled` when the update completes after exit.
    pub status: &'static str,
}

/// A binary name: non-empty, of ASCII letters, digits, `-` and `_`.
pub open spec fn binary_name_valid(name: Seq<char>) -> bool {
    &&& name.len() > 0
    &&& forall|i: int|
        0 <= i < name.len() ==> is_ascii_alphanumeric(#[trigger] name[i]) || name[i] == '-'
            || name[i] == '_'
}

/// The product's environment variable `PREFIX_SUFFIX`, or the error for an
/// unusable prefix.
pub open spec fn product_variable(prefix: Seq<char>, suffix: Seq<char>) -> core::result::Result<
    Seq<char>,
    Failure,
> {
    if environment_name_valid(prefix) {
        Ok(prefix + seq!['_'] + suffix)
    } else {
        Err(
            Failure::Configuration(
                "environment prefix must use uppercase ASCII, digits, and underscores"@,
            ),
        )
    }
}

/// What `validate_spec` gives for a release identity.
pub open spec fn release_identity_check(spec: ReleaseSpec) -> core::result::Result<(), Failure> {
    if !binary_name_valid(spec.binary_name@) {
        Err(Failure::Configuration("invalid binary name"@))
    } else if trim(spec.display_name@).len() == 0 || split(spec.repository@, '/').len() != 2
        || has_whitespace(spec.repository@) {
        Err(Failure::Configuration("display name and owner/repository must be configured"@))
    } else {
        match product_variable(spec.environment_prefix@, "VERSION"@) {
            Ok(_) => Ok(()),
            Err(failure) => Err(failure),
        }
    }
}

/// What `validate_release_base` gives: only `https://` and `file://`
/// locations are accepted.
pub open spec fn release_base_check(base: Seq<char>) -> core::result::Result<(), Failure> {
    if starts_with(base, "https://"@) || starts_with(base, "file://"@) {
        Ok(())
    } else {
        Err(Failure::Configuration("refusing non-HTTPS release URL: "@ + base))
    }
}

/// A character a release version may hold.
pub open spec fn release_version_char(c: char) -> bool {
    is_ascii_alphanumeric(c) || c == '.' || c == '-' || c == '_'
}

/// What `validate_requested_version` gives: `latest`, or a non-empty version
/// of ASCII letters, digits, `.`, `-` and `_` after one optional leading `v`.
pub open spec fn requested_version_check(version: Seq<char>) -> core::result::Result<(), Failure> {
    if version == "latest"@ {
        Ok(())
    } else {
        let body = version_body(version);
        if body.len() > 0 && forall|i: int|
            0 <= i < body.len() ==> release_version_char(#[trigger] body[i]) {
            Ok(())
        } else {
            Err(Failure::InvalidInput("invalid release version "@ + debug_quoted(body)))
        }
    }
}

/// The executable's expected file name on the platform.
pub open spec fn expected_executable_name(binary_name: Seq<char>, windows: bool) -> Seq<char> {
    if windows {
        binary_name + ".exe"@
    } else {
        binary_name
    }
}

/// What `validate_executable_name` gives for the running executable's file
/// name (`None` when it is not UTF-8).
pub open spec fn executable_name_check(
    spec: ReleaseSpec,
    actual: Option<Seq<char>>,
    windows: bool,
) -> core::result::Result<(), Failure> {
    let expected = expected_executable_name(spec.binary_name@, windows);
    if actual == Some(expected) {
        Ok(())
    } else {
        let shown = match actual {
            Some(name) => name,
            None => "<non-UTF-8>"@,
        };
        Err(
            Failure::Configuration(
                "the running executable is named "@ + debug_quoted(shown) + ", not "@ + expected
                    + "; reinstall "@ + spec.display_name@
                    + " with the official installer before using `"@ + spec.binary_name@
                    + " update`"@,
            ),
        )
    }
}

/// `s` without its trailing `/` characters.
pub open spec fn trim_trailing_slashes(s: Seq<char>) -> Seq<char>
    decreases s.len(),
{
    if s.len() > 0 && s.last() == '/' {
        trim_trailing_slashes(s.drop_last())
    } else {
        s
    }
}

/// The releases page of `owner/repository` on GitHub.
pub open spec fn github_releases(repository: Seq<char>) -> Seq<char> {
    "https://github.com/"@ + repository + "/releases"@
}

/// The installer's explanation of a failure: its trimmed error output, or
/// its trimmed standard output when the error output is blank, escaped with
/// `char::escape_default`.
pub open spec fn failure_text(stdout: Seq<u8>, stderr: Seq<u8>) -> Seq<char> {
    let err = trim(utf8_lossy(stderr));
    let out = trim(utf8_lossy(stdout));
    let message = if err.len() == 0 {
        out
    } else {
        err
    };
    if message.len() == 0 {
        "no error output was produced"@
    } else {
        escape_all(message)
    }
}

/// What `installed_version` gives for the updated executable's answer to
/// `--version`: the text after `BINARY ` in its trimmed output.
pub open spec fn reported_version(
    spec: ReleaseSpec,
    succeeded: bool,
    stdout: Seq<u8>,
) -> core::result::Result<Seq<char>, Failure> {
    let reported = trim(utf8_lossy(stdout));
    let prefix = spec.binary_name@ + seq![' '];
    if !succeeded {
        Err(Failure::Configuration("updated executable did not report its version"@))
    } else if starts_with(reported, prefix) {
        Ok(reported.skip(prefix.len() as int))
    } else {
        Err(
            Failure::Configuration(
                "updated executable did not identify itself as "@ + spec.display_name@,
            ),
        )
    }
}

fn configuration(text: &str) -> (e: Error)
    ensures
        e@ == Failure::Configuration(text@),
{
    Error::Configuration(text.to_owned())
}

fn configuration_chars(text: &Vec<char>) -> (e: Error)
    ensures
        e@ == Failure::Configuration(text@),
{
    Error::Configuration(string_of(text))
}

fn binary_name_chars(name: &Vec<char>) -> (b: bool)
    ensures
        b == binary_name_valid(name@),
{
    if name.len() == 0 {
        return false;
    }
    let mut i: usize = 0;
    while i < name.len()
        invariant
            i <= name@.len(),
            forall|j: int|
                0 <= j < i ==> is_ascii_alphanumeric(#[trigger] name@[j]) || name@[j] == '-'
                    || name@[j] == '_',
        decreases name@.len() - i,
    {
        let c = name[i];
        if !(ascii_alphanumeric(c) || c == '-' || c == '_') {
            return false;
        }
        i = i + 1;
    }
    true
}

/// The product's environment variable `PREFIX_SUFFIX`.
pub fn product_environment(spec: &ReleaseSpec, suffix: &str) -> (r: Result<String>)
    ensures
        outcome(r) == product_variable(spec.environment_prefix@, suffix@),
{
    let prefix = chars_of(spec.environment_prefix);
    if !environment_name_chars(&prefix) {
        return Err(
            configuration("environment prefix must use uppercase ASCII, digits, and underscores"),
        );
    }
    let mut name = prefix;
    name.push('_');
    extend_text(&mut name, suffix);
    assert(name@ =~= spec.environment_prefix@ + seq!['_'] + suffix@);
    Ok(string_of(&name))
}

/// Checks a product's release identity.
pub fn validate_spec(spec: &ReleaseSpec) -> (r: Result<()>)
    ensures
        outcome(r) == release_identity_check(*spec),
{
    let binary = chars_of(spec.binary_name);
    if !binary_name_chars(&binary) {
        return Err(configuration("invalid binary name"));
    }
    let display = chars_of(spec.display_name);
    let repository = chars_of(spec.repository);
    let pieces = split_chars(&repository, '/');
    assert(texts(pieces@).len() == pieces@.len());
    if trimmed(&display).len() == 0 || pieces.len() != 2 || contains_whitespace(&repository) {
        return Err(configuration("display name and owner/repository must be configured"));
    }
    match product_environment(spec, "VERSION") {
        Ok(_) => Ok(()),
        Err(e) => Err(e),
    }
}

/// Checks that the running executable is the product's, by its file name
/// (`None` when that name is not UTF-8).
pub fn validate_executable_name(spec: &ReleaseSpec, actual: Option<&str>, windows: bool) -> (r:
    Result<()>)
    ensures
        outcome(r) == executable_name_check(
            *spec,
            match actual {
                Some(name) => Some(name@),
                None => None,
            },
            windows,
        ),
{
    let mut expected = chars_of(spec.binary_name);
    if windows {
        extend_text(&mut expected, ".exe");
    }
    let shown = match actual {
        Some(name) => {
            let name_chars = chars_of(name);
            if same_text(&name_chars, &expected) {
                return Ok(());
            }
            name
        },
        None => "<non-UTF-8>",
    };
    let mut message: Vec<char> = Vec::new();
    extend_text(&mut message, "the running executable is named ");
    let quoted = debug_text(shown);
    extend_text(&mut message, quoted.as_str());
    extend_text(&mut message, ", not ");
    extend_chars(&mut message, &expected);
    extend_text(&mut message, "; reinstall ");
    extend_text(&mut message, spec.display_name);
    extend_text(&mut message, " with the official installer before using `");
    extend_text(&mut message, spec.binary_name);
    extend_text(&mut message, " update`");
    Err(configuration_chars(&message))
}

/// Checks that releases are fetched over HTTPS, or from a local fixture.
pub fn validate_release_base(release_base: &str) -> (r: Result<()>)
    ensures
        outcome(r) == release_base_check(release_base@),
{
    let base = chars_of(release_base);
    let https = chars_of("https://");
    let file = chars_of("file://");
    if has_prefix(&base, &https) || has_prefix(&base, &file) {
        return Ok(());
    }
    let mut message = chars_of("refusing non-HTTPS release URL: ");
    extend_chars(&mut message, &base);
    Err(configuration_chars(&message))
}

/// Checks the version a user asked to install.
pub fn validate_requested_version(version: &str) -> (r: Result<()>)
    ensures
        outcome(r) == requested_version_check(version@),
{
    let chars = chars_of(version);
    let latest = chars_of("latest");
    if same_text(&chars, &latest) {
        return Ok(());
    }
    let body = if chars.len() > 0 && chars[0] == 'v' {
        let mut rest = chars;
        rest.remove(0);
        rest
    } else {
        chars
    };
    assert(body@ == version_body(version@));
    let mut valid = body.len() > 0;
    let mut i: usize = 0;
    while valid && i < body.len()
        invariant
            i <= body@.len(),
            valid ==> body@.len() > 0,
            valid ==> forall|j: int| 0 <= j < i ==> release_version_char(#[trigger] body@[j]),
            !valid ==> !(body@.len() > 0 && forall|j: int|
                0 <= j < body@.len() ==> release_version_char(#[trigger] body@[j])),
        decreases body@.len() - i,
    {
        let c = body[i];
        if !(ascii_alphanumeric(c) || c == '.' || c == '-' || c == '_') {
            assert(!release_version_char(body@[i as int]));
            valid = false;
        }
        i = i + 1;
    }
    if valid {
        return Ok(());
    }
    let mut message = chars_of("invalid release version ");
    let shown = string_of(&body);
    let quoted = debug_text(shown.as_str());
    extend_text(&mut message, quoted.as_str());
    Err(Error::InvalidInput(string_of(&message)))
}

/// The installer published with each release for the platform.
pub fn installer_name(windows: bool) -> (name: &'static str)
    ensures
        name@ == if windows {
            "install.ps1"@
        } else {
            "install.sh"@
        },
{
    if windows {
        "install.ps1"
    } else {
        "install.sh"
    }
}

/// The repository and release location an update uses: the configured ones
/// when set, else the product's repository and its GitHub releases page,
/// the location without trailing `/`.
pub fn release_location(
    spec: &ReleaseSpec,
    repository_setting: Option<&str>,
    release_base_setting: Option<&str>,
) -> (location: (String, String))
    ensures
        location.0@ == match repository_setting {
            Some(r) => r@,
            None => spec.repository@,
        },
        location.1@ == trim_trailing_slashes(
            match release_base_setting {
                Some(b) => b@,
                None => github_releases(location.0@),
            },
        ),
{
    let repository = match repository_setting {
        Some(r) => chars_of(r),
        None => chars_of(spec.repository),
    };
    let base = match release_base_setting {
        Some(b) => chars_of(b),
        None => {
            let mut url = chars_of("https://github.com/");
            extend_chars(&mut url, &repository);
            extend_text(&mut url, "/releases");
            url
        },
    };
    let trimmed_base = without_trailing_slashes(&base);
    (string_of(&repository), string_of(&trimmed_base))
}

proof fn lemma_trim_trailing_slashes_take(s: Seq<char>, k: int)
    requires
        0 <= k <= s.len(),
        forall|j: int| k <= j < s.len() ==> #[trigger] s[j] == '/',
    ensures
        trim_trailing_slashes(s) == trim_trailing_slashes(s.take(k)),
    decreases s.len() - k,
{
    if k < s.len() {
        lemma_trim_trailing_slashes_take(s.drop_last(), k);
        assert(s.drop_last().take(k) =~= s.take(k));
    } else {
        assert(s.take(k) =~= s);
    }
}

fn without_trailing_slashes(s: &Vec<char>) -> (out: Vec<char>)
    ensures
        out@ == trim_trailing_slashes(s@),
{
    let mut end = s.len();
    while end > 0 && s[end - 1] == '/'
        invariant
            end <= s@.len(),
            forall|j: int| end <= j < s@.len() ==> #[trigger] s@[j] == '/',
        decreases end,
    {
        end = end - 1;
    }
    proof {
        lemma_trim_trailing_slashes_take(s@, end as int);
    }
    let mut out: Vec<char> = Vec::new();
    let mut i: usize = 0;
    while i < end
        invariant
            end <= s@.len(),
            i <= end,
            out@ == s@.take(i as int),
        decreases end - i,
    {
        out.push(s[i]);
        assert(s@.take(i + 1) =~= s@.take(i as int).push(s@[i as int]));
        i = i + 1;
    }
    out
}

/// The installer's explanation of its failure, from its captured output.
pub fn command_failure_text(stdout: &[u8], stderr: &[u8]) -> (text: String)
    ensures
        text@ == failure_text(stdout@, stderr@),
{
    let err = trimmed(&lossy_text(stderr));
    let out = trimmed(&lossy_text(stdout));
    let message = if err.len() == 0 {
        out
    } else {
        err
    };
    if message.len() == 0 {
        "no error output was produced".to_owned()
    } else {
        string_of(&escaped(&message))
    }
}

/// The version the updated executable reports, from whether `--version`
/// succeeded and what it printed.
pub fn installed_version(spec: &ReleaseSpec, succeeded: bool, stdout: &[u8]) -> (r: Result<
    String,
>)
    ensures
        outcome(r) == reported_version(*spec, succeeded, stdout@),
{
    if !succeeded {
        return Err(configuration("updated executable did not report its version"));
    }
    let reported = trimmed(&lossy_text(stdout));
    let mut prefix = chars_of(spec.binary_name);
    prefix.push(' ');
    assert(prefix@ =~= spec.binary_name@ + seq![' ']);
    if !has_prefix(&reported, &prefix) {
        let mut message = chars_of("updated executable did not identify itself as ");
        extend_text(&mut message, spec.display_name);
        return Err(configuration_chars(&message));
    }
    let mut version: Vec<char> = Vec::new();
    let mut i: usize = prefix.len();
    while i < reported.len()
        invariant
            prefix@.len() <= i <= reported@.len(),
            version@ == reported@.subrange(prefix@.len() as int, i as int),
        decreases reported@.len() - i,
    {
        version.push(reported[i]);
        assert(reported@.subrange(prefix@.len() as int, i + 1) =~= reported@.subrange(
            prefix@.len() as int,
            i as int,
        ).push(reported@[i as int]));
        i = i + 1;
    }
    assert(version@ =~= reported@.skip(prefix@.len() as int));
    Ok(string_of(&version))
}


/// Where a release file is fetched from.
pub enum DownloadSource {
    /// A `file://` location: copy the file at this path.
    LocalFile(String),
    /// An `https://` location: fetch it with a downloader.
    Remote,
}

/// Decides how to fetch `url`: `file://` locations are copied, other
/// locations must be `https://`.
pub fn download_source(url: &str) -> (r: Result<DownloadSource>)
    ensures
        starts_with(url@, "file://"@) ==> (r matches Ok(DownloadSource::LocalFile(path)) && path@
            == url@.skip("file://"@.len() as int)),
        !starts_with(url@, "file://"@) ==> match release_base_check(url@) {
            Ok(()) => r matches Ok(DownloadSource::Remote),
            Err(failure) => (r matches Err(e) && e@ == failure),
        },
{
    let chars = chars_of(url);
    let scheme = chars_of("file://");
    if has_prefix(&chars, &scheme) {
        let mut path: Vec<char> = Vec::new();
        let mut i: usize = scheme.len();
        while i < chars.len()
            invariant
                scheme@.len() <= i <= chars@.len(),
                path@ == chars@.subrange(scheme@.len() as int, i as int),
            decreases chars@.len() - i,
        {
            path.push(chars[i]);
            assert(chars@.subrange(scheme@.len() as int, i + 1) =~= chars@.subrange(
                scheme@.len() as int,
                i as int,
            ).push(chars@[i as int]));
            i = i + 1;
        }
        assert(path@ =~= url@.skip(scheme@.len() as int));
        return Ok(DownloadSource::LocalFile(string_of(&path)));
    }
    match validate_release_base(url) {
        Ok(()) => Ok(DownloadSource::Remote),
        Err(e) => Err(e),
    }
}

/// The options `curl` fetches a release file with, before the output path
/// and the URL: fail on HTTP errors, follow redirects over HTTPS only, retry
/// three times, and require TLS 1.2.
pub fn curl_options() -> (options: Vec<&'static str>)
    ensures
        options@.len() == 12,
        options@[0]@ == "--fail"@,
        options@[1]@ == "--location"@,
        options@[2]@ == "--silent"@,
        options@[3]@ == "--show-error"@,
        options@[4]@ == "--retry"@,
        options@[5]@ == "3"@,
        options@[6]@ == "--proto"@,
        options@[7]@ == "=https"@,
        options@[8]@ == "--proto-redir"@,
        options@[9]@ == "=https"@,
        options@[10]@ == "--tlsv1.2"@,
        options@[11]@ == "--output"@,
{
    let mut options: Vec<&'static str> = Vec::new();
    options.push("--fail");
    options.push("--location");
    options.push("--silent");
    options.push("--show-error");
    options.push("--retry");
    options.push("3");
    options.push("--proto");
    options.push("=https");
    options.push("--proto-redir");
    options.push("=https");
    options.push("--tlsv1.2");
    options.push("--output");
    options
}

/// The PowerShell command that fetches a release file on Windows, reading the
/// URL and the destination from `RUST_CLI_RELEASE_UPDATE_URL` and
/// `RUST_CLI_RELEASE_UPDATE_DEST`, with TLS 1.2 enabled.
pub fn powershell_download_command() -> (command: &'static str)
    ensures
        command@ == "[Net.ServicePointManager]::SecurityProtocol = [Net.ServicePointManager]::SecurityProtocol -bor [Net.SecurityProtocolType]::Tls12; Invoke-WebRequest -Uri $env:RUST_CLI_RELEASE_UPDATE_URL -OutFile $env:RUST_CLI_RELEASE_UPDATE_DEST -UseBasicParsing"@,
{
    "[Net.ServicePointManager]::SecurityProtocol = [Net.ServicePointManager]::SecurityProtocol -bor [Net.SecurityProtocolType]::Tls12; Invoke-WebRequest -Uri $env:RUST_CLI_RELEASE_UPDATE_URL -OutFile $env:RUST_CLI_RELEASE_UPDATE_DEST -UseBasicParsing"
}

/// The error of a `curl` run that exited with `status`.
pub fn curl_failure(url: &str, status: &str) -> (e: Error)
    ensures
        e@ == Failure::Configuration(
            "curl could not download "@ + url@ + " (exit status "@ + status@ + ")"@,
        ),
{
    let mut message = chars_of("curl could not download ");
    extend_text(&mut message, url);
    extend_text(&mut message, " (exit status ");
    extend_text(&mut message, status);
    extend_text(&mut message, ")");
    configuration_chars(&message)
}

/// The error of a `wget` run that exited with `status`.
pub fn wget_failure(url: &str, status: &str) -> (e: Error)
    ensures
        e@ == Failure::Configuration(
            "wget could not download "@ + url@ + " (exit status "@ + status@ + ")"@,
        ),
{
    let mut message = chars_of("wget could not download ");
    extend_text(&mut message, url);
    extend_text(&mut message, " (exit status ");
    extend_text(&mut message, status);
    extend_text(&mut message, ")");
    configuration_chars(&message)
}

/// The error when neither `curl` nor `wget` is installed.
pub fn downloader_missing() -> (e: Error)
    ensures
        e@ == Failure::Configuration("curl or wget is required to update this CLI"@),
{
    configuration("curl or wget is required to update this CLI")
}

/// How one run of a downloader (`curl` or `wget`) ended.
pub enum DownloaderRun {
    /// It ran and exited successfully.
    Succeeded,
    /// It ran and exited unsuccessfully; `status` describes the exit status.
    Exited { status: String },
    /// It is not installed.
    Missing,
    /// It is installed but could not be started.
    Unstartable(std::io::Error),
}

/// What follows a `curl` run for `url`: `Ok(true)` when the file was
/// fetched, `Ok(false)` when `curl` is not installed and `wget` is to be
/// tried, otherwise the error.
pub fn after_curl(url: &str, run: DownloaderRun) -> (r: Result<bool>)
    ensures
        match run {
            DownloaderRun::Succeeded => r matches Ok(true),
            DownloaderRun::Missing => r matches Ok(false),
            DownloaderRun::Exited { status } => (r matches Err(e) && e@ == Failure::Configuration(
                "curl could not download "@ + url@ + " (exit status "@ + status@ + ")"@,
            )),
            DownloaderRun::Unstartable(error) => (r matches Err(Error::Io(e)) && e == error),
        },
{
    match run {
        DownloaderRun::Succeeded => Ok(true),
        DownloaderRun::Missing => Ok(false),
        DownloaderRun::Exited { status } => Err(curl_failure(url, status.as_str())),
        DownloaderRun::Unstartable(error) => Err(Error::Io(error)),
    }
}

/// What follows a `wget` run for `url`, tried after `curl` was not found:
/// success when the file was fetched, otherwise the error, which names both
/// downloaders when `wget` is not installed either.
pub fn after_wget(url: &str, run: DownloaderRun) -> (r: Result<()>)
    ensures
        match run {
            DownloaderRun::Succeeded => r is Ok,
            DownloaderRun::Missing => (r matches Err(e) && e@ == Failure::Configuration(
                "curl or wget is required to update this CLI"@,
            )),
            DownloaderRun::Exited { status } => (r matches Err(e) && e@ == Failure::Configuration(
                "wget could not download "@ + url@ + " (exit status "@ + status@ + ")"@,
            )),
            DownloaderRun::Unstartable(error) => (r matches Err(Error::Io(e)) && e == error),
        },
{
    match run {
        DownloaderRun::Succeeded => Ok(()),
        DownloaderRun::Missing => Err(downloader_missing()),
        DownloaderRun::Exited { status } => Err(wget_failure(url, status.as_str())),
        DownloaderRun::Unstartable(error) => Err(Error::Io(error)),
    }
}

/// The error when PowerShell could not fetch `url`.
pub fn powershell_download_failure(url: &str) -> (e: Error)
    ensures
        e@ == Failure::Configuration("could not download "@ + url@),
{
    let mut message = chars_of("could not download ");
    extend_text(&mut message, url);
    configuration_chars(&message)
}

/// The error when PowerShell could not be started to fetch a file.
pub fn powershell_launch_failure(reason: &str) -> (e: Error)
    ensures
        e@ == Failure::Configuration(
            "could not launch PowerShell to download the updater: "@ + reason@,
        ),
{
    let mut message = chars_of("could not launch PowerShell to download the updater: ");
    extend_text(&mut message, reason);
    configuration_chars(&message)
}


/// A character a binary name may hold: an ASCII letter or digit, `-` or `_`.
pub open spec fn binary_name_char(c: char) -> bool {
    ||| 'a' <= c && c <= 'z'
    ||| 'A' <= c && c <= 'Z'
    ||| '0' <= c && c <= '9'
    ||| c == '-'
    ||| c == '_'
}

/// A release identity is refused for its binary name exactly when that name
/// is empty or holds a character other than an ASCII letter, digit, `-` or
/// `_`; a name such as `my-cli` passes, and with a configured display name,
/// an `owner/repository` without whitespace and a valid environment prefix
/// the whole identity is accepted.
pub proof fn law_binary_name_characters(spec: ReleaseSpec)
    ensures
        (release_identity_check(spec) == Err::<(), Failure>(
            Failure::Configuration("invalid binary name"@),
        )) <==> !(spec.binary_name@.len() > 0 && forall|i: int|
            0 <= i < spec.binary_name@.len() ==> binary_name_char(#[trigger] spec.binary_name@[i])),
        spec.binary_name@.len() > 0 && (forall|i: int|
            0 <= i < spec.binary_name@.len() ==> binary_name_char(#[trigger] spec.binary_name@[i]))
            && trim(spec.display_name@).len() > 0 && split(spec.repository@, '/').len() == 2
            && !has_whitespace(spec.repository@) && environment_name_valid(
            spec.environment_prefix@,
        ) ==> release_identity_check(spec) is Ok,
{
    let name = spec.binary_name@;
    reveal_strlit("invalid binary name");
    reveal_strlit("display name and owner/repository must be configured");
    reveal_strlit("environment prefix must use uppercase ASCII, digits, and underscores");
    assert("invalid binary name"@.len() != "display name and owner/repository must be configured"@.len());
    assert("invalid binary name"@.len()
        != "environment prefix must use uppercase ASCII, digits, and underscores"@.len());
    if name.len() > 0 && forall|i: int| 0 <= i < name.len() ==> binary_name_char(#[trigger] name[i]) {
        assert forall|i: int| 0 <= i < name.len() implies is_ascii_alphanumeric(#[trigger] name[i])
            || name[i] == '-' || name[i] == '_' by {
            assert(binary_name_char(name[i]));
        }
        assert(binary_name_valid(name));
    } else if binary_name_valid(name) {
        assert forall|i: int| 0 <= i < name.len() implies binary_name_char(#[trigger] name[i]) by {
            assert(is_ascii_alphanumeric(name[i]) || name[i] == '-' || name[i] == '_');
        }
    }
}

/// A character a requested release version may hold: an ASCII letter or
/// digit, `.`, `-` or `_`.
pub open spec fn requested_char(c: char) -> bool {
    ||| 'a' <= c && c <= 'z'
    ||| 'A' <= c && c <= 'Z'
    ||| '0' <= c && c <= '9'
    ||| c == '.'
    ||| c == '-'
    ||| c == '_'
}

/// Whether a requested version is accepted depends on its characters only,
/// never on its length: a non-empty run of ASCII letters, digits, `.`, `-`
/// and `_` is accepted after a leading `v`, and on its own when it does not
/// itself begin with `v`; every accepted version is `latest` or such a run
/// after at most one leading `v`.
pub proof fn law_requested_versions_by_characters(body: Seq<char>)
    ensures
        body.len() > 0 && (forall|i: int| 0 <= i < body.len() ==> requested_char(#[trigger] body[i]))
            ==> requested_version_check(seq!['v'] + body) is Ok,
        body.len() > 0 && body[0] != 'v' && (forall|i: int|
            0 <= i < body.len() ==> requested_char(#[trigger] body[i])) ==> requested_version_check(
            body,
        ) is Ok,
        requested_version_check(body) is Ok ==> body == "latest"@ || (version_body(body).len() > 0
            && forall|i: int|
            0 <= i < version_body(body).len() ==> requested_char(#[trigger] version_body(body)[i])),
{
    reveal_strlit("latest");
    let vb = seq!['v'] + body;
    if body.len() > 0 && forall|i: int| 0 <= i < body.len() ==> requested_char(#[trigger] body[i]) {
        assert(vb.drop_first() =~= body);
        assert(version_body(vb) == body);
        assert forall|i: int| 0 <= i < body.len() implies release_version_char(#[trigger] body[i]) by {
            assert(requested_char(body[i]));
        }
    }
    let b = version_body(body);
    if requested_version_check(body) is Ok && body != "latest"@ {
        assert forall|i: int| 0 <= i < b.len() implies requested_char(#[trigger] b[i]) by {
            assert(release_version_char(b[i]));
        }
    }
}

} // verus!
