use rust_cli_release::{
    build_directives, cargo_version, check_environment_name, validate_version,
    version_file_version, Error, VersionFormat,
};

fn invalid_input_message<T: std::fmt::Debug>(result: Result<T, Error>) -> String {
    match result {
        Err(Error::InvalidInput(message)) => message,
        other => panic!("expected an invalid-input error, got {other:?}"),
    }
}

#[test]
fn calendar_versions_map_to_cargo() {
    assert_eq!(cargo_version("2026.07.21.12").unwrap(), "2026.7.21-12");
    assert!(cargo_version("2026.13.21.1").is_err());
    assert!(cargo_version("2026.07.21.0").is_err());
    assert!(cargo_version("1.2.3").is_err());
}

#[test]
fn cargo_versions_accept_release_and_build_metadata() {
    assert!(validate_version("1.2.3", VersionFormat::Cargo).is_ok());
    assert!(validate_version("1.2.3-rc.1", VersionFormat::Cargo).is_ok());
    assert!(validate_version("1.2", VersionFormat::Cargo).is_err());
}

#[test]
fn build_metadata_alone_is_accepted() {
    assert!(validate_version("1.2.3+build.5", VersionFormat::Cargo).is_ok());
    assert!(validate_version("1.2.3-rc.1+build.5", VersionFormat::Cargo).is_ok());
    assert!(validate_version("1.2.x+build", VersionFormat::Cargo).is_err());
}

#[test]
fn calendar_components_lose_their_leading_zeros() {
    assert_eq!(cargo_version("0026.01.02.007").unwrap(), "26.1.2-7");
    assert_eq!(cargo_version("2026.12.31.1").unwrap(), "2026.12.31-1");
    assert_eq!(cargo_version("0000.01.01.4294967295").unwrap(), "0.1.1-4294967295");
}

#[test]
fn calendar_errors_name_their_cause() {
    assert_eq!(
        invalid_input_message(cargo_version("2026.7.21.1")),
        "calendar versions must use YYYY.MM.DD.N"
    );
    assert_eq!(
        invalid_input_message(cargo_version("2026.07.21.")),
        "calendar versions must use YYYY.MM.DD.N"
    );
    assert_eq!(
        invalid_input_message(cargo_version("2026.07.00.1")),
        "calendar version contains an invalid date or release number"
    );
    assert_eq!(
        invalid_input_message(cargo_version("2026.07.32.1")),
        "calendar version contains an invalid date or release number"
    );
    assert_eq!(
        invalid_input_message(cargo_version("2026.07.21.4294967296")),
        "invalid numeric version component: number too large to fit in target type"
    );
}

#[test]
fn calendar_format_validation_matches_the_mapping() {
    assert!(validate_version("2026.07.21.12", VersionFormat::Calendar).is_ok());
    assert!(validate_version("2026.00.21.12", VersionFormat::Calendar).is_err());
    assert!(validate_version("1.2.3", VersionFormat::Calendar).is_err());
}

#[test]
fn unsupported_cargo_versions_are_quoted_in_the_error() {
    assert_eq!(
        invalid_input_message(validate_version("1.2", VersionFormat::Cargo)),
        "version \"1.2\" is not a supported Cargo version"
    );
}

#[test]
fn environment_names_are_upper_snake_case() {
    assert!(check_environment_name("MY_CLI_SOURCE_VERSION").is_ok());
    assert!(check_environment_name("CLI2").is_ok());
    assert_eq!(
        invalid_input_message(check_environment_name("my_cli")),
        "build environment name must use uppercase ASCII, digits, and underscores"
    );
    assert!(check_environment_name("").is_err());
}

#[test]
fn version_files_are_trimmed_before_validation() {
    assert_eq!(
        version_file_version("  2026.07.21.3\n", VersionFormat::Calendar).unwrap(),
        "2026.07.21.3"
    );
    assert_eq!(
        version_file_version("1.4.0\r\n", VersionFormat::Cargo).unwrap(),
        "1.4.0"
    );
    assert!(version_file_version("\n", VersionFormat::Cargo).is_err());
}

#[test]
fn build_directives_rerun_and_export() {
    let lines = build_directives("VERSION", "MY_CLI_SOURCE_VERSION", "2026.07.21.3");
    assert_eq!(
        lines,
        vec![
            "cargo:rerun-if-changed=VERSION".to_string(),
            "cargo:rustc-env=MY_CLI_SOURCE_VERSION=2026.07.21.3".to_string(),
        ]
    );
}
