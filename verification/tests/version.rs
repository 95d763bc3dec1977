use buddy::version::{
    get_version, manifest_path, manifest_version, ManifestLookup, VersionError, DEFAULT_VERSION,
    MANIFEST_LOCATION,
};

#[test]
fn built_in_version_comes_first() {
    let declared = ManifestLookup::Declares { version: "9.9.9".to_string() };
    assert_eq!(get_version("1.2.3", declared), Ok("1.2.3".to_string()));
    assert_eq!(get_version("1.2.3", ManifestLookup::Malformed), Ok("1.2.3".to_string()));
}

#[test]
fn manifest_version_comes_second() {
    let declared = ManifestLookup::Declares { version: "0.70.23".to_string() };
    assert_eq!(get_version("", declared), Ok("0.70.23".to_string()));
}

#[test]
fn default_version_comes_last() {
    assert_eq!(DEFAULT_VERSION, "0.0.0");
    assert_eq!(get_version("", ManifestLookup::Missing), Ok("0.0.0".to_string()));
    assert_eq!(manifest_version(ManifestLookup::Missing), Ok("0.0.0".to_string()));
}

#[test]
fn a_manifest_that_cannot_be_used_is_an_error() {
    assert_eq!(get_version("", ManifestLookup::Malformed), Err(VersionError::Malformed));
    assert_eq!(get_version("", ManifestLookup::Unreadable), Err(VersionError::Unreadable));
    assert_eq!(get_version("", ManifestLookup::NoDirectory), Err(VersionError::NoDirectory));
}

#[test]
fn errors_say_what_failed() {
    assert_eq!(VersionError::NoDirectory.message(), "Failed to get executable directory");
    assert_eq!(VersionError::Unreadable.message(), "Failed to read package.json");
    assert_eq!(VersionError::Malformed.message(), "Failed to parse package.json");
}

#[test]
fn manifest_lies_beside_the_directory_of_the_program() {
    assert_eq!(MANIFEST_LOCATION, "../package.json");
    assert_eq!(
        manifest_path("/opt/stacks/bin/buddy"),
        Some("/opt/stacks/bin/../package.json".to_string())
    );
    assert_eq!(manifest_path("/buddy"), Some("/../package.json".to_string()));
    assert_eq!(manifest_path("buddy"), Some("../package.json".to_string()));
}

#[test]
fn a_program_path_without_a_name_has_no_manifest() {
    assert_eq!(manifest_path("/"), None);
    assert_eq!(manifest_path(""), None);
}
