//! Tests for the error taxonomy and its rendered messages.

use teemiao::build_info::BuildInfoError;
use teemiao::TeemiaoError;

#[test]
fn repository_not_found_message() {
    assert_eq!(
        BuildInfoError::RepositoryNotFound.message(),
        "Failed to open repository: no repository found here or in any parent directory"
    );
}

#[test]
fn repository_open_failed_message_carries_cause() {
    assert_eq!(
        BuildInfoError::RepositoryOpenFailed("bad permissions".to_string()).message(),
        "Failed to open repository: bad permissions"
    );
}

#[test]
fn no_commits_yet_message() {
    assert_eq!(
        BuildInfoError::NoCommitsYet.message(),
        "Failed to get head revision: the repository has no commits yet"
    );
}

#[test]
fn head_unresolvable_message_carries_cause() {
    assert_eq!(
        BuildInfoError::HeadUnresolvable("dangling ref".to_string()).message(),
        "Failed to resolve HEAD: dangling ref"
    );
}

#[test]
fn shortening_failed_message_carries_cause() {
    assert_eq!(
        BuildInfoError::ShorteningFailed("odb corrupt".to_string()).message(),
        "Failed to get short revision: odb corrupt"
    );
}

#[test]
fn output_path_invalid_message() {
    assert_eq!(
        BuildInfoError::OutputPathInvalid.message(),
        "Invalid output path: it cannot be made absolute"
    );
}

#[test]
fn write_failed_message_carries_cause() {
    assert_eq!(
        BuildInfoError::WriteFailed("disk full".to_string()).message(),
        "Failed to write to output file: disk full"
    );
}

#[test]
fn serialization_failed_message_carries_cause() {
    assert_eq!(
        BuildInfoError::SerializationFailed("unexpected".to_string()).message(),
        "Failed to serialize build info: unexpected"
    );
}

#[test]
fn teemiao_error_wraps_build_info_errors() {
    let err = TeemiaoError::from(BuildInfoError::NoCommitsYet);
    assert_eq!(err, TeemiaoError::BuildInfo(BuildInfoError::NoCommitsYet));
    assert_eq!(
        err.message(),
        "Failed to generate build info: Failed to get head revision: the repository has no commits yet"
    );
}

#[test]
fn config_template_message_carries_cause() {
    assert_eq!(
        TeemiaoError::ConfigTemplate("no template".to_string()).message(),
        "Failed to generate configuration from template: no template"
    );
}
