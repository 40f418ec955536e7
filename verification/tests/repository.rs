//! Tests against real repositories: the pipeline fed with outcomes that gix
//! itself produced, as the application binary feeds them.

use teemiao::build_info::BuildInfoCommand;
use teemiao::build_info::BuildInfoError;
use teemiao::build_info::RepositoryEvent;
use teemiao::build_info::RevisionEvent;

/// A directory name that no other test run used before.
fn fresh_dir(tag: &str) -> String {
    let nanos = chrono::Utc::now()
        .timestamp_nanos_opt()
        .expect("clock in range");
    format!("/tmp/teemiao_{tag}_{nanos}")
}

#[test]
fn generator_reports_the_repositorys_own_short_head() {
    let dir = fresh_dir("repo_with_commit");
    let repo = gix::init(&dir).unwrap();
    let tree_id = repo.empty_tree().id();
    let signature = gix::actor::SignatureRef {
        name: "tester".into(),
        email: "tester@example.com".into(),
        time: "946684800 +0000",
    };
    let commit_id = repo
        .commit_as(
            signature,
            signature,
            "HEAD",
            "initial",
            tree_id,
            gix::commit::NO_PARENT_IDS,
        )
        .unwrap();

    // What the application observes through gix.
    let repo = gix::discover(&dir).unwrap();
    let head_id = repo.head().unwrap().id().unwrap();
    let short = head_id.shorten().unwrap().to_string();
    assert!(!short.is_empty());
    assert!(commit_id.to_string().starts_with(&short));

    // The run, fed with that observation.
    let w = BuildInfoCommand::new(None)
        .begin("/work/repo")
        .unwrap()
        .repository(RepositoryEvent::Opened)
        .unwrap()
        .revision_at(RevisionEvent::Resolved(short.clone()), 1_712_345_678)
        .unwrap();
    assert_eq!(w.info.revision, short);
    let value: serde_json::Value = serde_json::from_str(&w.contents).unwrap();
    assert_eq!(value["revision"], short.as_str());
}

#[test]
fn freshly_initialized_repository_has_no_commits_yet() {
    let dir = fresh_dir("repo_unborn");
    let repo = gix::init(&dir).unwrap();
    assert!(repo.head().unwrap().id().is_none());

    let r = BuildInfoCommand::new(None)
        .begin("/work/repo")
        .unwrap()
        .repository(RepositoryEvent::Opened)
        .unwrap()
        .revision(RevisionEvent::Unborn);
    assert_eq!(r.unwrap_err(), BuildInfoError::NoCommitsYet);
}

#[test]
fn no_repository_above_the_root_is_found() {
    let err = gix::discover("/").unwrap_err();
    assert!(err.is_not_found());

    let r = BuildInfoCommand::new(None)
        .begin("/")
        .unwrap()
        .repository(RepositoryEvent::NotFound);
    assert_eq!(r.unwrap_err(), BuildInfoError::RepositoryNotFound);
}
