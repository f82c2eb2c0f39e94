//! The repository guard: classification, the two creation modes, and the
//! diff-capture session.

use mlflow_rs::errors::{
    DirtyRepoError, RepoContainsSubfolderReposError, RepoContainsSubmodulesError, RunCreationError,
};
use mlflow_rs::experiment::Experiment;
use mlflow_rs::guard::{
    classify_repository, does_repo_contain_subfolders_with_repos, does_repo_contain_submodules,
    is_repo_clean, DiffCapture, RepositoryState,
};
use mlflow_rs::text::bytes_have_multiple_lines;

fn sample_experiment() -> Experiment {
    Experiment {
        api_root: "http://localhost:5000".to_string(),
        experiment_id: "1".to_string(),
        name: "test".to_string(),
        artifact_location: "mlflow-artifacts:/1".to_string(),
        lifecycle_stage: "active".to_string(),
        last_update_time: 0,
        creation_time: 0,
    }
}

#[test]
fn blank_outputs_classify_as_clean() {
    assert!(matches!(
        classify_repository(b"\n", b"", b"/repo/.git\n"),
        RepositoryState::Clean
    ));
}

#[test]
fn status_output_classifies_as_dirty() {
    assert!(matches!(
        classify_repository(b" M src/lib.rs\n?? new.txt\n", b"", b"/repo/.git\n"),
        RepositoryState::Dirty
    ));
}

#[test]
fn submodules_take_precedence_over_dirtiness() {
    let state = classify_repository(
        b" M src/lib.rs\n",
        b" 0123abc vendored (v1.0)\n",
        b"/repo/.git\n/repo/vendored/.git\n",
    );
    assert!(matches!(state, RepositoryState::ContainsSubmodules));
}

#[test]
fn nested_repositories_are_detected_from_multiple_roots() {
    let state = classify_repository(b"", b"", b"/repo/.git\n/repo/sub/.git\n");
    assert!(matches!(state, RepositoryState::ContainsNestedRepositories));
}

#[test]
fn single_root_is_not_nested() {
    assert!(!does_repo_contain_subfolders_with_repos(b"/repo/.git\n"));
    assert!(does_repo_contain_subfolders_with_repos(
        b"/repo/.git\n/repo/sub/.git\n"
    ));
    assert!(!does_repo_contain_subfolders_with_repos(b"\n"));
}

#[test]
fn multiple_line_detection_ignores_surrounding_whitespace() {
    assert!(!bytes_have_multiple_lines(b""));
    assert!(!bytes_have_multiple_lines(b"\n\n\n"));
    assert!(!bytes_have_multiple_lines(b"  one line  \n"));
    assert!(!bytes_have_multiple_lines(b"ab"));
    assert!(bytes_have_multiple_lines(b"\na\nb\n"));
    assert!(bytes_have_multiple_lines(b"a\r\nb"));
}

#[test]
fn cleanliness_is_blank_output() {
    assert!(is_repo_clean(b""));
    assert!(is_repo_clean(b" \n"));
    assert!(!is_repo_clean(b"?? x\n"));
    assert!(!does_repo_contain_submodules(b"\n"));
    assert!(does_repo_contain_submodules(b" 0123abc path (tag)\n"));
}

#[test]
fn strict_mode_rejects_a_dirty_tree_without_any_request() {
    let e = sample_experiment();
    let r = e.create_run(
        Some("new run"),
        &Vec::new(),
        RepositoryState::Dirty,
        "abc",
        1,
    );
    assert!(matches!(r, Err(RunCreationError::Dirty(_))));
}

#[test]
fn strict_mode_rejects_submodules_and_nested_repositories() {
    let e = sample_experiment();
    let submodules = e.create_run(
        None,
        &Vec::new(),
        RepositoryState::ContainsSubmodules,
        "abc",
        1,
    );
    assert!(matches!(submodules, Err(RunCreationError::Submodules(_))));
    let nested = e.create_run(
        None,
        &Vec::new(),
        RepositoryState::ContainsNestedRepositories,
        "abc",
        1,
    );
    assert!(matches!(nested, Err(RunCreationError::SubfolderRepos(_))));
}

#[test]
fn strict_mode_allows_a_clean_tree() {
    let e = sample_experiment();
    let r = e
        .create_run(Some("new run"), &Vec::new(), RepositoryState::Clean, "abc", 1)
        .unwrap();
    assert_eq!(r.url, "http://localhost:5000/api/2.0/mlflow/runs/create");
}

#[test]
fn diff_capture_mode_takes_no_diff_on_a_clean_tree() {
    let e = sample_experiment();
    let plan = e
        .create_run_with_git_diff(None, &Vec::new(), RepositoryState::Clean, "abc", 1)
        .unwrap();
    assert!(!plan.capture_diff);
}

#[test]
fn diff_capture_mode_captures_on_a_dirty_tree() {
    let e = sample_experiment();
    let plan = e
        .create_run_with_git_diff(None, &Vec::new(), RepositoryState::Dirty, "abc", 1)
        .unwrap();
    assert!(plan.capture_diff);
    assert_eq!(
        plan.request.url,
        "http://localhost:5000/api/2.0/mlflow/runs/create"
    );
}

#[test]
fn diff_capture_mode_still_rejects_bad_topologies() {
    let e = sample_experiment();
    let submodules = e.create_run_with_git_diff(
        None,
        &Vec::new(),
        RepositoryState::ContainsSubmodules,
        "abc",
        1,
    );
    assert!(matches!(submodules, Err(RunCreationError::Submodules(_))));
    let nested = e.create_run_with_git_diff(
        None,
        &Vec::new(),
        RepositoryState::ContainsNestedRepositories,
        "abc",
        1,
    );
    assert!(matches!(nested, Err(RunCreationError::SubfolderRepos(_))));
}

#[test]
fn diff_session_yields_the_diff_only_after_restore() {
    let mut session = DiffCapture::new();
    session.mark_saved();
    session.record_diff(b"diff --git a/x b/x\n".to_vec());
    session.restore_finished(true);
    let diff = session.take_diff();
    assert_eq!(diff, b"diff --git a/x b/x\n".to_vec());
}

#[test]
fn strict_mode_rejects_a_dirty_tree_straight_from_command_output() {
    // The whole guarded path: raw command output, classification, decision.
    let e = sample_experiment();
    let state = classify_repository(b"?? new-file\n", b"", b"/repo/.git\n");
    let r = e.create_run(Some("new run"), &Vec::new(), state, "abc", 1);
    assert!(matches!(r, Err(RunCreationError::Dirty(_))));
}

#[test]
fn guard_error_messages() {
    assert_eq!(
        DirtyRepoError {}.message(),
        "The repository contains uncommitted changes."
    );
    assert!(RepoContainsSubmodulesError {}.message().contains("submodules"));
    assert!(RepoContainsSubfolderReposError {}.message().contains("subfolder"));
}
