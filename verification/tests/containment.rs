//! The containment check and the path helpers on concrete values, and the
//! error texts surfaced to callers.

use agent_md::ops::absent_read_target;
use agent_md::ops::absent_write_target;
use agent_md::ops::classify_target;
use agent_md::outcome::AgentMdError;
use agent_md::paths::agent_md_path;
use agent_md::paths::canonical_root;
use agent_md::paths::is_contained;
use agent_md::paths::join_agent_md;
use agent_md::paths::resolution_outcome;

#[test]
fn join_appends_filename_below_root() {
    assert_eq!(join_agent_md("/ws/project"), "/ws/project/AGENTS.md");
}

#[test]
fn join_adds_no_second_separator_at_filesystem_root() {
    assert_eq!(join_agent_md("/"), "/AGENTS.md");
}

#[test]
fn containment_accepts_target_below_root() {
    assert!(is_contained("/ws/project", "/ws/project/AGENTS.md"));
    assert!(is_contained("/ws/project", "/ws/project/a/b"));
}

#[test]
fn containment_accepts_root_itself() {
    assert!(is_contained("/ws/project", "/ws/project"));
}

#[test]
fn containment_accepts_everything_below_filesystem_root() {
    assert!(is_contained("/", "/etc"));
}

#[test]
fn containment_rejects_unrelated_path() {
    assert!(!is_contained("/ws/project", "/etc/passwd"));
}

#[test]
fn containment_rejects_sibling_with_common_name_prefix() {
    assert!(!is_contained("/ws/proj", "/ws/project"));
    assert!(!is_contained("/ws/project", "/ws/project2/AGENTS.md"));
}

#[test]
fn containment_rejects_parent_of_root() {
    assert!(!is_contained("/ws/project", "/ws"));
}

#[test]
fn classify_accepts_contained_target() {
    let accepted = classify_target("/ws/project", String::from("/ws/project/AGENTS.md"));
    assert_eq!(accepted.unwrap(), "/ws/project/AGENTS.md");
}

#[test]
fn classify_rejects_escaping_target() {
    let rejected = classify_target("/ws/project", String::from("/etc/passwd"));
    assert!(matches!(rejected, Err(AgentMdError::PathEscapeError)));
}

#[test]
fn canonical_root_removes_relative_components() {
    let dir = tempfile::TempDir::new().unwrap();
    let base = dir.path().to_str().unwrap();
    fs_err::create_dir(format!("{base}/sub")).unwrap();
    let plain = canonical_root(base).unwrap();
    let dotted = canonical_root(&format!("{base}/sub/..")).unwrap();
    assert_eq!(plain, dotted);
    assert!(!dotted.contains(".."));
}

#[test]
fn agent_md_path_names_the_fixed_file() {
    let dir = tempfile::TempDir::new().unwrap();
    let base = dir.path().to_str().unwrap();
    let path = agent_md_path(base).unwrap();
    assert!(path.ends_with("/AGENTS.md"));
    let missing = agent_md_path("/nonexistent");
    assert!(matches!(
        missing,
        Err(AgentMdError::RootResolutionError(_))
    ));
}

#[test]
fn absent_file_completes_the_read() {
    let absent = absent_read_target("/ws/project", false).unwrap();
    assert_eq!(absent.canonical_root, "/ws/project");
    assert!(absent.found.is_none());
    assert!(absent_read_target("/ws/project", true).is_none());
}

#[test]
fn absent_file_is_written_at_the_join() {
    let target = absent_write_target("/ws/project", false).unwrap();
    assert_eq!(target, "/ws/project/AGENTS.md");
    assert!(absent_write_target("/ws/project", true).is_none());
}

#[test]
fn resolution_outcome_keeps_path_and_cause() {
    let kept = resolution_outcome(Ok(String::from("/ws/project")));
    assert_eq!(kept.unwrap(), "/ws/project");
    let failed = resolution_outcome(Err(String::from("gone")));
    match failed {
        Err(AgentMdError::RootResolutionError(cause)) => assert_eq!(cause, "gone"),
        other => panic!("expected a root resolution failure, got {other:?}"),
    }
}

#[test]
fn error_messages_match_their_kinds() {
    let root_err = AgentMdError::RootResolutionError(String::from("gone"));
    assert_eq!(root_err.message(), "Failed to resolve workspace root: gone");
    assert_eq!(AgentMdError::PathEscapeError.message(), "Invalid file path");
    let io_err = AgentMdError::IoError(String::from("Failed to open file: busy"));
    assert_eq!(io_err.message(), "Failed to open file: busy");
    assert_eq!(AgentMdError::EncodingError.message(), "File is not valid UTF-8");
}
