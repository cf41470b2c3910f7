use std::cell::RefCell;

use handy_transcription::repo_status::{
    check_repo_main_update_status, git_capture_outcome, git_ref_exists, git_spawn_error,
    ShortcutsInitialized,
};

fn fake_git(
    answers: Vec<(&'static str, Result<&'static str, &'static str>)>,
) -> impl Fn(Vec<String>) -> Result<String, String> {
    let log = RefCell::new(Vec::<String>::new());
    move |args: Vec<String>| {
        let line = args.join(" ");
        log.borrow_mut().push(line.clone());
        for (cmd, answer) in &answers {
            if *cmd == line {
                return answer.map(|s| s.to_string()).map_err(|e| e.to_string());
            }
        }
        Err(format!("unexpected git {}", line))
    }
}

#[test]
fn outside_a_work_tree_reports_error() {
    let git = fake_git(vec![("rev-parse --is-inside-work-tree", Err("not a git repository"))]);
    let s = check_repo_main_update_status(&git);
    assert!(!s.is_repo);
    assert_eq!(s.error.as_deref(), Some("not a git repository"));
}

#[test]
fn not_inside_work_tree_is_plain_status() {
    let git = fake_git(vec![("rev-parse --is-inside-work-tree", Ok("false"))]);
    let s = check_repo_main_update_status(&git);
    assert!(!s.is_repo);
    assert!(s.error.is_none());
}

#[test]
fn counts_commits_against_origin_main() {
    let git = fake_git(vec![
        ("rev-parse --is-inside-work-tree", Ok("true")),
        ("fetch origin main --quiet", Ok("")),
        ("rev-parse --abbrev-ref HEAD", Ok("feature")),
        ("rev-parse --verify origin/main", Ok("abc")),
        ("rev-list --left-right --count HEAD...origin/main", Ok("2\t5")),
    ]);
    let s = check_repo_main_update_status(&git);
    assert!(s.is_repo);
    assert_eq!(s.current_branch.as_deref(), Some("feature"));
    assert_eq!(s.target_ref.as_deref(), Some("origin/main"));
    assert_eq!((s.ahead, s.behind), (2, 5));
    assert!(s.update_available);
    assert!(s.error.is_none());
}

#[test]
fn falls_back_to_local_main_and_reports_odd_output() {
    let git = fake_git(vec![
        ("rev-parse --is-inside-work-tree", Ok("true")),
        ("rev-parse --verify main", Ok("abc")),
        ("rev-list --left-right --count HEAD...main", Ok("7")),
    ]);
    let s = check_repo_main_update_status(&git);
    assert_eq!(s.current_branch, None);
    assert_eq!(s.target_ref.as_deref(), Some("main"));
    assert_eq!(
        s.error.as_deref(),
        Some("Unexpected git rev-list output while checking main: '7'")
    );
    assert!(!s.update_available);
}

#[test]
fn missing_main_ref_is_an_error() {
    let git = fake_git(vec![("rev-parse --is-inside-work-tree", Ok("true"))]);
    let s = check_repo_main_update_status(&git);
    assert!(s.is_repo);
    assert_eq!(s.error.as_deref(), Some("Could not find 'origin/main' or 'main' ref"));
}

#[test]
fn unparsable_counts_become_zero() {
    let git = fake_git(vec![
        ("rev-parse --is-inside-work-tree", Ok("true")),
        ("rev-parse --verify origin/main", Ok("x")),
        ("rev-list --left-right --count HEAD...origin/main", Ok("+3 x")),
    ]);
    let s = check_repo_main_update_status(&git);
    assert_eq!((s.ahead, s.behind), (3, 0));
    assert!(!s.update_available);
}

#[test]
fn ref_existence_follows_git() {
    let git = fake_git(vec![("rev-parse --verify main", Ok("abc"))]);
    assert!(git_ref_exists(&git, "main"));
    assert!(!git_ref_exists(&git, "origin/main"));
}

#[test]
fn capture_outcomes() {
    let args = vec!["status".to_string(), "--short".to_string()];
    assert_eq!(git_capture_outcome(&args, true, " out \n", "warn"), Ok("out".to_string()));
    assert_eq!(git_capture_outcome(&args, false, "out", " bad \n"), Err("bad".to_string()));
    assert_eq!(git_capture_outcome(&args, false, " out ", "  "), Err("out".to_string()));
    assert_eq!(
        git_capture_outcome(&args, false, "", ""),
        Err("git status --short failed".to_string())
    );
    assert_eq!(
        git_spawn_error(&args, "not found"),
        "Failed to run git status --short: not found"
    );
}

#[test]
fn shortcuts_marker_exists() {
    let _marker = ShortcutsInitialized;
}
