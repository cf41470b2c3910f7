//! Whether the working copy's `main` has moved ahead: the decisions between
//! the `git` invocations, which a caller-supplied runner performs.
use vstd::prelude::*;

use crate::chunking::outcome_view;
use crate::text::{is_white_space, opt_view, str_equals, trim, trim_str};

verus! {

/// Marker that keyboard shortcuts have been set up.
pub struct ShortcutsInitialized;

/// How the working copy stands against `origin/main` (or `main`).
#[derive(Clone, Debug)]
pub struct RepoMainUpdateStatus {
    pub is_repo: bool,
    pub current_branch: Option<String>,
    pub target_ref: Option<String>,
    pub ahead: u32,
    pub behind: u32,
    pub update_available: bool,
    pub error: Option<String>,
}

pub struct RepoStatusView {
    pub is_repo: bool,
    pub current_branch: Option<Seq<char>>,
    pub target_ref: Option<Seq<char>>,
    pub ahead: u32,
    pub behind: u32,
    pub update_available: bool,
    pub error: Option<Seq<char>>,
}

pub open spec fn status_view(s: RepoMainUpdateStatus) -> RepoStatusView {
    RepoStatusView {
        is_repo: s.is_repo,
        current_branch: opt_view(s.current_branch),
        target_ref: opt_view(s.target_ref),
        ahead: s.ahead,
        behind: s.behind,
        update_available: s.update_available,
        error: opt_view(s.error),
    }
}

pub open spec fn args_view(args: Vec<String>) -> Seq<Seq<char>> {
    args@.map_values(|s: String| s@)
}

/// A deterministic `git`: the captured output (or error) of each argument
/// list.
pub type GitOracle = spec_fn(Seq<Seq<char>>) -> Result<Seq<char>, Seq<char>>;

/// `run_git` answers each argument list as `g` does.
pub open spec fn answers_git<F: Fn(Vec<String>) -> Result<String, String>>(run_git: F, g: GitOracle) -> bool {
    forall|args: Vec<String>, r: Result<String, String>|
        #[trigger] run_git.ensures((args,), r) ==> outcome_view(r) == g(args_view(args))
}

/// The arguments joined by single spaces.
pub open spec fn join_args(args: Seq<Seq<char>>) -> Seq<char>
    decreases args.len(),
{
    if args.len() == 0 {
        Seq::empty()
    } else if args.len() == 1 {
        args[0]
    } else {
        join_args(args.drop_last()) + seq![' '] + args.last()
    }
}

/// The decimal value of a run of ASCII digits.
pub open spec fn digits_value(s: Seq<char>) -> int
    decreases s.len(),
{
    if s.len() == 0 {
        0
    } else {
        digits_value(s.drop_last()) * 10 + ((s.last() as u32) - 48)
    }
}

pub open spec fn is_ascii_digit(c: char) -> bool {
    48 <= (c as u32) <= 57
}

/// What `u32::from_str` accepts: an optional `+`, then one or more ASCII
/// digits whose value fits in a `u32`.
pub open spec fn parsed_u32(s: Seq<char>) -> Option<u32> {
    let d = if s.len() > 0 && s[0] == '+' {
        s.drop_first()
    } else {
        s
    };
    if d.len() > 0 && (forall|i: int| 0 <= i < d.len() ==> is_ascii_digit(#[trigger] d[i]))
        && digits_value(d) <= u32::MAX {
        Some(digits_value(d) as u32)
    } else {
        None
    }
}

/// The non-empty runs between white space of `s`, in order, after the run
/// `current` already begun.
pub open spec fn fields_after(s: Seq<char>, current: Seq<char>) -> Seq<Seq<char>>
    decreases s.len(),
{
    let done = if current.len() > 0 {
        seq![current]
    } else {
        Seq::empty()
    };
    if s.len() == 0 {
        done
    } else if is_white_space(s[0]) {
        done + fields_after(s.drop_first(), Seq::empty())
    } else {
        fields_after(s.drop_first(), current.push(s[0]))
    }
}

/// The non-empty runs between Unicode white space, in order.
pub open spec fn whitespace_fields(s: Seq<char>) -> Seq<Seq<char>> {
    fields_after(s, Seq::empty())
}

/// Relies on `str::split_whitespace`: the non-empty runs between
/// `char::is_whitespace` characters, owned.
#[verifier::external_body]
fn split_whitespace(s: &str) -> (r: Vec<String>)
    ensures
        args_view(r) == whitespace_fields(s@),
{
    s.split_whitespace().map(|f| f.to_string()).collect()
}

/// Relies on `u32`'s `FromStr`: the value of a decimal number with an
/// optional `+`, or `None` for anything else or a value out of range.
#[verifier::external_body]
fn parse_u32(s: &str) -> (r: Option<u32>)
    ensures
        r == parsed_u32(s@),
{
    s.parse::<u32>().ok()
}

fn join_words(args: &Vec<String>) -> (r: String)
    ensures
        r@ == join_args(args_view(*args)),
{
    let mut out = String::new();
    let mut i: usize = 0;
    while i < args.len()
        invariant
            i <= args.len(),
            out@ == join_args(args_view(*args).subrange(0, i as int)),
        decreases args.len() - i,
    {
        let ghost prefix = args_view(*args).subrange(0, i as int);
        let ghost next = args_view(*args).subrange(0, i + 1);
        assert(next.drop_last() =~= prefix);
        if i > 0 {
            proof {
                reveal_strlit(" ");
            }
            out.append(" ");
        }
        out.append(args[i].as_str());
        i += 1;
    }
    assert(args_view(*args).subrange(0, args.len() as int) =~= args_view(*args));
    out
}

/// The error of a `git` that could not be started.
pub fn git_spawn_error(args: &Vec<String>, error: &str) -> (r: String)
    ensures
        r@ == "Failed to run git "@ + join_args(args_view(*args)) + ": "@ + error@,
{
    let mut msg = String::from_str("Failed to run git ");
    msg.append(join_words(args).as_str());
    msg.append(": ");
    msg.append(error);
    msg
}

/// The captured result of a finished `git`: its trimmed output on success;
/// otherwise its trimmed error output, or failing that its trimmed output, or
/// failing that a message naming the command.
pub open spec fn capture_spec(args: Seq<Seq<char>>, success: bool, stdout: Seq<char>, stderr: Seq<char>) -> Result<Seq<char>, Seq<char>> {
    if success {
        Ok(trim(stdout))
    } else {
        let message = if trim(stderr).len() > 0 {
            trim(stderr)
        } else {
            trim(stdout)
        };
        if message.len() == 0 {
            Err("git "@ + join_args(args) + " failed"@)
        } else {
            Err(message)
        }
    }
}

pub fn git_capture_outcome(args: &Vec<String>, success: bool, stdout: &str, stderr: &str) -> (r: Result<String, String>)
    ensures
        outcome_view(r) == capture_spec(args_view(*args), success, stdout@, stderr@),
{
    if success {
        return Ok(String::from_str(trim_str(stdout)));
    }
    let err = trim_str(stderr);
    let message = if !err.is_empty() {
        err
    } else {
        trim_str(stdout)
    };
    if message.is_empty() {
        let mut msg = String::from_str("git ");
        msg.append(join_words(args).as_str());
        msg.append(" failed");
        Err(msg)
    } else {
        Err(String::from_str(message))
    }
}

fn args_of(words: &[&str]) -> (r: Vec<String>)
    ensures
        r@.len() == words@.len(),
        forall|i: int| 0 <= i < words@.len() ==> #[trigger] r@[i]@ == words@[i]@,
{
    let mut out: Vec<String> = Vec::new();
    let mut i: usize = 0;
    while i < words.len()
        invariant
            i <= words@.len(),
            out@.len() == i,
            forall|k: int| 0 <= k < i ==> #[trigger] out@[k]@ == words@[k]@,
        decreases words@.len() - i,
    {
        out.push(String::from_str(words[i]));
        i += 1;
    }
    out
}

pub open spec fn verify_args(reference: Seq<char>) -> Seq<Seq<char>> {
    seq!["rev-parse"@, "--verify"@, reference]
}

/// Whether `git` knows the reference.
pub fn git_ref_exists<F: Fn(Vec<String>) -> Result<String, String>>(run_git: &F, reference: &str) -> (r: bool)
    requires
        forall|args: Vec<String>| #[trigger] run_git.requires((args,)),
    ensures
        forall|g: GitOracle| #[trigger] answers_git(*run_git, g) ==> r == g(verify_args(reference@)) is Ok,
{
    let args = args_of(&["rev-parse", "--verify", reference]);
    assert(args_view(args) =~= verify_args(reference@));
    run_git(args).is_ok()
}

pub open spec fn inside_args() -> Seq<Seq<char>> {
    seq!["rev-parse"@, "--is-inside-work-tree"@]
}

pub open spec fn branch_args() -> Seq<Seq<char>> {
    seq!["rev-parse"@, "--abbrev-ref"@, "HEAD"@]
}

pub open spec fn count_args(target: Seq<char>) -> Seq<Seq<char>> {
    seq!["rev-list"@, "--left-right"@, "--count"@, "HEAD..."@ + target]
}

pub open spec fn empty_status() -> RepoStatusView {
    RepoStatusView {
        is_repo: false,
        current_branch: None,
        target_ref: None,
        ahead: 0,
        behind: 0,
        update_available: false,
        error: None,
    }
}

pub open spec fn parsed_or_zero(s: Seq<char>) -> u32 {
    match parsed_u32(s) {
        Some(v) => v,
        None => 0,
    }
}

/// The status after the counts `out` of `git rev-list --left-right --count`.
pub open spec fn counted_status(s: RepoStatusView, out: Seq<char>) -> RepoStatusView {
    let parts = whitespace_fields(out);
    if parts.len() >= 2 {
        RepoStatusView {
            ahead: parsed_or_zero(parts[0]),
            behind: parsed_or_zero(parts[1]),
            update_available: parsed_or_zero(parts[1]) > 0,
            ..s
        }
    } else {
        RepoStatusView {
            error: Some(
                "Unexpected git rev-list output while checking main: '"@ + out + "'"@,
            ),
            ..s
        }
    }
}

/// The target ref: `origin/main` where it exists, else `main`.
pub open spec fn target_spec(g: GitOracle) -> Option<Seq<char>> {
    if g(verify_args("origin/main"@)) is Ok {
        Some("origin/main"@)
    } else if g(verify_args("main"@)) is Ok {
        Some("main"@)
    } else {
        None
    }
}

/// The status that the checks against `git` answering as `g` produce.
pub open spec fn repo_status_spec(g: GitOracle) -> RepoStatusView {
    match g(inside_args()) {
        Err(e) => RepoStatusView { error: Some(e), ..empty_status() },
        Ok(v) => if v != "true"@ {
            empty_status()
        } else {
            let s1 = RepoStatusView {
                is_repo: true,
                current_branch: match g(branch_args()) {
                    Ok(b) => Some(b),
                    Err(_) => None,
                },
                ..empty_status()
            };
            match target_spec(g) {
                None => RepoStatusView {
                    error: Some("Could not find 'origin/main' or 'main' ref"@),
                    ..s1
                },
                Some(t) => {
                    let s2 = RepoStatusView { target_ref: Some(t), ..s1 };
                    match g(count_args(t)) {
                        Err(e) => RepoStatusView { error: Some(e), ..s2 },
                        Ok(out) => counted_status(s2, out),
                    }
                },
            }
        },
    }
}

fn counted(status: RepoMainUpdateStatus, out: &str) -> (r: RepoMainUpdateStatus)
    ensures
        status_view(r) == counted_status(status_view(status), out@),
{
    let mut status = status;
    let parts = split_whitespace(out);
    if parts.len() >= 2 {
        let ahead = match parse_u32(parts[0].as_str()) {
            Some(v) => v,
            None => 0,
        };
        let behind = match parse_u32(parts[1].as_str()) {
            Some(v) => v,
            None => 0,
        };
        status.ahead = ahead;
        status.behind = behind;
        status.update_available = behind > 0;
    } else {
        let mut msg = String::from_str("Unexpected git rev-list output while checking main: '");
        msg.append(out);
        msg.append("'");
        status.error = Some(msg);
    }
    status
}

/// Checks whether the branch `main` has commits that the working copy lacks:
/// inside a work tree, after a best-effort fetch, it records the current
/// branch, picks `origin/main` or else `main`, and counts the commits on
/// either side. Each failure is recorded in `error` and ends the check.
pub fn check_repo_main_update_status<F: Fn(Vec<String>) -> Result<String, String>>(run_git: &F) -> (r: RepoMainUpdateStatus)
    requires
        forall|args: Vec<String>| #[trigger] run_git.requires((args,)),
    ensures
        forall|g: GitOracle| #[trigger] answers_git(*run_git, g) ==> status_view(r) == repo_status_spec(g),
{
    let mut status = RepoMainUpdateStatus {
        is_repo: false,
        current_branch: None,
        target_ref: None,
        ahead: 0,
        behind: 0,
        update_available: false,
        error: None,
    };
    let args = args_of(&["rev-parse", "--is-inside-work-tree"]);
    assert(args_view(args) =~= inside_args());
    match run_git(args) {
        Ok(value) => {
            if !str_equals(value.as_str(), "true") {
                return status;
            }
            status.is_repo = true;
        },
        Err(err) => {
            status.error = Some(err);
            return status;
        },
    }
    let _ = run_git(args_of(&["fetch", "origin", "main", "--quiet"]));
    let args = args_of(&["rev-parse", "--abbrev-ref", "HEAD"]);
    assert(args_view(args) =~= branch_args());
    status.current_branch = match run_git(args) {
        Ok(b) => Some(b),
        Err(_) => None,
    };
    let target = if git_ref_exists(run_git, "origin/main") {
        String::from_str("origin/main")
    } else if git_ref_exists(run_git, "main") {
        String::from_str("main")
    } else {
        status.error = Some(String::from_str("Could not find 'origin/main' or 'main' ref"));
        return status;
    };
    status.target_ref = Some(target.clone());
    let mut range = String::from_str("HEAD...");
    range.append(target.as_str());
    let args = args_of(&["rev-list", "--left-right", "--count", range.as_str()]);
    assert(args_view(args) =~= count_args(target@));
    match run_git(args) {
        Ok(out) => counted(status, out.as_str()),
        Err(err) => {
            status.error = Some(err);
            status
        },
    }
}

} // verus!
