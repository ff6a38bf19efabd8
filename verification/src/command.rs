//! The command adapter: translates each logical git operation into a
//! concrete program name and argument vector for one environment, and
//! resolves the root folder projects live under.
//!
//! Arguments are always handed over as a vector, never via an
//! intermediate shell: a bridged command is the same git argument
//! vector behind the bridge tool, with the working directory bound by
//! an explicit `-C` argument, so that paths, branch names and commit
//! messages cannot break out of the command they are arguments of.

use vstd::prelude::*;
use crate::classify::ErrorKind;
use crate::model::Environment;
use crate::numbers::{dec_str_spec, u32_to_string};
use crate::text::{starts_with_seq, starts_with_str, trim_spec, trim_str, views_of};

verus! {

/// A concrete command: a program and its argument vector.
#[derive(Clone, Debug)]
pub struct CommandSpec {
    pub program: String,
    pub args: Vec<String>,
}

/// The logical git operations the engine issues.
#[derive(Clone, Debug)]
pub enum GitOp {
    /// A fresh repository on the canonical default branch.
    InitDefault,
    /// Current branch name (`branch --show-current`).
    BranchShow,
    /// Porcelain status listing.
    StatusPorcelain,
    /// Ahead/behind counts against the upstream.
    RevListCounts,
    Pull,
    CloneRepo { url: String },
    /// All branches, local and remote-tracking.
    BranchAll,
    Checkout { branch: String },
    CheckoutNew { branch: String },
    /// One-line-per-commit log with delimited fields, newest first.
    Log { limit: u32 },
    DiffHead,
    Stash,
    StashPop,
    RemoteGetUrl,
    RemoteAdd { url: String },
    /// Renames the current branch to the canonical default name.
    BranchRenameMain,
    AddAll,
    Commit { message: String },
    Push { set_upstream: bool },
}

/// The program that runs a git operation in an environment: git
/// itself, or the bridge tool that proxies into the bridged
/// environment.
pub open spec fn program_spec(env: Environment) -> Seq<char> {
    match env {
        Environment::Native => "git"@,
        Environment::Bridged => "wsl"@,
    }
}

/// The git arguments of one logical operation, after the `-C` pair
/// that binds the working directory.
pub open spec fn op_tail_spec(op: GitOp) -> Seq<Seq<char>> {
    match op {
        GitOp::InitDefault => seq!["init"@, "-b"@, "main"@],
        GitOp::BranchShow => seq!["branch"@, "--show-current"@],
        GitOp::StatusPorcelain => seq!["status"@, "--porcelain"@],
        GitOp::RevListCounts => seq!["rev-list"@, "--left-right"@, "--count"@, "HEAD...@{u}"@],
        GitOp::Pull => seq!["pull"@],
        GitOp::CloneRepo { url } => seq!["clone"@, url@],
        GitOp::BranchAll => seq!["branch"@, "--all"@],
        GitOp::Checkout { branch } => seq!["checkout"@, branch@],
        GitOp::CheckoutNew { branch } => seq!["checkout"@, "-b"@, branch@],
        GitOp::Log { limit } => seq![
            "log"@,
            "-"@ + dec_str_spec(limit as int),
            "--pretty=format:%H|%an|%ae|%at|%s"@,
        ],
        GitOp::DiffHead => seq!["diff"@, "HEAD"@],
        GitOp::Stash => seq!["stash"@],
        GitOp::StashPop => seq!["stash"@, "pop"@],
        GitOp::RemoteGetUrl => seq!["remote"@, "get-url"@, "origin"@],
        GitOp::RemoteAdd { url } => seq!["remote"@, "add"@, "origin"@, url@],
        GitOp::BranchRenameMain => seq!["branch"@, "-M"@, "main"@],
        GitOp::AddAll => seq!["add"@, "."@],
        GitOp::Commit { message } => seq!["commit"@, "-m"@, message@],
        GitOp::Push { set_upstream } => if set_upstream {
            seq!["push"@, "-u"@, "origin"@, "main"@]
        } else {
            seq!["push"@]
        },
    }
}

/// The whole argument vector of a git operation bound to a path: the
/// bridge runs `git` as its first argument, then both environments
/// bind the working directory with `-C` and append the operation.
pub open spec fn git_args_spec(env: Environment, path: Seq<char>, op: GitOp) -> Seq<Seq<char>> {
    match env {
        Environment::Native => seq!["-C"@, path] + op_tail_spec(op),
        Environment::Bridged => seq!["git"@, "-C"@, path] + op_tail_spec(op),
    }
}

fn push_op_tail(args: &mut Vec<String>, op: &GitOp)
    ensures
        views_of(final(args)@) == views_of(old(args)@) + op_tail_spec(*op),
{
    let ghost prev = args@;
    match op {
        GitOp::InitDefault => {
            args.push(String::from_str("init"));
            args.push(String::from_str("-b"));
            args.push(String::from_str("main"));
        },
        GitOp::BranchShow => {
            args.push(String::from_str("branch"));
            args.push(String::from_str("--show-current"));
        },
        GitOp::StatusPorcelain => {
            args.push(String::from_str("status"));
            args.push(String::from_str("--porcelain"));
        },
        GitOp::RevListCounts => {
            args.push(String::from_str("rev-list"));
            args.push(String::from_str("--left-right"));
            args.push(String::from_str("--count"));
            args.push(String::from_str("HEAD...@{u}"));
        },
        GitOp::Pull => {
            args.push(String::from_str("pull"));
        },
        GitOp::CloneRepo { url } => {
            args.push(String::from_str("clone"));
            args.push(url.clone());
        },
        GitOp::BranchAll => {
            args.push(String::from_str("branch"));
            args.push(String::from_str("--all"));
        },
        GitOp::Checkout { branch } => {
            args.push(String::from_str("checkout"));
            args.push(branch.clone());
        },
        GitOp::CheckoutNew { branch } => {
            args.push(String::from_str("checkout"));
            args.push(String::from_str("-b"));
            args.push(branch.clone());
        },
        GitOp::Log { limit } => {
            args.push(String::from_str("log"));
            args.push(String::from_str("-").concat(u32_to_string(*limit).as_str()));
            args.push(String::from_str("--pretty=format:%H|%an|%ae|%at|%s"));
        },
        GitOp::DiffHead => {
            args.push(String::from_str("diff"));
            args.push(String::from_str("HEAD"));
        },
        GitOp::Stash => {
            args.push(String::from_str("stash"));
        },
        GitOp::StashPop => {
            args.push(String::from_str("stash"));
            args.push(String::from_str("pop"));
        },
        GitOp::RemoteGetUrl => {
            args.push(String::from_str("remote"));
            args.push(String::from_str("get-url"));
            args.push(String::from_str("origin"));
        },
        GitOp::RemoteAdd { url } => {
            args.push(String::from_str("remote"));
            args.push(String::from_str("add"));
            args.push(String::from_str("origin"));
            args.push(url.clone());
        },
        GitOp::BranchRenameMain => {
            args.push(String::from_str("branch"));
            args.push(String::from_str("-M"));
            args.push(String::from_str("main"));
        },
        GitOp::AddAll => {
            args.push(String::from_str("add"));
            args.push(String::from_str("."));
        },
        GitOp::Commit { message } => {
            args.push(String::from_str("commit"));
            args.push(String::from_str("-m"));
            args.push(message.clone());
        },
        GitOp::Push { set_upstream } => {
            if *set_upstream {
                args.push(String::from_str("push"));
                args.push(String::from_str("-u"));
                args.push(String::from_str("origin"));
                args.push(String::from_str("main"));
            } else {
                args.push(String::from_str("push"));
            }
        },
    }
    proof {
        assert(views_of(args@) =~~= views_of(prev) + op_tail_spec(*op));
    }
}

/// Builds the concrete command line of a git operation bound to a
/// path in an environment.
pub fn build_git_command(env: Environment, path: &str, op: &GitOp) -> (r: CommandSpec)
    ensures
        r.program@ == program_spec(env),
        views_of(r.args@) == git_args_spec(env, path@, *op),
{
    let mut args: Vec<String> = Vec::new();
    let program = match env {
        Environment::Native => String::from_str("git"),
        Environment::Bridged => {
            args.push(String::from_str("git"));
            String::from_str("wsl")
        },
    };
    args.push(String::from_str("-C"));
    args.push(path.to_owned());
    let ghost head = views_of(args@);
    push_op_tail(&mut args, op);
    proof {
        match env {
            Environment::Native => {
                assert(head =~~= seq!["-C"@, path@]);
            },
            Environment::Bridged => {
                assert(head =~~= seq!["git"@, "-C"@, path@]);
            },
        }
    }
    CommandSpec { program, args }
}

/// The command that tests whether a bridged directory exists.
pub fn bridged_dir_test_command(path: &str) -> (r: CommandSpec)
    ensures
        r.program@ == "wsl"@,
        views_of(r.args@) == seq!["test"@, "-d"@, path@],
{
    let mut args: Vec<String> = Vec::new();
    args.push(String::from_str("test"));
    args.push(String::from_str("-d"));
    args.push(path.to_owned());
    proof {
        assert(views_of(args@) =~~= seq!["test"@, "-d"@, path@]);
    }
    CommandSpec { program: String::from_str("wsl"), args }
}

/// The command that lists a bridged root's entries, one per line.
pub fn bridged_list_command(root: &str) -> (r: CommandSpec)
    ensures
        r.program@ == "wsl"@,
        views_of(r.args@) == seq!["ls"@, "-1"@, root@],
{
    let mut args: Vec<String> = Vec::new();
    args.push(String::from_str("ls"));
    args.push(String::from_str("-1"));
    args.push(root.to_owned());
    proof {
        assert(views_of(args@) =~~= seq!["ls"@, "-1"@, root@]);
    }
    CommandSpec { program: String::from_str("wsl"), args }
}

/// The environment a path belongs to, inferred from its shape: a
/// bridged filesystem path is rooted under the bridge's home or mount
/// prefix, anything else is native.  Callers rely on this rule.
pub open spec fn env_of_path_spec(path: Seq<char>) -> Environment {
    if starts_with_seq(path, "/home/"@) || starts_with_seq(path, "/mnt/"@) {
        Environment::Bridged
    } else {
        Environment::Native
    }
}

/// Infers the owning environment of a path from its shape.
pub fn environment_of_path(path: &str) -> (r: Environment)
    ensures
        r == env_of_path_spec(path@),
{
    if starts_with_str(path, "/home/") || starts_with_str(path, "/mnt/") {
        Environment::Bridged
    } else {
        Environment::Native
    }
}

/// The native root under a user profile folder.
pub open spec fn native_root_spec(profile: Seq<char>) -> Seq<char> {
    profile + "\\ketra"@
}

/// The bridged root under a bridge user's home.
pub open spec fn bridged_root_spec(user: Seq<char>) -> Seq<char> {
    "/home/"@ + user + "/ketra"@
}

/// Resolves the root folder projects live under.  The caller passes
/// the one ambient value the environment needs: the user-profile
/// folder for the native side, or the bridge's answer to its user
/// query — `None` when that lookup failed or the bridge could not be
/// reached at all.  Failure is fast and typed: a missing profile is a
/// configuration error, and a bridge without a known user is
/// unavailable, since no safe root can be constructed.
pub fn resolve_root(env: Environment, lookup: Option<&str>) -> (r: Result<String, ErrorKind>)
    ensures
        match env {
            Environment::Native => match lookup {
                Some(profile) => r matches Ok(root) && root@ == native_root_spec(profile@),
                None => r == Err::<String, ErrorKind>(ErrorKind::ConfigurationError),
            },
            Environment::Bridged => match lookup {
                Some(user) => if trim_spec(user@).len() > 0 {
                    r matches Ok(root) && root@ == bridged_root_spec(trim_spec(user@))
                } else {
                    r == Err::<String, ErrorKind>(ErrorKind::EnvironmentUnavailable)
                },
                None => r == Err::<String, ErrorKind>(ErrorKind::EnvironmentUnavailable),
            },
        },
{
    match env {
        Environment::Native => match lookup {
            Some(profile) => Ok(profile.to_owned().concat("\\ketra")),
            None => Err(ErrorKind::ConfigurationError),
        },
        Environment::Bridged => match lookup {
            Some(user) => {
                let trimmed = trim_str(user);
                if trimmed.as_str().is_empty() {
                    Err(ErrorKind::EnvironmentUnavailable)
                } else {
                    Ok(String::from_str("/home/").concat(trimmed.as_str()).concat("/ketra"))
                }
            },
            None => Err(ErrorKind::EnvironmentUnavailable),
        },
    }
}

/// A native path rewritten for the bridged filesystem: separators
/// flipped, and the system drive prefix replaced by its mount point.
pub open spec fn bridged_path_of_native_spec(path: Seq<char>) -> Seq<char> {
    crate::text::replace_spec(
        crate::text::replace_spec(path, "\\"@, "/"@),
        "C:"@,
        "/mnt/c"@,
    )
}

/// Rewrites a native path so the bridge can reach it.
pub fn bridged_path_of_native(path: &str) -> (r: String)
    ensures
        r@ == bridged_path_of_native_spec(path@),
{
    let step = crate::text::replace_str(path, "\\", "/");
    crate::text::replace_str(step.as_str(), "C:", "/mnt/c")
}

/// The full path of a named project under a base folder, joined with
/// the environment's separator.
pub open spec fn project_path_spec(base: Seq<char>, name: Seq<char>, env: Environment) -> Seq<
    char,
> {
    match env {
        Environment::Native => base + "\\"@ + name,
        Environment::Bridged => base + "/"@ + name,
    }
}

/// Joins a base folder and a project name.
pub fn project_path(base: &str, name: &str, env: Environment) -> (r: String)
    ensures
        r@ == project_path_spec(base@, name@, env),
{
    match env {
        Environment::Native => base.to_owned().concat("\\").concat(name),
        Environment::Bridged => base.to_owned().concat("/").concat(name),
    }
}

} // verus!
