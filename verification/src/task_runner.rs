//! Builds the external version-control and package-manager invocations as
//! plain data. Nothing here starts a process: an invocation is a tool, an
//! argument list, and an optional working directory, handed to an unverified
//! runner at the program's edge.

use vstd::prelude::*;
use crate::{create_branch_name, get_child_path_from_string, is_generated_branch_name,
    spec_child_path};

verus! {

use vstd::string::*;

/// Which external tool an invocation runs.
#[derive(Clone, Copy, Debug, PartialEq, Eq, Structural)]
pub enum Tool {
    Git,
    Npm,
}

/// One external invocation, as data: the tool, its arguments in order, and
/// the directory it runs in (the process's own directory when absent).
pub struct ExternalCommand {
    pub tool: Tool,
    pub args: Vec<String>,
    pub working_dir: Option<String>,
}

/// The argument texts of an invocation, in order.
pub open spec fn spec_args(c: ExternalCommand) -> Seq<Seq<char>> {
    c.args@.map_values(|a: String| a@)
}

/// The invocation runs inside the component's working directory.
pub open spec fn runs_in_component_dir(c: ExternalCommand, project: Seq<char>) -> bool {
    c.working_dir matches Some(d) && d@ == spec_child_path(project)
}

/// `git clone <url>`, run from the process's own directory.
pub open spec fn is_git_clone(c: ExternalCommand, url: Seq<char>) -> bool {
    &&& c.tool == Tool::Git
    &&& spec_args(c) == seq!["clone"@, url]
    &&& c.working_dir is None
}

/// `git fetch --all` inside the component's directory.
pub open spec fn is_git_fetch(c: ExternalCommand, project: Seq<char>) -> bool {
    &&& c.tool == Tool::Git
    &&& spec_args(c) == seq!["fetch"@, "--all"@]
    &&& runs_in_component_dir(c, project)
}

/// `git pull` inside the component's directory.
pub open spec fn is_git_pull(c: ExternalCommand, project: Seq<char>) -> bool {
    &&& c.tool == Tool::Git
    &&& spec_args(c) == seq!["pull"@]
    &&& runs_in_component_dir(c, project)
}

/// `npm i` inside the component's directory.
pub open spec fn is_npm_install(c: ExternalCommand, project: Seq<char>) -> bool {
    &&& c.tool == Tool::Npm
    &&& spec_args(c) == seq!["i"@]
    &&& runs_in_component_dir(c, project)
}

/// `npm start` inside the component's directory.
pub open spec fn is_npm_run(c: ExternalCommand, project: Seq<char>) -> bool {
    &&& c.tool == Tool::Npm
    &&& spec_args(c) == seq!["start"@]
    &&& runs_in_component_dir(c, project)
}

/// `git checkout <ref>` inside the component's directory, with `-b` and a
/// freshly generated branch name when a new local branch is wanted.
pub open spec fn is_git_checkout(
    c: ExternalCommand,
    project: Seq<char>,
    target: Seq<char>,
    new_branch: bool,
) -> bool {
    &&& c.tool == Tool::Git
    &&& runs_in_component_dir(c, project)
    &&& if new_branch {
        &&& spec_args(c).len() == 4
        &&& spec_args(c)[0] == "checkout"@
        &&& spec_args(c)[1] == "-b"@
        &&& is_generated_branch_name(spec_args(c)[2])
        &&& spec_args(c)[3] == target
    } else {
        spec_args(c) == seq!["checkout"@, target]
    }
}

/// Builds the external invocations a task performs.
pub struct TaskRunner {}

impl TaskRunner {
    /// The clone invocation for a component that has no working directory
    /// yet.
    pub fn git_clone(repo_url: &str) -> (c: ExternalCommand)
        ensures
            is_git_clone(c, repo_url@),
    {
        let mut args: Vec<String> = Vec::new();
        args.push("clone".to_owned());
        args.push(repo_url.to_owned());
        let c = ExternalCommand { tool: Tool::Git, args, working_dir: None };
        proof {
            assert(spec_args(c) =~= seq!["clone"@, repo_url@]);
        }
        c
    }

    /// Fetches all remotes of the component's repository.
    pub fn git_fetch(project_name: &str) -> (c: ExternalCommand)
        ensures
            is_git_fetch(c, project_name@),
    {
        let mut args: Vec<String> = Vec::new();
        args.push("fetch".to_owned());
        args.push("--all".to_owned());
        let dir = get_child_path_from_string(&project_name.to_owned());
        let c = ExternalCommand { tool: Tool::Git, args, working_dir: Some(dir) };
        proof {
            assert(spec_args(c) =~= seq!["fetch"@, "--all"@]);
        }
        c
    }

    /// Pulls the component's current branch.
    pub fn git_pull(project_name: &str) -> (c: ExternalCommand)
        ensures
            is_git_pull(c, project_name@),
    {
        let mut args: Vec<String> = Vec::new();
        args.push("pull".to_owned());
        let dir = get_child_path_from_string(&project_name.to_owned());
        let c = ExternalCommand { tool: Tool::Git, args, working_dir: Some(dir) };
        proof {
            assert(spec_args(c) =~= seq!["pull"@]);
        }
        c
    }

    /// Whether the ref the working copy sits on is already the requested one.
    pub fn does_local_ver_match(requested_branch: &str, current_branch: &str) -> (r: bool)
        ensures
            r == (requested_branch@ == current_branch@),
    {
        let a = requested_branch.to_owned();
        let b = current_branch.to_owned();
        a == b
    }

    /// Decides the checkout for a component: a no-op when the working copy is
    /// already on the requested ref (so repeating the fetch phase performs no
    /// second checkout), and otherwise one `git checkout` of that ref, onto a
    /// fresh local branch when `new` asks for one.
    pub fn git_checkout(project_name: &str, requested_branch: &str, new: bool, current_branch: &str)
        -> (r: Option<ExternalCommand>)
        ensures
            r is Some <==> requested_branch@ != current_branch@,
            r matches Some(c) ==> is_git_checkout(c, project_name@, requested_branch@, new),
    {
        if Self::does_local_ver_match(requested_branch, current_branch) {
            return None;
        }
        let mut args: Vec<String> = Vec::new();
        args.push("checkout".to_owned());
        if new {
            args.push("-b".to_owned());
            args.push(create_branch_name());
        }
        args.push(requested_branch.to_owned());
        let dir = get_child_path_from_string(&project_name.to_owned());
        let c = ExternalCommand { tool: Tool::Git, args, working_dir: Some(dir) };
        proof {
            if !new {
                assert(spec_args(c) =~= seq!["checkout"@, requested_branch@]);
            }
        }
        Some(c)
    }

    /// Installs the component's dependencies.
    pub fn npm_install(project_name: &str) -> (c: ExternalCommand)
        ensures
            is_npm_install(c, project_name@),
    {
        let mut args: Vec<String> = Vec::new();
        args.push("i".to_owned());
        let dir = get_child_path_from_string(&project_name.to_owned());
        let c = ExternalCommand { tool: Tool::Npm, args, working_dir: Some(dir) };
        proof {
            assert(spec_args(c) =~= seq!["i"@]);
        }
        c
    }

    /// Starts the component's long-running process.
    pub fn npm_run(project_name: &str) -> (c: ExternalCommand)
        ensures
            is_npm_run(c, project_name@),
    {
        let mut args: Vec<String> = Vec::new();
        args.push("start".to_owned());
        let dir = get_child_path_from_string(&project_name.to_owned());
        let c = ExternalCommand { tool: Tool::Npm, args, working_dir: Some(dir) };
        proof {
            assert(spec_args(c) =~= seq!["start"@]);
        }
        c
    }
}

} // verus!
