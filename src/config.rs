use vstd::prelude::*;

use crate::path::{cwd_of_user_shell_process, user_shell_cwd};

verus! {

/// Facts about the process that spawned the pager.
#[derive(Debug, PartialEq, Eq)]
pub enum CallingProcess {
    /// `git diff`; the flag says whether it was run with `--relative`, in which case
    /// the paths it prints are already relative to the user's shell directory.
    GitDiff(bool),
    /// Any other parent, or none that could be identified.
    Other,
}

impl CallingProcess {
    pub open spec fn spec_is_git_diff_relative(&self) -> bool {
        match self {
            CallingProcess::GitDiff(relative) => *relative,
            CallingProcess::Other => false,
        }
    }

    /// Whether the parent already printed paths relative to the user's shell directory.
    #[verifier::when_used_as_spec(spec_is_git_diff_relative)]
    pub fn is_git_diff_relative(&self) -> (r: bool)
        ensures
            r == self.spec_is_git_diff_relative(),
    {
        match self {
            CallingProcess::GitDiff(relative) => *relative,
            CallingProcess::Other => false,
        }
    }
}

/// What the pager knows of the repository's git configuration.
pub struct GitConfig {
    /// The URL of the remote named `origin`, where there is one.
    pub remote_origin_url: Option<String>,
}

/// The read-only settings that path resolution and hyperlink formatting consult.
pub struct Config {
    /// The pager's own working directory at startup.
    pub cwd_of_delta_process: Option<String>,
    /// The working directory of the user's shell; see `cwd_of_user_shell_process`.
    pub cwd_of_user_shell_process: Option<String>,
    /// The user's shell directory relative to the repository root, as git reports it.
    pub cwd_relative_to_repo_root: Option<String>,
    /// Whether displayed paths are to be made relative to the user's shell directory.
    pub relative_paths: bool,
    /// URL template for files, with `{path}` and `{line}` placeholders.
    pub hyperlinks_file_link_format: String,
    /// URL template for commits, with a `{commit}` placeholder.
    pub hyperlinks_commit_link_format: Option<String>,
    pub git_config: Option<GitConfig>,
    pub calling_process: CallingProcess,
}

impl Config {
    /// Whether path strings in the input are relative to the user's shell directory
    /// rather than to the repository root.
    pub open spec fn paths_relative_to_user_shell(&self) -> bool {
        self.calling_process.spec_is_git_diff_relative() || self.relative_paths
    }

    /// The user's shell directory is the one that the pager's directory and
    /// git's offset from the repository root give.
    pub open spec fn has_derived_user_shell_cwd(&self) -> bool {
        self.cwd_of_user_shell_process.deep_view() == user_shell_cwd(
            self.cwd_of_delta_process.deep_view(),
            self.cwd_relative_to_repo_root.deep_view(),
        )
    }

    /// A configuration whose user shell directory is derived, once, from the
    /// pager's directory and git's offset from the repository root.
    pub fn new(
        cwd_of_delta_process: Option<String>,
        cwd_relative_to_repo_root: Option<String>,
        relative_paths: bool,
        hyperlinks_file_link_format: String,
        hyperlinks_commit_link_format: Option<String>,
        git_config: Option<GitConfig>,
        calling_process: CallingProcess,
    ) -> (r: Config)
        ensures
            r.has_derived_user_shell_cwd(),
            r.cwd_of_delta_process == cwd_of_delta_process,
            r.cwd_relative_to_repo_root == cwd_relative_to_repo_root,
            r.relative_paths == relative_paths,
            r.hyperlinks_file_link_format == hyperlinks_file_link_format,
            r.hyperlinks_commit_link_format == hyperlinks_commit_link_format,
            r.git_config == git_config,
            r.calling_process == calling_process,
    {
        let offset = match &cwd_relative_to_repo_root {
            Some(o) => Some(o.as_str()),
            None => None,
        };
        let cwd_of_user_shell_process = cwd_of_user_shell_process(cwd_of_delta_process.as_ref(), offset);
        Config {
            cwd_of_delta_process,
            cwd_of_user_shell_process,
            cwd_relative_to_repo_root,
            relative_paths,
            hyperlinks_file_link_format,
            hyperlinks_commit_link_format,
            git_config,
            calling_process,
        }
    }
}

} // verus!
