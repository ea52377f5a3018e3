use vstd::prelude::*;

use crate::config::Config;

verus! {

/// A path is absolute when it starts at the root directory.
pub open spec fn is_absolute(p: Seq<char>) -> bool {
    p.len() > 0 && p[0] == '/'
}

/// `base` joined with `p`: an absolute `p` replaces `base`; otherwise a separator is
/// put between the two unless `base` is empty or already ends in one.
pub open spec fn path_join(base: Seq<char>, p: Seq<char>) -> Seq<char> {
    if is_absolute(p) {
        p
    } else if base.len() == 0 || base.last() == '/' {
        base + p
    } else {
        base + seq!['/'] + p
    }
}

/// Joins `p` onto `base` the way a Unix path join does.
pub fn join_path(base: &str, p: &str) -> (r: String)
    ensures
        r@ == path_join(base@, p@),
{
    let plen = p.unicode_len();
    if plen > 0 && p.get_char(0) == '/' {
        return String::from_str(p);
    }
    let blen = base.unicode_len();
    if blen == 0 || base.get_char(blen - 1) == '/' {
        String::from_str(base).concat(p)
    } else {
        proof {
            reveal_strlit("/");
        }
        String::from_str(base).concat("/").concat(p)
    }
}

/// The user's shell directory: the pager's own directory when git did not report
/// an offset from the repository root, else that offset joined onto the pager's
/// directory, which is then the repository root.
pub open spec fn user_shell_cwd(
    cwd_of_delta_process: Option<Seq<char>>,
    cwd_relative_to_repo_root: Option<Seq<char>>,
) -> Option<Seq<char>> {
    match (cwd_of_delta_process, cwd_relative_to_repo_root) {
        (Some(cwd), None) => Some(cwd),
        (Some(repo_root), Some(offset)) => Some(path_join(repo_root, offset)),
        (None, _) => None,
    }
}

/// The absolute path that a path string of the input stands for, by the first
/// matching row: a known pager directory when paths are repository-relative; a
/// known shell directory when they are shell-relative; a known pager directory
/// as a fallback; otherwise none.
pub open spec fn resolved_path(relative_path: Seq<char>, config: Config) -> Option<Seq<char>> {
    let relative = config.paths_relative_to_user_shell();
    match (config.cwd_of_delta_process, config.cwd_of_user_shell_process) {
        (Some(delta_cwd), _) if !relative => Some(path_join(delta_cwd@, relative_path)),
        (_, Some(shell_cwd)) if relative => Some(path_join(shell_cwd@, relative_path)),
        (Some(delta_cwd), None) => Some(path_join(delta_cwd@, relative_path)),
        _ => None,
    }
}

/// The path to display instead of `path`, if any: only when relative display is
/// asked for, the parent has not relativized the paths itself, and the offset of
/// the shell directory from the repository root is known.
pub open spec fn relativized_path(path: Seq<char>, config: Config) -> Option<Seq<char>> {
    if config.relative_paths && !config.calling_process.spec_is_git_diff_relative() {
        match config.cwd_relative_to_repo_root {
            Some(base) => diff_paths_of(path, base@),
            None => None,
        }
    } else {
        None
    }
}

/// Resolves a path string found in the input to an absolute path, or `None` when
/// no working directory is known.
pub fn absolute_path(relative_path: &str, config: &Config) -> (r: Option<String>)
    ensures
        r.deep_view() == resolved_path(relative_path@, *config),
{
    let relative = config.calling_process.is_git_diff_relative() || config.relative_paths;
    match (&config.cwd_of_delta_process, &config.cwd_of_user_shell_process) {
        (Some(delta_cwd), _) if !relative => Some(join_path(delta_cwd.as_str(), relative_path)),
        (_, Some(shell_cwd)) if relative => Some(join_path(shell_cwd.as_str(), relative_path)),
        (Some(delta_cwd), None) => Some(join_path(delta_cwd.as_str(), relative_path)),
        _ => None,
    }
}

/// The path to display in place of `path`, relative to the user's shell
/// directory, or `None` to display it unchanged.
pub fn relativize_path_maybe(path: &str, config: &Config) -> (r: Option<String>)
    ensures
        r.deep_view() == relativized_path(path@, *config),
{
    if config.relative_paths && !config.calling_process.is_git_diff_relative() {
        match &config.cwd_relative_to_repo_root {
            Some(base) => diff_paths(path, base.as_str()),
            None => None,
        }
    } else {
        None
    }
}

/// The working directory of the user's shell, relative to which paths are shown
/// when git's `--relative` or relative display is in use.
pub fn cwd_of_user_shell_process(
    cwd_of_delta_process: Option<&String>,
    cwd_relative_to_repo_root: Option<&str>,
) -> (r: Option<String>)
    ensures
        r.deep_view() == user_shell_cwd(
            cwd_of_delta_process.deep_view(),
            cwd_relative_to_repo_root.deep_view(),
        ),
{
    match (cwd_of_delta_process, cwd_relative_to_repo_root) {
        (Some(cwd), None) => Some(cwd.clone()),
        (Some(repo_root), Some(offset)) => Some(join_path(repo_root.as_str(), offset)),
        (None, _) => None,
    }
}

/// Joining onto an absolute base gives an absolute path, and joining an
/// absolute path onto any base gives that path.
proof fn lemma_join_absolute(base: Seq<char>, p: Seq<char>)
    ensures
        is_absolute(base) ==> is_absolute(path_join(base, p)),
        is_absolute(p) ==> path_join(base, p) == p,
{
    if is_absolute(base) && !is_absolute(p) {
        if base.last() == '/' {
            assert((base + p)[0] == base[0]);
        } else {
            assert((base + seq!['/'] + p)[0] == base[0]);
        }
    }
}

/// The working directories that a configuration holds are absolute.
pub open spec fn has_absolute_cwds(config: Config) -> bool {
    &&& (config.cwd_of_delta_process matches Some(d) ==> is_absolute(d@))
    &&& (config.cwd_of_user_shell_process matches Some(u) ==> is_absolute(u@))
}

/// Absolute resolution is a function of the path and the configuration alone,
/// and it is idempotent: where the working directories are absolute, a resolved
/// path is absolute and resolves to itself.
pub proof fn lemma_absolute_path_idempotent(relative_path: Seq<char>, config: Config)
    requires
        has_absolute_cwds(config),
    ensures
        resolved_path(relative_path, config) matches Some(a) ==> {
            &&& is_absolute(a)
            &&& resolved_path(a, config) == Some(a)
        },
{
    if let Some(d) = config.cwd_of_delta_process {
        lemma_join_absolute(d@, relative_path);
    }
    if let Some(u) = config.cwd_of_user_shell_process {
        lemma_join_absolute(u@, relative_path);
    }
    if let Some(a) = resolved_path(relative_path, config) {
        if let Some(d) = config.cwd_of_delta_process {
            lemma_join_absolute(d@, a);
        }
        if let Some(u) = config.cwd_of_user_shell_process {
            lemma_join_absolute(u@, a);
        }
    }
}

/// Paths that the parent git command already made relative are never made
/// relative a second time, whatever the relative display setting.
pub proof fn lemma_no_double_relativization(path: Seq<char>, config: Config)
    requires
        config.calling_process.spec_is_git_diff_relative(),
    ensures
        relativized_path(path, config) is None,
{
}

/// Without relative display asked for, a displayed path is left as it is.
pub proof fn lemma_display_unchanged_without_relative_paths(path: Seq<char>, config: Config)
    requires
        !config.relative_paths,
    ensures
        relativized_path(path, config) is None,
{
}

/// When the user's shell is at the repository root (git reports an empty
/// offset) and the shell directory was derived from the pager's, a path
/// resolves to the same absolute path whether or not paths are taken as
/// relative to the shell directory.
pub proof fn lemma_repo_root_resolution_agrees(relative_path: Seq<char>, config: Config)
    requires
        config.cwd_of_delta_process matches Some(d) && is_absolute(d@),
        config.cwd_relative_to_repo_root matches Some(o) && o@.len() == 0,
        config.has_derived_user_shell_cwd(),
    ensures
        resolved_path(relative_path, config) == Some(
            path_join(config.cwd_of_delta_process.unwrap()@, relative_path),
        ),
{
    let d = config.cwd_of_delta_process.unwrap()@;
    let o = config.cwd_relative_to_repo_root.unwrap()@;
    let u = path_join(d, o);
    assert(config.cwd_of_user_shell_process.deep_view() == Some(u));
    assert(config.cwd_of_user_shell_process.unwrap()@ == u);
    if !is_absolute(relative_path) {
        if d.last() == '/' {
            assert(u =~= d);
        } else {
            assert(u =~= d + seq!['/']);
            assert(u.last() == '/');
            assert(u + relative_path =~= d + seq!['/'] + relative_path);
        }
    }
}

/// What `pathdiff::diff_paths` returns for these two paths.
pub uninterp spec fn diff_paths_of(path: Seq<char>, base: Seq<char>) -> Option<Seq<char>>;

/// Relies on `pathdiff::diff_paths`: the path that leads from `base` to `path`,
/// computed from the two strings alone.
#[verifier::external_body]
fn diff_paths(path: &str, base: &str) -> (r: Option<String>)
    ensures
        r.deep_view() == diff_paths_of(path@, base@),
{
    pathdiff::diff_paths(path, base).map(|p| p.to_string_lossy().into_owned())
}

} // verus!
