use vstd::prelude::*;

verus! {

/// A remote repository recognised from its URL.
#[derive(Debug, PartialEq, Eq)]
pub enum GitRemoteRepo {
    /// A repository on GitHub, as `owner/repo`.
    GitHubRepo(String),
}

/// What follows `prefix` in `s`, if `s` starts with it.
pub open spec fn after_prefix(s: Seq<char>, prefix: Seq<char>) -> Option<Seq<char>> {
    if prefix.is_prefix_of(s) {
        Some(s.skip(prefix.len() as int))
    } else {
        None
    }
}

/// What follows the host part of a GitHub URL: `https://` or `git@`, then
/// `github.com`, then `:` or `/`.
pub open spec fn after_github_host(url: Seq<char>) -> Option<Seq<char>> {
    let scheme_rest = match after_prefix(url, "https://"@) {
        Some(r) => Some(r),
        None => after_prefix(url, "git@"@),
    };
    match scheme_rest {
        Some(r) => match after_prefix(r, "github.com"@) {
            Some(h) => if h.len() > 0 && (h[0] == ':' || h[0] == '/') {
                Some(h.skip(1))
            } else {
                None
            },
            None => None,
        },
        None => None,
    }
}

/// A repository name with a trailing `.git` taken off, where something is left.
pub open spec fn without_git_suffix(name: Seq<char>) -> Seq<char> {
    if name.len() > 4 && ".git"@.is_suffix_of(name) {
        name.take(name.len() - 4)
    } else {
        name
    }
}

/// `i` is the position of the only `/` in `p`, with a non-empty owner before it
/// and a non-empty repository name after it.
pub open spec fn is_owner_repo_split(p: Seq<char>, i: int) -> bool {
    &&& 0 < i < p.len()
    &&& p[i] == '/'
    &&& forall|j: int| 0 <= j < p.len() && j != i ==> p[j] != '/'
    &&& without_git_suffix(p.skip(i + 1)).len() > 0
}

/// The position of the `/` that parts owner and repository in `p`.
pub open spec fn owner_repo_split(p: Seq<char>) -> int {
    choose|i: int| is_owner_repo_split(p, i)
}

/// `owner/repo` for a GitHub remote URL of the form `https://github.com/owner/repo`
/// or `git@github.com:owner/repo`, either optionally ending in `.git`.
pub open spec fn github_repo_of_url(url: Seq<char>) -> Option<Seq<char>> {
    match after_github_host(url) {
        Some(p) => if exists|i: int| #[trigger] is_owner_repo_split(p, i) {
            let i = owner_repo_split(p);
            Some(p.take(i + 1) + without_git_suffix(p.skip(i + 1)))
        } else {
            None
        },
        None => None,
    }
}

impl GitRemoteRepo {
    pub open spec fn spec_github_repo(&self) -> Seq<char> {
        match self {
            GitRemoteRepo::GitHubRepo(repo) => repo@,
        }
    }
}

/// A URL whose path splits at `i` into owner and repository names gives
/// those two names.
proof fn lemma_github_repo_of_split(url: Seq<char>, p: Seq<char>, i: int)
    requires
        after_github_host(url) == Some(p),
        is_owner_repo_split(p, i),
    ensures
        github_repo_of_url(url) == Some(p.take(i + 1) + without_git_suffix(p.skip(i + 1))),
{
    assert forall|k: int| is_owner_repo_split(p, k) implies k == i by {
        if k != i {
            assert(p[i] == '/');
        }
    }
}

/// Whether `s` starts with `prefix`.
fn starts_with(s: &str, prefix: &str) -> (r: bool)
    ensures
        r == prefix@.is_prefix_of(s@),
{
    let n = s.unicode_len();
    let m = prefix.unicode_len();
    if m > n {
        return false;
    }
    let mut i: usize = 0;
    while i < m
        invariant
            m == prefix@.len(),
            n == s@.len(),
            m <= n,
            i <= m,
            forall|j: int| 0 <= j < i ==> prefix@[j] == s@[j],
        decreases m - i,
    {
        if s.get_char(i) != prefix.get_char(i) {
            return false;
        }
        i = i + 1;
    }
    true
}

/// What follows `prefix` in `s`, if `s` starts with it.
fn strip_prefix<'a>(s: &'a str, prefix: &str) -> (r: Option<&'a str>)
    ensures
        r.deep_view() == after_prefix(s@, prefix@),
{
    if starts_with(s, prefix) {
        Some(s.substring_char(prefix.unicode_len(), s.unicode_len()))
    } else {
        None
    }
}

/// The position of the first `/` in `s`, if any.
fn find_slash(s: &str, from: usize) -> (r: Option<usize>)
    requires
        from <= s@.len(),
    ensures
        match r {
            Some(i) => from <= i < s@.len() && s@[i as int] == '/'
                && forall|j: int| from <= j < i ==> s@[j] != '/',
            None => forall|j: int| from <= j < s@.len() ==> s@[j] != '/',
        },
{
    let n = s.unicode_len();
    let mut i: usize = from;
    while i < n
        invariant
            n == s@.len(),
            from <= i <= n,
            forall|j: int| from <= j < i ==> s@[j] != '/',
        decreases n - i,
    {
        if s.get_char(i) == '/' {
            return Some(i);
        }
        i = i + 1;
    }
    None
}

/// Recognises a GitHub remote URL and gives its `owner/repo`.
pub fn github_repo_from_url(url: &str) -> (r: Option<String>)
    ensures
        r.deep_view() == github_repo_of_url(url@),
{
    proof {
        reveal_strlit("https://");
        reveal_strlit("git@");
        reveal_strlit("github.com");
        reveal_strlit(".git");
    }
    let rest = match strip_prefix(url, "https://") {
        Some(r) => r,
        None => match strip_prefix(url, "git@") {
            Some(r) => r,
            None => return None,
        },
    };
    let h = match strip_prefix(rest, "github.com") {
        Some(h) => h,
        None => return None,
    };
    let hn = h.unicode_len();
    if hn == 0 {
        return None;
    }
    let sep = h.get_char(0);
    if sep != ':' && sep != '/' {
        return None;
    }
    let p = h.substring_char(1, hn);
    let ghost pv = p@;
    assert(after_github_host(url@) == Some(pv));
    let n = p.unicode_len();
    let i = match find_slash(p, 0) {
        Some(i) => i,
        None => {
            assert(!exists|i: int| is_owner_repo_split(pv, i));
            return None;
        },
    };
    if i == 0 {
        assert(!exists|k: int| is_owner_repo_split(pv, k));
        return None;
    }
    if let Some(k) = find_slash(p, i + 1) {
        assert(!exists|k2: int| is_owner_repo_split(pv, k2)) by {
            assert forall|k2: int| !is_owner_repo_split(pv, k2) by {
                if k2 != i as int {
                    assert(pv[i as int] == '/');
                } else {
                    assert(pv[k as int] == '/');
                }
            }
        }
        return None;
    }
    let part = p.substring_char(i + 1, n);
    let pn = part.unicode_len();
    let name = if pn > 4 && ends_with_git(part) {
        part.substring_char(0, pn - 4)
    } else {
        part
    };
    if name.unicode_len() == 0 {
        assert(!exists|k2: int| is_owner_repo_split(pv, k2)) by {
            assert forall|k2: int| !is_owner_repo_split(pv, k2) by {
                if k2 != i as int && 0 <= k2 < pv.len() {
                    assert(pv[i as int] == '/');
                }
            }
        }
        return None;
    }
    proof {
        lemma_github_repo_of_split(url@, pv, i as int);
    }
    let owner = p.substring_char(0, i + 1);
    let r = String::from_str(owner).concat(name);
    Some(r)
}

/// Whether `s` ends with `.git`.
fn ends_with_git(s: &str) -> (r: bool)
    ensures
        r == ".git"@.is_suffix_of(s@),
{
    proof {
        reveal_strlit(".git");
    }
    let n = s.unicode_len();
    if n < 4 {
        return false;
    }
    let tail = s.substring_char(n - 4, n);
    let r = String::from_str(tail) == String::from_str(".git");
    assert(r ==> ".git"@ =~= s@.subrange(n - 4, n as int));
    r
}

} // verus!
