use vstd::prelude::*;

use crate::config::{Config, GitConfig};
use crate::features::{
    feature_view, BuiltinOption, BuiltinOptionView, Feature, OptionValue, OptionValueView,
};
use crate::path::is_absolute;
use crate::remote::{github_repo_from_url, github_repo_of_url, GitRemoteRepo};
use crate::text::{decimal, replace, replace_all, usize_to_string};

verus! {

/// The hyperlinks feature: it turns the `hyperlinks` option on, with no git
/// config key.
pub fn make_feature() -> (r: Feature)
    ensures
        feature_view(r) == seq![
            (
                "hyperlinks"@,
                BuiltinOptionView {
                    git_config_key: None,
                    default_value: OptionValueView::Boolean(true),
                },
            ),
        ],
{
    let mut feature: Feature = Vec::new();
    feature.push(
        (
            String::from_str("hyperlinks"),
            BuiltinOption { git_config_key: None, default_value: OptionValue::Boolean(true) },
        ),
    );
    assert(feature_view(feature) =~= seq![
        (
            "hyperlinks"@,
            BuiltinOptionView { git_config_key: None, default_value: OptionValueView::Boolean(true) },
        ),
    ]);
    feature
}

/// Opens an OSC 8 hyperlink: escape, `]8;;`.
pub open spec fn osc8_open() -> Seq<char> {
    seq!['\x1b', ']', '8', ';', ';']
}

/// The string terminator: escape, backslash.
pub open spec fn string_terminator() -> Seq<char> {
    seq!['\x1b', '\\']
}

/// `text` shown as a link to `url` by a terminal that knows OSC 8.
pub open spec fn osc8_hyperlink(url: Seq<char>, text: Seq<char>) -> Seq<char> {
    osc8_open() + url + string_terminator() + text + osc8_open() + string_terminator()
}

/// The URL for a file: `{path}` in the template replaced by the path, then
/// `{line}` by the line number, or by nothing where there is none.
pub open spec fn file_link_url(template: Seq<char>, path: Seq<char>, line_number: Option<usize>) -> Seq<char> {
    let line = match line_number {
        Some(n) => decimal(n as nat),
        None => Seq::empty(),
    };
    replace_all(replace_all(template, "{path}"@, path), "{line}"@, line)
}

/// The URL of a commit on GitHub.
pub open spec fn github_commit_url(commit: Seq<char>, github_repo: Seq<char>) -> Seq<char> {
    "https://github.com/"@ + github_repo + "/commit/"@ + commit
}

/// The GitHub repository of the remote named `origin`, where it is one.
pub open spec fn remote_github_repo(git_config: GitConfig) -> Option<Seq<char>> {
    match git_config.remote_origin_url {
        Some(url) => github_repo_of_url(url@),
        None => None,
    }
}

/// The GitHub repository of the remote named `origin` in the configuration.
pub open spec fn config_github_repo(config: Config) -> Option<Seq<char>> {
    match config.git_config {
        Some(git_config) => remote_github_repo(git_config),
        None => None,
    }
}

/// The URL for a commit: from the commit link template when there is one,
/// else on GitHub when `origin` is a GitHub repository, else none.
pub open spec fn commit_link_url(commit: Seq<char>, config: Config) -> Option<Seq<char>> {
    match config.hyperlinks_commit_link_format {
        Some(template) => Some(replace_all(template@, "{commit}"@, commit)),
        None => match config_github_repo(config) {
            Some(repo) => Some(github_commit_url(commit, repo)),
            None => None,
        },
    }
}

/// A line as cut by the commit pattern: the text before the match, the prefix
/// group, the commit, the suffix group and the text after the match.
pub struct CommitLineMatch {
    pub before: String,
    pub prefix: String,
    pub commit: String,
    pub suffix: String,
    pub after: String,
}

impl View for CommitLineMatch {
    type V = (Seq<char>, Seq<char>, Seq<char>, Seq<char>, Seq<char>);

    open spec fn view(&self) -> Self::V {
        (self.before@, self.prefix@, self.commit@, self.suffix@, self.after@)
    }
}

/// The view of a match that may be missing.
pub open spec fn match_view(m: Option<CommitLineMatch>) -> Option<
    (Seq<char>, Seq<char>, Seq<char>, Seq<char>, Seq<char>),
> {
    match m {
        Some(c) => Some(c@),
        None => None,
    }
}

/// `line` with the commit that `m` found shown as a link, or `line` itself
/// when nothing was found or no commit URL can be made.
pub open spec fn commit_line_with_hyperlink(
    line: Seq<char>,
    m: Option<(Seq<char>, Seq<char>, Seq<char>, Seq<char>, Seq<char>)>,
    config: Config,
) -> Seq<char> {
    match m {
        Some((before, prefix, commit, suffix, after)) => match commit_link_url(commit, config) {
            Some(url) => before + prefix + osc8_hyperlink(url, commit) + suffix + after,
            None => line,
        },
        None => line,
    }
}

/// The pattern of a line that names a commit: an optional prefix that ends in a
/// space, taken as long as it can be, a run of 8 to 40 lowercase hexadecimal
/// digits, and the rest of the line.
pub const COMMIT_LINE_PATTERN: &'static str = "(.* )?([0-9a-f]{8,40})(.*)";

/// What the `regex` crate finds for `pattern` in `text`: for the first match,
/// the text before it, groups one to three (empty where a group took no part)
/// and the text after it; none where `pattern` does not compile or has no match.
pub uninterp spec fn regex_first_captures(
    pattern: Seq<char>,
    text: Seq<char>,
) -> Option<(Seq<char>, Seq<char>, Seq<char>, Seq<char>, Seq<char>)>;

/// Relies on `regex::Regex::new` and `regex::Regex::captures`: the first match of
/// `pattern` in `text`, cut at the match and at its groups one to three.
#[verifier::external_body]
fn first_captures(pattern: &str, text: &str) -> (r: Option<CommitLineMatch>)
    ensures
        match_view(r) == regex_first_captures(pattern@, text@),
{
    let caps = regex::Regex::new(pattern).ok()?.captures(text)?;
    let whole = caps.get(0)?;
    let group = |i: usize| caps.get(i).map_or(String::new(), |m| m.as_str().to_string());
    Some(CommitLineMatch {
        before: text[..whole.start()].to_string(),
        prefix: group(1),
        commit: group(2),
        suffix: group(3),
        after: text[whole.end()..].to_string(),
    })
}

/// The positions at which a string terminator starts in `s`.
pub open spec fn terminator_positions(s: Seq<char>) -> Set<int> {
    Set::new(|k: int| 0 <= k && k + 1 < s.len() && s[k] == '\x1b' && s[k + 1] == '\\')
}

/// A hyperlink starts with the opening sequence and holds exactly two string
/// terminators, one after the URL and one at the end, and the displayed text
/// stands verbatim between the first terminator and the closing sequence;
/// this holds where neither the URL nor the text holds an escape character.
pub proof fn lemma_osc8_hyperlink_well_formed(url: Seq<char>, text: Seq<char>)
    requires
        forall|k: int| 0 <= k < url.len() ==> url[k] != '\x1b',
        forall|k: int| 0 <= k < text.len() ==> text[k] != '\x1b',
    ensures
        osc8_open().is_prefix_of(osc8_hyperlink(url, text)),
        terminator_positions(osc8_hyperlink(url, text)) == set![
            5 + url.len() as int,
            osc8_hyperlink(url, text).len() - 2 as int,
        ],
        terminator_positions(osc8_hyperlink(url, text)).len() == 2,
        osc8_hyperlink(url, text).subrange(
            7 + url.len() as int,
            7 + url.len() + text.len() as int,
        ) == text,
        osc8_hyperlink(url, text).skip(7 + url.len() + text.len() as int) == osc8_open()
            + string_terminator(),
{
    let h = osc8_hyperlink(url, text);
    let a: int = 5 + url.len() as int;
    let b: int = h.len() - 2;
    let c: int = a + 2 + text.len() as int;
    assert(h.len() == 14 + url.len() + text.len());
    assert(h =~= osc8_open() + url + string_terminator() + text + osc8_open()
        + string_terminator());
    assert forall|k: int| 0 <= k < h.len() implies (h[k] == '\x1b' <==> (k == 0 || k == a || k
        == c || k == b)) by {
        if k < 5 {
        } else if k < a {
            assert(h[k] == url[k - 5]);
        } else if k < a + 2 {
        } else if k < c {
            assert(h[k] == text[k - a - 2]);
        }
    }
    assert(terminator_positions(h) =~= set![a, b]);
    assert(set![a, b].len() == 2) by {
        assert(set![a, b] == set![a].insert(b));
        assert(!set![a].contains(b));
    }
    assert(h.subrange(a + 2, c) =~= text);
    assert(h.skip(c) =~= osc8_open() + string_terminator());
    assert(osc8_open().is_prefix_of(h)) by {
        assert(h.take(5) =~= osc8_open());
    }
}

/// A configured commit link template is used for the link whether or not
/// `origin` is a GitHub repository.
pub proof fn lemma_commit_template_takes_priority(
    line: Seq<char>,
    m: (Seq<char>, Seq<char>, Seq<char>, Seq<char>, Seq<char>),
    config: Config,
)
    requires
        config.hyperlinks_commit_link_format is Some,
    ensures
        commit_line_with_hyperlink(line, Some(m), config) == m.0 + m.1 + osc8_hyperlink(
            replace_all(config.hyperlinks_commit_link_format.unwrap()@, "{commit}"@, m.2),
            m.2,
        ) + m.3 + m.4,
{
}

/// With neither a commit link template nor a GitHub `origin`, a line is
/// returned unchanged, whatever was found in it.
pub proof fn lemma_commit_line_unchanged_without_link_source(
    line: Seq<char>,
    m: Option<(Seq<char>, Seq<char>, Seq<char>, Seq<char>, Seq<char>)>,
    config: Config,
)
    requires
        config.hyperlinks_commit_link_format is None,
        config_github_repo(config) is None,
    ensures
        commit_line_with_hyperlink(line, m, config) == line,
{
}

/// Wraps `text` in an OSC 8 hyperlink to `url`.
pub fn format_osc8_hyperlink(url: &str, text: &str) -> (r: String)
    ensures
        r@ == osc8_hyperlink(url@, text@),
{
    proof {
        reveal_strlit("\x1b]8;;");
        reveal_strlit("\x1b\\");
    }
    let mut r = String::from_str("\x1b]8;;");
    r.append(url);
    r.append("\x1b\\");
    r.append(text);
    r.append("\x1b]8;;");
    r.append("\x1b\\");
    assert(r@ =~= osc8_hyperlink(url@, text@));
    r
}

/// A hyperlink to a file, and to a line of it where one is given, showing `text`.
/// The URL is the file link template with `{path}` and `{line}` filled in.
pub fn format_osc8_file_hyperlink(
    absolute_path: &str,
    line_number: Option<usize>,
    text: &str,
    config: &Config,
) -> (r: String)
    requires
        is_absolute(absolute_path@),
    ensures
        r@ == osc8_hyperlink(
            file_link_url(config.hyperlinks_file_link_format@, absolute_path@, line_number),
            text@,
        ),
{
    proof {
        reveal_strlit("{path}");
        reveal_strlit("{line}");
    }
    let url = replace(config.hyperlinks_file_link_format.as_str(), "{path}", absolute_path);
    let url = match line_number {
        Some(n) => {
            let line = usize_to_string(n);
            replace(url.as_str(), "{line}", line.as_str())
        },
        None => {
            let empty = String::new();
            replace(url.as_str(), "{line}", empty.as_str())
        },
    };
    format_osc8_hyperlink(url.as_str(), text)
}

/// The URL of `commit` in the GitHub repository `github_repo` (`owner/repo`).
pub fn format_github_commit_url(commit: &str, github_repo: &str) -> (r: String)
    ensures
        r@ == github_commit_url(commit@, github_repo@),
{
    String::from_str("https://github.com/").concat(github_repo).concat("/commit/").concat(commit)
}

/// The remote named `origin`, where it is recognised.
pub fn get_remote_url(git_config: &GitConfig) -> (r: Option<GitRemoteRepo>)
    ensures
        match r {
            Some(repo) => remote_github_repo(*git_config) == Some(repo.spec_github_repo()),
            None => remote_github_repo(*git_config) is None,
        },
{
    match &git_config.remote_origin_url {
        Some(url) => match github_repo_from_url(url.as_str()) {
            Some(repo) => Some(GitRemoteRepo::GitHubRepo(repo)),
            None => None,
        },
        None => None,
    }
}

/// The prefix, the commit shown as a link to its page on GitHub, and the suffix.
pub fn format_commit_line_captures_with_osc8_commit_hyperlink(
    captures: &CommitLineMatch,
    github_repo: &str,
) -> (r: String)
    ensures
        r@ == captures.prefix@ + osc8_hyperlink(
            github_commit_url(captures.commit@, github_repo@),
            captures.commit@,
        ) + captures.suffix@,
{
    let url = format_github_commit_url(captures.commit.as_str(), github_repo);
    let link = format_osc8_hyperlink(url.as_str(), captures.commit.as_str());
    captures.prefix.clone().concat(link.as_str()).concat(captures.suffix.as_str())
}

/// `line` with the commit that `m` found in it shown as a link, where a commit
/// URL can be made; otherwise `line` unchanged.
pub fn format_commit_line_match_with_osc8_commit_hyperlink(
    line: &str,
    m: Option<CommitLineMatch>,
    config: &Config,
) -> (r: String)
    ensures
        r@ == commit_line_with_hyperlink(line@, match_view(m), *config),
{
    proof {
        reveal_strlit("{commit}");
    }
    let captures = match m {
        Some(captures) => captures,
        None => return String::from_str(line),
    };
    if let Some(template) = &config.hyperlinks_commit_link_format {
        let url = replace(template.as_str(), "{commit}", captures.commit.as_str());
        let link = format_osc8_hyperlink(url.as_str(), captures.commit.as_str());
        captures.before.concat(captures.prefix.as_str()).concat(link.as_str()).concat(
            captures.suffix.as_str(),
        ).concat(captures.after.as_str())
    } else if let Some(git_config) = &config.git_config {
        match get_remote_url(git_config) {
            Some(GitRemoteRepo::GitHubRepo(repo)) => {
                let linked = format_commit_line_captures_with_osc8_commit_hyperlink(
                    &captures,
                    repo.as_str(),
                );
                captures.before.concat(linked.as_str()).concat(captures.after.as_str())
            },
            None => String::from_str(line),
        }
    } else {
        String::from_str(line)
    }
}

/// `line` with the first commit hash in it shown as a link, where the commit link
/// template or a GitHub remote gives a URL; otherwise `line` unchanged.
pub fn format_commit_line_with_osc8_commit_hyperlink(line: &str, config: &Config) -> (r: String)
    ensures
        r@ == commit_line_with_hyperlink(
            line@,
            regex_first_captures(COMMIT_LINE_PATTERN@, line@),
            *config,
        ),
{
    let m = first_captures(COMMIT_LINE_PATTERN, line);
    format_commit_line_match_with_osc8_commit_hyperlink(line, m, config)
}

} // verus!
