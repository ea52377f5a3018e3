use vstd::prelude::*;

use crate::features::{feature_view, string_entry, string_option, BuiltinOptionView, Feature};

verus! {

/// The options that diff-so-fancy emulation sets on top of diff-highlight's.
pub open spec fn diff_so_fancy_entries() -> Seq<(Seq<char>, BuiltinOptionView)> {
    seq![
        string_entry("minus-emph-style"@, Some("color.diff-highlight.oldHighlight"@), "bold red 52"@),
        string_entry("plus-emph-style"@, Some("color.diff-highlight.newHighlight"@), "bold green 22"@),
        string_entry("commit-style"@, None, "bold yellow"@),
        string_entry("commit-decoration-style"@, None, "none"@),
        string_entry("file-style"@, Some("color.diff.meta"@), "11"@),
        string_entry("file-decoration-style"@, None, "bold yellow ul ol"@),
        string_entry("hunk-header-style"@, Some("color.diff.frag"@), "bold syntax"@),
        string_entry("hunk-header-decoration-style"@, None, "magenta box"@),
    ]
}

/// The diff-so-fancy feature: the bold diff-highlight feature, given as
/// `diff_highlight`, followed by diff-so-fancy's own styles.
pub fn make_feature(diff_highlight: Feature) -> (r: Feature)
    ensures
        feature_view(r) == feature_view(diff_highlight) + diff_so_fancy_entries(),
{
    let mut feature = diff_highlight;
    let ghost base = feature_view(feature);
    feature.push(string_option("minus-emph-style", Some("color.diff-highlight.oldHighlight"), "bold red 52"));
    feature.push(string_option("plus-emph-style", Some("color.diff-highlight.newHighlight"), "bold green 22"));
    feature.push(string_option("commit-style", None, "bold yellow"));
    feature.push(string_option("commit-decoration-style", None, "none"));
    feature.push(string_option("file-style", Some("color.diff.meta"), "11"));
    feature.push(string_option("file-decoration-style", None, "bold yellow ul ol"));
    feature.push(string_option("hunk-header-style", Some("color.diff.frag"), "bold syntax"));
    feature.push(string_option("hunk-header-decoration-style", None, "magenta box"));
    assert(feature_view(feature) =~= base + diff_so_fancy_entries());
    feature
}

} // verus!
