use delta_hyperlinks::diff_so_fancy;
use delta_hyperlinks::features::{
    string_option, BuiltinOption, Feature, OptionValue, ProvenancedOptionValue,
};
use delta_hyperlinks::hyperlinks;

#[test]
fn hyperlinks_feature_turns_option_on() {
    let feature = hyperlinks::make_feature();
    assert_eq!(feature.len(), 1);
    assert_eq!(feature[0].0, "hyperlinks");
    assert_eq!(feature[0].1.git_config_key, None);
    assert_eq!(feature[0].1.default_value, OptionValue::Boolean(true));
    assert_eq!(
        feature[0].1.value(Some(OptionValue::Boolean(false))),
        ProvenancedOptionValue::DefaultValue(OptionValue::Boolean(true))
    );
}

#[test]
fn diff_so_fancy_feature_extends_diff_highlight() {
    let base: Feature = vec![string_option("commit-style", Some("color.diff.commit"), "raw")];
    let feature = diff_so_fancy::make_feature(base);
    let names: Vec<&str> = feature.iter().map(|(n, _)| n.as_str()).collect();
    assert_eq!(
        names,
        vec![
            "commit-style",
            "minus-emph-style",
            "plus-emph-style",
            "commit-style",
            "commit-decoration-style",
            "file-style",
            "file-decoration-style",
            "hunk-header-style",
            "hunk-header-decoration-style",
        ]
    );
    assert_eq!(feature[0].1.default_value, OptionValue::String("raw".to_string()));
    assert_eq!(feature[1].1.git_config_key.as_deref(), Some("color.diff-highlight.oldHighlight"));
    assert_eq!(feature[1].1.default_value, OptionValue::String("bold red 52".to_string()));
    assert_eq!(feature[5].1.git_config_key.as_deref(), Some("color.diff.meta"));
    assert_eq!(feature[5].1.default_value, OptionValue::String("11".to_string()));
    assert_eq!(feature[8].1.git_config_key, None);
    assert_eq!(feature[8].1.default_value, OptionValue::String("magenta box".to_string()));
}

#[test]
fn option_value_prefers_git_config() {
    let option = BuiltinOption {
        git_config_key: Some("color.diff.meta".to_string()),
        default_value: OptionValue::String("11".to_string()),
    };
    assert_eq!(
        option.value(Some(OptionValue::String("blue".to_string()))),
        ProvenancedOptionValue::GitConfigValue(OptionValue::String("blue".to_string()))
    );
    assert_eq!(
        option.value(None),
        ProvenancedOptionValue::DefaultValue(OptionValue::String("11".to_string()))
    );
}
