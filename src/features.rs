use vstd::prelude::*;

verus! {

/// The value of a built-in option.
#[derive(Debug, PartialEq, Eq)]
pub enum OptionValue {
    Boolean(bool),
    String(String),
}

/// The mathematical form of an option value.
pub enum OptionValueView {
    Boolean(bool),
    String(Seq<char>),
}

impl View for OptionValue {
    type V = OptionValueView;

    open spec fn view(&self) -> OptionValueView {
        match self {
            OptionValue::Boolean(b) => OptionValueView::Boolean(*b),
            OptionValue::String(s) => OptionValueView::String(s@),
        }
    }
}

/// An option value together with where it came from.
#[derive(Debug, PartialEq, Eq)]
pub enum ProvenancedOptionValue {
    /// Read from git config.
    GitConfigValue(OptionValue),
    /// The feature's built-in default.
    DefaultValue(OptionValue),
}

/// How a feature sets one option: from the git config key where it has one and
/// git config holds a value under it, else to a default.
pub struct BuiltinOption {
    pub git_config_key: Option<String>,
    pub default_value: OptionValue,
}

/// The mathematical form of a built-in option.
pub struct BuiltinOptionView {
    pub git_config_key: Option<Seq<char>>,
    pub default_value: OptionValueView,
}

impl View for BuiltinOption {
    type V = BuiltinOptionView;

    open spec fn view(&self) -> BuiltinOptionView {
        BuiltinOptionView {
            git_config_key: match self.git_config_key {
                Some(k) => Some(k@),
                None => None,
            },
            default_value: self.default_value@,
        }
    }
}

impl BuiltinOption {
    /// The option's value, given what git config holds under the option's key
    /// (`None` where it holds nothing there).
    pub fn value(&self, git_config_value: Option<OptionValue>) -> (r: ProvenancedOptionValue)
        ensures
            match r {
                ProvenancedOptionValue::GitConfigValue(v) => self.git_config_key is Some
                    && git_config_value == Some(v),
                ProvenancedOptionValue::DefaultValue(v) => (self.git_config_key is None
                    || git_config_value is None) && v@ == self.default_value@,
            },
    {
        match (&self.git_config_key, git_config_value) {
            (Some(_), Some(v)) => ProvenancedOptionValue::GitConfigValue(v),
            _ => ProvenancedOptionValue::DefaultValue(self.default_value.clone_value()),
        }
    }
}

impl OptionValue {
    /// A copy of the value.
    pub fn clone_value(&self) -> (r: OptionValue)
        ensures
            r@ == self@,
    {
        match self {
            OptionValue::Boolean(b) => OptionValue::Boolean(*b),
            OptionValue::String(s) => OptionValue::String(s.clone()),
        }
    }
}

/// A feature: the options it sets, by name.
pub type Feature = Vec<(String, BuiltinOption)>;

/// The mathematical form of a feature.
pub open spec fn feature_view(f: Feature) -> Seq<(Seq<char>, BuiltinOptionView)> {
    f@.map_values(|e: (String, BuiltinOption)| (e.0@, e.1@))
}

/// The entry of a feature that sets `name` to the string `value`, from `key`
/// where there is one.
pub open spec fn string_entry(
    name: Seq<char>,
    key: Option<Seq<char>>,
    value: Seq<char>,
) -> (Seq<char>, BuiltinOptionView) {
    (name, BuiltinOptionView { git_config_key: key, default_value: OptionValueView::String(value) })
}

/// Builds the entry that sets `name` to the string `value`, from `key` where
/// there is one.
pub fn string_option(name: &str, key: Option<&str>, value: &str) -> (r: (String, BuiltinOption))
    ensures
        (r.0@, r.1@) == string_entry(name@, key.deep_view(), value@),
{
    let key = match key {
        Some(k) => Some(String::from_str(k)),
        None => None,
    };
    (
        String::from_str(name),
        BuiltinOption { git_config_key: key, default_value: OptionValue::String(String::from_str(value)) },
    )
}

} // verus!
