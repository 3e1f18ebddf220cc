//! Fatal configuration errors. Every detected error aborts the whole
//! expansion; the taxonomy mirrors the stages of the pipeline: schema
//! shape, directive syntax, unknown parameter, literal kind mismatch,
//! naming mutual exclusion, and invalid enumeration literals.

use vstd::prelude::*;
use vstd::string::StringExecFns;

verus! {

/// Spec mirror of [`ConfigError`].
pub enum ConfigErrorView {
    NotNamedFields,
    DirectiveSyntax { tag: Seq<char> },
    UnknownParam { key: Seq<char> },
    ValueType { key: Seq<char> },
    NameExclusion { with_prefix: bool, with_suffix: bool },
    SuffixWithoutPrefix,
    InvalidVisibility { value: Seq<char> },
    InvalidRefStrategy { value: Seq<char> },
    InvalidMethodName { name: Seq<char> },
}

/// A fatal configuration error raised while resolving directives.
#[derive(Debug, PartialEq, Eq)]
pub enum ConfigError {
    /// The record is not a named-field record.
    NotNamedFields,
    /// A recognized directive's content is not in the expected shape.
    DirectiveSyntax { tag: String },
    /// An umbrella directive carries a key outside the recognized set.
    UnknownParam { key: String },
    /// A recognized key carries a literal of the wrong kind.
    ValueType { key: String },
    /// `name` was combined with `prefix` and/or `suffix`.
    NameExclusion { with_prefix: bool, with_suffix: bool },
    /// `suffix` without `prefix`, under the policy that forbids it.
    SuffixWithoutPrefix,
    /// A `visibility` literal outside the allowed set.
    InvalidVisibility { value: String },
    /// A `ref_strategy` literal outside the allowed set.
    InvalidRefStrategy { value: String },
    /// A resolved method name that is not a legal identifier.
    InvalidMethodName { name: String },
}

impl View for ConfigError {
    type V = ConfigErrorView;

    open spec fn view(&self) -> ConfigErrorView {
        match self {
            ConfigError::NotNamedFields => ConfigErrorView::NotNamedFields,
            ConfigError::DirectiveSyntax { tag } => ConfigErrorView::DirectiveSyntax {
                tag: tag@,
            },
            ConfigError::UnknownParam { key } => ConfigErrorView::UnknownParam { key: key@ },
            ConfigError::ValueType { key } => ConfigErrorView::ValueType { key: key@ },
            ConfigError::NameExclusion { with_prefix, with_suffix } => {
                ConfigErrorView::NameExclusion {
                    with_prefix: *with_prefix,
                    with_suffix: *with_suffix,
                }
            },
            ConfigError::SuffixWithoutPrefix => ConfigErrorView::SuffixWithoutPrefix,
            ConfigError::InvalidVisibility { value } => ConfigErrorView::InvalidVisibility {
                value: value@,
            },
            ConfigError::InvalidRefStrategy { value } => ConfigErrorView::InvalidRefStrategy {
                value: value@,
            },
            ConfigError::InvalidMethodName { name } => ConfigErrorView::InvalidMethodName {
                name: name@,
            },
        }
    }
}

impl Clone for ConfigError {
    fn clone(&self) -> (res: Self)
        ensures
            res@ == self@,
    {
        match self {
            ConfigError::NotNamedFields => ConfigError::NotNamedFields,
            ConfigError::DirectiveSyntax { tag } => ConfigError::DirectiveSyntax {
                tag: tag.clone(),
            },
            ConfigError::UnknownParam { key } => ConfigError::UnknownParam { key: key.clone() },
            ConfigError::ValueType { key } => ConfigError::ValueType { key: key.clone() },
            ConfigError::NameExclusion { with_prefix, with_suffix } => {
                ConfigError::NameExclusion {
                    with_prefix: *with_prefix,
                    with_suffix: *with_suffix,
                }
            },
            ConfigError::SuffixWithoutPrefix => ConfigError::SuffixWithoutPrefix,
            ConfigError::InvalidVisibility { value } => ConfigError::InvalidVisibility {
                value: value.clone(),
            },
            ConfigError::InvalidRefStrategy { value } => ConfigError::InvalidRefStrategy {
                value: value.clone(),
            },
            ConfigError::InvalidMethodName { name } => ConfigError::InvalidMethodName {
                name: name.clone(),
            },
        }
    }
}

/// The diagnostic text of an error, as a sequence of characters.
/// The invalid-enum messages name the offending value and enumerate
/// the allowed set.
pub open spec fn spec_message(e: ConfigErrorView) -> Seq<char> {
    match e {
        ConfigErrorView::NotNamedFields => "Macro supports only structs with named fields."@,
        ConfigErrorView::DirectiveSyntax { tag } => "Invalid syntax of '"@ + tag
            + "' attribute."@,
        ConfigErrorView::UnknownParam { key } => "Unexpected parameter '"@ + key + "'."@,
        ConfigErrorView::ValueType { key } => "Unexpected value type for parameter '"@ + key
            + "'."@,
        ConfigErrorView::NameExclusion { with_prefix, with_suffix } => {
            if with_prefix && with_suffix {
                "'name' param cannot be set with 'prefix' and 'suffix' params."@
            } else if with_prefix {
                "'name' param cannot be set with 'prefix' param."@
            } else {
                "'name' param cannot be set with 'suffix' param."@
            }
        },
        ConfigErrorView::SuffixWithoutPrefix => {
            "'suffix' param must be used with 'prefix' param."@
        },
        ConfigErrorView::InvalidVisibility { value } => "Invalid visibility: '"@ + value
            + "'. Allowed: pub, pub(crate), private."@,
        ConfigErrorView::InvalidRefStrategy { value } => "Invalid ref_strategy: '"@ + value
            + "'. Allowed: ref, none."@,
        ConfigErrorView::InvalidMethodName { name } => "Invalid method name: '"@ + name + "'."@,
    }
}

impl ConfigError {
    /// The diagnostic text reported when the expansion aborts.
    pub fn message(&self) -> (r: String)
        ensures
            r@ == spec_message(self@),
    {
        match self {
            ConfigError::NotNamedFields => {
                String::from_str("Macro supports only structs with named fields.")
            },
            ConfigError::DirectiveSyntax { tag } => {
                let mut s = String::from_str("Invalid syntax of '");
                s.append(tag.as_str());
                s.append("' attribute.");
                s
            },
            ConfigError::UnknownParam { key } => {
                let mut s = String::from_str("Unexpected parameter '");
                s.append(key.as_str());
                s.append("'.");
                s
            },
            ConfigError::ValueType { key } => {
                let mut s = String::from_str("Unexpected value type for parameter '");
                s.append(key.as_str());
                s.append("'.");
                s
            },
            ConfigError::NameExclusion { with_prefix, with_suffix } => {
                if *with_prefix && *with_suffix {
                    String::from_str("'name' param cannot be set with 'prefix' and 'suffix' params.")
                } else if *with_prefix {
                    String::from_str("'name' param cannot be set with 'prefix' param.")
                } else {
                    String::from_str("'name' param cannot be set with 'suffix' param.")
                }
            },
            ConfigError::SuffixWithoutPrefix => {
                String::from_str("'suffix' param must be used with 'prefix' param.")
            },
            ConfigError::InvalidVisibility { value } => {
                let mut s = String::from_str("Invalid visibility: '");
                s.append(value.as_str());
                s.append("'. Allowed: pub, pub(crate), private.");
                s
            },
            ConfigError::InvalidRefStrategy { value } => {
                let mut s = String::from_str("Invalid ref_strategy: '");
                s.append(value.as_str());
                s.append("'. Allowed: ref, none.");
                s
            },
            ConfigError::InvalidMethodName { name } => {
                let mut s = String::from_str("Invalid method name: '");
                s.append(name.as_str());
                s.append("'.");
                s
            },
        }
    }
}

} // verus!
