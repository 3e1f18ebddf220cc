//! The policy object that collapses the engine's near-duplicate
//! variants into one configurable pipeline: which annotation tags are
//! recognized (the disable tag, the umbrella tag, and the per-key
//! legacy tags), which parameter keys are allowed, the default name
//! prefix, the naming and visibility policy options, how many configs
//! a field may yield, what kind of accessor is generated, and whether
//! the optional-value wrapper is unwrapped in setter signatures.

use crate::config::AccessorKind;
use vstd::prelude::*;
use vstd::string::StringExecFns;

verus! {

/// Spec mirror of [`EnginePolicy`].
#[verifier::ext_equal]
pub struct PolicyView {
    pub disable_tag: Seq<char>,
    pub umbrella_tag: Option<Seq<char>>,
    pub legacy_name_tag: Option<Seq<char>>,
    pub legacy_prefix_tag: Option<Seq<char>>,
    pub legacy_suffix_tag: Option<Seq<char>>,
    pub legacy_visibility_tag: Option<Seq<char>>,
    pub legacy_ref_strategy_tag: Option<Seq<char>>,
    pub default_prefix: Seq<char>,
    pub allow_with_into: bool,
    pub allow_ref_strategy: bool,
    pub allow_empty_visibility: bool,
    pub suffix_requires_prefix: bool,
    pub multi_config: bool,
    pub kind: AccessorKind,
    pub unwrap_optional: bool,
}

/// One engine variant's configuration. A tag set to `None` means the
/// variant has no such directive form.
#[derive(Debug, PartialEq, Eq)]
pub struct EnginePolicy {
    /// The bare tag that suppresses all generation for a field.
    pub disable_tag: String,
    /// The tag of the parenthesized multi-parameter directive form.
    pub umbrella_tag: Option<String>,
    /// The tags of the single-purpose `tag = "literal"` legacy forms.
    pub legacy_name_tag: Option<String>,
    pub legacy_prefix_tag: Option<String>,
    pub legacy_suffix_tag: Option<String>,
    pub legacy_visibility_tag: Option<String>,
    pub legacy_ref_strategy_tag: Option<String>,
    /// The default name prefix; empty means a bare field-name default.
    pub default_prefix: String,
    /// Whether the `with_into` parameter key is recognized.
    pub allow_with_into: bool,
    /// Whether the `ref_strategy` parameter key is recognized.
    pub allow_ref_strategy: bool,
    /// Whether the empty-string visibility literal (self-only) is
    /// accepted.
    pub allow_empty_visibility: bool,
    /// Whether `suffix` without `prefix` is a fatal error (the strict
    /// policy option) or resolves against the default prefix.
    pub suffix_requires_prefix: bool,
    /// Whether each umbrella directive yields its own config (`true`)
    /// or the last directive wins (`false`).
    pub multi_config: bool,
    /// The kind of accessor this variant generates.
    pub kind: AccessorKind,
    /// Whether setter signatures unwrap the optional-value wrapper.
    pub unwrap_optional: bool,
}

impl View for EnginePolicy {
    type V = PolicyView;

    open spec fn view(&self) -> PolicyView {
        PolicyView {
            disable_tag: self.disable_tag@,
            umbrella_tag: crate::naming::view_opt_str(self.umbrella_tag),
            legacy_name_tag: crate::naming::view_opt_str(self.legacy_name_tag),
            legacy_prefix_tag: crate::naming::view_opt_str(self.legacy_prefix_tag),
            legacy_suffix_tag: crate::naming::view_opt_str(self.legacy_suffix_tag),
            legacy_visibility_tag: crate::naming::view_opt_str(self.legacy_visibility_tag),
            legacy_ref_strategy_tag: crate::naming::view_opt_str(self.legacy_ref_strategy_tag),
            default_prefix: self.default_prefix@,
            allow_with_into: self.allow_with_into,
            allow_ref_strategy: self.allow_ref_strategy,
            allow_empty_visibility: self.allow_empty_visibility,
            suffix_requires_prefix: self.suffix_requires_prefix,
            multi_config: self.multi_config,
            kind: self.kind,
            unwrap_optional: self.unwrap_optional,
        }
    }
}

/// The policy of the builder-setter variant with legacy single-purpose
/// tags: `disable_setter`, `setter_name`, `setter_prefix`,
/// `setter_suffix`, `setter_visibility`; default prefix `with`.
pub open spec fn spec_add_setters_policy() -> PolicyView {
    PolicyView {
        disable_tag: "disable_setter"@,
        umbrella_tag: Option::None,
        legacy_name_tag: Option::Some("setter_name"@),
        legacy_prefix_tag: Option::Some("setter_prefix"@),
        legacy_suffix_tag: Option::Some("setter_suffix"@),
        legacy_visibility_tag: Option::Some("setter_visibility"@),
        legacy_ref_strategy_tag: Option::None,
        default_prefix: "with"@,
        allow_with_into: false,
        allow_ref_strategy: false,
        allow_empty_visibility: false,
        suffix_requires_prefix: false,
        multi_config: false,
        kind: AccessorKind::BuilderSetter,
        unwrap_optional: false,
    }
}

/// The policy of the umbrella builder-setter variant:
/// `builder_setter(...)` / `disable_builder_setters`, one config per
/// directive, `with_into` recognized, default prefix `with`, the
/// empty-string visibility accepted, the optional wrapper unwrapped.
pub open spec fn spec_builder_setters_policy() -> PolicyView {
    PolicyView {
        disable_tag: "disable_builder_setters"@,
        umbrella_tag: Option::Some("builder_setter"@),
        legacy_name_tag: Option::None,
        legacy_prefix_tag: Option::None,
        legacy_suffix_tag: Option::None,
        legacy_visibility_tag: Option::None,
        legacy_ref_strategy_tag: Option::None,
        default_prefix: "with"@,
        allow_with_into: true,
        allow_ref_strategy: false,
        allow_empty_visibility: true,
        suffix_requires_prefix: false,
        multi_config: true,
        kind: AccessorKind::BuilderSetter,
        unwrap_optional: true,
    }
}

/// The policy of the umbrella basic-setter variant: like the builder
/// policy but mutating in place, tags `basic_setter` /
/// `disable_basic_setters`, default prefix `set`.
pub open spec fn spec_basic_setters_policy() -> PolicyView {
    PolicyView {
        disable_tag: "disable_basic_setters"@,
        umbrella_tag: Option::Some("basic_setter"@),
        legacy_name_tag: Option::None,
        legacy_prefix_tag: Option::None,
        legacy_suffix_tag: Option::None,
        legacy_visibility_tag: Option::None,
        legacy_ref_strategy_tag: Option::None,
        default_prefix: "set"@,
        allow_with_into: true,
        allow_ref_strategy: false,
        allow_empty_visibility: true,
        suffix_requires_prefix: false,
        multi_config: true,
        kind: AccessorKind::MutatingSetter,
        unwrap_optional: true,
    }
}

/// The policy of the single-config umbrella setter variant:
/// `configure_setter(...)` / `disable_setters`, the last directive
/// wins, only the naming and visibility keys recognized.
pub open spec fn spec_configure_setters_policy() -> PolicyView {
    PolicyView {
        disable_tag: "disable_setters"@,
        umbrella_tag: Option::Some("configure_setter"@),
        legacy_name_tag: Option::None,
        legacy_prefix_tag: Option::None,
        legacy_suffix_tag: Option::None,
        legacy_visibility_tag: Option::None,
        legacy_ref_strategy_tag: Option::None,
        default_prefix: "with"@,
        allow_with_into: false,
        allow_ref_strategy: false,
        allow_empty_visibility: false,
        suffix_requires_prefix: false,
        multi_config: false,
        kind: AccessorKind::BuilderSetter,
        unwrap_optional: true,
    }
}

/// The policy of the getter variant: `configure_getter(...)` /
/// `disable_getters` plus the per-key legacy `getter_*` tags,
/// `ref_strategy` recognized, no default prefix (a bare field-name
/// default), and `suffix` strictly requiring `prefix`.
pub open spec fn spec_getters_policy() -> PolicyView {
    PolicyView {
        disable_tag: "disable_getters"@,
        umbrella_tag: Option::Some("configure_getter"@),
        legacy_name_tag: Option::Some("getter_name"@),
        legacy_prefix_tag: Option::Some("getter_prefix"@),
        legacy_suffix_tag: Option::Some("getter_suffix"@),
        legacy_visibility_tag: Option::Some("getter_visibility"@),
        legacy_ref_strategy_tag: Option::Some("getter_ref_strategy"@),
        default_prefix: Seq::empty(),
        allow_with_into: false,
        allow_ref_strategy: true,
        allow_empty_visibility: false,
        suffix_requires_prefix: true,
        multi_config: true,
        kind: AccessorKind::Getter,
        unwrap_optional: false,
    }
}

/// Builds [`spec_add_setters_policy`].
pub fn add_setters_policy() -> (p: EnginePolicy)
    ensures
        p@ == spec_add_setters_policy(),
{
    let p = EnginePolicy {
        disable_tag: String::from_str("disable_setter"),
        umbrella_tag: Option::None,
        legacy_name_tag: Option::Some(String::from_str("setter_name")),
        legacy_prefix_tag: Option::Some(String::from_str("setter_prefix")),
        legacy_suffix_tag: Option::Some(String::from_str("setter_suffix")),
        legacy_visibility_tag: Option::Some(String::from_str("setter_visibility")),
        legacy_ref_strategy_tag: Option::None,
        default_prefix: String::from_str("with"),
        allow_with_into: false,
        allow_ref_strategy: false,
        allow_empty_visibility: false,
        suffix_requires_prefix: false,
        multi_config: false,
        kind: AccessorKind::BuilderSetter,
        unwrap_optional: false,
    };
    proof {
        assert(p@ =~= spec_add_setters_policy());
    }
    p
}

/// Builds [`spec_builder_setters_policy`].
pub fn builder_setters_policy() -> (p: EnginePolicy)
    ensures
        p@ == spec_builder_setters_policy(),
{
    let p = EnginePolicy {
        disable_tag: String::from_str("disable_builder_setters"),
        umbrella_tag: Option::Some(String::from_str("builder_setter")),
        legacy_name_tag: Option::None,
        legacy_prefix_tag: Option::None,
        legacy_suffix_tag: Option::None,
        legacy_visibility_tag: Option::None,
        legacy_ref_strategy_tag: Option::None,
        default_prefix: String::from_str("with"),
        allow_with_into: true,
        allow_ref_strategy: false,
        allow_empty_visibility: true,
        suffix_requires_prefix: false,
        multi_config: true,
        kind: AccessorKind::BuilderSetter,
        unwrap_optional: true,
    };
    proof {
        assert(p@ =~= spec_builder_setters_policy());
    }
    p
}

/// Builds [`spec_basic_setters_policy`].
pub fn basic_setters_policy() -> (p: EnginePolicy)
    ensures
        p@ == spec_basic_setters_policy(),
{
    let p = EnginePolicy {
        disable_tag: String::from_str("disable_basic_setters"),
        umbrella_tag: Option::Some(String::from_str("basic_setter")),
        legacy_name_tag: Option::None,
        legacy_prefix_tag: Option::None,
        legacy_suffix_tag: Option::None,
        legacy_visibility_tag: Option::None,
        legacy_ref_strategy_tag: Option::None,
        default_prefix: String::from_str("set"),
        allow_with_into: true,
        allow_ref_strategy: false,
        allow_empty_visibility: true,
        suffix_requires_prefix: false,
        multi_config: true,
        kind: AccessorKind::MutatingSetter,
        unwrap_optional: true,
    };
    proof {
        assert(p@ =~= spec_basic_setters_policy());
    }
    p
}

/// Builds [`spec_configure_setters_policy`].
pub fn configure_setters_policy() -> (p: EnginePolicy)
    ensures
        p@ == spec_configure_setters_policy(),
{
    let p = EnginePolicy {
        disable_tag: String::from_str("disable_setters"),
        umbrella_tag: Option::Some(String::from_str("configure_setter")),
        legacy_name_tag: Option::None,
        legacy_prefix_tag: Option::None,
        legacy_suffix_tag: Option::None,
        legacy_visibility_tag: Option::None,
        legacy_ref_strategy_tag: Option::None,
        default_prefix: String::from_str("with"),
        allow_with_into: false,
        allow_ref_strategy: false,
        allow_empty_visibility: false,
        suffix_requires_prefix: false,
        multi_config: false,
        kind: AccessorKind::BuilderSetter,
        unwrap_optional: true,
    };
    proof {
        assert(p@ =~= spec_configure_setters_policy());
    }
    p
}

/// Builds [`spec_getters_policy`].
pub fn getters_policy() -> (p: EnginePolicy)
    ensures
        p@ == spec_getters_policy(),
{
    let p = EnginePolicy {
        disable_tag: String::from_str("disable_getters"),
        umbrella_tag: Option::Some(String::from_str("configure_getter")),
        legacy_name_tag: Option::Some(String::from_str("getter_name")),
        legacy_prefix_tag: Option::Some(String::from_str("getter_prefix")),
        legacy_suffix_tag: Option::Some(String::from_str("getter_suffix")),
        legacy_visibility_tag: Option::Some(String::from_str("getter_visibility")),
        legacy_ref_strategy_tag: Option::Some(String::from_str("getter_ref_strategy")),
        default_prefix: String::new(),
        allow_with_into: false,
        allow_ref_strategy: true,
        allow_empty_visibility: false,
        suffix_requires_prefix: true,
        multi_config: true,
        kind: AccessorKind::Getter,
        unwrap_optional: false,
    };
    proof {
        assert(p@ =~= spec_getters_policy());
    }
    p
}

} // verus!
