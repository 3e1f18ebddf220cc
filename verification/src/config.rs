//! Resolved per-directive configuration: the validated outcome of one
//! directive (or of the bare defaults), fully specifying one accessor
//! to generate.

use crate::error::{ConfigError, ConfigErrorView};
use vstd::prelude::*;
use vstd::string::StringExecFns;

verus! {

/// The visibility of a generated accessor. `Private` emits no
/// visibility qualifier (self-only access).
#[derive(Debug, Clone, Copy, PartialEq, Eq)]
pub enum SetterVisibility {
    Pub,
    PubForCrate,
    Private,
}

/// How a getter returns the field: by non-owning reference, or by
/// value. The literal `"none"` selects the by-value strategy.
#[derive(Debug, Clone, Copy, PartialEq, Eq)]
pub enum GetterRefStrategy {
    Ref,
    ByValue,
}

/// The kind of accessor a policy generates, and the body kind of a
/// synthesized method: assign-and-return-self, mutate-in-place, or
/// borrow-or-copy-return.
#[derive(Debug, Clone, Copy, PartialEq, Eq)]
pub enum AccessorKind {
    BuilderSetter,
    MutatingSetter,
    Getter,
}

/// The visibility a literal resolves to: `pub`, `pub(crate)` and
/// `private` map to the three variants; the empty string means
/// self-only where the policy supports it; anything else is the
/// documented invalid-enum error.
pub open spec fn spec_visibility_of(value: Seq<char>, allow_empty: bool) -> Result<
    SetterVisibility,
    ConfigErrorView,
> {
    if value == "pub"@ {
        Result::Ok(SetterVisibility::Pub)
    } else if value == "pub(crate)"@ {
        Result::Ok(SetterVisibility::PubForCrate)
    } else if value == "private"@ {
        Result::Ok(SetterVisibility::Private)
    } else if allow_empty && value.len() == 0 {
        Result::Ok(SetterVisibility::Private)
    } else {
        Result::Err(ConfigErrorView::InvalidVisibility { value })
    }
}

/// The ref strategy a literal resolves to: `ref` or `none`; anything
/// else is the documented invalid-enum error.
pub open spec fn spec_ref_strategy_of(value: Seq<char>) -> Result<
    GetterRefStrategy,
    ConfigErrorView,
> {
    if value == "ref"@ {
        Result::Ok(GetterRefStrategy::Ref)
    } else if value == "none"@ {
        Result::Ok(GetterRefStrategy::ByValue)
    } else {
        Result::Err(ConfigErrorView::InvalidRefStrategy { value })
    }
}

impl SetterVisibility {
    /// Parses a visibility literal per [`spec_visibility_of`].
    pub fn try_from(value: &String, allow_empty: bool) -> (r: Result<
        SetterVisibility,
        ConfigError,
    >)
        ensures
            match r {
                Result::Ok(v) => spec_visibility_of(value@, allow_empty) == Result::<
                    SetterVisibility,
                    ConfigErrorView,
                >::Ok(v),
                Result::Err(e) => spec_visibility_of(value@, allow_empty) == Result::<
                    SetterVisibility,
                    ConfigErrorView,
                >::Err(e@),
            },
    {
        if value.eq(&String::from_str("pub")) {
            Result::Ok(SetterVisibility::Pub)
        } else if value.eq(&String::from_str("pub(crate)")) {
            Result::Ok(SetterVisibility::PubForCrate)
        } else if value.eq(&String::from_str("private")) {
            Result::Ok(SetterVisibility::Private)
        } else if allow_empty && value.as_str().is_empty() {
            Result::Ok(SetterVisibility::Private)
        } else {
            Result::Err(ConfigError::InvalidVisibility { value: value.clone() })
        }
    }
}

impl GetterRefStrategy {
    /// Parses a ref-strategy literal per [`spec_ref_strategy_of`].
    pub fn try_from(value: &String) -> (r: Result<GetterRefStrategy, ConfigError>)
        ensures
            match r {
                Result::Ok(v) => spec_ref_strategy_of(value@) == Result::<
                    GetterRefStrategy,
                    ConfigErrorView,
                >::Ok(v),
                Result::Err(e) => spec_ref_strategy_of(value@) == Result::<
                    GetterRefStrategy,
                    ConfigErrorView,
                >::Err(e@),
            },
    {
        if value.eq(&String::from_str("ref")) {
            Result::Ok(GetterRefStrategy::Ref)
        } else if value.eq(&String::from_str("none")) {
            Result::Ok(GetterRefStrategy::ByValue)
        } else {
            Result::Err(ConfigError::InvalidRefStrategy { value: value.clone() })
        }
    }
}

/// Spec mirror of [`AccessorConfig`].
#[verifier::ext_equal]
pub struct AccessorConfigView {
    pub name: Seq<char>,
    pub visibility: SetterVisibility,
    pub ref_strategy: GetterRefStrategy,
    pub with_into: bool,
}

/// The resolved, validated outcome of one directive: the method name
/// (a legal identifier), its visibility, and the mode-specific
/// settings (`ref_strategy` for getters, `with_into` for setters).
#[derive(Debug, PartialEq, Eq)]
pub struct AccessorConfig {
    pub name: String,
    pub visibility: SetterVisibility,
    pub ref_strategy: GetterRefStrategy,
    pub with_into: bool,
}

impl View for AccessorConfig {
    type V = AccessorConfigView;

    open spec fn view(&self) -> AccessorConfigView {
        AccessorConfigView {
            name: self.name@,
            visibility: self.visibility,
            ref_strategy: self.ref_strategy,
            with_into: self.with_into,
        }
    }
}

impl Clone for AccessorConfig {
    fn clone(&self) -> (res: Self)
        ensures
            res@ == self@,
    {
        AccessorConfig {
            name: self.name.clone(),
            visibility: self.visibility,
            ref_strategy: self.ref_strategy,
            with_into: self.with_into,
        }
    }
}

/// Element-wise spec mirror of a config list.
pub open spec fn view_configs(s: Seq<AccessorConfig>) -> Seq<AccessorConfigView> {
    s.map(|i: int, c: AccessorConfig| c@)
}

} // verus!
