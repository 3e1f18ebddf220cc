//! The directive parser: turns the content of recognized annotations
//! into a structured parameter set.
//!
//! Two input shapes are supported: the parenthesized umbrella form
//! `tag(key = literal, ...)`, and the legacy single-purpose form
//! `tag = "literal"` where the tag itself selects the parameter.
//! Unknown keys and literals of the wrong kind are fatal errors.

use crate::error::{ConfigError, ConfigErrorView};
use crate::policy::{EnginePolicy, PolicyView};
use crate::schema::{Annotation, AnnotationForm, AnnotationFormView, AnnotationParam,
    AnnotationParamView, AnnotationView, LitValue, LitValueView};
use vstd::prelude::*;
use vstd::string::StringExecFns;

verus! {

/// Spec mirror of [`ParamSet`].
#[verifier::ext_equal]
pub struct ParamSetView {
    pub name: Option<Seq<char>>,
    pub prefix: Option<Seq<char>>,
    pub suffix: Option<Seq<char>>,
    pub visibility: Option<Seq<char>>,
    pub ref_strategy: Option<Seq<char>>,
    pub with_into: Option<bool>,
}

/// The parameters gathered from a field's directives. A `None` means
/// the parameter was not supplied and its default applies.
#[derive(Debug, PartialEq, Eq)]
pub struct ParamSet {
    pub name: Option<String>,
    pub prefix: Option<String>,
    pub suffix: Option<String>,
    pub visibility: Option<String>,
    pub ref_strategy: Option<String>,
    pub with_into: Option<bool>,
}

impl View for ParamSet {
    type V = ParamSetView;

    open spec fn view(&self) -> ParamSetView {
        ParamSetView {
            name: crate::naming::view_opt_str(self.name),
            prefix: crate::naming::view_opt_str(self.prefix),
            suffix: crate::naming::view_opt_str(self.suffix),
            visibility: crate::naming::view_opt_str(self.visibility),
            ref_strategy: crate::naming::view_opt_str(self.ref_strategy),
            with_into: self.with_into,
        }
    }
}

/// The parameter set with nothing supplied.
pub open spec fn spec_empty_params() -> ParamSetView {
    ParamSetView {
        name: Option::None,
        prefix: Option::None,
        suffix: Option::None,
        visibility: Option::None,
        ref_strategy: Option::None,
        with_into: Option::None,
    }
}

impl ParamSet {
    /// Builds the empty parameter set.
    pub fn empty() -> (r: ParamSet)
        ensures
            r@ == spec_empty_params(),
    {
        ParamSet {
            name: Option::None,
            prefix: Option::None,
            suffix: Option::None,
            visibility: Option::None,
            ref_strategy: Option::None,
            with_into: Option::None,
        }
    }
}

/// Stores one `key = literal` pair into the set. A later value for the
/// same key overwrites an earlier one. Unknown keys are the documented
/// unknown-parameter error; a literal of the wrong kind for a
/// recognized key is the documented value-type error.
pub open spec fn spec_apply_param(
    ps: ParamSetView,
    p: AnnotationParamView,
    policy: PolicyView,
) -> Result<ParamSetView, ConfigErrorView> {
    if p.key == "name"@ {
        match p.value {
            LitValueView::Str(s) => Result::Ok(ParamSetView { name: Option::Some(s), ..ps }),
            _ => Result::Err(ConfigErrorView::ValueType { key: p.key }),
        }
    } else if p.key == "prefix"@ {
        match p.value {
            LitValueView::Str(s) => Result::Ok(ParamSetView { prefix: Option::Some(s), ..ps }),
            _ => Result::Err(ConfigErrorView::ValueType { key: p.key }),
        }
    } else if p.key == "suffix"@ {
        match p.value {
            LitValueView::Str(s) => Result::Ok(ParamSetView { suffix: Option::Some(s), ..ps }),
            _ => Result::Err(ConfigErrorView::ValueType { key: p.key }),
        }
    } else if p.key == "visibility"@ {
        match p.value {
            LitValueView::Str(s) => Result::Ok(
                ParamSetView { visibility: Option::Some(s), ..ps },
            ),
            _ => Result::Err(ConfigErrorView::ValueType { key: p.key }),
        }
    } else if policy.allow_ref_strategy && p.key == "ref_strategy"@ {
        match p.value {
            LitValueView::Str(s) => Result::Ok(
                ParamSetView { ref_strategy: Option::Some(s), ..ps },
            ),
            _ => Result::Err(ConfigErrorView::ValueType { key: p.key }),
        }
    } else if policy.allow_with_into && p.key == "with_into"@ {
        match p.value {
            LitValueView::Bool(b) => Result::Ok(
                ParamSetView { with_into: Option::Some(b), ..ps },
            ),
            _ => Result::Err(ConfigErrorView::ValueType { key: p.key }),
        }
    } else {
        Result::Err(ConfigErrorView::UnknownParam { key: p.key })
    }
}

/// Folds a parameter list into a set, left to right, stopping at the
/// first error.
pub open spec fn spec_extract_params(
    ps: Seq<AnnotationParamView>,
    policy: PolicyView,
) -> Result<ParamSetView, ConfigErrorView>
    decreases ps.len(),
{
    if ps.len() == 0 {
        Result::Ok(spec_empty_params())
    } else {
        match spec_extract_params(ps.drop_last(), policy) {
            Result::Err(e) => Result::Err(e),
            Result::Ok(acc) => spec_apply_param(acc, ps.last(), policy),
        }
    }
}

/// The parameters of one umbrella annotation: its content must be a
/// parenthesized key/value list.
pub open spec fn spec_umbrella_params(a: AnnotationView, policy: PolicyView) -> Result<
    ParamSetView,
    ConfigErrorView,
> {
    match a.form {
        AnnotationFormView::ParamList(ps) => spec_extract_params(ps, policy),
        _ => Result::Err(ConfigErrorView::DirectiveSyntax { tag: a.tag }),
    }
}

/// Stores the value of one legacy single-purpose annotation: the tag
/// selects the parameter, and the content must be a single string
/// literal. An annotation whose tag is no legacy tag of the policy is
/// ignored.
pub open spec fn spec_apply_legacy(
    ps: ParamSetView,
    a: AnnotationView,
    policy: PolicyView,
) -> Result<ParamSetView, ConfigErrorView> {
    if policy.legacy_name_tag matches Option::Some(t) && a.tag == t {
        match a.form {
            AnnotationFormView::Value(LitValueView::Str(s)) => Result::Ok(
                ParamSetView { name: Option::Some(s), ..ps },
            ),
            _ => Result::Err(ConfigErrorView::DirectiveSyntax { tag: a.tag }),
        }
    } else if policy.legacy_prefix_tag matches Option::Some(t) && a.tag == t {
        match a.form {
            AnnotationFormView::Value(LitValueView::Str(s)) => Result::Ok(
                ParamSetView { prefix: Option::Some(s), ..ps },
            ),
            _ => Result::Err(ConfigErrorView::DirectiveSyntax { tag: a.tag }),
        }
    } else if policy.legacy_suffix_tag matches Option::Some(t) && a.tag == t {
        match a.form {
            AnnotationFormView::Value(LitValueView::Str(s)) => Result::Ok(
                ParamSetView { suffix: Option::Some(s), ..ps },
            ),
            _ => Result::Err(ConfigErrorView::DirectiveSyntax { tag: a.tag }),
        }
    } else if policy.legacy_visibility_tag matches Option::Some(t) && a.tag == t {
        match a.form {
            AnnotationFormView::Value(LitValueView::Str(s)) => Result::Ok(
                ParamSetView { visibility: Option::Some(s), ..ps },
            ),
            _ => Result::Err(ConfigErrorView::DirectiveSyntax { tag: a.tag }),
        }
    } else if policy.legacy_ref_strategy_tag matches Option::Some(t) && a.tag == t {
        match a.form {
            AnnotationFormView::Value(LitValueView::Str(s)) => Result::Ok(
                ParamSetView { ref_strategy: Option::Some(s), ..ps },
            ),
            _ => Result::Err(ConfigErrorView::DirectiveSyntax { tag: a.tag }),
        }
    } else {
        Result::Ok(ps)
    }
}

/// Folds every legacy annotation of the list into one parameter set,
/// in source order; the last value per parameter wins.
pub open spec fn spec_legacy_params(
    anns: Seq<AnnotationView>,
    policy: PolicyView,
) -> Result<ParamSetView, ConfigErrorView>
    decreases anns.len(),
{
    if anns.len() == 0 {
        Result::Ok(spec_empty_params())
    } else {
        match spec_legacy_params(anns.drop_last(), policy) {
            Result::Err(e) => Result::Err(e),
            Result::Ok(acc) => spec_apply_legacy(acc, anns.last(), policy),
        }
    }
}

pub(crate) fn eq_str(s: &String, lit: &str) -> (b: bool)
    ensures
        b == (s@ == lit@),
{
    s.eq(&String::from_str(lit))
}

pub(crate) fn eq_opt_tag(tag: &String, opt: &Option<String>) -> (b: bool)
    ensures
        b == (crate::naming::view_opt_str(*opt) matches Option::Some(t) && tag@ == t),
{
    match opt {
        Option::Some(t) => tag.eq(t),
        Option::None => false,
    }
}

/// Applies one `key = literal` pair per [`spec_apply_param`].
pub fn apply_param(ps: ParamSet, p: &AnnotationParam, policy: &EnginePolicy) -> (r: Result<
    ParamSet,
    ConfigError,
>)
    ensures
        match r {
            Result::Ok(next) => spec_apply_param(ps@, p@, policy@) == Result::<
                ParamSetView,
                ConfigErrorView,
            >::Ok(next@),
            Result::Err(e) => spec_apply_param(ps@, p@, policy@) == Result::<
                ParamSetView,
                ConfigErrorView,
            >::Err(e@),
        },
{
    if eq_str(&p.key, "name") {
        match &p.value {
            LitValue::Str(s) => Result::Ok(ParamSet { name: Option::Some(s.clone()), ..ps }),
            _ => Result::Err(ConfigError::ValueType { key: p.key.clone() }),
        }
    } else if eq_str(&p.key, "prefix") {
        match &p.value {
            LitValue::Str(s) => Result::Ok(ParamSet { prefix: Option::Some(s.clone()), ..ps }),
            _ => Result::Err(ConfigError::ValueType { key: p.key.clone() }),
        }
    } else if eq_str(&p.key, "suffix") {
        match &p.value {
            LitValue::Str(s) => Result::Ok(ParamSet { suffix: Option::Some(s.clone()), ..ps }),
            _ => Result::Err(ConfigError::ValueType { key: p.key.clone() }),
        }
    } else if eq_str(&p.key, "visibility") {
        match &p.value {
            LitValue::Str(s) => Result::Ok(
                ParamSet { visibility: Option::Some(s.clone()), ..ps },
            ),
            _ => Result::Err(ConfigError::ValueType { key: p.key.clone() }),
        }
    } else if policy.allow_ref_strategy && eq_str(&p.key, "ref_strategy") {
        match &p.value {
            LitValue::Str(s) => Result::Ok(
                ParamSet { ref_strategy: Option::Some(s.clone()), ..ps },
            ),
            _ => Result::Err(ConfigError::ValueType { key: p.key.clone() }),
        }
    } else if policy.allow_with_into && eq_str(&p.key, "with_into") {
        match &p.value {
            LitValue::Bool(b) => Result::Ok(ParamSet { with_into: Option::Some(*b), ..ps }),
            _ => Result::Err(ConfigError::ValueType { key: p.key.clone() }),
        }
    } else {
        Result::Err(ConfigError::UnknownParam { key: p.key.clone() })
    }
}

/// Extracts the parameters of one umbrella annotation per
/// [`spec_umbrella_params`].
pub fn umbrella_params(a: &Annotation, policy: &EnginePolicy) -> (r: Result<
    ParamSet,
    ConfigError,
>)
    ensures
        match r {
            Result::Ok(ps) => spec_umbrella_params(a@, policy@) == Result::<
                ParamSetView,
                ConfigErrorView,
            >::Ok(ps@),
            Result::Err(e) => spec_umbrella_params(a@, policy@) == Result::<
                ParamSetView,
                ConfigErrorView,
            >::Err(e@),
        },
{
    match &a.form {
        AnnotationForm::ParamList(params) => {
            let ghost pview = crate::schema::view_params(params@);
            let mut acc = ParamSet::empty();
            let mut i: usize = 0;
            proof {
                assert(pview.subrange(0, 0) =~= Seq::<AnnotationParamView>::empty());
            }
            while i < params.len()
                invariant
                    i <= params.len(),
                    a@.form == AnnotationFormView::ParamList(pview),
                    pview == crate::schema::view_params(params@),
                    pview.len() == params@.len(),
                    spec_extract_params(pview.subrange(0, i as int), policy@) == Result::<
                        ParamSetView,
                        ConfigErrorView,
                    >::Ok(acc@),
                decreases params.len() - i,
            {
                let step = apply_param(acc, &params[i], policy);
                proof {
                    assert(pview.subrange(0, i + 1).drop_last() =~= pview.subrange(0, i as int));
                    assert(pview.subrange(0, i + 1).last() == params@[i as int]@);
                }
                match step {
                    Result::Ok(next) => {
                        acc = next;
                    },
                    Result::Err(e) => {
                        proof {
                            crate::directive::lemma_extract_params_error(
                                pview,
                                policy@,
                                i as int,
                                e@,
                            );
                        }
                        return Result::Err(e);
                    },
                }
                i = i + 1;
            }
            proof {
                assert(pview.subrange(0, params@.len() as int) =~= pview);
            }
            Result::Ok(acc)
        },
        _ => Result::Err(ConfigError::DirectiveSyntax { tag: a.tag.clone() }),
    }
}

/// An error while folding the first `i + 1` parameters propagates to
/// the fold of any longer prefix.
proof fn lemma_extract_params_error(
    ps: Seq<AnnotationParamView>,
    policy: PolicyView,
    i: int,
    e: ConfigErrorView,
)
    requires
        0 <= i < ps.len(),
        spec_extract_params(ps.subrange(0, i + 1), policy) == Result::<
            ParamSetView,
            ConfigErrorView,
        >::Err(e),
    ensures
        spec_extract_params(ps, policy) == Result::<ParamSetView, ConfigErrorView>::Err(e),
    decreases ps.len() - i,
{
    if i + 1 == ps.len() {
        assert(ps.subrange(0, i + 1) =~= ps);
    } else {
        assert(ps.subrange(0, i + 2).drop_last() =~= ps.subrange(0, i + 1));
        lemma_extract_params_error(ps, policy, i + 1, e);
    }
}

} // verus!
