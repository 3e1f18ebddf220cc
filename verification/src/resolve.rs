//! The config resolver: turns a field's directives into zero or more
//! validated accessor configs.
//!
//! A field carrying the disable directive yields no configs and has
//! all recognized directives ignored. A field with no directives
//! yields the single default config. Otherwise every umbrella
//! directive yields one config (or, under a single-config policy, the
//! last one wins), and the legacy single-purpose directives merge into
//! one further config.

use crate::config::{AccessorConfig, AccessorConfigView, GetterRefStrategy, SetterVisibility,
    spec_ref_strategy_of, spec_visibility_of, view_configs};
use crate::directive::{ParamSet, ParamSetView, spec_apply_legacy, spec_empty_params,
    spec_legacy_params, spec_umbrella_params, umbrella_params};
use crate::error::{ConfigError, ConfigErrorView};
use crate::ident::{check_identifier, is_identifier};
use crate::naming::{make_name, spec_make_name};
use crate::policy::{EnginePolicy, PolicyView};
use crate::schema::{Annotation, AnnotationView, FieldSchema, FieldSchemaView, view_annotations};
use vstd::prelude::*;

verus! {

/// Whether `tag` is the policy's umbrella directive tag.
pub open spec fn spec_is_umbrella_tag(tag: Seq<char>, policy: PolicyView) -> bool {
    policy.umbrella_tag matches Option::Some(t) && tag == t
}

/// Whether `tag` is one of the policy's legacy single-purpose tags.
pub open spec fn spec_is_legacy_tag(tag: Seq<char>, policy: PolicyView) -> bool {
    ||| policy.legacy_name_tag matches Option::Some(t) && tag == t
    ||| policy.legacy_prefix_tag matches Option::Some(t) && tag == t
    ||| policy.legacy_suffix_tag matches Option::Some(t) && tag == t
    ||| policy.legacy_visibility_tag matches Option::Some(t) && tag == t
    ||| policy.legacy_ref_strategy_tag matches Option::Some(t) && tag == t
}

/// Whether `tag` is any directive tag the policy recognizes. These
/// are the annotations consumed by the engine and stripped from the
/// emitted record.
pub open spec fn spec_is_directive_tag(tag: Seq<char>, policy: PolicyView) -> bool {
    ||| tag == policy.disable_tag
    ||| spec_is_umbrella_tag(tag, policy)
    ||| spec_is_legacy_tag(tag, policy)
}

/// Whether the field carries the disable directive.
pub open spec fn spec_is_disabled(anns: Seq<AnnotationView>, policy: PolicyView) -> bool {
    exists|i: int| 0 <= i < anns.len() && (#[trigger] anns[i]).tag == policy.disable_tag
}

/// Whether the field carries any legacy directive.
pub open spec fn spec_has_legacy(anns: Seq<AnnotationView>, policy: PolicyView) -> bool {
    exists|i: int| 0 <= i < anns.len() && spec_is_legacy_tag((#[trigger] anns[i]).tag, policy)
}

/// The field's annotations with every recognized directive removed,
/// in order.
pub open spec fn spec_strip(anns: Seq<AnnotationView>, policy: PolicyView) -> Seq<
    AnnotationView,
>
    decreases anns.len(),
{
    if anns.len() == 0 {
        Seq::empty()
    } else {
        let prefix = spec_strip(anns.drop_last(), policy);
        if spec_is_directive_tag(anns.last().tag, policy) {
            prefix
        } else {
            prefix.push(anns.last())
        }
    }
}

/// Builds one validated config from a parameter set: the naming
/// policy resolves the name, the visibility and ref-strategy literals
/// are parsed (defaulting to `pub` and by-value), `with_into`
/// defaults to true, and the resolved name must be a legal
/// identifier.
pub open spec fn spec_config_of_params(
    ps: ParamSetView,
    field_name: Seq<char>,
    policy: PolicyView,
) -> Result<AccessorConfigView, ConfigErrorView> {
    match spec_make_name(
        ps.name,
        ps.prefix,
        ps.suffix,
        field_name,
        policy.default_prefix,
        policy.suffix_requires_prefix,
    ) {
        Result::Err(e) => Result::Err(e),
        Result::Ok(nm) => {
            let vis_r = match ps.visibility {
                Option::Some(v) => spec_visibility_of(v, policy.allow_empty_visibility),
                Option::None => Result::Ok(SetterVisibility::Pub),
            };
            match vis_r {
                Result::Err(e) => Result::Err(e),
                Result::Ok(vis) => {
                    let rs_r = match ps.ref_strategy {
                        Option::Some(r) => spec_ref_strategy_of(r),
                        Option::None => Result::Ok(GetterRefStrategy::ByValue),
                    };
                    match rs_r {
                        Result::Err(e) => Result::Err(e),
                        Result::Ok(rs) => {
                            if !is_identifier(nm) {
                                Result::Err(ConfigErrorView::InvalidMethodName { name: nm })
                            } else {
                                Result::Ok(
                                    AccessorConfigView {
                                        name: nm,
                                        visibility: vis,
                                        ref_strategy: rs,
                                        with_into: match ps.with_into {
                                            Option::Some(b) => b,
                                            Option::None => true,
                                        },
                                    },
                                )
                            }
                        },
                    }
                },
            }
        },
    }
}

/// One config per umbrella directive, in source order, stopping at
/// the first error.
pub open spec fn spec_umbrella_configs(
    anns: Seq<AnnotationView>,
    field_name: Seq<char>,
    policy: PolicyView,
) -> Result<Seq<AccessorConfigView>, ConfigErrorView>
    decreases anns.len(),
{
    if anns.len() == 0 {
        Result::Ok(Seq::empty())
    } else {
        match spec_umbrella_configs(anns.drop_last(), field_name, policy) {
            Result::Err(e) => Result::Err(e),
            Result::Ok(cfgs) => {
                let a = anns.last();
                if spec_is_umbrella_tag(a.tag, policy) {
                    match spec_umbrella_params(a, policy) {
                        Result::Err(e) => Result::Err(e),
                        Result::Ok(ps) => match spec_config_of_params(ps, field_name, policy) {
                            Result::Err(e) => Result::Err(e),
                            Result::Ok(c) => Result::Ok(cfgs.push(c)),
                        },
                    }
                } else {
                    Result::Ok(cfgs)
                }
            },
        }
    }
}

/// The resolver's contract for one field. Disabled fields yield no
/// configs; fields with no directives yield the single default
/// config; otherwise the umbrella configs come in directive order,
/// the merged legacy config (if any legacy directive is present)
/// after them, and under a single-config policy only the last
/// umbrella config (or, lacking one, the legacy config) survives.
pub open spec fn spec_resolve_field(field: FieldSchemaView, policy: PolicyView) -> Result<
    Seq<AccessorConfigView>,
    ConfigErrorView,
> {
    let anns = field.annotations;
    if spec_is_disabled(anns, policy) {
        Result::Ok(Seq::empty())
    } else {
        match spec_umbrella_configs(anns, field.name, policy) {
            Result::Err(e) => Result::Err(e),
            Result::Ok(ucfgs) => {
                if spec_has_legacy(anns, policy) {
                    match spec_legacy_params(anns, policy) {
                        Result::Err(e) => Result::Err(e),
                        Result::Ok(lps) => match spec_config_of_params(
                            lps,
                            field.name,
                            policy,
                        ) {
                            Result::Err(e) => Result::Err(e),
                            Result::Ok(lc) => {
                                if policy.multi_config {
                                    Result::Ok(ucfgs.push(lc))
                                } else if ucfgs.len() > 0 {
                                    Result::Ok(seq![ucfgs.last()])
                                } else {
                                    Result::Ok(seq![lc])
                                }
                            },
                        },
                    }
                } else if ucfgs.len() == 0 {
                    match spec_config_of_params(spec_empty_params(), field.name, policy) {
                        Result::Err(e) => Result::Err(e),
                        Result::Ok(c) => Result::Ok(seq![c]),
                    }
                } else if policy.multi_config {
                    Result::Ok(ucfgs)
                } else {
                    Result::Ok(seq![ucfgs.last()])
                }
            },
        }
    }
}

/// Decides [`spec_is_legacy_tag`].
fn is_legacy_tag(tag: &String, policy: &EnginePolicy) -> (b: bool)
    ensures
        b == spec_is_legacy_tag(tag@, policy@),
{
    crate::directive::eq_opt_tag(tag, &policy.legacy_name_tag)
        || crate::directive::eq_opt_tag(tag, &policy.legacy_prefix_tag)
        || crate::directive::eq_opt_tag(tag, &policy.legacy_suffix_tag)
        || crate::directive::eq_opt_tag(tag, &policy.legacy_visibility_tag)
        || crate::directive::eq_opt_tag(tag, &policy.legacy_ref_strategy_tag)
}

/// Decides [`spec_is_directive_tag`].
pub(crate) fn is_directive_tag(tag: &String, policy: &EnginePolicy) -> (b: bool)
    ensures
        b == spec_is_directive_tag(tag@, policy@),
{
    tag.eq(&policy.disable_tag) || crate::directive::eq_opt_tag(tag, &policy.umbrella_tag)
        || is_legacy_tag(tag, policy)
}

/// Decides [`spec_is_disabled`].
fn is_disabled(anns: &Vec<Annotation>, policy: &EnginePolicy) -> (b: bool)
    ensures
        b == spec_is_disabled(view_annotations(anns@), policy@),
{
    let ghost aview = view_annotations(anns@);
    let mut i: usize = 0;
    while i < anns.len()
        invariant
            i <= anns.len(),
            aview == view_annotations(anns@),
            aview.len() == anns@.len(),
            forall|j: int| 0 <= j < i as int ==> (#[trigger] aview[j]).tag != policy@.disable_tag,
        decreases anns.len() - i,
    {
        if anns[i].tag.eq(&policy.disable_tag) {
            assert(aview[i as int].tag == policy@.disable_tag);
            return true;
        }
        i = i + 1;
    }
    false
}

/// Decides [`spec_has_legacy`].
fn has_legacy(anns: &Vec<Annotation>, policy: &EnginePolicy) -> (b: bool)
    ensures
        b == spec_has_legacy(view_annotations(anns@), policy@),
{
    let ghost aview = view_annotations(anns@);
    let mut i: usize = 0;
    while i < anns.len()
        invariant
            i <= anns.len(),
            aview == view_annotations(anns@),
            aview.len() == anns@.len(),
            forall|j: int| 0 <= j < i as int ==> !spec_is_legacy_tag(
                (#[trigger] aview[j]).tag,
                policy@,
            ),
        decreases anns.len() - i,
    {
        if is_legacy_tag(&anns[i].tag, policy) {
            assert(spec_is_legacy_tag(aview[i as int].tag, policy@));
            return true;
        }
        i = i + 1;
    }
    false
}

/// Removes every recognized directive from the annotation list,
/// keeping everything else in order, per [`spec_strip`].
pub fn strip_annotations(anns: &Vec<Annotation>, policy: &EnginePolicy) -> (r: Vec<Annotation>)
    ensures
        view_annotations(r@) == spec_strip(view_annotations(anns@), policy@),
{
    let ghost aview = view_annotations(anns@);
    let mut out: Vec<Annotation> = Vec::new();
    let mut i: usize = 0;
    proof {
        assert(aview.subrange(0, 0) =~= Seq::<AnnotationView>::empty());
        assert(view_annotations(out@) =~= spec_strip(aview.subrange(0, 0), policy@));
    }
    while i < anns.len()
        invariant
            i <= anns.len(),
            aview == view_annotations(anns@),
            aview.len() == anns@.len(),
            view_annotations(out@) == spec_strip(aview.subrange(0, i as int), policy@),
        decreases anns.len() - i,
    {
        let ghost prev = view_annotations(out@);
        let keep = !is_directive_tag(&anns[i].tag, policy);
        proof {
            assert(anns@[i as int]@ == aview[i as int]);
        }
        if keep {
            out.push(anns[i].clone());
        }
        proof {
            let sub1 = aview.subrange(0, i + 1);
            assert(sub1.drop_last() =~= aview.subrange(0, i as int));
            assert(sub1.last() == aview[i as int]);
            if keep {
                assert(view_annotations(out@) =~= prev.push(aview[i as int]));
            }
            assert(view_annotations(out@) =~= spec_strip(sub1, policy@));
        }
        i = i + 1;
    }
    proof {
        assert(aview.subrange(0, anns@.len() as int) =~= aview);
    }
    out
}

/// Builds one validated config per [`spec_config_of_params`].
pub fn config_of_params(ps: &ParamSet, field_name: &str, policy: &EnginePolicy) -> (r: Result<
    AccessorConfig,
    ConfigError,
>)
    ensures
        match r {
            Result::Ok(c) => spec_config_of_params(ps@, field_name@, policy@) == Result::<
                AccessorConfigView,
                ConfigErrorView,
            >::Ok(c@),
            Result::Err(e) => spec_config_of_params(ps@, field_name@, policy@) == Result::<
                AccessorConfigView,
                ConfigErrorView,
            >::Err(e@),
        },
{
    let named = make_name(
        &ps.name,
        &ps.prefix,
        &ps.suffix,
        field_name,
        policy.default_prefix.as_str(),
        policy.suffix_requires_prefix,
    );
    let nm = match named {
        Result::Ok(nm) => nm,
        Result::Err(e) => {
            return Result::Err(e);
        },
    };
    let vis = match &ps.visibility {
        Option::Some(v) => {
            match SetterVisibility::try_from(v, policy.allow_empty_visibility) {
                Result::Ok(vis) => vis,
                Result::Err(e) => {
                    return Result::Err(e);
                },
            }
        },
        Option::None => SetterVisibility::Pub,
    };
    let rs = match &ps.ref_strategy {
        Option::Some(r) => {
            match GetterRefStrategy::try_from(r) {
                Result::Ok(rs) => rs,
                Result::Err(e) => {
                    return Result::Err(e);
                },
            }
        },
        Option::None => GetterRefStrategy::ByValue,
    };
    if !check_identifier(nm.as_str()) {
        return Result::Err(ConfigError::InvalidMethodName { name: nm });
    }
    let with_into = match &ps.with_into {
        Option::Some(b) => *b,
        Option::None => true,
    };
    Result::Ok(AccessorConfig { name: nm, visibility: vis, ref_strategy: rs, with_into })
}

/// An error while folding the first `i + 1` annotations of the
/// umbrella fold propagates to the fold of the whole list.
proof fn lemma_umbrella_configs_error(
    anns: Seq<AnnotationView>,
    field_name: Seq<char>,
    policy: PolicyView,
    i: int,
    e: ConfigErrorView,
)
    requires
        0 <= i < anns.len(),
        spec_umbrella_configs(anns.subrange(0, i + 1), field_name, policy) == Result::<
            Seq<AccessorConfigView>,
            ConfigErrorView,
        >::Err(e),
    ensures
        spec_umbrella_configs(anns, field_name, policy) == Result::<
            Seq<AccessorConfigView>,
            ConfigErrorView,
        >::Err(e),
    decreases anns.len() - i,
{
    if i + 1 == anns.len() {
        assert(anns.subrange(0, i + 1) =~= anns);
    } else {
        assert(anns.subrange(0, i + 2).drop_last() =~= anns.subrange(0, i + 1));
        lemma_umbrella_configs_error(anns, field_name, policy, i + 1, e);
    }
}

/// An error while folding the first `i + 1` annotations of the legacy
/// fold propagates to the fold of the whole list.
proof fn lemma_legacy_params_error(
    anns: Seq<AnnotationView>,
    policy: PolicyView,
    i: int,
    e: ConfigErrorView,
)
    requires
        0 <= i < anns.len(),
        spec_legacy_params(anns.subrange(0, i + 1), policy) == Result::<
            ParamSetView,
            ConfigErrorView,
        >::Err(e),
    ensures
        spec_legacy_params(anns, policy) == Result::<ParamSetView, ConfigErrorView>::Err(e),
    decreases anns.len() - i,
{
    if i + 1 == anns.len() {
        assert(anns.subrange(0, i + 1) =~= anns);
    } else {
        assert(anns.subrange(0, i + 2).drop_last() =~= anns.subrange(0, i + 1));
        lemma_legacy_params_error(anns, policy, i + 1, e);
    }
}

/// Applies one legacy annotation per [`spec_apply_legacy`].
fn apply_legacy(ps: ParamSet, a: &Annotation, policy: &EnginePolicy) -> (r: Result<
    ParamSet,
    ConfigError,
>)
    ensures
        match r {
            Result::Ok(next) => spec_apply_legacy(ps@, a@, policy@) == Result::<
                ParamSetView,
                ConfigErrorView,
            >::Ok(next@),
            Result::Err(e) => spec_apply_legacy(ps@, a@, policy@) == Result::<
                ParamSetView,
                ConfigErrorView,
            >::Err(e@),
        },
{
    if crate::directive::eq_opt_tag(&a.tag, &policy.legacy_name_tag) {
        match &a.form {
            crate::schema::AnnotationForm::Value(crate::schema::LitValue::Str(s)) => Result::Ok(
                ParamSet { name: Option::Some(s.clone()), ..ps },
            ),
            _ => Result::Err(ConfigError::DirectiveSyntax { tag: a.tag.clone() }),
        }
    } else if crate::directive::eq_opt_tag(&a.tag, &policy.legacy_prefix_tag) {
        match &a.form {
            crate::schema::AnnotationForm::Value(crate::schema::LitValue::Str(s)) => Result::Ok(
                ParamSet { prefix: Option::Some(s.clone()), ..ps },
            ),
            _ => Result::Err(ConfigError::DirectiveSyntax { tag: a.tag.clone() }),
        }
    } else if crate::directive::eq_opt_tag(&a.tag, &policy.legacy_suffix_tag) {
        match &a.form {
            crate::schema::AnnotationForm::Value(crate::schema::LitValue::Str(s)) => Result::Ok(
                ParamSet { suffix: Option::Some(s.clone()), ..ps },
            ),
            _ => Result::Err(ConfigError::DirectiveSyntax { tag: a.tag.clone() }),
        }
    } else if crate::directive::eq_opt_tag(&a.tag, &policy.legacy_visibility_tag) {
        match &a.form {
            crate::schema::AnnotationForm::Value(crate::schema::LitValue::Str(s)) => Result::Ok(
                ParamSet { visibility: Option::Some(s.clone()), ..ps },
            ),
            _ => Result::Err(ConfigError::DirectiveSyntax { tag: a.tag.clone() }),
        }
    } else if crate::directive::eq_opt_tag(&a.tag, &policy.legacy_ref_strategy_tag) {
        match &a.form {
            crate::schema::AnnotationForm::Value(crate::schema::LitValue::Str(s)) => Result::Ok(
                ParamSet { ref_strategy: Option::Some(s.clone()), ..ps },
            ),
            _ => Result::Err(ConfigError::DirectiveSyntax { tag: a.tag.clone() }),
        }
    } else {
        Result::Ok(ps)
    }
}

/// Resolves one field's directives into its configs, per
/// [`spec_resolve_field`].
pub fn resolve_field(field: &FieldSchema, policy: &EnginePolicy) -> (r: Result<
    Vec<AccessorConfig>,
    ConfigError,
>)
    ensures
        match r {
            Result::Ok(cfgs) => spec_resolve_field(field@, policy@) == Result::<
                Seq<AccessorConfigView>,
                ConfigErrorView,
            >::Ok(view_configs(cfgs@)),
            Result::Err(e) => spec_resolve_field(field@, policy@) == Result::<
                Seq<AccessorConfigView>,
                ConfigErrorView,
            >::Err(e@),
        },
{
    let ghost aview = view_annotations(field.annotations@);
    if is_disabled(&field.annotations, policy) {
        let empty: Vec<AccessorConfig> = Vec::new();
        proof {
            assert(view_configs(empty@) =~= Seq::<AccessorConfigView>::empty());
        }
        return Result::Ok(empty);
    }
    // Umbrella directives, one config each, in source order.
    let mut ucfgs: Vec<AccessorConfig> = Vec::new();
    let mut i: usize = 0;
    proof {
        assert(aview.subrange(0, 0) =~= Seq::<AnnotationView>::empty());
        assert(view_configs(ucfgs@) =~= Seq::<AccessorConfigView>::empty());
    }
    while i < field.annotations.len()
        invariant
            i <= field.annotations.len(),
            aview == view_annotations(field.annotations@),
            aview.len() == field.annotations@.len(),
            field@.annotations == aview,
            spec_umbrella_configs(aview.subrange(0, i as int), field@.name, policy@)
                == Result::<Seq<AccessorConfigView>, ConfigErrorView>::Ok(view_configs(ucfgs@)),
            !spec_is_disabled(aview, policy@),
        decreases field.annotations.len() - i,
    {
        let a = &field.annotations[i];
        let ghost prev = view_configs(ucfgs@);
        proof {
            assert(a@ == aview[i as int]);
            assert(aview.subrange(0, i + 1).drop_last() =~= aview.subrange(0, i as int));
            assert(aview.subrange(0, i + 1).last() == aview[i as int]);
        }
        if crate::directive::eq_opt_tag(&a.tag, &policy.umbrella_tag) {
            match umbrella_params(a, policy) {
                Result::Err(e) => {
                    proof {
                        lemma_umbrella_configs_error(aview, field@.name, policy@, i as int, e@);
                    }
                    return Result::Err(e);
                },
                Result::Ok(ps) => {
                    match config_of_params(&ps, field.name.as_str(), policy) {
                        Result::Err(e) => {
                            proof {
                                lemma_umbrella_configs_error(
                                    aview,
                                    field@.name,
                                    policy@,
                                    i as int,
                                    e@,
                                );
                            }
                            return Result::Err(e);
                        },
                        Result::Ok(c) => {
                            ucfgs.push(c);
                            proof {
                                assert(view_configs(ucfgs@) =~= prev.push(ucfgs@.last()@));
                            }
                        },
                    }
                },
            }
        }
        i = i + 1;
    }
    proof {
        assert(aview.subrange(0, aview.len() as int) =~= aview);
    }
    // The legacy single-purpose directives, merged into one config.
    if has_legacy(&field.annotations, policy) {
        let mut lps = ParamSet::empty();
        let mut j: usize = 0;
        proof {
            assert(aview.subrange(0, 0) =~= Seq::<AnnotationView>::empty());
        }
        while j < field.annotations.len()
            invariant
                j <= field.annotations.len(),
                aview == view_annotations(field.annotations@),
                aview.len() == field.annotations@.len(),
                field@.annotations == aview,
                !spec_is_disabled(aview, policy@),
                spec_has_legacy(aview, policy@),
                spec_umbrella_configs(aview, field@.name, policy@) == Result::<
                    Seq<AccessorConfigView>,
                    ConfigErrorView,
                >::Ok(view_configs(ucfgs@)),
                spec_legacy_params(aview.subrange(0, j as int), policy@) == Result::<
                    ParamSetView,
                    ConfigErrorView,
                >::Ok(lps@),
            decreases field.annotations.len() - j,
        {
            let a = &field.annotations[j];
            proof {
                assert(a@ == aview[j as int]);
                assert(aview.subrange(0, j + 1).drop_last() =~= aview.subrange(0, j as int));
                assert(aview.subrange(0, j + 1).last() == aview[j as int]);
            }
            match apply_legacy(lps, a, policy) {
                Result::Err(e) => {
                    proof {
                        lemma_legacy_params_error(aview, policy@, j as int, e@);
                    }
                    return Result::Err(e);
                },
                Result::Ok(next) => {
                    lps = next;
                },
            }
            j = j + 1;
        }
        proof {
            assert(aview.subrange(0, aview.len() as int) =~= aview);
        }
        let lc = match config_of_params(&lps, field.name.as_str(), policy) {
            Result::Err(e) => {
                return Result::Err(e);
            },
            Result::Ok(lc) => lc,
        };
        if policy.multi_config {
            let ghost prev = view_configs(ucfgs@);
            ucfgs.push(lc);
            proof {
                assert(view_configs(ucfgs@) =~= prev.push(ucfgs@.last()@));
            }
            Result::Ok(ucfgs)
        } else if ucfgs.len() > 0 {
            let ghost uspec = view_configs(ucfgs@);
            let last = ucfgs.pop().unwrap();
            let mut one: Vec<AccessorConfig> = Vec::new();
            one.push(last);
            proof {
                assert(last@ == uspec.last());
                assert(view_configs(one@) =~= seq![uspec.last()]);
            }
            Result::Ok(one)
        } else {
            let mut one: Vec<AccessorConfig> = Vec::new();
            one.push(lc);
            proof {
                assert(view_configs(one@) =~= seq![one@[0]@]);
            }
            Result::Ok(one)
        }
    } else if ucfgs.len() == 0 {
        let dps = ParamSet::empty();
        match config_of_params(&dps, field.name.as_str(), policy) {
            Result::Err(e) => Result::Err(e),
            Result::Ok(c) => {
                let mut one: Vec<AccessorConfig> = Vec::new();
                one.push(c);
                proof {
                    assert(view_configs(one@) =~= seq![one@[0]@]);
                }
                Result::Ok(one)
            },
        }
    } else if policy.multi_config {
        Result::Ok(ucfgs)
    } else {
        let ghost uspec = view_configs(ucfgs@);
        let last = ucfgs.pop().unwrap();
        let mut one: Vec<AccessorConfig> = Vec::new();
        one.push(last);
        proof {
            assert(last@ == uspec.last());
            assert(view_configs(one@) =~= seq![uspec.last()]);
        }
        Result::Ok(one)
    }
}

} // verus!
