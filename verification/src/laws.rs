//! The engine's documented guarantees, stated and proved over the
//! spec-level pipeline: default naming, the disable directive, the
//! naming decision table, the optional-value wrapper, independent
//! umbrella directives, the visibility literals, and the idempotence
//! of directive stripping.

use crate::config::{AccessorConfigView, GetterRefStrategy, SetterVisibility,
    spec_visibility_of};
use crate::directive::spec_empty_params;
use crate::error::ConfigErrorView;
use crate::ident::{is_ident_continue, is_ident_start, is_identifier};
use crate::method::{MethodParamView, spec_synthesize};
use crate::naming::{spec_concat_name, spec_default_name, spec_make_name};
use crate::policy::PolicyView;
use crate::resolve::{spec_config_of_params, spec_is_directive_tag, spec_is_disabled,
    spec_is_legacy_tag, spec_is_umbrella_tag, spec_resolve_field, spec_strip,
    spec_umbrella_configs};
use crate::rewrite::spec_strip_fields;
use crate::schema::{AnnotationView, FieldSchemaView};
use crate::semantics::{FieldBindingView, FieldValView, SlotView, lemma_get_after_set,
    spec_get_field, spec_has_field, spec_set_field, spec_store};
use crate::signature::{WrapMode, spec_is_option_wrapper};
use vstd::prelude::*;

verus! {

/// Joining two identifiers with an underscore yields an identifier.
pub proof fn lemma_concat_identifier(a: Seq<char>, b: Seq<char>)
    requires
        is_identifier(a),
        is_identifier(b),
    ensures
        is_identifier(spec_concat_name(a, b)),
{
    reveal_strlit("_");
    let out = spec_concat_name(a, b);
    assert(out.len() == a.len() + 1 + b.len());
    assert(out[0] == a[0]);
    assert forall|i: int| 1 <= i < out.len() implies is_ident_continue(#[trigger] out[i]) by {
        if i < a.len() {
            assert(out[i] == a[i]);
        } else if i == a.len() {
            assert(out[i] == '_');
        } else {
            assert(out[i] == b[i - a.len() - 1]);
            if i - a.len() - 1 == 0 {
                assert(is_ident_start(b[0]));
            }
        }
    }
}

/// A list without umbrella directives contributes no umbrella
/// configs.
proof fn lemma_no_umbrella_configs(
    anns: Seq<AnnotationView>,
    field_name: Seq<char>,
    policy: PolicyView,
)
    requires
        forall|i: int|
            0 <= i < anns.len() ==> !spec_is_umbrella_tag((#[trigger] anns[i]).tag, policy),
    ensures
        spec_umbrella_configs(anns, field_name, policy) == Result::<
            Seq<AccessorConfigView>,
            ConfigErrorView,
        >::Ok(Seq::empty()),
    decreases anns.len(),
{
    if anns.len() > 0 {
        assert(forall|i: int|
            0 <= i < anns.drop_last().len() ==> !spec_is_umbrella_tag(
                (#[trigger] anns.drop_last()[i]).tag,
                policy,
            ));
        lemma_no_umbrella_configs(anns.drop_last(), field_name, policy);
        assert(anns.last() == anns[anns.len() - 1]);
    }
}

/// Directive stripping removes every recognized directive: nothing in
/// the stripped list carries a directive tag, and in particular the
/// disable directive never appears on the emitted record.
pub proof fn lemma_strip_clean(anns: Seq<AnnotationView>, policy: PolicyView)
    ensures
        forall|i: int|
            0 <= i < spec_strip(anns, policy).len() ==> !spec_is_directive_tag(
                (#[trigger] spec_strip(anns, policy)[i]).tag,
                policy,
            ),
    decreases anns.len(),
{
    if anns.len() > 0 {
        lemma_strip_clean(anns.drop_last(), policy);
    }
}

/// Stripping a list that holds no recognized directive changes
/// nothing.
pub proof fn lemma_strip_of_clean(anns: Seq<AnnotationView>, policy: PolicyView)
    requires
        forall|i: int|
            0 <= i < anns.len() ==> !spec_is_directive_tag((#[trigger] anns[i]).tag, policy),
    ensures
        spec_strip(anns, policy) =~= anns,
    decreases anns.len(),
{
    if anns.len() > 0 {
        assert(forall|i: int|
            0 <= i < anns.drop_last().len() ==> !spec_is_directive_tag(
                (#[trigger] anns.drop_last()[i]).tag,
                policy,
            ));
        lemma_strip_of_clean(anns.drop_last(), policy);
        assert(anns.last() == anns[anns.len() - 1]);
        assert(spec_strip(anns, policy) =~= anns.drop_last().push(anns.last()));
        assert(anns.drop_last().push(anns.last()) =~= anns);
    }
}

/// A field with no recognized directives resolves to exactly one
/// config: the default. Its name is the default prefix joined to the
/// field name (`default_prefix_field_name` whenever the policy has a
/// default prefix; the field name itself under a policy without
/// one), its visibility is `pub`, its getter strategy is by-value,
/// and `with_into` is on. The field and default prefix are assumed
/// to be identifiers, which makes the joined name one as well.
pub proof fn lemma_default_config(field: FieldSchemaView, policy: PolicyView)
    requires
        forall|i: int|
            0 <= i < field.annotations.len() ==> !spec_is_directive_tag(
                (#[trigger] field.annotations[i]).tag,
                policy,
            ),
        is_identifier(field.name),
        policy.default_prefix.len() > 0 ==> is_identifier(policy.default_prefix),
    ensures
        spec_resolve_field(field, policy) == Result::<
            Seq<AccessorConfigView>,
            ConfigErrorView,
        >::Ok(
            seq![
                AccessorConfigView {
                    name: spec_default_name(policy.default_prefix, field.name),
                    visibility: SetterVisibility::Pub,
                    ref_strategy: GetterRefStrategy::ByValue,
                    with_into: true,
                },
            ],
        ),
{
    let anns = field.annotations;
    assert(!spec_is_disabled(anns, policy)) by {
        if spec_is_disabled(anns, policy) {
            let i = choose|i: int|
                0 <= i < anns.len() && (#[trigger] anns[i]).tag == policy.disable_tag;
            assert(spec_is_directive_tag(anns[i].tag, policy));
        }
    }
    assert(forall|i: int|
        0 <= i < anns.len() ==> !spec_is_umbrella_tag((#[trigger] anns[i]).tag, policy));
    lemma_no_umbrella_configs(anns, field.name, policy);
    assert(!crate::resolve::spec_has_legacy(anns, policy)) by {
        if crate::resolve::spec_has_legacy(anns, policy) {
            let i = choose|i: int|
                0 <= i < anns.len() && spec_is_legacy_tag((#[trigger] anns[i]).tag, policy);
            assert(spec_is_directive_tag(anns[i].tag, policy));
        }
    }
    if policy.default_prefix.len() > 0 {
        lemma_concat_identifier(policy.default_prefix, field.name);
    }
    assert(is_identifier(spec_default_name(policy.default_prefix, field.name)));
    assert(spec_config_of_params(spec_empty_params(), field.name, policy) == Result::<
        AccessorConfigView,
        ConfigErrorView,
    >::Ok(
        AccessorConfigView {
            name: spec_default_name(policy.default_prefix, field.name),
            visibility: SetterVisibility::Pub,
            ref_strategy: GetterRefStrategy::ByValue,
            with_into: true,
        },
    ));
}

/// A disabled field yields no configs at all, whatever its other
/// directives say, and its stripped annotation list carries no
/// recognized directive.
pub proof fn lemma_disabled_field(field: FieldSchemaView, policy: PolicyView)
    requires
        spec_is_disabled(field.annotations, policy),
    ensures
        spec_resolve_field(field, policy) == Result::<
            Seq<AccessorConfigView>,
            ConfigErrorView,
        >::Ok(Seq::empty()),
        forall|i: int|
            0 <= i < spec_strip(field.annotations, policy).len() ==> !spec_is_directive_tag(
                (#[trigger] spec_strip(field.annotations, policy)[i]).tag,
                policy,
            ),
{
    lemma_strip_clean(field.annotations, policy);
}

/// The naming decision table, row by row: an explicit name wins alone
/// and tolerates no prefix or suffix beside it; a prefix joins with
/// the suffix or the field name; a bare suffix joins with the default
/// prefix, or is refused outright under the strict policy option;
/// nothing at all yields the default name.
pub proof fn lemma_naming_table(
    name: Option<Seq<char>>,
    prefix: Option<Seq<char>>,
    suffix: Option<Seq<char>>,
    field_name: Seq<char>,
    default_prefix: Seq<char>,
    suffix_requires_prefix: bool,
)
    ensures
        name is Some && prefix is None && suffix is None ==> spec_make_name(
            name,
            prefix,
            suffix,
            field_name,
            default_prefix,
            suffix_requires_prefix,
        ) == Result::<Seq<char>, ConfigErrorView>::Ok(name->0),
        name is None && prefix is Some && suffix is Some ==> spec_make_name(
            name,
            prefix,
            suffix,
            field_name,
            default_prefix,
            suffix_requires_prefix,
        ) == Result::<Seq<char>, ConfigErrorView>::Ok(spec_concat_name(prefix->0, suffix->0)),
        name is None && prefix is Some && suffix is None ==> spec_make_name(
            name,
            prefix,
            suffix,
            field_name,
            default_prefix,
            suffix_requires_prefix,
        ) == Result::<Seq<char>, ConfigErrorView>::Ok(spec_concat_name(prefix->0, field_name)),
        name is None && prefix is None && suffix is Some && !suffix_requires_prefix
            ==> spec_make_name(
            name,
            prefix,
            suffix,
            field_name,
            default_prefix,
            suffix_requires_prefix,
        ) == Result::<Seq<char>, ConfigErrorView>::Ok(
            spec_default_name(default_prefix, suffix->0),
        ),
        name is None && prefix is None && suffix is Some && suffix_requires_prefix
            ==> spec_make_name(
            name,
            prefix,
            suffix,
            field_name,
            default_prefix,
            suffix_requires_prefix,
        ) == Result::<Seq<char>, ConfigErrorView>::Err(ConfigErrorView::SuffixWithoutPrefix),
        name is None && prefix is None && suffix is None ==> spec_make_name(
            name,
            prefix,
            suffix,
            field_name,
            default_prefix,
            suffix_requires_prefix,
        ) == Result::<Seq<char>, ConfigErrorView>::Ok(
            spec_default_name(default_prefix, field_name),
        ),
        name is Some && (prefix is Some || suffix is Some) ==> spec_make_name(
            name,
            prefix,
            suffix,
            field_name,
            default_prefix,
            suffix_requires_prefix,
        ) == Result::<Seq<char>, ConfigErrorView>::Err(
            ConfigErrorView::NameExclusion {
                with_prefix: prefix is Some,
                with_suffix: suffix is Some,
            },
        ),
{
}

/// For a field declared with the optional-value wrapper around some
/// inner type, a synthesized setter takes exactly one parameter of
/// the inner type — convertible when `with_into` is set, exact
/// otherwise — and stores the supplied value wrapped: after applying
/// it, the field holds the optional cell filled with that value, and
/// every other field is untouched.
pub proof fn lemma_optional_wrapper_setter(
    field: FieldSchemaView,
    cfg: AccessorConfigView,
    policy: PolicyView,
    rec: Seq<FieldBindingView>,
    arg: FieldValView,
)
    requires
        policy.unwrap_optional,
        !(policy.kind is Getter),
        spec_is_option_wrapper(field.ty),
        spec_has_field(rec, field.name),
    ensures
        spec_synthesize(field, cfg, policy).params =~= seq![
            MethodParamView { name: field.name, ty: field.ty.args[0], by_into: cfg.with_into },
        ],
        spec_synthesize(field, cfg, policy).wrap == WrapMode::WrapInOptional,
        spec_get_field(
            spec_set_field(
                rec,
                field.name,
                spec_store(spec_synthesize(field, cfg, policy).wrap, arg),
            ),
            field.name,
        ) == Option::Some(SlotView::OptionalCell(Option::Some(arg))),
        forall|j: int|
            0 <= j < rec.len() && (#[trigger] rec[j]).name != field.name ==> spec_set_field(
                rec,
                field.name,
                spec_store(spec_synthesize(field, cfg, policy).wrap, arg),
            )[j] == rec[j],
{
    lemma_get_after_set(rec, field.name, spec_store(WrapMode::WrapInOptional, arg));
}

/// A field carrying exactly two umbrella directives yields exactly
/// two configs, one per directive, in order, each resolved from its
/// own directive alone.
pub proof fn lemma_two_umbrella_directives(
    field: FieldSchemaView,
    policy: PolicyView,
    c1: AccessorConfigView,
    c2: AccessorConfigView,
)
    requires
        policy.multi_config,
        field.annotations.len() == 2,
        spec_is_umbrella_tag(field.annotations[0].tag, policy),
        spec_is_umbrella_tag(field.annotations[1].tag, policy),
        field.annotations[0].tag != policy.disable_tag,
        field.annotations[1].tag != policy.disable_tag,
        !spec_is_legacy_tag(field.annotations[0].tag, policy),
        !spec_is_legacy_tag(field.annotations[1].tag, policy),
        ({
            let ps = crate::directive::spec_umbrella_params(field.annotations[0], policy);
            ps matches Result::Ok(p) && spec_config_of_params(p, field.name, policy)
                == Result::<AccessorConfigView, ConfigErrorView>::Ok(c1)
        }),
        ({
            let ps = crate::directive::spec_umbrella_params(field.annotations[1], policy);
            ps matches Result::Ok(p) && spec_config_of_params(p, field.name, policy)
                == Result::<AccessorConfigView, ConfigErrorView>::Ok(c2)
        }),
    ensures
        spec_resolve_field(field, policy) == Result::<
            Seq<AccessorConfigView>,
            ConfigErrorView,
        >::Ok(seq![c1, c2]),
{
    let anns = field.annotations;
    assert(!spec_is_disabled(anns, policy)) by {
        if spec_is_disabled(anns, policy) {
            let i = choose|i: int|
                0 <= i < anns.len() && (#[trigger] anns[i]).tag == policy.disable_tag;
        }
    }
    assert(!crate::resolve::spec_has_legacy(anns, policy)) by {
        if crate::resolve::spec_has_legacy(anns, policy) {
            let i = choose|i: int|
                0 <= i < anns.len() && spec_is_legacy_tag((#[trigger] anns[i]).tag, policy);
        }
    }
    let a01 = anns.drop_last();
    assert(a01.len() == 1);
    assert(a01.last() == anns[0]);
    assert(a01.drop_last().len() == 0);
    assert(spec_umbrella_configs(a01.drop_last(), field.name, policy) == Result::<
        Seq<AccessorConfigView>,
        ConfigErrorView,
    >::Ok(Seq::empty()));
    assert(spec_umbrella_configs(a01, field.name, policy) == Result::<
        Seq<AccessorConfigView>,
        ConfigErrorView,
    >::Ok(Seq::empty().push(c1)));
    assert(anns.last() == anns[1]);
    assert(spec_umbrella_configs(anns, field.name, policy) == Result::<
        Seq<AccessorConfigView>,
        ConfigErrorView,
    >::Ok(Seq::empty().push(c1).push(c2)));
    assert(Seq::empty().push(c1).push(c2) =~= seq![c1, c2]);
}

/// The visibility literals resolve exactly as documented: `pub`,
/// `pub(crate)` and `private` to their variants, the empty string to
/// self-only where the policy allows it, and everything else to the
/// invalid-enum error carrying the offending value. Synthesis then
/// carries the resolved visibility onto the method verbatim.
pub proof fn lemma_visibility_literals(allow_empty: bool)
    ensures
        spec_visibility_of("pub"@, allow_empty) == Result::<
            SetterVisibility,
            ConfigErrorView,
        >::Ok(SetterVisibility::Pub),
        spec_visibility_of("pub(crate)"@, allow_empty) == Result::<
            SetterVisibility,
            ConfigErrorView,
        >::Ok(SetterVisibility::PubForCrate),
        spec_visibility_of("private"@, allow_empty) == Result::<
            SetterVisibility,
            ConfigErrorView,
        >::Ok(SetterVisibility::Private),
        allow_empty ==> spec_visibility_of(Seq::empty(), allow_empty) == Result::<
            SetterVisibility,
            ConfigErrorView,
        >::Ok(SetterVisibility::Private),
        forall|v: Seq<char>|
            !(v == "pub"@ || v == "pub(crate)"@ || v == "private"@ || (allow_empty && v.len()
                == 0)) ==> spec_visibility_of(v, allow_empty) == Result::<
                SetterVisibility,
                ConfigErrorView,
            >::Err(ConfigErrorView::InvalidVisibility { value: v }),
        forall|field: FieldSchemaView, cfg: AccessorConfigView, policy: PolicyView|
            (#[trigger] spec_synthesize(field, cfg, policy)).visibility == cfg.visibility,
{
    reveal_strlit("pub");
    reveal_strlit("pub(crate)");
    reveal_strlit("private");
    assert("pub"@.len() == 3);
    assert("pub(crate)"@.len() == 10);
    assert("private"@.len() == 7);
}

/// Directive stripping is idempotent: re-running the engine on its
/// own emitted record finds no directives left, so the record passes
/// through unchanged a second time.
pub proof fn lemma_strip_idempotent(anns: Seq<AnnotationView>, policy: PolicyView)
    ensures
        spec_strip(spec_strip(anns, policy), policy) =~= spec_strip(anns, policy),
{
    lemma_strip_clean(anns, policy);
    lemma_strip_of_clean(spec_strip(anns, policy), policy);
}

/// The record-level statement of idempotence: stripping the already
/// stripped fields changes nothing, so the emitted record is a fixed
/// point of the rewriter.
pub proof fn lemma_strip_fields_idempotent(fields: Seq<FieldSchemaView>, policy: PolicyView)
    ensures
        spec_strip_fields(spec_strip_fields(fields, policy), policy) =~= spec_strip_fields(
            fields,
            policy,
        ),
    decreases fields.len(),
{
    if fields.len() > 0 {
        lemma_strip_fields_idempotent(fields.drop_last(), policy);
        let once = spec_strip_fields(fields, policy);
        assert(once.drop_last() =~= spec_strip_fields(fields.drop_last(), policy));
        lemma_strip_idempotent(fields.last().annotations, policy);
        assert(once.last() == crate::rewrite::spec_strip_field(fields.last(), policy));
        assert(crate::rewrite::spec_strip_field(once.last(), policy) =~= once.last());
    }
}


/// Whether a field carries no recognized directive at all.
pub open spec fn field_is_bare(f: FieldSchemaView, policy: PolicyView) -> bool {
    forall|k: int|
        0 <= k < f.annotations.len() ==> !spec_is_directive_tag(
            (#[trigger] f.annotations[k]).tag,
            policy,
        )
}

/// Resolving a list of directive-free fields with identifier names
/// cannot fail: every field gets its default config.
proof fn lemma_record_defaults_succeed(fields: Seq<FieldSchemaView>, policy: PolicyView)
    requires
        forall|i: int|
            0 <= i < fields.len() ==> field_is_bare(#[trigger] fields[i], policy)
                && is_identifier(fields[i].name),
        policy.default_prefix.len() > 0 ==> is_identifier(policy.default_prefix),
    ensures
        crate::rewrite::spec_record_configs(fields, policy) is Ok,
    decreases fields.len(),
{
    if fields.len() > 0 {
        assert(forall|i: int|
            0 <= i < fields.drop_last().len() ==> field_is_bare(
                #[trigger] fields.drop_last()[i],
                policy,
            ) && is_identifier(fields.drop_last()[i].name));
        lemma_record_defaults_succeed(fields.drop_last(), policy);
        assert(fields.last() == fields[fields.len() - 1]);
        lemma_default_config(fields.last(), policy);
    }
}

/// Success is owed on clean input: a named-field record whose fields
/// carry no recognized directives and whose names are identifiers
/// (with an identifier default prefix, where the policy has one)
/// always expands without error.
pub proof fn lemma_expand_defaults_succeed(
    record: crate::schema::RecordSchemaView,
    policy: PolicyView,
)
    requires
        record.fields matches crate::schema::RecordFieldsView::Named(fields) && (forall|i: int|
            0 <= i < fields.len() ==> field_is_bare(#[trigger] fields[i], policy)
                && is_identifier(fields[i].name)),
        policy.default_prefix.len() > 0 ==> is_identifier(policy.default_prefix),
    ensures
        crate::rewrite::spec_expand(record, policy) is Ok,
{
    match record.fields {
        crate::schema::RecordFieldsView::Named(fields) => {
            lemma_record_defaults_succeed(fields, policy);
        },
        _ => {
            assert(false);
        },
    }
}

} // verus!
