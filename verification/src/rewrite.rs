//! The record rewriter and the whole-record pipeline: the record
//! definition comes through unchanged except that the consumed
//! directives are stripped, followed by one implementation block
//! holding every synthesized method, in field order, then per-field
//! directive order. Any configuration error aborts the whole
//! expansion with no partial output.

use crate::config::{AccessorConfig, AccessorConfigView, view_configs};
use crate::error::{ConfigError, ConfigErrorView};
use crate::method::{MethodSpec, MethodSpecView, spec_synthesize, synthesize, view_methods};
use crate::policy::{EnginePolicy, PolicyView};
use crate::resolve::{resolve_field, spec_resolve_field, spec_strip, strip_annotations};
use crate::schema::{FieldSchema, FieldSchemaView, RecordFields, RecordFieldsView, RecordSchema,
    RecordSchemaView, view_fields};
use vstd::prelude::*;

verus! {

/// The field-and-config pairs of a whole record, flattened: every
/// field contributes one pair per resolved config, in field order,
/// then directive order.
pub open spec fn spec_field_pairs(f: FieldSchemaView, cfgs: Seq<AccessorConfigView>) -> Seq<
    (FieldSchemaView, AccessorConfigView),
>
    decreases cfgs.len(),
{
    if cfgs.len() == 0 {
        Seq::empty()
    } else {
        spec_field_pairs(f, cfgs.drop_last()).push((f, cfgs.last()))
    }
}

/// Resolves every field and flattens the outcome, stopping at the
/// first error.
pub open spec fn spec_record_configs(fields: Seq<FieldSchemaView>, policy: PolicyView) -> Result<
    Seq<(FieldSchemaView, AccessorConfigView)>,
    ConfigErrorView,
>
    decreases fields.len(),
{
    if fields.len() == 0 {
        Result::Ok(Seq::empty())
    } else {
        match spec_record_configs(fields.drop_last(), policy) {
            Result::Err(e) => Result::Err(e),
            Result::Ok(acc) => match spec_resolve_field(fields.last(), policy) {
                Result::Err(e) => Result::Err(e),
                Result::Ok(cfgs) => Result::Ok(acc + spec_field_pairs(fields.last(), cfgs)),
            },
        }
    }
}

/// One synthesized method per pair, in order.
pub open spec fn spec_synthesize_pairs(
    pairs: Seq<(FieldSchemaView, AccessorConfigView)>,
    policy: PolicyView,
) -> Seq<MethodSpecView>
    decreases pairs.len(),
{
    if pairs.len() == 0 {
        Seq::empty()
    } else {
        spec_synthesize_pairs(pairs.drop_last(), policy).push(
            spec_synthesize(pairs.last().0, pairs.last().1, policy),
        )
    }
}

/// One field with its consumed directives removed.
pub open spec fn spec_strip_field(f: FieldSchemaView, policy: PolicyView) -> FieldSchemaView {
    FieldSchemaView { name: f.name, ty: f.ty, annotations: spec_strip(f.annotations, policy) }
}

/// Every field with its consumed directives removed, in order.
pub open spec fn spec_strip_fields(fields: Seq<FieldSchemaView>, policy: PolicyView) -> Seq<
    FieldSchemaView,
>
    decreases fields.len(),
{
    if fields.len() == 0 {
        Seq::empty()
    } else {
        spec_strip_fields(fields.drop_last(), policy).push(
            spec_strip_field(fields.last(), policy),
        )
    }
}

/// Spec mirror of [`ImplBlock`].
#[verifier::ext_equal]
pub struct ImplBlockView {
    pub record_name: Seq<char>,
    pub generics: Seq<char>,
    pub methods: Seq<MethodSpecView>,
}

/// The generated implementation block: the record it extends, the
/// generic-parameter text to propagate, and the methods, in order.
#[derive(Debug, PartialEq, Eq)]
pub struct ImplBlock {
    pub record_name: String,
    pub generics: String,
    pub methods: Vec<MethodSpec>,
}

impl View for ImplBlock {
    type V = ImplBlockView;

    open spec fn view(&self) -> ImplBlockView {
        ImplBlockView {
            record_name: self.record_name@,
            generics: self.generics@,
            methods: view_methods(self.methods@),
        }
    }
}

/// Spec mirror of [`Expansion`].
#[verifier::ext_equal]
pub struct ExpansionView {
    pub record: RecordSchemaView,
    pub impl_block: ImplBlockView,
}

/// The engine's whole output: the record definition, unchanged but
/// for the stripped directives, plus one implementation block.
#[derive(Debug, PartialEq, Eq)]
pub struct Expansion {
    pub record: RecordSchema,
    pub impl_block: ImplBlock,
}

impl View for Expansion {
    type V = ExpansionView;

    open spec fn view(&self) -> ExpansionView {
        ExpansionView { record: self.record@, impl_block: self.impl_block@ }
    }
}

/// Spec mirror of an expansion result.
pub open spec fn view_expand_result(r: Result<Expansion, ConfigError>) -> Result<
    ExpansionView,
    ConfigErrorView,
> {
    match r {
        Result::Ok(x) => Result::Ok(x@),
        Result::Err(e) => Result::Err(e@),
    }
}

/// The whole pipeline over spec values: named fields are required;
/// every field resolves to its configs; the output holds the stripped
/// record and one implementation block with every synthesized method.
pub open spec fn spec_expand(record: RecordSchemaView, policy: PolicyView) -> Result<
    ExpansionView,
    ConfigErrorView,
> {
    match record.fields {
        RecordFieldsView::Named(fields) => match spec_record_configs(fields, policy) {
            Result::Err(e) => Result::Err(e),
            Result::Ok(pairs) => Result::Ok(
                ExpansionView {
                    record: RecordSchemaView {
                        name: record.name,
                        generics: record.generics,
                        fields: RecordFieldsView::Named(spec_strip_fields(fields, policy)),
                    },
                    impl_block: ImplBlockView {
                        record_name: record.name,
                        generics: record.generics,
                        methods: spec_synthesize_pairs(pairs, policy),
                    },
                },
            ),
        },
        _ => Result::Err(ConfigErrorView::NotNamedFields),
    }
}

/// Element-wise spec mirror of a pair list.
pub open spec fn view_fc_pairs(s: Seq<(FieldSchema, AccessorConfig)>) -> Seq<
    (FieldSchemaView, AccessorConfigView),
> {
    s.map(|i: int, p: (FieldSchema, AccessorConfig)| (p.0@, p.1@))
}

/// An error while resolving the first `i + 1` fields propagates to
/// the resolution of the whole list.
proof fn lemma_record_configs_error(
    fields: Seq<FieldSchemaView>,
    policy: PolicyView,
    i: int,
    e: ConfigErrorView,
)
    requires
        0 <= i < fields.len(),
        spec_record_configs(fields.subrange(0, i + 1), policy) == Result::<
            Seq<(FieldSchemaView, AccessorConfigView)>,
            ConfigErrorView,
        >::Err(e),
    ensures
        spec_record_configs(fields, policy) == Result::<
            Seq<(FieldSchemaView, AccessorConfigView)>,
            ConfigErrorView,
        >::Err(e),
    decreases fields.len() - i,
{
    if i + 1 == fields.len() {
        assert(fields.subrange(0, i + 1) =~= fields);
    } else {
        assert(fields.subrange(0, i + 2).drop_last() =~= fields.subrange(0, i + 1));
        lemma_record_configs_error(fields, policy, i + 1, e);
    }
}

/// Resolves every field of the record into flattened field-and-config
/// pairs, per [`spec_record_configs`].
pub fn record_configs(fields: &Vec<FieldSchema>, policy: &EnginePolicy) -> (r: Result<
    Vec<(FieldSchema, AccessorConfig)>,
    ConfigError,
>)
    ensures
        match r {
            Result::Ok(pairs) => spec_record_configs(view_fields(fields@), policy@) == Result::<
                Seq<(FieldSchemaView, AccessorConfigView)>,
                ConfigErrorView,
            >::Ok(view_fc_pairs(pairs@)),
            Result::Err(e) => spec_record_configs(view_fields(fields@), policy@) == Result::<
                Seq<(FieldSchemaView, AccessorConfigView)>,
                ConfigErrorView,
            >::Err(e@),
        },
{
    let ghost fview = view_fields(fields@);
    let mut out: Vec<(FieldSchema, AccessorConfig)> = Vec::new();
    let mut i: usize = 0;
    proof {
        assert(fview.subrange(0, 0) =~= Seq::<FieldSchemaView>::empty());
        assert(view_fc_pairs(out@) =~= Seq::<(FieldSchemaView, AccessorConfigView)>::empty());
    }
    while i < fields.len()
        invariant
            i <= fields.len(),
            fview == view_fields(fields@),
            fview.len() == fields@.len(),
            spec_record_configs(fview.subrange(0, i as int), policy@) == Result::<
                Seq<(FieldSchemaView, AccessorConfigView)>,
                ConfigErrorView,
            >::Ok(view_fc_pairs(out@)),
        decreases fields.len() - i,
    {
        let field = &fields[i];
        proof {
            assert(field@ == fview[i as int]);
            assert(fview.subrange(0, i + 1).drop_last() =~= fview.subrange(0, i as int));
            assert(fview.subrange(0, i + 1).last() == fview[i as int]);
        }
        match resolve_field(field, policy) {
            Result::Err(e) => {
                proof {
                    lemma_record_configs_error(fview, policy@, i as int, e@);
                }
                return Result::Err(e);
            },
            Result::Ok(cfgs) => {
                let ghost acc = view_fc_pairs(out@);
                let ghost cview = view_configs(cfgs@);
                let mut k: usize = 0;
                proof {
                    assert(cview.subrange(0, 0) =~= Seq::<AccessorConfigView>::empty());
                    assert(view_fc_pairs(out@) =~= acc + spec_field_pairs(
                        fview[i as int],
                        cview.subrange(0, 0),
                    ));
                }
                while k < cfgs.len()
                    invariant
                        k <= cfgs.len(),
                        cview == view_configs(cfgs@),
                        cview.len() == cfgs@.len(),
                        fview == view_fields(fields@),
                        fview.len() == fields@.len(),
                        i < fields.len(),
                        fields@[i as int]@ == fview[i as int],
                        view_fc_pairs(out@) == acc + spec_field_pairs(
                            fview[i as int],
                            cview.subrange(0, k as int),
                        ),
                    decreases cfgs.len() - k,
                {
                    let ghost prev = view_fc_pairs(out@);
                    out.push((fields[i].clone(), cfgs[k].clone()));
                    proof {
                        assert(cfgs@[k as int]@ == cview[k as int]);
                        assert(cview.subrange(0, k + 1).drop_last() =~= cview.subrange(
                            0,
                            k as int,
                        ));
                        assert(cview.subrange(0, k + 1).last() == cview[k as int]);
                        assert(view_fc_pairs(out@) =~= prev.push(
                            (fview[i as int], cview[k as int]),
                        ));
                        assert(view_fc_pairs(out@) =~= acc + spec_field_pairs(
                            fview[i as int],
                            cview.subrange(0, k + 1),
                        ));
                    }
                    k = k + 1;
                }
                proof {
                    assert(cview.subrange(0, cfgs@.len() as int) =~= cview);
                }
            },
        }
        i = i + 1;
    }
    proof {
        assert(fview.subrange(0, fields@.len() as int) =~= fview);
    }
    Result::Ok(out)
}

/// Synthesizes one method per pair, per [`spec_synthesize_pairs`].
pub fn synthesize_pairs(pairs: &Vec<(FieldSchema, AccessorConfig)>, policy: &EnginePolicy) -> (ms:
    Vec<MethodSpec>)
    ensures
        view_methods(ms@) == spec_synthesize_pairs(view_fc_pairs(pairs@), policy@),
{
    let ghost pview = view_fc_pairs(pairs@);
    let mut ms: Vec<MethodSpec> = Vec::new();
    let mut i: usize = 0;
    proof {
        assert(pview.subrange(0, 0) =~= Seq::<(FieldSchemaView, AccessorConfigView)>::empty());
        assert(view_methods(ms@) =~= spec_synthesize_pairs(pview.subrange(0, 0), policy@));
    }
    while i < pairs.len()
        invariant
            i <= pairs.len(),
            pview == view_fc_pairs(pairs@),
            pview.len() == pairs@.len(),
            view_methods(ms@) == spec_synthesize_pairs(pview.subrange(0, i as int), policy@),
        decreases pairs.len() - i,
    {
        let ghost prev = view_methods(ms@);
        let m = synthesize(&pairs[i].0, &pairs[i].1, policy);
        ms.push(m);
        proof {
            assert((pairs@[i as int].0@, pairs@[i as int].1@) == pview[i as int]);
            assert(pview.subrange(0, i + 1).drop_last() =~= pview.subrange(0, i as int));
            assert(pview.subrange(0, i + 1).last() == pview[i as int]);
            assert(view_methods(ms@) =~= prev.push(ms@.last()@));
        }
        i = i + 1;
    }
    proof {
        assert(pview.subrange(0, pairs@.len() as int) =~= pview);
    }
    ms
}

/// Strips the consumed directives from every field, per
/// [`spec_strip_fields`].
pub fn strip_fields(fields: &Vec<FieldSchema>, policy: &EnginePolicy) -> (r: Vec<FieldSchema>)
    ensures
        view_fields(r@) == spec_strip_fields(view_fields(fields@), policy@),
{
    let ghost fview = view_fields(fields@);
    let mut out: Vec<FieldSchema> = Vec::new();
    let mut i: usize = 0;
    proof {
        assert(fview.subrange(0, 0) =~= Seq::<FieldSchemaView>::empty());
        assert(view_fields(out@) =~= spec_strip_fields(fview.subrange(0, 0), policy@));
    }
    while i < fields.len()
        invariant
            i <= fields.len(),
            fview == view_fields(fields@),
            fview.len() == fields@.len(),
            view_fields(out@) == spec_strip_fields(fview.subrange(0, i as int), policy@),
        decreases fields.len() - i,
    {
        let ghost prev = view_fields(out@);
        let field = &fields[i];
        let stripped = FieldSchema {
            name: field.name.clone(),
            ty: field.ty.clone(),
            annotations: strip_annotations(&field.annotations, policy),
        };
        proof {
            assert(field@ == fview[i as int]);
            assert(stripped@ =~= spec_strip_field(fview[i as int], policy@));
        }
        out.push(stripped);
        proof {
            assert(fview.subrange(0, i + 1).drop_last() =~= fview.subrange(0, i as int));
            assert(fview.subrange(0, i + 1).last() == fview[i as int]);
            assert(view_fields(out@) =~= prev.push(out@.last()@));
        }
        i = i + 1;
    }
    proof {
        assert(fview.subrange(0, fields@.len() as int) =~= fview);
    }
    out
}

/// Assembles the implementation block from the record's identity and
/// the synthesized methods.
pub fn make_impl_block(struct_name: &String, generics: &String, methods: Vec<MethodSpec>) -> (r:
    ImplBlock)
    ensures
        r@.record_name == struct_name@,
        r@.generics == generics@,
        r@.methods == view_methods(methods@),
{
    ImplBlock { record_name: struct_name.clone(), generics: generics.clone(), methods }
}

/// Runs the whole pipeline for one record under one policy, per
/// [`spec_expand`].
pub fn expand(record: RecordSchema, policy: &EnginePolicy) -> (r: Result<Expansion, ConfigError>)
    ensures
        view_expand_result(r) == spec_expand(record@, policy@),
{
    let ghost rview = record@;
    let fields = match &record.fields {
        RecordFields::Named(fields) => fields,
        _ => {
            return Result::Err(ConfigError::NotNamedFields);
        },
    };
    let pairs = match record_configs(fields, policy) {
        Result::Err(e) => {
            return Result::Err(e);
        },
        Result::Ok(pairs) => pairs,
    };
    let methods = synthesize_pairs(&pairs, policy);
    let stripped = strip_fields(fields, policy);
    let impl_block = make_impl_block(&record.name, &record.generics, methods);
    let out = Expansion {
        record: RecordSchema {
            name: record.name,
            generics: record.generics,
            fields: RecordFields::Named(stripped),
        },
        impl_block,
    };
    proof {
        match spec_expand(rview, policy@) {
            Result::Ok(v) => {
                assert(out@ =~~= v);
            },
            Result::Err(_) => {
                assert(false);
            },
        }
    }
    Result::Ok(out)
}

} // verus!
