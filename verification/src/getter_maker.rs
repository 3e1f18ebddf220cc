//! The getter variant: umbrella `configure_getter(...)` /
//! `disable_getters` directives plus the legacy `getter_*`
//! single-purpose tags. A getter is named after its field by default
//! (no default prefix), `suffix` strictly requires `prefix`, and the
//! `ref_strategy` key chooses between returning a non-owning
//! reference and returning the field by value.

use crate::config::AccessorConfigView;
use crate::error::{ConfigError, ConfigErrorView};
use crate::method::{MethodSpec, view_methods};
use crate::policy::{getters_policy, spec_getters_policy};
use crate::rewrite::{Expansion, expand, record_configs, spec_expand, spec_record_configs,
    spec_synthesize_pairs, view_expand_result, view_fc_pairs};
use crate::schema::{FieldSchema, FieldSchemaView, RecordSchema, view_fields};
use vstd::prelude::*;

pub use crate::config::{GetterRefStrategy, SetterVisibility};
pub use crate::rewrite::make_impl_block;

verus! {

/// Spec mirror of [`GetterConfig`].
#[verifier::ext_equal]
pub struct GetterConfigView {
    pub name: Seq<char>,
    pub visibility: SetterVisibility,
    pub ref_strategy: GetterRefStrategy,
}

/// One resolved getter: the method name, the visibility, and how the
/// field is returned.
#[derive(Debug, PartialEq, Eq)]
pub struct GetterConfig {
    name: String,
    visibility: SetterVisibility,
    ref_strategy: GetterRefStrategy,
}

impl View for GetterConfig {
    type V = GetterConfigView;

    closed spec fn view(&self) -> GetterConfigView {
        GetterConfigView {
            name: self.name@,
            visibility: self.visibility,
            ref_strategy: self.ref_strategy,
        }
    }
}

impl GetterConfig {
    /// The generated method's name.
    pub fn name(&self) -> (r: &String)
        ensures
            r@ == self@.name,
    {
        &self.name
    }

    /// The generated method's visibility.
    pub fn visibility(&self) -> (r: SetterVisibility)
        ensures
            r == self@.visibility,
    {
        self.visibility
    }

    /// Whether the getter returns a reference or a value.
    pub fn ref_strategy(&self) -> (r: GetterRefStrategy)
        ensures
            r == self@.ref_strategy,
    {
        self.ref_strategy
    }
}

/// Resolves every field's getter directives into getter configs, in
/// field order then directive order.
pub fn make_getter_configs(fields: &Vec<FieldSchema>) -> (r: Result<
    Vec<GetterConfig>,
    ConfigError,
>)
    ensures
        ({
            let spec = spec_record_configs(view_fields(fields@), spec_getters_policy());
            match r {
                Result::Ok(cfgs) => spec matches Result::Ok(pairs) && cfgs@.len() == pairs.len()
                    && (forall|j: int|
                    0 <= j < pairs.len() ==> {
                        &&& (#[trigger] cfgs@[j])@.name == pairs[j].1.name
                        &&& cfgs@[j]@.visibility == pairs[j].1.visibility
                        &&& cfgs@[j]@.ref_strategy == pairs[j].1.ref_strategy
                    }),
                Result::Err(e) => spec == Result::<
                    Seq<(FieldSchemaView, AccessorConfigView)>,
                    ConfigErrorView,
                >::Err(e@),
            }
        }),
{
    let policy = getters_policy();
    let pairs = match record_configs(fields, &policy) {
        Result::Err(e) => {
            return Result::Err(e);
        },
        Result::Ok(pairs) => pairs,
    };
    let mut cfgs: Vec<GetterConfig> = Vec::new();
    let mut i: usize = 0;
    while i < pairs.len()
        invariant
            i <= pairs.len(),
            cfgs@.len() == i as int,
            forall|j: int|
                0 <= j < i as int ==> {
                    &&& (#[trigger] cfgs@[j])@.name == view_fc_pairs(pairs@)[j].1.name
                    &&& cfgs@[j]@.visibility == view_fc_pairs(pairs@)[j].1.visibility
                    &&& cfgs@[j]@.ref_strategy == view_fc_pairs(pairs@)[j].1.ref_strategy
                },
        decreases pairs.len() - i,
    {
        let cfg = GetterConfig {
            name: pairs[i].1.name.clone(),
            visibility: pairs[i].1.visibility,
            ref_strategy: pairs[i].1.ref_strategy,
        };
        cfgs.push(cfg);
        i = i + 1;
    }
    Result::Ok(cfgs)
}

/// Synthesizes the getter methods for the given field-and-config
/// pairs, in order.
pub fn make_getter_methods(getter_configs: &Vec<(FieldSchema, crate::config::AccessorConfig)>)
    -> (ms: Vec<MethodSpec>)
    ensures
        view_methods(ms@) == spec_synthesize_pairs(
            view_fc_pairs(getter_configs@),
            spec_getters_policy(),
        ),
{
    let policy = getters_policy();
    crate::rewrite::synthesize_pairs(getter_configs, &policy)
}

/// Runs the getter pipeline on a parsed record.
pub fn do_make_getters(input: RecordSchema) -> (r: Result<Expansion, ConfigError>)
    ensures
        view_expand_result(r) == spec_expand(input@, spec_getters_policy()),
{
    let policy = getters_policy();
    expand(input, &policy)
}

/// The variant's entry point: expands a parsed record into the
/// stripped record plus its getters.
pub fn make_getters(input: RecordSchema) -> (r: Result<Expansion, ConfigError>)
    ensures
        view_expand_result(r) == spec_expand(input@, spec_getters_policy()),
{
    do_make_getters(input)
}

} // verus!
