//! The mutating-setter variant: umbrella `basic_setter(...)` /
//! `disable_basic_setters` directives, one config per directive,
//! default prefix `set`, the `with_into` key recognized, and the
//! optional-value wrapper unwrapped in setter signatures. Generated
//! setters assign in place and return nothing.

use crate::config::AccessorConfigView;
use crate::error::{ConfigError, ConfigErrorView};
use crate::method::{MethodSpec, view_methods};
use crate::policy::{basic_setters_policy, spec_basic_setters_policy};
use crate::rewrite::{Expansion, expand, record_configs, spec_expand, spec_record_configs,
    spec_synthesize_pairs, view_expand_result, view_fc_pairs};
use crate::schema::{FieldSchema, FieldSchemaView, RecordSchema, view_fields};
use vstd::prelude::*;

pub use crate::config::SetterVisibility;
pub use crate::rewrite::make_impl_block;

verus! {

/// Spec mirror of [`SetterConfig`].
#[verifier::ext_equal]
pub struct SetterConfigView {
    pub name: Seq<char>,
    pub visibility: SetterVisibility,
    pub with_into: bool,
}

/// One resolved mutating setter: the method name, the visibility,
/// and whether the parameter goes through an implicit conversion.
#[derive(Debug, PartialEq, Eq)]
pub struct SetterConfig {
    name: String,
    visibility: SetterVisibility,
    with_into: bool,
}

impl View for SetterConfig {
    type V = SetterConfigView;

    closed spec fn view(&self) -> SetterConfigView {
        SetterConfigView {
            name: self.name@,
            visibility: self.visibility,
            with_into: self.with_into,
        }
    }
}

impl SetterConfig {
    /// The generated method's name.
    pub fn name(&self) -> (r: &String)
        ensures
            r@ == self@.name,
    {
        &self.name
    }

    /// The generated method's visibility.
    pub fn visibility(&self) -> (r: SetterVisibility)
        ensures
            r == self@.visibility,
    {
        self.visibility
    }

    /// Whether the parameter accepts any convertible value.
    pub fn with_into(&self) -> (r: bool)
        ensures
            r == self@.with_into,
    {
        self.with_into
    }
}

/// Resolves every field's `basic_setter` directives into setter
/// configs: one per directive, in field order then directive order.
pub fn make_setter_configs(fields: &Vec<FieldSchema>) -> (r: Result<
    Vec<SetterConfig>,
    ConfigError,
>)
    ensures
        ({
            let spec = spec_record_configs(view_fields(fields@), spec_basic_setters_policy());
            match r {
                Result::Ok(cfgs) => spec matches Result::Ok(pairs) && cfgs@.len() == pairs.len()
                    && (forall|j: int|
                    0 <= j < pairs.len() ==> {
                        &&& (#[trigger] cfgs@[j])@.name == pairs[j].1.name
                        &&& cfgs@[j]@.visibility == pairs[j].1.visibility
                        &&& cfgs@[j]@.with_into == pairs[j].1.with_into
                    }),
                Result::Err(e) => spec == Result::<
                    Seq<(FieldSchemaView, AccessorConfigView)>,
                    ConfigErrorView,
                >::Err(e@),
            }
        }),
{
    let policy = basic_setters_policy();
    let pairs = match record_configs(fields, &policy) {
        Result::Err(e) => {
            return Result::Err(e);
        },
        Result::Ok(pairs) => pairs,
    };
    let mut cfgs: Vec<SetterConfig> = Vec::new();
    let mut i: usize = 0;
    while i < pairs.len()
        invariant
            i <= pairs.len(),
            cfgs@.len() == i as int,
            forall|j: int|
                0 <= j < i as int ==> {
                    &&& (#[trigger] cfgs@[j])@.name == view_fc_pairs(pairs@)[j].1.name
                    &&& cfgs@[j]@.visibility == view_fc_pairs(pairs@)[j].1.visibility
                    &&& cfgs@[j]@.with_into == view_fc_pairs(pairs@)[j].1.with_into
                },
        decreases pairs.len() - i,
    {
        let cfg = SetterConfig {
            name: pairs[i].1.name.clone(),
            visibility: pairs[i].1.visibility,
            with_into: pairs[i].1.with_into,
        };
        cfgs.push(cfg);
        i = i + 1;
    }
    Result::Ok(cfgs)
}

/// Synthesizes the mutating-setter methods for the given
/// field-and-config pairs, in order.
pub fn make_setter_methods(setter_configs: &Vec<(FieldSchema, crate::config::AccessorConfig)>)
    -> (ms: Vec<MethodSpec>)
    ensures
        view_methods(ms@) == spec_synthesize_pairs(
            view_fc_pairs(setter_configs@),
            spec_basic_setters_policy(),
        ),
{
    let policy = basic_setters_policy();
    crate::rewrite::synthesize_pairs(setter_configs, &policy)
}

/// Runs the mutating-setter pipeline on a parsed record.
pub fn do_make_basic_setters(item: RecordSchema) -> (r: Result<Expansion, ConfigError>)
    ensures
        view_expand_result(r) == spec_expand(item@, spec_basic_setters_policy()),
{
    let policy = basic_setters_policy();
    expand(item, &policy)
}

/// The variant's entry point: expands a parsed record into the
/// stripped record plus its mutating setters.
pub fn make_basic_setters(item: RecordSchema) -> (r: Result<Expansion, ConfigError>)
    ensures
        view_expand_result(r) == spec_expand(item@, spec_basic_setters_policy()),
{
    do_make_basic_setters(item)
}

} // verus!
