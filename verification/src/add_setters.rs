//! The builder-setter variant configured by legacy single-purpose
//! directives: `disable_setter`, `setter_name`, `setter_prefix`,
//! `setter_suffix`, `setter_visibility`. Setters are named
//! `with_<field>` by default, always public unless configured, and
//! always accept any value convertible into the field type.

use crate::config::AccessorConfigView;
use crate::error::{ConfigError, ConfigErrorView};
use crate::method::{MethodSpec, view_methods};
use crate::policy::{add_setters_policy, spec_add_setters_policy};
use crate::rewrite::{Expansion, expand, record_configs, spec_expand, spec_record_configs,
    spec_synthesize_pairs, view_expand_result, view_fc_pairs};
use crate::schema::{FieldSchema, FieldSchemaView, RecordSchema, view_fields};
use vstd::prelude::*;

pub use crate::config::SetterVisibility;

verus! {

/// Spec mirror of [`SetterConfig`].
#[verifier::ext_equal]
pub struct SetterConfigView {
    pub field_name: Seq<char>,
    pub name: Seq<char>,
    pub visibility: SetterVisibility,
}

/// One resolved setter for one field: the field it belongs to, the
/// method name, and the visibility.
#[derive(Debug, PartialEq, Eq)]
pub struct SetterConfig {
    field_name: String,
    name: String,
    visibility: SetterVisibility,
}

impl View for SetterConfig {
    type V = SetterConfigView;

    closed spec fn view(&self) -> SetterConfigView {
        SetterConfigView {
            field_name: self.field_name@,
            name: self.name@,
            visibility: self.visibility,
        }
    }
}

impl SetterConfig {
    /// The name of the field this setter assigns.
    pub fn field(&self) -> (r: &String)
        ensures
            r@ == self@.field_name,
    {
        &self.field_name
    }

    /// The generated method's name.
    pub fn name(&self) -> (r: &String)
        ensures
            r@ == self@.name,
    {
        &self.name
    }

    /// The generated method's visibility.
    pub fn visibility(&self) -> (r: SetterVisibility)
        ensures
            r == self@.visibility,
    {
        self.visibility
    }
}

/// Resolves every field's legacy directives into setter configs, in
/// field order, stripping nothing: one config per field that is not
/// disabled.
pub fn make_setter_configs(fields: &Vec<FieldSchema>) -> (r: Result<
    Vec<SetterConfig>,
    ConfigError,
>)
    ensures
        ({
            let spec = spec_record_configs(view_fields(fields@), spec_add_setters_policy());
            match r {
                Result::Ok(cfgs) => spec matches Result::Ok(pairs) && cfgs@.len() == pairs.len()
                    && (forall|j: int|
                    0 <= j < pairs.len() ==> {
                        &&& (#[trigger] cfgs@[j])@.field_name == pairs[j].0.name
                        &&& cfgs@[j]@.name == pairs[j].1.name
                        &&& cfgs@[j]@.visibility == pairs[j].1.visibility
                    }),
                Result::Err(e) => spec == Result::<
                    Seq<(FieldSchemaView, AccessorConfigView)>,
                    ConfigErrorView,
                >::Err(e@),
            }
        }),
{
    let policy = add_setters_policy();
    let pairs = match record_configs(fields, &policy) {
        Result::Err(e) => {
            return Result::Err(e);
        },
        Result::Ok(pairs) => pairs,
    };
    let mut cfgs: Vec<SetterConfig> = Vec::new();
    let mut i: usize = 0;
    while i < pairs.len()
        invariant
            i <= pairs.len(),
            cfgs@.len() == i as int,
            forall|j: int|
                0 <= j < i as int ==> {
                    &&& (#[trigger] cfgs@[j])@.field_name == view_fc_pairs(pairs@)[j].0.name
                    &&& cfgs@[j]@.name == view_fc_pairs(pairs@)[j].1.name
                    &&& cfgs@[j]@.visibility == view_fc_pairs(pairs@)[j].1.visibility
                },
        decreases pairs.len() - i,
    {
        let cfg = SetterConfig {
            field_name: pairs[i].0.name.clone(),
            name: pairs[i].1.name.clone(),
            visibility: pairs[i].1.visibility,
        };
        cfgs.push(cfg);
        i = i + 1;
    }
    Result::Ok(cfgs)
}

/// Synthesizes the builder-setter methods for the given
/// field-and-config pairs, in order.
pub fn make_setter_methods(setter_configs: &Vec<(FieldSchema, crate::config::AccessorConfig)>)
    -> (ms: Vec<MethodSpec>)
    ensures
        view_methods(ms@) == spec_synthesize_pairs(
            view_fc_pairs(setter_configs@),
            spec_add_setters_policy(),
        ),
{
    let policy = add_setters_policy();
    crate::rewrite::synthesize_pairs(setter_configs, &policy)
}

/// Runs the whole variant pipeline on a parsed record.
pub fn do_add_setters(input: RecordSchema) -> (r: Result<Expansion, ConfigError>)
    ensures
        view_expand_result(r) == spec_expand(input@, spec_add_setters_policy()),
{
    let policy = add_setters_policy();
    expand(input, &policy)
}

/// The variant's entry point: expands a parsed record into the
/// unchanged (stripped) record plus its builder setters.
pub fn add_setters(input: RecordSchema) -> (r: Result<Expansion, ConfigError>)
    ensures
        view_expand_result(r) == spec_expand(input@, spec_add_setters_policy()),
{
    do_add_setters(input)
}

} // verus!
