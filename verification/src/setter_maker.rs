//! The builder-setter variants configured by umbrella directives.
//!
//! `make_builder_setters` recognizes `builder_setter(...)` /
//! `disable_builder_setters`: one config per directive (several
//! methods per field), the `with_into` key, the empty-string
//! visibility, and the optional-value wrapper in setter signatures.
//!
//! `do_make_setters` recognizes `configure_setter(...)` /
//! `disable_setters`: a single config per field (the last directive
//! wins) with only the naming and visibility keys.

use crate::config::AccessorConfigView;
use crate::error::{ConfigError, ConfigErrorView};
use crate::method::{MethodSpec, view_methods};
use crate::policy::{builder_setters_policy, configure_setters_policy,
    spec_builder_setters_policy, spec_configure_setters_policy};
use crate::rewrite::{Expansion, expand, record_configs, spec_expand, spec_record_configs,
    spec_synthesize_pairs, view_expand_result, view_fc_pairs};
use crate::schema::{FieldSchema, FieldSchemaView, RecordSchema, view_fields};
use vstd::prelude::*;

pub use crate::config::SetterVisibility;

verus! {

/// Spec mirror of [`SetterConfig`].
#[verifier::ext_equal]
pub struct SetterConfigView {
    pub name: Seq<char>,
    pub visibility: SetterVisibility,
}

/// One resolved setter: the method name and the visibility.
#[derive(Debug, PartialEq, Eq)]
pub struct SetterConfig {
    name: String,
    visibility: SetterVisibility,
}

impl View for SetterConfig {
    type V = SetterConfigView;

    closed spec fn view(&self) -> SetterConfigView {
        SetterConfigView { name: self.name@, visibility: self.visibility }
    }
}

impl SetterConfig {
    /// The generated method's name.
    pub fn name(&self) -> (r: &String)
        ensures
            r@ == self@.name,
    {
        &self.name
    }

    /// The generated method's visibility.
    pub fn visibility(&self) -> (r: SetterVisibility)
        ensures
            r == self@.visibility,
    {
        self.visibility
    }
}

/// Resolves every field's `configure_setter` directives into setter
/// configs, in field order, one per field that is not disabled.
pub fn make_setter_configs(fields: &Vec<FieldSchema>) -> (r: Result<
    Vec<SetterConfig>,
    ConfigError,
>)
    ensures
        ({
            let spec = spec_record_configs(
                view_fields(fields@),
                spec_configure_setters_policy(),
            );
            match r {
                Result::Ok(cfgs) => spec matches Result::Ok(pairs) && cfgs@.len() == pairs.len()
                    && (forall|j: int|
                    0 <= j < pairs.len() ==> {
                        &&& (#[trigger] cfgs@[j])@.name == pairs[j].1.name
                        &&& cfgs@[j]@.visibility == pairs[j].1.visibility
                    }),
                Result::Err(e) => spec == Result::<
                    Seq<(FieldSchemaView, AccessorConfigView)>,
                    ConfigErrorView,
                >::Err(e@),
            }
        }),
{
    let policy = configure_setters_policy();
    let pairs = match record_configs(fields, &policy) {
        Result::Err(e) => {
            return Result::Err(e);
        },
        Result::Ok(pairs) => pairs,
    };
    let mut cfgs: Vec<SetterConfig> = Vec::new();
    let mut i: usize = 0;
    while i < pairs.len()
        invariant
            i <= pairs.len(),
            cfgs@.len() == i as int,
            forall|j: int|
                0 <= j < i as int ==> {
                    &&& (#[trigger] cfgs@[j])@.name == view_fc_pairs(pairs@)[j].1.name
                    &&& cfgs@[j]@.visibility == view_fc_pairs(pairs@)[j].1.visibility
                },
        decreases pairs.len() - i,
    {
        let cfg = SetterConfig {
            name: pairs[i].1.name.clone(),
            visibility: pairs[i].1.visibility,
        };
        cfgs.push(cfg);
        i = i + 1;
    }
    Result::Ok(cfgs)
}

/// Synthesizes the builder-setter methods for the given
/// field-and-config pairs, in order, unwrapping the optional-value
/// wrapper in parameter types.
pub fn make_setter_methods(setter_configs: &Vec<(FieldSchema, crate::config::AccessorConfig)>)
    -> (ms: Vec<MethodSpec>)
    ensures
        view_methods(ms@) == spec_synthesize_pairs(
            view_fc_pairs(setter_configs@),
            spec_configure_setters_policy(),
        ),
{
    let policy = configure_setters_policy();
    crate::rewrite::synthesize_pairs(setter_configs, &policy)
}

/// Runs the single-config umbrella pipeline on a parsed record.
pub fn do_make_setters(input: RecordSchema) -> (r: Result<Expansion, ConfigError>)
    ensures
        view_expand_result(r) == spec_expand(input@, spec_configure_setters_policy()),
{
    let policy = configure_setters_policy();
    expand(input, &policy)
}

/// The multi-config umbrella entry point: expands a parsed record
/// into the stripped record plus its builder setters, one per
/// `builder_setter` directive.
pub fn make_builder_setters(item: RecordSchema) -> (r: Result<Expansion, ConfigError>)
    ensures
        view_expand_result(r) == spec_expand(item@, spec_builder_setters_policy()),
{
    let policy = builder_setters_policy();
    expand(item, &policy)
}

} // verus!
