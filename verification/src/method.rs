//! The method synthesizer: combines a field's identity and declared
//! type with one resolved config to produce a `MethodSpec`, the final
//! directive-independent description of one accessor, ready for the
//! emitter.

use crate::config::{AccessorConfig, AccessorConfigView, AccessorKind, GetterRefStrategy,
    SetterVisibility};
use crate::policy::{EnginePolicy, PolicyView};
use crate::schema::{FieldSchema, FieldSchemaView, TypeDesc, TypeDescView};
use crate::signature::{WrapMode, extract_option_inner_type, spec_param_type, spec_wrap_mode};
use vstd::prelude::*;

verus! {

/// Spec mirror of [`MethodParam`].
#[verifier::ext_equal]
pub struct MethodParamView {
    pub name: Seq<char>,
    pub ty: TypeDescView,
    pub by_into: bool,
}

/// One parameter of a generated method: its name, its type, and
/// whether the method accepts any value convertible into that type
/// (`by_into`) or exactly that type.
#[derive(Debug, PartialEq, Eq)]
pub struct MethodParam {
    pub name: String,
    pub ty: TypeDesc,
    pub by_into: bool,
}

impl View for MethodParam {
    type V = MethodParamView;

    open spec fn view(&self) -> MethodParamView {
        MethodParamView { name: self.name@, ty: self.ty@, by_into: self.by_into }
    }
}

impl Clone for MethodParam {
    fn clone(&self) -> (res: Self)
        ensures
            res@ == self@,
    {
        MethodParam { name: self.name.clone(), ty: self.ty.clone(), by_into: self.by_into }
    }
}

/// Spec mirror of [`ReturnSpec`].
#[verifier::ext_equal]
pub enum ReturnSpecView {
    OwnedSelf,
    Nothing,
    Value(TypeDescView),
    Reference(TypeDescView),
}

/// What a generated method returns: the whole record by value (a
/// builder setter), nothing (a mutating setter), or the field itself
/// by value or by non-owning reference (a getter).
#[derive(Debug, PartialEq, Eq)]
pub enum ReturnSpec {
    OwnedSelf,
    Nothing,
    Value(TypeDesc),
    Reference(TypeDesc),
}

impl View for ReturnSpec {
    type V = ReturnSpecView;

    open spec fn view(&self) -> ReturnSpecView {
        match self {
            ReturnSpec::OwnedSelf => ReturnSpecView::OwnedSelf,
            ReturnSpec::Nothing => ReturnSpecView::Nothing,
            ReturnSpec::Value(t) => ReturnSpecView::Value(t@),
            ReturnSpec::Reference(t) => ReturnSpecView::Reference(t@),
        }
    }
}

impl Clone for ReturnSpec {
    fn clone(&self) -> (res: Self)
        ensures
            res@ == self@,
    {
        match self {
            ReturnSpec::OwnedSelf => ReturnSpec::OwnedSelf,
            ReturnSpec::Nothing => ReturnSpec::Nothing,
            ReturnSpec::Value(t) => ReturnSpec::Value(t.clone()),
            ReturnSpec::Reference(t) => ReturnSpec::Reference(t.clone()),
        }
    }
}

/// Spec mirror of [`MethodSpec`].
#[verifier::ext_equal]
pub struct MethodSpecView {
    pub name: Seq<char>,
    pub visibility: SetterVisibility,
    pub field_name: Seq<char>,
    pub params: Seq<MethodParamView>,
    pub ret: ReturnSpecView,
    pub body: AccessorKind,
    pub wrap: WrapMode,
}

/// The final description of one generated method: name, visibility,
/// the field it accesses, its parameter list, its return shape, its
/// body kind, and whether the assigned value is wrapped in the
/// optional-value constructor.
#[derive(Debug, PartialEq, Eq)]
pub struct MethodSpec {
    pub name: String,
    pub visibility: SetterVisibility,
    pub field_name: String,
    pub params: Vec<MethodParam>,
    pub ret: ReturnSpec,
    pub body: AccessorKind,
    pub wrap: WrapMode,
}

/// Element-wise spec mirror of a parameter list.
pub open spec fn view_method_params(s: Seq<MethodParam>) -> Seq<MethodParamView> {
    s.map(|i: int, p: MethodParam| p@)
}

impl View for MethodSpec {
    type V = MethodSpecView;

    open spec fn view(&self) -> MethodSpecView {
        MethodSpecView {
            name: self.name@,
            visibility: self.visibility,
            field_name: self.field_name@,
            params: view_method_params(self.params@),
            ret: self.ret@,
            body: self.body,
            wrap: self.wrap,
        }
    }
}

impl Clone for MethodSpec {
    fn clone(&self) -> (res: Self)
        ensures
            res@ == self@,
    {
        let mut params: Vec<MethodParam> = Vec::new();
        let mut i: usize = 0;
        while i < self.params.len()
            invariant
                i <= self.params.len(),
                params@.len() == i as int,
                forall|j: int| 0 <= j < i as int ==> params@[j]@ == self.params@[j]@,
            decreases self.params.len() - i,
        {
            params.push(self.params[i].clone());
            i = i + 1;
        }
        let res = MethodSpec {
            name: self.name.clone(),
            visibility: self.visibility,
            field_name: self.field_name.clone(),
            params,
            ret: self.ret.clone(),
            body: self.body,
            wrap: self.wrap,
        };
        proof {
            assert(view_method_params(res.params@) =~= view_method_params(self.params@));
            assert(res@ =~= self@);
        }
        res
    }
}

/// Element-wise spec mirror of a method list.
pub open spec fn view_methods(s: Seq<MethodSpec>) -> Seq<MethodSpecView> {
    s.map(|i: int, m: MethodSpec| m@)
}

/// The method synthesized for one field and one config under a
/// policy. A getter takes no parameters and returns the field by
/// reference or by value per the config. A setter takes one
/// parameter, named after the field, typed by the signature deriver,
/// accepted through an implicit conversion exactly when `with_into`
/// is set; a builder setter returns the whole record by value, a
/// mutating setter returns nothing; the assigned value is wrapped
/// exactly when the optional-value wrapper was recognized.
pub open spec fn spec_synthesize(
    field: FieldSchemaView,
    cfg: AccessorConfigView,
    policy: PolicyView,
) -> MethodSpecView {
    match policy.kind {
        AccessorKind::Getter => MethodSpecView {
            name: cfg.name,
            visibility: cfg.visibility,
            field_name: field.name,
            params: Seq::empty(),
            ret: match cfg.ref_strategy {
                GetterRefStrategy::Ref => ReturnSpecView::Reference(field.ty),
                GetterRefStrategy::ByValue => ReturnSpecView::Value(field.ty),
            },
            body: AccessorKind::Getter,
            wrap: WrapMode::Identity,
        },
        _ => MethodSpecView {
            name: cfg.name,
            visibility: cfg.visibility,
            field_name: field.name,
            params: seq![
                MethodParamView {
                    name: field.name,
                    ty: spec_param_type(field.ty, policy.unwrap_optional),
                    by_into: cfg.with_into,
                },
            ],
            ret: if policy.kind is BuilderSetter {
                ReturnSpecView::OwnedSelf
            } else {
                ReturnSpecView::Nothing
            },
            body: policy.kind,
            wrap: spec_wrap_mode(field.ty, policy.unwrap_optional),
        },
    }
}

/// Synthesizes one method per [`spec_synthesize`].
pub fn synthesize(field: &FieldSchema, cfg: &AccessorConfig, policy: &EnginePolicy) -> (m:
    MethodSpec)
    ensures
        m@ == spec_synthesize(field@, cfg@, policy@),
{
    match policy.kind {
        AccessorKind::Getter => {
            let ret = match cfg.ref_strategy {
                GetterRefStrategy::Ref => ReturnSpec::Reference(field.ty.clone()),
                GetterRefStrategy::ByValue => ReturnSpec::Value(field.ty.clone()),
            };
            let m = MethodSpec {
                name: cfg.name.clone(),
                visibility: cfg.visibility,
                field_name: field.name.clone(),
                params: Vec::new(),
                ret,
                body: AccessorKind::Getter,
                wrap: WrapMode::Identity,
            };
            proof {
                assert(view_method_params(m.params@) =~= Seq::<MethodParamView>::empty());
                assert(m@ =~= spec_synthesize(field@, cfg@, policy@));
            }
            m
        },
        _ => {
            let inner = if policy.unwrap_optional {
                extract_option_inner_type(&field.ty)
            } else {
                Option::None
            };
            let (pty, wrap) = match inner {
                Option::Some(t) => (t.clone(), WrapMode::WrapInOptional),
                Option::None => (field.ty.clone(), WrapMode::Identity),
            };
            let mut params: Vec<MethodParam> = Vec::new();
            params.push(MethodParam { name: field.name.clone(), ty: pty, by_into: cfg.with_into });
            let ret = match policy.kind {
                AccessorKind::BuilderSetter => ReturnSpec::OwnedSelf,
                _ => ReturnSpec::Nothing,
            };
            let m = MethodSpec {
                name: cfg.name.clone(),
                visibility: cfg.visibility,
                field_name: field.name.clone(),
                params,
                ret,
                body: policy.kind,
                wrap,
            };
            proof {
                assert(view_method_params(m.params@) =~= seq![m.params@[0]@]);
                assert(m@ =~= spec_synthesize(field@, cfg@, policy@));
            }
            m
        },
    }
}

} // verus!
