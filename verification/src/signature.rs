//! The signature deriver: a shallow, name-based structural test for
//! the optional-value wrapper. A declared type whose head is `Option`
//! with exactly one generic argument yields the inner argument as the
//! setter's parameter type, and the stored value is wrapped. The test
//! does not resolve type aliases; an aliased wrapper is not
//! recognized (a documented limitation of the engine).

use crate::schema::{TypeDesc, TypeDescView, lemma_view_type_desc_seq};
use vstd::prelude::*;

verus! {

/// Whether a stored value is wrapped in the optional-value
/// constructor before assignment, or assigned as-is.
#[derive(Debug, Clone, Copy, PartialEq, Eq)]
pub enum WrapMode {
    WrapInOptional,
    Identity,
}

/// Whether `t` is structurally the optional-value wrapper: head name
/// `Option`, exactly one generic type argument.
pub open spec fn spec_is_option_wrapper(t: TypeDescView) -> bool {
    t.head == "Option"@ && t.args.len() == 1
}

/// The parameter type a setter accepts: the wrapper's inner argument
/// where the wrapper is recognized and unwrapping is on, else the
/// field type unchanged.
pub open spec fn spec_param_type(t: TypeDescView, unwrap_optional: bool) -> TypeDescView {
    if unwrap_optional && spec_is_option_wrapper(t) {
        t.args[0]
    } else {
        t
    }
}

/// The wrap mode that goes with [`spec_param_type`].
pub open spec fn spec_wrap_mode(t: TypeDescView, unwrap_optional: bool) -> WrapMode {
    if unwrap_optional && spec_is_option_wrapper(t) {
        WrapMode::WrapInOptional
    } else {
        WrapMode::Identity
    }
}

/// Recognizes the optional-value wrapper and hands out its inner
/// type; any other shape passes through unrecognized.
pub fn extract_option_inner_type(field_type: &TypeDesc) -> (r: Option<&TypeDesc>)
    ensures
        match r {
            Option::Some(inner) => spec_is_option_wrapper(field_type@) && inner@
                == field_type@.args[0],
            Option::None => !spec_is_option_wrapper(field_type@),
        },
{
    proof {
        lemma_view_type_desc_seq(field_type.args@);
    }
    if crate::directive::eq_str(&field_type.head, "Option") && field_type.args.len() == 1 {
        Option::Some(&field_type.args[0])
    } else {
        Option::None
    }
}

} // verus!
