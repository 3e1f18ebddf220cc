//! The naming policy: a pure function from the optional `name`,
//! `prefix` and `suffix` parameters, the field name, and the policy's
//! default prefix to the resolved method name, with the documented
//! mutual-exclusion rules.
//!
//! Decision table (first match wins):
//!
//! | name  | prefix | suffix | result                       |
//! |-------|--------|--------|------------------------------|
//! | set   | —      | —      | name verbatim                |
//! | unset | set    | set    | `prefix_suffix`              |
//! | unset | set    | unset  | `prefix_field_name`          |
//! | unset | unset  | set    | `default_prefix_suffix`      |
//! | unset | unset  | unset  | `default_prefix_field_name`  |
//!
//! Combining `name` with a `prefix` or `suffix` is a fatal error, not a
//! silent resolution. Under the stricter policy option, `suffix`
//! without `prefix` is a fatal error as well. An empty default prefix
//! joins without the separator, so a policy with no default prefix
//! names the method after the field itself.

use crate::error::{ConfigError, ConfigErrorView};
use vstd::prelude::*;
use vstd::string::StringExecFns;

verus! {

/// `prefix`, an underscore, then `rest`.
pub open spec fn spec_concat_name(prefix: Seq<char>, rest: Seq<char>) -> Seq<char> {
    prefix + "_"@ + rest
}

/// Like [`spec_concat_name`], but an empty default prefix joins
/// without the separator.
pub open spec fn spec_default_name(default_prefix: Seq<char>, rest: Seq<char>) -> Seq<char> {
    if default_prefix.len() == 0 {
        rest
    } else {
        spec_concat_name(default_prefix, rest)
    }
}

/// Spec mirror of an optional string parameter.
pub open spec fn view_opt_str(o: Option<String>) -> Option<Seq<char>> {
    match o {
        Option::Some(s) => Option::Some(s@),
        Option::None => Option::None,
    }
}

/// Spec mirror of a name-resolution result.
pub open spec fn view_name_result(r: Result<String, ConfigError>) -> Result<
    Seq<char>,
    ConfigErrorView,
> {
    match r {
        Result::Ok(s) => Result::Ok(s@),
        Result::Err(e) => Result::Err(e@),
    }
}

/// The naming policy's decision table over spec values.
pub open spec fn spec_make_name(
    name: Option<Seq<char>>,
    prefix: Option<Seq<char>>,
    suffix: Option<Seq<char>>,
    field_name: Seq<char>,
    default_prefix: Seq<char>,
    suffix_requires_prefix: bool,
) -> Result<Seq<char>, ConfigErrorView> {
    match (name, prefix, suffix) {
        (Option::Some(n), Option::None, Option::None) => Result::Ok(n),
        (Option::Some(_), p, s) => Result::Err(
            ConfigErrorView::NameExclusion { with_prefix: p is Some, with_suffix: s is Some },
        ),
        (Option::None, Option::Some(p), Option::Some(s)) => Result::Ok(spec_concat_name(p, s)),
        (Option::None, Option::Some(p), Option::None) => Result::Ok(
            spec_concat_name(p, field_name),
        ),
        (Option::None, Option::None, Option::Some(s)) => {
            if suffix_requires_prefix {
                Result::Err(ConfigErrorView::SuffixWithoutPrefix)
            } else {
                Result::Ok(spec_default_name(default_prefix, s))
            }
        },
        (Option::None, Option::None, Option::None) => Result::Ok(
            spec_default_name(default_prefix, field_name),
        ),
    }
}

/// Joins `prefix` and `rest` with an underscore.
pub fn concat_name(prefix: &str, rest: &str) -> (r: String)
    ensures
        r@ == spec_concat_name(prefix@, rest@),
{
    let mut s = String::from_str(prefix);
    s.append("_");
    s.append(rest);
    s
}

/// Joins the default prefix and `rest`; an empty default prefix joins
/// without the separator.
pub fn default_name(default_prefix: &str, rest: &str) -> (r: String)
    ensures
        r@ == spec_default_name(default_prefix@, rest@),
{
    if default_prefix.is_empty() {
        rest.to_owned()
    } else {
        concat_name(default_prefix, rest)
    }
}

/// Resolves the method name from the supplied parameters per the
/// decision table, or reports the documented mutual-exclusion error.
pub fn make_name(
    name: &Option<String>,
    prefix: &Option<String>,
    suffix: &Option<String>,
    field_name: &str,
    default_prefix: &str,
    suffix_requires_prefix: bool,
) -> (r: Result<String, ConfigError>)
    ensures
        view_name_result(r) == spec_make_name(
            view_opt_str(*name),
            view_opt_str(*prefix),
            view_opt_str(*suffix),
            field_name@,
            default_prefix@,
            suffix_requires_prefix,
        ),
{
    match (name, prefix, suffix) {
        (Option::Some(n), Option::None, Option::None) => Result::Ok(n.clone()),
        (Option::Some(_), p, s) => Result::Err(
            ConfigError::NameExclusion { with_prefix: p.is_some(), with_suffix: s.is_some() },
        ),
        (Option::None, Option::Some(p), Option::Some(s)) => Result::Ok(
            concat_name(p.as_str(), s.as_str()),
        ),
        (Option::None, Option::Some(p), Option::None) => Result::Ok(
            concat_name(p.as_str(), field_name),
        ),
        (Option::None, Option::None, Option::Some(s)) => {
            if suffix_requires_prefix {
                Result::Err(ConfigError::SuffixWithoutPrefix)
            } else {
                Result::Ok(default_name(default_prefix, s.as_str()))
            }
        },
        (Option::None, Option::None, Option::None) => Result::Ok(
            default_name(default_prefix, field_name),
        ),
    }
}

} // verus!
