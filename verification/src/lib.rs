//! A declarative accessor-generation engine.
//!
//! Given a parsed record schema (named, typed fields, each carrying
//! raw annotations), the engine resolves per-field configuration
//! directives, validates them against documented defaults and
//! mutual-exclusion rules, and synthesizes accessor method
//! specifications — builder setters, mutating setters, getters —
//! ready for emission, leaving the record itself untouched except for
//! stripping the consumed directives. Every detected error is fatal
//! and aborts the whole expansion.
//!
//! The modules, pipeline first:
//! - [`schema`]: the record model the engine consumes, with spec
//!   mirrors for contracts.
//! - [`directive`]: the directive parser, from annotation content to
//!   parameter sets.
//! - [`naming`]: the naming policy's decision table.
//! - [`ident`]: the structural identifier check on resolved names.
//! - [`config`]: resolved per-directive configs, visibilities and
//!   getter strategies.
//! - [`policy`]: the policy object that configures each engine
//!   variant.
//! - [`resolve`]: the config resolver, from a field's directives to
//!   its configs.
//! - [`signature`]: the optional-value wrapper test for setter
//!   signatures.
//! - [`method`]: the method synthesizer and the `MethodSpec` it
//!   produces.
//! - [`rewrite`]: the record rewriter and the whole-record pipeline.
//! - [`error`]: the fatal configuration errors and their messages.
//! - [`semantics`]: the meaning of synthesized bodies over record
//!   values.
//! - [`laws`]: the engine's documented guarantees, proved.
//! - [`add_setters`], [`setter_maker`], [`basic_setters`],
//!   [`getter_maker`]: the engine variants, each a policy over the
//!   shared pipeline.

pub mod add_setters;
pub mod basic_setters;
pub mod config;
pub mod directive;
pub mod error;
pub mod getter_maker;
pub mod ident;
pub mod laws;
pub mod method;
pub mod naming;
pub mod policy;
pub mod resolve;
pub mod rewrite;
pub mod schema;
pub mod semantics;
pub mod setter_maker;
pub mod signature;
