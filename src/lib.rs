//! Declarative tabular pipelines.
//!
//! A configuration names a source of rows, a sequence of transformations built from
//! composable column expressions, and one or more export destinations. This crate holds
//! the typed syntax tree of such a configuration and compiles it into a lazy [`plan::Plan`]
//! that an execution engine carries out. Every compilation step is specified by a spec
//! function (`item_expr`, `chain_expr`, `transform_plan`, `config_plan`, ...) and proved
//! against it.
use vstd::prelude::*;

pub mod conditions;
pub mod config;
pub mod exports;
pub mod expressions;
pub mod ops;
pub mod plan;
pub mod sources;
pub mod transforms;
pub mod utils;

pub use config::Config;

verus! {

} // verus!
