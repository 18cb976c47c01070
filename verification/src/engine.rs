//! The query engine, as far as this crate relies on it.
//!
//! Everything in this file is taken on trust: the types are opaque to the
//! verifier, and the contracts of the two calls state what the engine's source
//! shows rather than what has been proved.

use std::sync::Arc;
use vstd::prelude::*;

verus! {

/// `datafusion_expr::Expr`, an expression of the engine. Nothing is known of its
/// contents here: such a value is carried through as it is.
#[verifier::external_type_specification]
#[verifier::external_body]
pub struct ExEngineExpr(datafusion_expr::Expr);

/// `datafusion_expr::WindowFunctionDefinition`, the engine's handle on something
/// that can be evaluated over a window.
#[verifier::external_type_specification]
#[verifier::external_body]
pub struct ExWindowFunctionDefinition(datafusion_expr::WindowFunctionDefinition);

/// `datafusion_expr::AggregateUDF`, an aggregate that a user has registered.
#[verifier::external_type_specification]
#[verifier::external_body]
pub struct ExAggregateUDF(datafusion_expr::AggregateUDF);

/// `datafusion::execution::context::SessionContext`, the session that owns the
/// registry of user-defined functions. The registry can change behind a shared
/// reference, so nothing is said here of what it holds.
#[verifier::external_type_specification]
#[verifier::external_body]
pub struct ExSessionContext(datafusion::execution::context::SessionContext);

/// `datafusion_common::DataFusionError`, the engine's error.
#[verifier::external_type_specification]
#[verifier::external_body]
pub struct ExDataFusionError(datafusion_common::DataFusionError);

/// What the engine's table of built-in window functions holds under `name`.
/// The table is fixed, so the answer depends on the name alone.
pub uninterp spec fn builtin_window_function(name: Seq<char>) -> Option<
    datafusion_expr::WindowFunctionDefinition,
>;

/// Calls `datafusion_expr::expr::find_df_window_func`, which looks `name` up,
/// without regard to case, first among the built-in window functions and then
/// among the built-in aggregates. The contract gives the answer its name and
/// claims nothing else of it.
#[verifier::external_body]
pub(crate) fn find_builtin_window_function(name: &str) -> (found: Option<
    datafusion_expr::WindowFunctionDefinition,
>)
    ensures
        found == builtin_window_function(name@),
{
    datafusion_expr::expr::find_df_window_func(name)
}

/// Calls `FunctionRegistry::udaf` on the session, which returns the aggregate
/// registered under exactly `name`, or an error if there is none. What is
/// registered is the session's own business, so nothing is claimed of the
/// answer.
#[verifier::external_body]
pub(crate) fn registered_aggregate(
    session: &datafusion::execution::context::SessionContext,
    name: &str,
) -> (answer: Result<Arc<datafusion_expr::AggregateUDF>, datafusion_common::DataFusionError>) {
    datafusion::execution::FunctionRegistry::udaf(session, name)
}

} // verus!
