//! What holds of the builders, whatever they are given.
//!
//! The statements here are about the nodes that the builders return, as their
//! contracts describe them. The catalogs state their own laws where the lookups
//! are: that no name belongs to two operations, and that every name of an
//! operation resolves to it.

use crate::aggregate::AggregateFunction;
use crate::builders::{
    aggregate_outcome, aggregate_view, alias_view, count_star_view, scalar_outcome, scalar_view,
    sort_view,
};
use crate::catalog::{is_alias, lemma_alias_resolves_like_canonical_name, Operation};
use crate::error::{BuildError, FunctionKind};
use crate::expr::{ExprNode, ExprView, FunctionDefinition, LiteralView};
use crate::frame::{default_frame, WindowFrame, WindowFrameBound, WindowFrameUnits};
use crate::scalar::ScalarFunction;
use crate::window::{first_match, window_outcome, window_view};
use datafusion_expr::{AggregateUDF, WindowFunctionDefinition};
use std::sync::Arc;
use vstd::prelude::*;

verus! {

/// A scalar call built under an alias of an operation is the call built under
/// the operation's canonical name: the same operation over the same arguments.
pub proof fn lemma_scalar_alias_builds_the_same(
    fun: ScalarFunction,
    alias: Seq<char>,
    args: Seq<ExprView>,
)
    requires
        is_alias(fun, alias),
    ensures
        scalar_outcome(alias, args) == scalar_outcome(fun.spec_name(), args),
        scalar_outcome(alias, args) == Ok::<ExprView, BuildError>(scalar_view(fun, args)),
{
    lemma_alias_resolves_like_canonical_name(fun, alias);
}

/// An aggregate call built under an alias of an operation is the call built
/// under the operation's canonical name: the same operation over the same
/// arguments, with the same word on `distinct`.
pub proof fn lemma_aggregate_alias_builds_the_same(
    fun: AggregateFunction,
    alias: Seq<char>,
    args: Seq<ExprView>,
    distinct: Option<bool>,
)
    requires
        is_alias(fun, alias),
    ensures
        aggregate_outcome(alias, args, distinct) == aggregate_outcome(
            fun.spec_name(),
            args,
            distinct,
        ),
        aggregate_outcome(alias, args, distinct) == Ok::<ExprView, BuildError>(
            aggregate_view(fun, args, distinct),
        ),
{
    lemma_alias_resolves_like_canonical_name(fun, alias);
}

/// A sort node built without either flag is the sort node built with both flags
/// set.
pub proof fn lemma_order_by_defaults(expr: ExprView)
    ensures
        sort_view(expr, None, None) == sort_view(expr, Some(true), Some(true)),
{
}

/// A window function built without a partitioning, an ordering and a frame has
/// an empty partitioning, an empty ordering and the default frame: rows, from the
/// start of the partition to the current row at offset zero. This holds for
/// every definition, wherever it was resolved.
pub proof fn lemma_window_defaults(fun: FunctionDefinition, args: Seq<ExprView>)
    ensures
        window_view(fun, args, None, None, None) == (ExprView::WindowFunction {
            fun,
            args,
            partition_by: Seq::empty(),
            order_by: Seq::empty(),
            window_frame: WindowFrame {
                units: WindowFrameUnits::Rows,
                start_bound: WindowFrameBound::UnboundedPreceding,
                end_bound: WindowFrameBound::Following(0),
            },
        }),
        default_frame().end_bound.at_current_row(),
{
}

/// The built-in table is heard first: where it knows a name, what the registry
/// holds under that name does not matter.
pub proof fn lemma_builtin_table_wins(
    definition: WindowFunctionDefinition,
    registered: Option<Arc<AggregateUDF>>,
)
    ensures
        first_match(Some(definition), registered) == Ok::<FunctionDefinition, BuildError>(
            FunctionDefinition::Builtin(definition),
        ),
{
}

/// Where neither tier knows the name, the window function is not found and no
/// node is built, whatever else is given.
pub proof fn lemma_unknown_window_function_fails(
    args: Seq<ExprView>,
    partition_by: Option<Vec<ExprNode>>,
    order_by: Option<Vec<ExprNode>>,
    window_frame: Option<WindowFrame>,
)
    ensures
        window_outcome(first_match(None, None), args, partition_by, order_by, window_frame)
            == Err::<ExprView, BuildError>(BuildError::FunctionNotFound(FunctionKind::Window)),
{
}

/// COUNT(*) is the aggregate call of Count over the constant 1 with nothing said
/// on `distinct`, and the same call with `distinct` switched off.
pub proof fn lemma_count_star_is_count_of_one()
    ensures
        count_star_view() == aggregate_view(
            AggregateFunction::Count,
            seq![ExprView::Literal(LiteralView::Int32(1))],
            None,
        ),
        count_star_view() == aggregate_view(
            AggregateFunction::Count,
            seq![ExprView::Literal(LiteralView::Int32(1))],
            Some(false),
        ),
{
}

/// How many aliases stand around an expression, one inside the other.
pub open spec fn alias_depth(expr: ExprView) -> nat
    decreases expr,
{
    match expr {
        ExprView::Alias { expr: inner, .. } => 1 + alias_depth(*inner),
        _ => 0,
    }
}

/// An alias adds one node around the expression, whatever the expression is.
pub proof fn lemma_alias_adds_a_node(expr: ExprView, name: Seq<char>)
    ensures
        alias_depth(alias_view(expr, name)) == alias_depth(expr) + 1,
        alias_view(expr, name) != expr,
{
}

/// An alias around an alias is two nodes, the new name outside and the old one
/// inside. It is never the one node that would give the expression the new name
/// in place of the old.
pub proof fn lemma_alias_nests(expr: ExprView, inner: Seq<char>, outer: Seq<char>)
    ensures
        alias_view(alias_view(expr, inner), outer) == (ExprView::Alias {
            expr: Box::new(ExprView::Alias { expr: Box::new(expr), name: inner }),
            name: outer,
        }),
        alias_view(alias_view(expr, inner), outer) != alias_view(expr, outer),
{
    lemma_alias_adds_a_node(expr, inner);
}

} // verus!
