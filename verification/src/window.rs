//! Window functions.
//!
//! The name of a window function is resolved in two tiers, and the first tier
//! that knows the name wins: the engine's table of built-in window functions
//! comes first, the registry of the session at hand second. A name that neither
//! knows resolves to nothing. Partitioning, ordering and frame are optional; what
//! the caller leaves out is filled in.

use crate::engine::{builtin_window_function, find_builtin_window_function, registered_aggregate};
use crate::error::{BuildError, FunctionKind};
use crate::expr::{outcome, views_of, ExprNode, ExprView, FunctionDefinition};
use crate::frame::{resolved_frame, WindowFrame};
use datafusion::execution::context::SessionContext;
use datafusion_expr::{AggregateUDF, WindowFunctionDefinition};
use std::sync::Arc;
use vstd::prelude::*;

verus! {

/// The definition that the answers of the two tiers amount to. The built-in table
/// is heard first; the registry counts only where the table knows nothing.
pub open spec fn first_match(
    builtin: Option<WindowFunctionDefinition>,
    registered: Option<Arc<AggregateUDF>>,
) -> Result<FunctionDefinition, BuildError> {
    match builtin {
        Some(definition) => Ok(FunctionDefinition::Builtin(definition)),
        None => match registered {
            Some(aggregate) => Ok(FunctionDefinition::UserDefined(aggregate)),
            None => Err(BuildError::FunctionNotFound(FunctionKind::Window)),
        },
    }
}

/// A list that the caller may leave out, as views: left out, it is empty.
pub open spec fn views_or_empty(list: Option<Vec<ExprNode>>) -> Seq<ExprView> {
    match list {
        Some(nodes) => views_of(nodes@),
        None => Seq::empty(),
    }
}

/// The node that a resolved window function makes with what the caller gave.
pub open spec fn window_view(
    fun: FunctionDefinition,
    args: Seq<ExprView>,
    partition_by: Option<Vec<ExprNode>>,
    order_by: Option<Vec<ExprNode>>,
    window_frame: Option<WindowFrame>,
) -> ExprView {
    ExprView::WindowFunction {
        fun,
        args,
        partition_by: views_or_empty(partition_by),
        order_by: views_or_empty(order_by),
        window_frame: resolved_frame(window_frame),
    }
}

/// What [`window`] returns once the name is resolved, or is known not to resolve.
pub open spec fn window_outcome(
    resolved: Result<FunctionDefinition, BuildError>,
    args: Seq<ExprView>,
    partition_by: Option<Vec<ExprNode>>,
    order_by: Option<Vec<ExprNode>>,
    window_frame: Option<WindowFrame>,
) -> Result<ExprView, BuildError> {
    match resolved {
        Ok(fun) => Ok(window_view(fun, args, partition_by, order_by, window_frame)),
        Err(e) => Err(e),
    }
}

/// Decides between the answers of the two tiers: the first that holds a
/// definition wins, and with none the name is not found.
pub fn choose_definition(
    builtin: Option<WindowFunctionDefinition>,
    registered: Option<Arc<AggregateUDF>>,
) -> (chosen: Result<FunctionDefinition, BuildError>)
    ensures
        chosen == first_match(builtin, registered),
{
    match builtin {
        Some(definition) => Ok(FunctionDefinition::Builtin(definition)),
        None => match registered {
            Some(aggregate) => Ok(FunctionDefinition::UserDefined(aggregate)),
            None => Err(BuildError::FunctionNotFound(FunctionKind::Window)),
        },
    }
}

/// Resolves the name of a window function. The registry of `session` is asked
/// only where the built-in table does not know the name and a session is given.
/// What the registry holds is not for this crate to say: the result is what the
/// built-in table's answer amounts to together with some answer of the registry,
/// and without a session that answer is that the registry holds nothing.
pub fn resolve_window_function(name: &str, session: Option<&SessionContext>) -> (resolved: Result<
    FunctionDefinition,
    BuildError,
>)
    ensures
        exists|registered: Option<Arc<AggregateUDF>>|
            {
                &&& session is None ==> registered is None
                &&& resolved == first_match(builtin_window_function(name@), registered)
            },
{
    let builtin = find_builtin_window_function(name);
    let registered = if builtin.is_some() {
        None
    } else {
        match session {
            Some(session) => match registered_aggregate(session, name) {
                Ok(aggregate) => Some(aggregate),
                Err(_) => None,
            },
            None => None,
        }
    };
    choose_definition(builtin, registered)
}

/// A call of the window function `fun`. A partitioning or an ordering that is
/// left out is empty, and without a frame the default frame is used.
pub fn window_function(
    fun: FunctionDefinition,
    args: Vec<ExprNode>,
    partition_by: Option<Vec<ExprNode>>,
    order_by: Option<Vec<ExprNode>>,
    window_frame: Option<WindowFrame>,
) -> (node: ExprNode)
    ensures
        node@ == window_view(fun, views_of(args@), partition_by, order_by, window_frame),
{
    let partition = match partition_by {
        Some(nodes) => nodes,
        None => Vec::new(),
    };
    let order = match order_by {
        Some(nodes) => nodes,
        None => Vec::new(),
    };
    // a list that was left out has no views
    assert(views_of(Seq::<ExprNode>::empty()) =~= Seq::<ExprView>::empty());
    ExprNode::WindowFunction {
        fun,
        args,
        partition_by: partition,
        order_by: order,
        window_frame: WindowFrame::resolve(window_frame),
    }
}

/// A call of the window function known as `name`: the name is resolved as
/// [`resolve_window_function`] does it, and the node is built as
/// [`window_function`] does it. A name that does not resolve fails, and nothing
/// is built. The contract speaks of the registry as [`resolve_window_function`]
/// does.
pub fn window(
    name: &str,
    args: Vec<ExprNode>,
    partition_by: Option<Vec<ExprNode>>,
    order_by: Option<Vec<ExprNode>>,
    window_frame: Option<WindowFrame>,
    ctx: Option<&SessionContext>,
) -> (built: Result<ExprNode, BuildError>)
    ensures
        exists|registered: Option<Arc<AggregateUDF>>|
            {
                &&& ctx is None ==> registered is None
                &&& outcome(built) == window_outcome(
                    first_match(builtin_window_function(name@), registered),
                    views_of(args@),
                    partition_by,
                    order_by,
                    window_frame,
                )
            },
{
    match resolve_window_function(name, ctx) {
        Ok(fun) => Ok(window_function(fun, args, partition_by, order_by, window_frame)),
        Err(e) => Err(e),
    }
}

} // verus!
