//! The expression tree.
//!
//! Every builder of this crate returns an [`ExprNode`]. A node owns its children:
//! the tree has no sharing and no cycles. Contracts speak of a node through its
//! view, an [`ExprView`], in which names are sequences of characters and lists
//! of children are sequences of views.

use crate::aggregate::AggregateFunction;
use crate::error::BuildError;
use crate::frame::WindowFrame;
use crate::scalar::ScalarFunction;
use std::sync::Arc;
use vstd::prelude::*;

verus! {

/// A constant. The builders make constants of two kinds, a text and a 32-bit
/// integer, and know the null value; constants of other kinds are made elsewhere
/// and arrive as foreign expressions.
#[derive(Clone, Debug, PartialEq, Eq)]
pub enum LiteralValue {
    /// The null value.
    Null,
    /// A 32-bit integer.
    Int32(i32),
    /// A text.
    Utf8(String),
}

/// What a [`LiteralValue`] stands for.
pub enum LiteralView {
    Null,
    Int32(i32),
    Utf8(Seq<char>),
}

impl View for LiteralValue {
    type V = LiteralView;

    open spec fn view(&self) -> LiteralView {
        match self {
            LiteralValue::Null => LiteralView::Null,
            LiteralValue::Int32(n) => LiteralView::Int32(*n),
            LiteralValue::Utf8(s) => LiteralView::Utf8(s@),
        }
    }
}

/// What a window function call evaluates. A definition is the outcome of
/// resolving a name, and it does not change once it is resolved.
#[derive(Debug, PartialEq, Eq)]
pub enum FunctionDefinition {
    /// An entry of the engine's table of built-in window functions.
    Builtin(datafusion_expr::WindowFunctionDefinition),
    /// An aggregate from the session's registry, used as a window function.
    UserDefined(Arc<datafusion_expr::AggregateUDF>),
}

/// One node of the expression tree.
#[allow(inconsistent_fields)]
#[derive(Debug, PartialEq, Eq)]
pub enum ExprNode {
    /// A reference to a column by name, without a table.
    Column { name: String },
    /// A constant.
    Literal(LiteralValue),
    /// An expression under a new display name, without a table.
    Alias { expr: Box<ExprNode>, name: String },
    /// An expression with a sort direction. It has its place in an ORDER BY list
    /// or in the ordering of a window, not among boolean expressions.
    Sort { expr: Box<ExprNode>, asc: bool, nulls_first: bool },
    /// A scalar operation applied to arguments, in the order given.
    ScalarFunction { fun: ScalarFunction, args: Vec<ExprNode> },
    /// An aggregate operation applied to arguments, in the order given.
    AggregateFunction {
        fun: AggregateFunction,
        args: Vec<ExprNode>,
        distinct: bool,
        filter: Option<Box<ExprNode>>,
        order_by: Option<Vec<ExprNode>>,
    },
    /// A window function applied to arguments, over a partitioning, an ordering
    /// and a frame.
    WindowFunction {
        fun: FunctionDefinition,
        args: Vec<ExprNode>,
        partition_by: Vec<ExprNode>,
        order_by: Vec<ExprNode>,
        window_frame: WindowFrame,
    },
    /// A CASE expression: an optional base that the `when` values are compared
    /// with, the (when, then) branches in order, and an optional ELSE.
    Case {
        base: Option<Box<ExprNode>>,
        branches: Vec<(ExprNode, ExprNode)>,
        otherwise: Option<Box<ExprNode>>,
    },
    /// Whether the value of an expression is (or, negated, is not) among the
    /// values of a list.
    InList { expr: Box<ExprNode>, list: Vec<ExprNode>, negated: bool },
    /// An expression that was built elsewhere, carried as the engine made it.
    Foreign(datafusion_expr::Expr),
}

/// What an [`ExprNode`] stands for.
#[allow(inconsistent_fields)]
pub enum ExprView {
    Column { name: Seq<char> },
    Literal(LiteralView),
    Alias { expr: Box<ExprView>, name: Seq<char> },
    Sort { expr: Box<ExprView>, asc: bool, nulls_first: bool },
    ScalarFunction { fun: ScalarFunction, args: Seq<ExprView> },
    AggregateFunction {
        fun: AggregateFunction,
        args: Seq<ExprView>,
        distinct: bool,
        filter: Option<Box<ExprView>>,
        order_by: Option<Seq<ExprView>>,
    },
    WindowFunction {
        fun: FunctionDefinition,
        args: Seq<ExprView>,
        partition_by: Seq<ExprView>,
        order_by: Seq<ExprView>,
        window_frame: WindowFrame,
    },
    Case {
        base: Option<Box<ExprView>>,
        branches: Seq<(ExprView, ExprView)>,
        otherwise: Option<Box<ExprView>>,
    },
    InList { expr: Box<ExprView>, list: Seq<ExprView>, negated: bool },
    Foreign(datafusion_expr::Expr),
}

/// What a node stands for.
pub open spec fn view_of(node: ExprNode) -> ExprView
    decreases node,
{
    match node {
        ExprNode::Column { name } => ExprView::Column { name: name@ },
        ExprNode::Literal(value) => ExprView::Literal(value@),
        ExprNode::Alias { expr, name } => ExprView::Alias {
            expr: Box::new(view_of(*expr)),
            name: name@,
        },
        ExprNode::Sort { expr, asc, nulls_first } => ExprView::Sort {
            expr: Box::new(view_of(*expr)),
            asc,
            nulls_first,
        },
        ExprNode::ScalarFunction { fun, args } => ExprView::ScalarFunction {
            fun,
            args: views_of(args@),
        },
        ExprNode::AggregateFunction { fun, args, distinct, filter, order_by } => {
            ExprView::AggregateFunction {
                fun,
                args: views_of(args@),
                distinct,
                filter: match filter {
                    Some(f) => Some(Box::new(view_of(*f))),
                    None => None,
                },
                order_by: match order_by {
                    Some(o) => Some(views_of(o@)),
                    None => None,
                },
            }
        },
        ExprNode::WindowFunction { fun, args, partition_by, order_by, window_frame } => {
            ExprView::WindowFunction {
                fun,
                args: views_of(args@),
                partition_by: views_of(partition_by@),
                order_by: views_of(order_by@),
                window_frame,
            }
        },
        ExprNode::Case { base, branches, otherwise } => ExprView::Case {
            base: match base {
                Some(b) => Some(Box::new(view_of(*b))),
                None => None,
            },
            branches: branch_views_of(branches@),
            otherwise: match otherwise {
                Some(o) => Some(Box::new(view_of(*o))),
                None => None,
            },
        },
        ExprNode::InList { expr, list, negated } => ExprView::InList {
            expr: Box::new(view_of(*expr)),
            list: views_of(list@),
            negated,
        },
        ExprNode::Foreign(e) => ExprView::Foreign(e),
    }
}

/// The views of a list of nodes, in order.
pub open spec fn views_of(nodes: Seq<ExprNode>) -> Seq<ExprView>
    decreases nodes,
{
    Seq::new(
        nodes.len(),
        |i: int|
            if 0 <= i < nodes.len() {
                view_of(nodes[i])
            } else {
                arbitrary()
            },
    )
}

/// The views of the branches of a CASE expression, in order.
pub open spec fn branch_views_of(branches: Seq<(ExprNode, ExprNode)>) -> Seq<(ExprView, ExprView)>
    decreases branches,
{
    Seq::new(
        branches.len(),
        |i: int|
            if 0 <= i < branches.len() {
                (view_of(branches[i].0), view_of(branches[i].1))
            } else {
                arbitrary()
            },
    )
}

impl View for ExprNode {
    type V = ExprView;

    open spec fn view(&self) -> ExprView {
        view_of(*self)
    }
}

/// What a builder that can fail has returned: the view of the node, or the error.
pub open spec fn outcome(built: Result<ExprNode, BuildError>) -> Result<ExprView, BuildError> {
    match built {
        Ok(node) => Ok(node@),
        Err(e) => Err(e),
    }
}

} // verus!
