//! The builders.
//!
//! Each builder takes nodes and plain values and returns one complete node. No
//! builder looks into the nodes it is given: how many arguments an operation
//! takes, and of which types, is for the planner to decide.

use crate::aggregate::{aggregate_function_named, lookup_aggregate, AggregateFunction};
use crate::error::{BuildError, FunctionKind};
use crate::expr::{outcome, views_of, ExprNode, ExprView, LiteralValue, LiteralView};
use crate::scalar::{lookup_scalar, scalar_function_named, ScalarFunction};
use vstd::prelude::*;

verus! {

/// A flag of a sort node that the caller may leave out: left out, it is set.
pub open spec fn flag_or_set(flag: Option<bool>) -> bool {
    match flag {
        Some(b) => b,
        None => true,
    }
}

/// The node that [`alias`] builds.
pub open spec fn alias_view(expr: ExprView, name: Seq<char>) -> ExprView {
    ExprView::Alias { expr: Box::new(expr), name }
}

/// The node that [`order_by`] builds.
pub open spec fn sort_view(expr: ExprView, asc: Option<bool>, nulls_first: Option<bool>) -> ExprView {
    ExprView::Sort {
        expr: Box::new(expr),
        asc: flag_or_set(asc),
        nulls_first: flag_or_set(nulls_first),
    }
}

/// The node that a scalar operation and its arguments make.
pub open spec fn scalar_view(fun: ScalarFunction, args: Seq<ExprView>) -> ExprView {
    ExprView::ScalarFunction { fun, args }
}

/// The node that an aggregate operation and its arguments make. Without a word on
/// `distinct` the aggregate is taken over all values; a filter and an ordering are
/// never set.
pub open spec fn aggregate_view(
    fun: AggregateFunction,
    args: Seq<ExprView>,
    distinct: Option<bool>,
) -> ExprView {
    ExprView::AggregateFunction {
        fun,
        args,
        distinct: match distinct {
            Some(d) => d,
            None => false,
        },
        filter: None,
        order_by: None,
    }
}

/// What [`scalar`] returns for a name and arguments: the call of the operation
/// that the name resolves to, or the failure to resolve it.
pub open spec fn scalar_outcome(name: Seq<char>, args: Seq<ExprView>) -> Result<
    ExprView,
    BuildError,
> {
    match scalar_function_named(name) {
        Some(fun) => Ok(scalar_view(fun, args)),
        None => Err(BuildError::FunctionNotFound(FunctionKind::Scalar)),
    }
}

/// What [`aggregate`] returns for a name and arguments: the call of the operation
/// that the name resolves to, or the failure to resolve it.
pub open spec fn aggregate_outcome(
    name: Seq<char>,
    args: Seq<ExprView>,
    distinct: Option<bool>,
) -> Result<ExprView, BuildError> {
    match aggregate_function_named(name) {
        Some(fun) => Ok(aggregate_view(fun, args, distinct)),
        None => Err(BuildError::FunctionNotFound(FunctionKind::Aggregate)),
    }
}

/// A text constant.
pub open spec fn text_view(text: Seq<char>) -> ExprView {
    ExprView::Literal(LiteralView::Utf8(text))
}

/// Wraps `expr` in a node that gives it the display name `name`. An expression
/// that already has an alias keeps it: the new alias goes around the old one.
pub fn alias(expr: ExprNode, name: &str) -> (node: ExprNode)
    ensures
        node@ == alias_view(expr@, name@),
{
    ExprNode::Alias { expr: Box::new(expr), name: name.to_owned() }
}

/// A sort node over `expr`. A flag that is left out is set: ascending, nulls
/// first.
pub fn order_by(expr: ExprNode, asc: Option<bool>, nulls_first: Option<bool>) -> (node: ExprNode)
    ensures
        node@ == sort_view(expr@, asc, nulls_first),
{
    let asc = match asc {
        Some(b) => b,
        None => true,
    };
    let nulls_first = match nulls_first {
        Some(b) => b,
        None => true,
    };
    ExprNode::Sort { expr: Box::new(expr), asc, nulls_first }
}

/// A reference to the column `name`. The name stands without a table: which
/// relation it belongs to is for the planner to find out.
pub fn col(name: &str) -> (node: ExprNode)
    ensures
        node@ == (ExprView::Column { name: name@ }),
{
    ExprNode::Column { name: name.to_owned() }
}

/// The scalar operation `fun` applied to `args`, which are kept in their order.
pub fn scalar_function(fun: ScalarFunction, args: Vec<ExprNode>) -> (node: ExprNode)
    ensures
        node@ == scalar_view(fun, views_of(args@)),
{
    ExprNode::ScalarFunction { fun, args }
}

/// The scalar operation known as `name`, applied to `args`. The name may be the
/// canonical name of the operation or one of its aliases; any other name fails.
pub fn scalar(name: &str, args: Vec<ExprNode>) -> (built: Result<ExprNode, BuildError>)
    ensures
        outcome(built) == scalar_outcome(name@, views_of(args@)),
{
    match lookup_scalar(name) {
        Some(fun) => Ok(scalar_function(fun, args)),
        None => Err(BuildError::FunctionNotFound(FunctionKind::Scalar)),
    }
}

/// The aggregate operation `fun` applied to `args`, which are kept in their order.
/// Without a word on `distinct` the aggregate is taken over all values.
pub fn aggregate_function(fun: AggregateFunction, args: Vec<ExprNode>, distinct: Option<bool>) -> (node:
    ExprNode)
    ensures
        node@ == aggregate_view(fun, views_of(args@), distinct),
{
    let distinct = match distinct {
        Some(d) => d,
        None => false,
    };
    ExprNode::AggregateFunction { fun, args, distinct, filter: None, order_by: None }
}

/// The aggregate operation known as `name`, applied to `args`. The name may be
/// the canonical name of the operation or one of its aliases; any other name
/// fails.
pub fn aggregate(name: &str, args: Vec<ExprNode>, distinct: Option<bool>) -> (built: Result<
    ExprNode,
    BuildError,
>)
    ensures
        outcome(built) == aggregate_outcome(name@, views_of(args@), distinct),
{
    match lookup_aggregate(name) {
        Some(fun) => Ok(aggregate_function(fun, args, distinct)),
        None => Err(BuildError::FunctionNotFound(FunctionKind::Aggregate)),
    }
}

/// The node that [`count_star`] builds: a count over the constant 1, over all
/// values, without a filter and without an ordering.
pub open spec fn count_star_view() -> ExprView {
    ExprView::AggregateFunction {
        fun: AggregateFunction::Count,
        args: seq![ExprView::Literal(LiteralView::Int32(1))],
        distinct: false,
        filter: None,
        order_by: None,
    }
}

/// COUNT(*), which has no argument of its own: a count over the constant 1.
pub fn count_star() -> (node: ExprNode)
    ensures
        node@ == count_star_view(),
{
    let mut args: Vec<ExprNode> = Vec::new();
    args.push(ExprNode::Literal(LiteralValue::Int32(1)));
    assert(views_of(args@) =~= seq![ExprView::Literal(LiteralView::Int32(1))]);
    aggregate_function(AggregateFunction::Count, args, Some(false))
}

/// Whether the value of `expr` is among `values`, or, if `negated`, whether it is
/// not. With no values the test can never succeed, and its negation always does;
/// the node says so by holding an empty list.
pub fn in_list(expr: ExprNode, values: Vec<ExprNode>, negated: bool) -> (node: ExprNode)
    ensures
        node@ == (ExprView::InList { expr: Box::new(expr@), list: views_of(values@), negated }),
{
    ExprNode::InList { expr: Box::new(expr), list: values, negated }
}

/// A binary hash of `value`. `method` names the algorithm (md5, sha224, sha256,
/// sha384, sha512, blake2s, blake2b or blake3); it is an expression like any
/// other and is looked at only when the hash is computed.
pub fn digest(value: ExprNode, method: ExprNode) -> (node: ExprNode)
    ensures
        node@ == scalar_view(ScalarFunction::Digest, seq![value@, method@]),
{
    binary(ScalarFunction::Digest, value, method)
}

/// The text of all arguments, one after the other. Arguments that are null are
/// skipped when the text is put together.
pub fn concat(args: Vec<ExprNode>) -> (node: ExprNode)
    ensures
        node@ == scalar_view(ScalarFunction::Concat, views_of(args@)),
{
    scalar_function(ScalarFunction::Concat, args)
}

/// The text of all arguments with `sep` between them. The separator is a text
/// constant and becomes the first argument of the node; the others follow in
/// their order.
pub fn concat_ws(sep: String, args: Vec<ExprNode>) -> (node: ExprNode)
    ensures
        node@ == scalar_view(
            ScalarFunction::ConcatWithSeparator,
            seq![text_view(sep@)] + views_of(args@),
        ),
{
    let ghost given = args@;
    let mut args = args;
    args.insert(0, ExprNode::Literal(LiteralValue::Utf8(sep)));
    assert(views_of(args@) =~= seq![text_view(sep@)] + views_of(given));
    scalar_function(ScalarFunction::ConcatWithSeparator, args)
}

/// Whether the value of `expr` is NaN.
pub fn isnan(expr: ExprNode) -> (node: ExprNode)
    ensures
        node@ == scalar_view(ScalarFunction::Isnan, seq![expr@]),
{
    unary(ScalarFunction::Isnan, expr)
}

/// Null if the two values are equal, the first of them otherwise.
pub fn nullif(expr1: ExprNode, expr2: ExprNode) -> (node: ExprNode)
    ensures
        node@ == scalar_view(ScalarFunction::NullIf, seq![expr1@, expr2@]),
{
    binary(ScalarFunction::NullIf, expr1, expr2)
}

/// `input` written in the given encoding.
pub fn encode(input: ExprNode, encoding: ExprNode) -> (node: ExprNode)
    ensures
        node@ == scalar_view(ScalarFunction::Encode, seq![input@, encoding@]),
{
    binary(ScalarFunction::Encode, input, encoding)
}

/// `input` read from the given encoding.
pub fn decode(input: ExprNode, encoding: ExprNode) -> (node: ExprNode)
    ensures
        node@ == scalar_view(ScalarFunction::Decode, seq![input@, encoding@]),
{
    binary(ScalarFunction::Decode, input, encoding)
}

/// The elements of an array as text, with `delim` between them.
pub fn array_to_string(expr: ExprNode, delim: ExprNode) -> (node: ExprNode)
    ensures
        node@ == scalar_view(ScalarFunction::ArrayToString, seq![expr@, delim@]),
{
    binary(ScalarFunction::ArrayToString, expr, delim)
}

/// Another name of [`array_to_string`].
pub fn array_join(expr: ExprNode, delim: ExprNode) -> (node: ExprNode)
    ensures
        node@ == scalar_view(ScalarFunction::ArrayToString, seq![expr@, delim@]),
{
    array_to_string(expr, delim)
}

/// Another name of [`array_to_string`].
pub fn list_to_string(expr: ExprNode, delim: ExprNode) -> (node: ExprNode)
    ensures
        node@ == scalar_view(ScalarFunction::ArrayToString, seq![expr@, delim@]),
{
    array_to_string(expr, delim)
}

/// Another name of [`array_to_string`].
pub fn list_join(expr: ExprNode, delim: ExprNode) -> (node: ExprNode)
    ensures
        node@ == scalar_view(ScalarFunction::ArrayToString, seq![expr@, delim@]),
{
    array_to_string(expr, delim)
}

/// A scalar operation applied to one argument.
fn unary(fun: ScalarFunction, arg: ExprNode) -> (node: ExprNode)
    ensures
        node@ == scalar_view(fun, seq![arg@]),
{
    let mut args: Vec<ExprNode> = Vec::new();
    args.push(arg);
    assert(views_of(args@) =~= seq![arg@]);
    scalar_function(fun, args)
}

/// A scalar operation applied to two arguments.
fn binary(fun: ScalarFunction, first: ExprNode, second: ExprNode) -> (node: ExprNode)
    ensures
        node@ == scalar_view(fun, seq![first@, second@]),
{
    let mut args: Vec<ExprNode> = Vec::new();
    args.push(first);
    args.push(second);
    assert(views_of(args@) =~= seq![first@, second@]);
    scalar_function(fun, args)
}

} // verus!
