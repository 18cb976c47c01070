use datafusion::arrow::datatypes::DataType;
use datafusion::common::{Column, DFField, DFSchema, TableReference};
use datafusion::functions::expr_fn as engine_fn;
use datafusion::logical_expr::expr::{
    AggregateFunctionDefinition, Alias, InList, ScalarFunctionDefinition, Sort,
};
use datafusion::logical_expr::{
    self, expr, window_frame, BuiltinScalarFunction, Expr, WindowFunctionDefinition,
};
use datafusion::optimizer::simplify_expressions::{ExprSimplifier, SimplifyContext};
use datafusion::physical_expr::execution_props::ExecutionProps;
use datafusion::scalar::ScalarValue;
use expr_functions::aggregate::{AggregateFunction, AGGREGATE_FUNCTION_COUNT};
use expr_functions::builders;
use expr_functions::builders::{
    aggregate, alias, array_join, array_to_string, col, concat_ws, count_star, decode, digest,
    encode, in_list, isnan, list_join, list_to_string, nullif, order_by, scalar,
};
use expr_functions::case::case;
use expr_functions::catalog::Operation;
use expr_functions::expr::{ExprNode, FunctionDefinition, LiteralValue};
use expr_functions::frame::{WindowFrame, WindowFrameBound, WindowFrameUnits};
use expr_functions::scalar::{ScalarFunction, SCALAR_FUNCTION_COUNT};
use expr_functions::window::window;
use std::collections::HashMap;
use std::str::FromStr;
use std::sync::Arc;

fn text(value: &str) -> ExprNode {
    ExprNode::Literal(LiteralValue::Utf8(value.to_string()))
}

fn null() -> ExprNode {
    ExprNode::Literal(LiteralValue::Null)
}

/// Whether the engine has the operation as a function of its own, not as one of
/// its built-in tags.
fn is_a_function_of_the_engine(fun: ScalarFunction) -> bool {
    matches!(
        fun,
        ScalarFunction::Isnan
            | ScalarFunction::NullIf
            | ScalarFunction::Encode
            | ScalarFunction::Decode
            | ScalarFunction::ArrayToString
    )
}

fn two(mut args: Vec<Expr>) -> (Expr, Expr) {
    assert_eq!(args.len(), 2);
    let second = args.pop().unwrap();
    let first = args.pop().unwrap();
    (first, second)
}

fn all_to_engine(nodes: Vec<ExprNode>) -> Vec<Expr> {
    nodes.into_iter().map(to_engine).collect()
}

fn bound_to_engine(bound: WindowFrameBound) -> window_frame::WindowFrameBound {
    match bound {
        WindowFrameBound::UnboundedPreceding => {
            window_frame::WindowFrameBound::Preceding(ScalarValue::UInt64(None))
        }
        WindowFrameBound::Preceding(n) => {
            window_frame::WindowFrameBound::Preceding(ScalarValue::UInt64(Some(n)))
        }
        WindowFrameBound::CurrentRow => window_frame::WindowFrameBound::CurrentRow,
        WindowFrameBound::Following(n) => {
            window_frame::WindowFrameBound::Following(ScalarValue::UInt64(Some(n)))
        }
        WindowFrameBound::UnboundedFollowing => {
            window_frame::WindowFrameBound::Following(ScalarValue::UInt64(None))
        }
    }
}

fn frame_to_engine(frame: WindowFrame) -> window_frame::WindowFrame {
    let units = match frame.units {
        WindowFrameUnits::Rows => window_frame::WindowFrameUnits::Rows,
        WindowFrameUnits::Range => window_frame::WindowFrameUnits::Range,
        WindowFrameUnits::Groups => window_frame::WindowFrameUnits::Groups,
    };
    window_frame::WindowFrame::new_bounds(
        units,
        bound_to_engine(frame.start_bound),
        bound_to_engine(frame.end_bound),
    )
}

/// The engine's expression for a node. Tags are carried over by their canonical
/// names, which the engine resolves itself.
fn to_engine(node: ExprNode) -> Expr {
    match node {
        ExprNode::Column { name } => Expr::Column(Column { relation: None, name }),
        ExprNode::Literal(LiteralValue::Null) => Expr::Literal(ScalarValue::Null),
        ExprNode::Literal(LiteralValue::Int32(n)) => Expr::Literal(ScalarValue::Int32(Some(n))),
        ExprNode::Literal(LiteralValue::Utf8(s)) => Expr::Literal(ScalarValue::Utf8(Some(s))),
        ExprNode::Alias { expr, name } => {
            let relation: Option<TableReference> = None;
            Expr::Alias(Alias::new(to_engine(*expr), relation, name))
        }
        ExprNode::Sort { expr, asc, nulls_first } => {
            Expr::Sort(Sort { expr: Box::new(to_engine(*expr)), asc, nulls_first })
        }
        ExprNode::ScalarFunction { fun, args } => {
            let args = all_to_engine(args);
            match fun {
                ScalarFunction::Isnan => {
                    assert_eq!(args.len(), 1);
                    engine_fn::isnan(args.into_iter().next().unwrap())
                }
                ScalarFunction::NullIf => {
                    let (a, b) = two(args);
                    engine_fn::nullif(a, b)
                }
                ScalarFunction::Encode => {
                    let (a, b) = two(args);
                    engine_fn::encode(a, b)
                }
                ScalarFunction::Decode => {
                    let (a, b) = two(args);
                    engine_fn::decode(a, b)
                }
                ScalarFunction::ArrayToString => {
                    let (a, b) = two(args);
                    datafusion_functions_array::expr_fn::array_to_string(a, b)
                }
                other => Expr::ScalarFunction(expr::ScalarFunction {
                    func_def: ScalarFunctionDefinition::BuiltIn(
                        BuiltinScalarFunction::from_str(other.name()).unwrap(),
                    ),
                    args,
                }),
            }
        }
        ExprNode::AggregateFunction { fun, args, distinct, filter, order_by } => {
            Expr::AggregateFunction(expr::AggregateFunction {
                func_def: AggregateFunctionDefinition::BuiltIn(
                    logical_expr::AggregateFunction::from_str(fun.name()).unwrap(),
                ),
                args: all_to_engine(args),
                distinct,
                filter: filter.map(|f| Box::new(to_engine(*f))),
                order_by: order_by.map(all_to_engine),
            })
        }
        ExprNode::WindowFunction { fun, args, partition_by, order_by, window_frame } => {
            Expr::WindowFunction(expr::WindowFunction {
                fun: match fun {
                    FunctionDefinition::Builtin(definition) => definition,
                    FunctionDefinition::UserDefined(aggregate) => {
                        WindowFunctionDefinition::AggregateUDF(aggregate)
                    }
                },
                args: all_to_engine(args),
                partition_by: all_to_engine(partition_by),
                order_by: all_to_engine(order_by),
                window_frame: frame_to_engine(window_frame),
            })
        }
        ExprNode::Case { base, branches, otherwise } => {
            let (when, then): (Vec<Expr>, Vec<Expr>) =
                branches.into_iter().map(|(w, t)| (to_engine(w), to_engine(t))).unzip();
            logical_expr::conditional_expressions::CaseBuilder::new(
                base.map(|b| Box::new(to_engine(*b))),
                when,
                then,
                otherwise.map(|o| Box::new(to_engine(*o))),
            )
            .end()
            .unwrap()
        }
        ExprNode::InList { expr, list, negated } => {
            Expr::InList(InList::new(Box::new(to_engine(*expr)), all_to_engine(list), negated))
        }
        ExprNode::Foreign(expr) => expr,
    }
}

/// What the engine makes of a node over a table with the one text column `x`.
fn evaluated(node: ExprNode) -> Expr {
    let schema = Arc::new(
        DFSchema::new_with_metadata(
            vec![DFField::new_unqualified("x", DataType::Utf8, true)],
            HashMap::new(),
        )
        .unwrap(),
    );
    let props = ExecutionProps::new();
    let simplifier = ExprSimplifier::new(SimplifyContext::new(&props).with_schema(schema.clone()));
    let coerced = simplifier.coerce(to_engine(node), schema).unwrap();
    simplifier.simplify(coerced).unwrap()
}

#[test]
fn concat_ws_skips_null_when_it_is_evaluated() {
    let node = concat_ws(",".to_string(), vec![text("a"), null(), text("b")]);
    assert_eq!(evaluated(node), Expr::Literal(ScalarValue::Utf8(Some("a,b".to_string()))));
}

#[test]
fn concat_skips_null_when_it_is_evaluated() {
    let node = builders::concat(vec![null(), text("x")]);
    assert_eq!(evaluated(node), Expr::Literal(ScalarValue::Utf8(Some("x".to_string()))));
}

#[test]
fn concat_ws_reached_through_its_name_is_evaluated_alike() {
    let node = scalar("concat_ws", vec![text(","), text("a"), null(), text("b")]).unwrap();
    assert_eq!(evaluated(node), Expr::Literal(ScalarValue::Utf8(Some("a,b".to_string()))));
}

#[test]
fn in_list_with_no_values_is_false_when_it_is_evaluated() {
    let node = in_list(col("x"), vec![], false);
    assert_eq!(evaluated(node), Expr::Literal(ScalarValue::Boolean(Some(false))));
}

#[test]
fn not_in_list_with_no_values_is_true_when_it_is_evaluated() {
    let node = in_list(col("x"), vec![], true);
    assert_eq!(evaluated(node), Expr::Literal(ScalarValue::Boolean(Some(true))));
}

#[test]
fn an_alias_changes_nothing_when_it_is_evaluated() {
    let node = alias(alias(concat_ws("-".to_string(), vec![text("a"), text("b")]), "p"), "q");
    match evaluated(node) {
        Expr::Alias(outer) => {
            assert_eq!(outer.name, "q");
            match *outer.expr {
                Expr::Alias(inner) => {
                    assert_eq!(inner.name, "p");
                    assert_eq!(*inner.expr, Expr::Literal(ScalarValue::Utf8(Some("a-b".to_string()))));
                }
                other => panic!("{:?}", other),
            }
        }
        other => panic!("{:?}", other),
    }
}

#[test]
fn the_engine_knows_each_scalar_operation_by_its_canonical_name() {
    for place in 0..SCALAR_FUNCTION_COUNT {
        let fun = ScalarFunction::at(place).unwrap();
        if is_a_function_of_the_engine(fun) {
            continue;
        }
        let theirs = BuiltinScalarFunction::from_str(fun.name()).unwrap();
        assert_eq!(format!("{:?}", theirs), format!("{:?}", fun));
    }
}

#[test]
fn the_engine_knows_each_aggregate_operation_by_its_canonical_name() {
    for place in 0..AGGREGATE_FUNCTION_COUNT {
        let fun = AggregateFunction::at(place).unwrap();
        let theirs = logical_expr::AggregateFunction::from_str(fun.name()).unwrap();
        assert_eq!(format!("{:?}", theirs), format!("{:?}", fun));
    }
}

#[test]
fn col_builds_what_the_engine_builds() {
    assert_eq!(to_engine(col("x")), logical_expr::col("x"));
}

#[test]
fn alias_builds_what_the_engine_builds() {
    assert_eq!(to_engine(alias(col("x"), "a")), logical_expr::col("x").alias("a"));
    assert_eq!(
        to_engine(alias(alias(col("x"), "a"), "b")),
        logical_expr::col("x").alias("a").alias("b")
    );
}

#[test]
fn order_by_builds_what_the_engine_builds() {
    assert_eq!(to_engine(order_by(col("x"), None, None)), logical_expr::col("x").sort(true, true));
    assert_eq!(
        to_engine(order_by(col("x"), Some(false), None)),
        logical_expr::col("x").sort(false, true)
    );
}

#[test]
fn count_star_builds_what_the_engine_builds() {
    assert_eq!(to_engine(count_star()), logical_expr::count(logical_expr::lit(1)));
}

#[test]
fn in_list_builds_what_the_engine_builds() {
    let ours = to_engine(in_list(col("x"), vec![text("a"), text("b")], true));
    let theirs = logical_expr::in_list(
        logical_expr::col("x"),
        vec![logical_expr::lit("a"), logical_expr::lit("b")],
        true,
    );
    assert_eq!(ours, theirs);
}

#[test]
fn digest_builds_what_the_engine_builds() {
    assert_eq!(
        to_engine(digest(col("x"), text("md5"))),
        logical_expr::digest(logical_expr::col("x"), logical_expr::lit("md5"))
    );
}

#[test]
fn concat_builds_what_the_engine_builds() {
    assert_eq!(
        to_engine(builders::concat(vec![col("x"), text("a")])),
        logical_expr::concat(&[logical_expr::col("x"), logical_expr::lit("a")])
    );
    assert_eq!(to_engine(builders::concat(vec![])), logical_expr::concat(&[]));
}

#[test]
fn concat_ws_builds_what_the_engine_builds() {
    let ours = to_engine(concat_ws(",".to_string(), vec![text("a"), col("x")]));
    let theirs = logical_expr::concat_ws(
        logical_expr::lit(","),
        vec![logical_expr::lit("a"), logical_expr::col("x")],
    );
    assert_eq!(ours, theirs);
    assert_eq!(
        to_engine(concat_ws(",".to_string(), vec![])),
        logical_expr::concat_ws(logical_expr::lit(","), vec![])
    );
}

#[test]
fn case_builds_what_the_engine_builds() {
    let ours = to_engine(case(col("x")).when(text("a"), text("1")).otherwise(text("0")));
    let theirs = logical_expr::case(logical_expr::col("x"))
        .when(logical_expr::lit("a"), logical_expr::lit("1"))
        .otherwise(logical_expr::lit("0"))
        .unwrap();
    assert_eq!(ours, theirs);
    let ours = to_engine(case(col("x")).when(text("a"), col("y")).when(text("b"), col("z")).end());
    let theirs = logical_expr::case(logical_expr::col("x"))
        .when(logical_expr::lit("a"), logical_expr::col("y"))
        .when(logical_expr::lit("b"), logical_expr::col("z"))
        .end()
        .unwrap();
    assert_eq!(ours, theirs);
}

#[test]
fn the_functions_of_the_engine_build_what_the_engine_builds() {
    let x = || logical_expr::col("x");
    let y = || logical_expr::col("y");
    assert_eq!(to_engine(isnan(col("x"))), engine_fn::isnan(x()));
    assert_eq!(to_engine(nullif(col("x"), col("y"))), engine_fn::nullif(x(), y()));
    assert_eq!(to_engine(encode(col("x"), col("y"))), engine_fn::encode(x(), y()));
    assert_eq!(to_engine(decode(col("x"), col("y"))), engine_fn::decode(x(), y()));
    let joined = datafusion_functions_array::expr_fn::array_to_string(x(), y());
    assert_eq!(to_engine(array_to_string(col("x"), col("y"))), joined);
    assert_eq!(to_engine(array_join(col("x"), col("y"))), joined);
    assert_eq!(to_engine(list_to_string(col("x"), col("y"))), joined);
    assert_eq!(to_engine(list_join(col("x"), col("y"))), joined);
}

#[test]
fn scalar_builds_what_the_engine_builds() {
    assert_eq!(
        to_engine(scalar("pow", vec![col("x"), col("y")]).unwrap()),
        logical_expr::power(logical_expr::col("x"), logical_expr::col("y"))
    );
    assert_eq!(
        to_engine(scalar("length", vec![col("x")]).unwrap()),
        logical_expr::character_length(logical_expr::col("x"))
    );
    assert_eq!(
        to_engine(scalar("list_push_back", vec![col("x"), col("y")]).unwrap()),
        logical_expr::array_append(logical_expr::col("x"), logical_expr::col("y"))
    );
}

#[test]
fn aggregate_builds_what_the_engine_builds() {
    assert_eq!(
        to_engine(aggregate("mean", vec![col("x")], None).unwrap()),
        logical_expr::avg(logical_expr::col("x"))
    );
    assert_eq!(
        to_engine(aggregate("count", vec![col("x")], Some(true)).unwrap()),
        logical_expr::count_distinct(logical_expr::col("x"))
    );
}

#[test]
fn window_builds_what_the_engine_builds() {
    let ours = to_engine(
        window("row_number", vec![], Some(vec![col("p")]), Some(vec![col("o")]), None, None)
            .unwrap(),
    );
    let theirs = Expr::WindowFunction(expr::WindowFunction::new(
        WindowFunctionDefinition::BuiltInWindowFunction(
            logical_expr::BuiltInWindowFunction::RowNumber,
        ),
        vec![],
        vec![logical_expr::col("p")],
        vec![logical_expr::col("o")],
        window_frame::WindowFrame::new_bounds(
            window_frame::WindowFrameUnits::Rows,
            window_frame::WindowFrameBound::Preceding(ScalarValue::UInt64(None)),
            window_frame::WindowFrameBound::Following(ScalarValue::UInt64(Some(0))),
        ),
    ));
    assert_eq!(ours, theirs);
}

#[test]
fn the_running_total_ends_at_the_current_row_for_the_engine() {
    let frame = frame_to_engine(WindowFrame::default());
    assert!(frame.start_bound.is_unbounded());
    assert!(!frame.end_bound.is_unbounded());
    assert!(frame.is_causal());
    assert_eq!(frame.to_string(), "ROWS BETWEEN UNBOUNDED PRECEDING AND 0 FOLLOWING");
}

#[test]
fn a_foreign_expression_is_carried_as_it_is() {
    let theirs = logical_expr::col("x").gt(logical_expr::lit(1));
    let ours = alias(ExprNode::Foreign(theirs.clone()), "big");
    assert_eq!(to_engine(ours), theirs.alias("big"));
    let ours = in_list(ExprNode::Foreign(logical_expr::col("x").is_not_null()), vec![], true);
    assert_eq!(evaluated(ours), Expr::Literal(ScalarValue::Boolean(Some(true))));
}
