use expr_functions::aggregate::{lookup_aggregate, AggregateFunction, AGGREGATE_FUNCTION_COUNT};
use expr_functions::catalog::{has_alias, has_name, lookup, Operation};
use expr_functions::scalar::{lookup_scalar, ScalarFunction, SCALAR_FUNCTION_COUNT};
use expr_functions::text::str_eq;
use std::collections::HashSet;

fn scalar_names() -> Vec<(&'static str, ScalarFunction)> {
    vec![
        ("abs", ScalarFunction::Abs),
        ("acos", ScalarFunction::Acos),
        ("acosh", ScalarFunction::Acosh),
        ("ascii", ScalarFunction::Ascii),
        ("asin", ScalarFunction::Asin),
        ("asinh", ScalarFunction::Asinh),
        ("atan", ScalarFunction::Atan),
        ("atanh", ScalarFunction::Atanh),
        ("atan2", ScalarFunction::Atan2),
        ("bit_length", ScalarFunction::BitLength),
        ("btrim", ScalarFunction::Btrim),
        ("cbrt", ScalarFunction::Cbrt),
        ("ceil", ScalarFunction::Ceil),
        ("character_length", ScalarFunction::CharacterLength),
        ("length", ScalarFunction::CharacterLength),
        ("char_length", ScalarFunction::CharacterLength),
        ("chr", ScalarFunction::Chr),
        ("coalesce", ScalarFunction::Coalesce),
        ("cos", ScalarFunction::Cos),
        ("cosh", ScalarFunction::Cosh),
        ("degrees", ScalarFunction::Degrees),
        ("exp", ScalarFunction::Exp),
        ("factorial", ScalarFunction::Factorial),
        ("floor", ScalarFunction::Floor),
        ("gcd", ScalarFunction::Gcd),
        ("initcap", ScalarFunction::InitCap),
        ("iszero", ScalarFunction::Iszero),
        ("lcm", ScalarFunction::Lcm),
        ("left", ScalarFunction::Left),
        ("ln", ScalarFunction::Ln),
        ("log", ScalarFunction::Log),
        ("log10", ScalarFunction::Log10),
        ("log2", ScalarFunction::Log2),
        ("lower", ScalarFunction::Lower),
        ("lpad", ScalarFunction::Lpad),
        ("ltrim", ScalarFunction::Ltrim),
        ("md5", ScalarFunction::MD5),
        ("nanvl", ScalarFunction::Nanvl),
        ("octet_length", ScalarFunction::OctetLength),
        ("pi", ScalarFunction::Pi),
        ("power", ScalarFunction::Power),
        ("pow", ScalarFunction::Power),
        ("radians", ScalarFunction::Radians),
        ("regexp_match", ScalarFunction::RegexpMatch),
        ("regexp_replace", ScalarFunction::RegexpReplace),
        ("repeat", ScalarFunction::Repeat),
        ("replace", ScalarFunction::Replace),
        ("reverse", ScalarFunction::Reverse),
        ("right", ScalarFunction::Right),
        ("round", ScalarFunction::Round),
        ("rpad", ScalarFunction::Rpad),
        ("rtrim", ScalarFunction::Rtrim),
        ("sha224", ScalarFunction::SHA224),
        ("sha256", ScalarFunction::SHA256),
        ("sha384", ScalarFunction::SHA384),
        ("sha512", ScalarFunction::SHA512),
        ("signum", ScalarFunction::Signum),
        ("sin", ScalarFunction::Sin),
        ("sinh", ScalarFunction::Sinh),
        ("split_part", ScalarFunction::SplitPart),
        ("sqrt", ScalarFunction::Sqrt),
        ("starts_with", ScalarFunction::StartsWith),
        ("strpos", ScalarFunction::Strpos),
        ("substr", ScalarFunction::Substr),
        ("tan", ScalarFunction::Tan),
        ("tanh", ScalarFunction::Tanh),
        ("to_hex", ScalarFunction::ToHex),
        ("now", ScalarFunction::Now),
        ("to_timestamp", ScalarFunction::ToTimestamp),
        ("to_timestamp_millis", ScalarFunction::ToTimestampMillis),
        ("to_timestamp_micros", ScalarFunction::ToTimestampMicros),
        ("to_timestamp_seconds", ScalarFunction::ToTimestampSeconds),
        ("current_date", ScalarFunction::CurrentDate),
        ("current_time", ScalarFunction::CurrentTime),
        ("date_part", ScalarFunction::DatePart),
        ("datepart", ScalarFunction::DatePart),
        ("date_trunc", ScalarFunction::DateTrunc),
        ("datetrunc", ScalarFunction::DateTrunc),
        ("date_bin", ScalarFunction::DateBin),
        ("translate", ScalarFunction::Translate),
        ("trim", ScalarFunction::Trim),
        ("trunc", ScalarFunction::Trunc),
        ("upper", ScalarFunction::Upper),
        ("make_array", ScalarFunction::MakeArray),
        ("array", ScalarFunction::MakeArray),
        ("range", ScalarFunction::Range),
        ("uuid", ScalarFunction::Uuid),
        ("struct", ScalarFunction::Struct),
        ("from_unixtime", ScalarFunction::FromUnixtime),
        ("arrow_typeof", ScalarFunction::ArrowTypeof),
        ("random", ScalarFunction::Random),
        ("array_append", ScalarFunction::ArrayAppend),
        ("array_push_back", ScalarFunction::ArrayAppend),
        ("list_append", ScalarFunction::ArrayAppend),
        ("list_push_back", ScalarFunction::ArrayAppend),
        ("array_concat", ScalarFunction::ArrayConcat),
        ("array_cat", ScalarFunction::ArrayConcat),
        ("array_dims", ScalarFunction::ArrayDims),
        ("list_dims", ScalarFunction::ArrayDims),
        ("array_distinct", ScalarFunction::ArrayDistinct),
        ("list_distinct", ScalarFunction::ArrayDistinct),
        ("array_element", ScalarFunction::ArrayElement),
        ("array_extract", ScalarFunction::ArrayElement),
        ("list_element", ScalarFunction::ArrayElement),
        ("list_extract", ScalarFunction::ArrayElement),
        ("array_length", ScalarFunction::ArrayLength),
        ("list_length", ScalarFunction::ArrayLength),
        ("array_has", ScalarFunction::ArrayHas),
        ("array_has_all", ScalarFunction::ArrayHasAll),
        ("array_has_any", ScalarFunction::ArrayHasAny),
        ("array_position", ScalarFunction::ArrayPosition),
        ("array_indexof", ScalarFunction::ArrayPosition),
        ("list_position", ScalarFunction::ArrayPosition),
        ("list_indexof", ScalarFunction::ArrayPosition),
        ("array_positions", ScalarFunction::ArrayPositions),
        ("list_positions", ScalarFunction::ArrayPositions),
        ("array_ndims", ScalarFunction::ArrayNdims),
        ("list_ndims", ScalarFunction::ArrayNdims),
        ("array_prepend", ScalarFunction::ArrayPrepend),
        ("array_push_front", ScalarFunction::ArrayPrepend),
        ("list_prepend", ScalarFunction::ArrayPrepend),
        ("list_push_front", ScalarFunction::ArrayPrepend),
        ("array_pop_back", ScalarFunction::ArrayPopBack),
        ("array_pop_front", ScalarFunction::ArrayPopFront),
        ("array_remove", ScalarFunction::ArrayRemove),
        ("list_remove", ScalarFunction::ArrayRemove),
        ("array_remove_n", ScalarFunction::ArrayRemoveN),
        ("list_remove_n", ScalarFunction::ArrayRemoveN),
        ("array_remove_all", ScalarFunction::ArrayRemoveAll),
        ("list_remove_all", ScalarFunction::ArrayRemoveAll),
        ("array_repeat", ScalarFunction::ArrayRepeat),
        ("array_replace", ScalarFunction::ArrayReplace),
        ("list_replace", ScalarFunction::ArrayReplace),
        ("array_replace_n", ScalarFunction::ArrayReplaceN),
        ("list_replace_n", ScalarFunction::ArrayReplaceN),
        ("array_replace_all", ScalarFunction::ArrayReplaceAll),
        ("list_replace_all", ScalarFunction::ArrayReplaceAll),
        ("array_slice", ScalarFunction::ArraySlice),
        ("list_slice", ScalarFunction::ArraySlice),
        ("array_intersect", ScalarFunction::ArrayIntersect),
        ("list_intersect", ScalarFunction::ArrayIntersect),
        ("array_union", ScalarFunction::ArrayUnion),
        ("list_union", ScalarFunction::ArrayUnion),
        ("array_except", ScalarFunction::ArrayExcept),
        ("list_except", ScalarFunction::ArrayExcept),
        ("array_resize", ScalarFunction::ArrayResize),
        ("list_resize", ScalarFunction::ArrayResize),
        ("flatten", ScalarFunction::Flatten),
        ("concat", ScalarFunction::Concat),
        ("concat_ws", ScalarFunction::ConcatWithSeparator),
        ("digest", ScalarFunction::Digest),
        ("isnan", ScalarFunction::Isnan),
        ("nullif", ScalarFunction::NullIf),
        ("encode", ScalarFunction::Encode),
        ("decode", ScalarFunction::Decode),
        ("array_to_string", ScalarFunction::ArrayToString),
        ("array_join", ScalarFunction::ArrayToString),
        ("list_to_string", ScalarFunction::ArrayToString),
        ("list_join", ScalarFunction::ArrayToString),
    ]
}

fn aggregate_names() -> Vec<(&'static str, AggregateFunction)> {
    vec![
        ("approx_distinct", AggregateFunction::ApproxDistinct),
        ("approx_median", AggregateFunction::ApproxMedian),
        ("approx_percentile_cont", AggregateFunction::ApproxPercentileCont),
        ("approx_percentile_cont_with_weight", AggregateFunction::ApproxPercentileContWithWeight),
        ("array_agg", AggregateFunction::ArrayAgg),
        ("avg", AggregateFunction::Avg),
        ("mean", AggregateFunction::Avg),
        ("corr", AggregateFunction::Correlation),
        ("count", AggregateFunction::Count),
        ("covar", AggregateFunction::Covariance),
        ("covar_samp", AggregateFunction::Covariance),
        ("covar_pop", AggregateFunction::CovariancePop),
        ("grouping", AggregateFunction::Grouping),
        ("max", AggregateFunction::Max),
        ("median", AggregateFunction::Median),
        ("min", AggregateFunction::Min),
        ("sum", AggregateFunction::Sum),
        ("stddev", AggregateFunction::Stddev),
        ("stddev_samp", AggregateFunction::Stddev),
        ("stddev_pop", AggregateFunction::StddevPop),
        ("var", AggregateFunction::Variance),
        ("var_samp", AggregateFunction::Variance),
        ("var_pop", AggregateFunction::VariancePop),
        ("regr_avgx", AggregateFunction::RegrAvgx),
        ("regr_avgy", AggregateFunction::RegrAvgy),
        ("regr_count", AggregateFunction::RegrCount),
        ("regr_intercept", AggregateFunction::RegrIntercept),
        ("regr_r2", AggregateFunction::RegrR2),
        ("regr_slope", AggregateFunction::RegrSlope),
        ("regr_sxx", AggregateFunction::RegrSXX),
        ("regr_sxy", AggregateFunction::RegrSXY),
        ("regr_syy", AggregateFunction::RegrSYY),
        ("first_value", AggregateFunction::FirstValue),
        ("last_value", AggregateFunction::LastValue),
        ("bit_and", AggregateFunction::BitAnd),
        ("bit_or", AggregateFunction::BitOr),
        ("bit_xor", AggregateFunction::BitXor),
        ("bool_and", AggregateFunction::BoolAnd),
        ("bool_or", AggregateFunction::BoolOr),
    ]
}

#[test]
fn every_scalar_name_resolves_to_its_operation() {
    let names = scalar_names();
    assert_eq!(names.len(), 159);
    for (name, fun) in names {
        assert_eq!(lookup_scalar(name), Some(fun), "{}", name);
    }
}

#[test]
fn every_aggregate_name_resolves_to_its_operation() {
    let names = aggregate_names();
    assert_eq!(names.len(), 39);
    for (name, fun) in names {
        assert_eq!(lookup_aggregate(name), Some(fun), "{}", name);
    }
}

#[test]
fn scalar_aliases_resolve_like_the_canonical_name() {
    for place in 0..SCALAR_FUNCTION_COUNT {
        let fun = ScalarFunction::at(place).unwrap();
        let canonical = lookup_scalar(fun.name());
        assert_eq!(canonical, Some(fun));
        for alias in fun.aliases() {
            assert_eq!(lookup_scalar(alias), canonical, "{}", alias);
            assert!(has_alias(fun, alias));
            assert!(has_name(fun, alias));
        }
        assert!(has_name(fun, fun.name()));
        assert!(!has_alias(fun, fun.name()));
    }
}

#[test]
fn aggregate_aliases_resolve_like_the_canonical_name() {
    for place in 0..AGGREGATE_FUNCTION_COUNT {
        let fun = AggregateFunction::at(place).unwrap();
        let canonical = lookup_aggregate(fun.name());
        assert_eq!(canonical, Some(fun));
        for alias in fun.aliases() {
            assert_eq!(lookup_aggregate(alias), canonical, "{}", alias);
            assert!(has_alias(fun, alias));
            assert!(has_name(fun, alias));
        }
        assert!(has_name(fun, fun.name()));
        assert!(!has_alias(fun, fun.name()));
    }
}

#[test]
fn the_names_of_character_length_are_interchangeable() {
    assert_eq!(lookup_scalar("character_length"), Some(ScalarFunction::CharacterLength));
    assert_eq!(lookup_scalar("length"), Some(ScalarFunction::CharacterLength));
    assert_eq!(lookup_scalar("char_length"), Some(ScalarFunction::CharacterLength));
    assert_eq!(ScalarFunction::CharacterLength.name(), "character_length");
    assert_eq!(ScalarFunction::CharacterLength.aliases(), vec!["length", "char_length"]);
}

#[test]
fn pow_is_power() {
    assert_eq!(lookup_scalar("pow"), Some(ScalarFunction::Power));
    assert_eq!(lookup_scalar("power"), Some(ScalarFunction::Power));
    assert_eq!(ScalarFunction::Power.name(), "power");
    assert_eq!(ScalarFunction::Power.aliases(), vec!["pow"]);
}

#[test]
fn the_names_of_array_append_are_interchangeable() {
    for name in ["array_append", "array_push_back", "list_append", "list_push_back"] {
        assert_eq!(lookup_scalar(name), Some(ScalarFunction::ArrayAppend));
    }
    assert_eq!(
        ScalarFunction::ArrayAppend.aliases(),
        vec!["array_push_back", "list_append", "list_push_back"]
    );
}

#[test]
fn the_names_of_array_to_string_are_interchangeable() {
    for name in ["array_to_string", "array_join", "list_to_string", "list_join"] {
        assert_eq!(lookup_scalar(name), Some(ScalarFunction::ArrayToString));
    }
}

#[test]
fn mean_is_avg() {
    assert_eq!(lookup_aggregate("mean"), Some(AggregateFunction::Avg));
    assert_eq!(lookup_aggregate("avg"), Some(AggregateFunction::Avg));
    assert_eq!(AggregateFunction::Avg.name(), "avg");
    assert_eq!(AggregateFunction::Avg.aliases(), vec!["mean"]);
    assert_eq!(lookup_aggregate("var_samp"), lookup_aggregate("var"));
    assert_eq!(lookup_aggregate("var_pop"), Some(AggregateFunction::VariancePop));
}

#[test]
fn an_operation_without_aliases_has_an_empty_list() {
    assert!(ScalarFunction::Abs.aliases().is_empty());
    assert!(!has_alias(ScalarFunction::Abs, "abs"));
    assert!(!has_alias(ScalarFunction::Abs, "pow"));
    assert!(AggregateFunction::Count.aliases().is_empty());
}

#[test]
fn no_name_belongs_to_two_scalar_operations() {
    let mut seen = HashSet::new();
    for place in 0..SCALAR_FUNCTION_COUNT {
        let fun = ScalarFunction::at(place).unwrap();
        assert!(seen.insert(fun.name().to_string()), "{}", fun.name());
        for alias in fun.aliases() {
            assert!(seen.insert(alias.to_string()), "{}", alias);
        }
    }
    assert_eq!(seen.len(), 159);
}

#[test]
fn no_name_belongs_to_two_aggregate_operations() {
    let mut seen = HashSet::new();
    for place in 0..AGGREGATE_FUNCTION_COUNT {
        let fun = AggregateFunction::at(place).unwrap();
        assert!(seen.insert(fun.name().to_string()), "{}", fun.name());
        for alias in fun.aliases() {
            assert!(seen.insert(alias.to_string()), "{}", alias);
        }
    }
    assert_eq!(seen.len(), 39);
}

#[test]
fn the_catalogs_end_where_their_count_says() {
    assert_eq!(SCALAR_FUNCTION_COUNT, 121);
    assert_eq!(AGGREGATE_FUNCTION_COUNT, 35);
    assert_eq!(ScalarFunction::at(0), Some(ScalarFunction::Abs));
    assert_eq!(ScalarFunction::at(SCALAR_FUNCTION_COUNT - 1), Some(ScalarFunction::ArrayToString));
    assert_eq!(ScalarFunction::at(SCALAR_FUNCTION_COUNT), None);
    assert_eq!(ScalarFunction::at(usize::MAX), None);
    assert_eq!(AggregateFunction::at(0), Some(AggregateFunction::ApproxDistinct));
    assert_eq!(AggregateFunction::at(AGGREGATE_FUNCTION_COUNT - 1), Some(AggregateFunction::BoolOr));
    assert_eq!(AggregateFunction::at(AGGREGATE_FUNCTION_COUNT), None);
}

#[test]
fn the_count_of_a_catalog_is_its_constant() {
    assert_eq!(ScalarFunction::count(), SCALAR_FUNCTION_COUNT);
    assert_eq!(AggregateFunction::count(), AGGREGATE_FUNCTION_COUNT);
}

#[test]
fn lookup_goes_by_the_catalog_it_is_asked_for() {
    assert_eq!(lookup::<ScalarFunction>("abs"), Some(ScalarFunction::Abs));
    assert_eq!(lookup::<AggregateFunction>("abs"), None);
    assert_eq!(lookup::<AggregateFunction>("mean"), Some(AggregateFunction::Avg));
    assert_eq!(lookup::<ScalarFunction>("mean"), None);
}

#[test]
fn a_name_outside_the_catalog_does_not_resolve() {
    assert_eq!(lookup_scalar("not_a_real_fn"), None);
    assert_eq!(lookup_aggregate("not_a_real_fn"), None);
    assert_eq!(lookup_scalar(""), None);
    assert_eq!(lookup_aggregate(""), None);
}

#[test]
fn names_are_matched_as_they_are_written() {
    assert_eq!(lookup_scalar("abs"), Some(ScalarFunction::Abs));
    assert_eq!(lookup_scalar("ABS"), None);
    assert_eq!(lookup_scalar("Abs"), None);
    assert_eq!(lookup_scalar("abs "), None);
    assert_eq!(lookup_scalar(" abs"), None);
    assert_eq!(lookup_scalar("ab"), None);
    assert_eq!(lookup_scalar("abss"), None);
    assert_eq!(lookup_aggregate("SUM"), None);
    assert_eq!(lookup_aggregate("sum"), Some(AggregateFunction::Sum));
}

#[test]
fn the_two_catalogs_are_kept_apart() {
    assert_eq!(lookup_scalar("sum"), None);
    assert_eq!(lookup_aggregate("abs"), None);
    assert_eq!(lookup_scalar("count"), None);
    assert_eq!(lookup_aggregate("concat"), None);
}

#[test]
fn the_keyword_struct_is_a_name_like_any_other() {
    assert_eq!(lookup_scalar("struct"), Some(ScalarFunction::Struct));
    assert_eq!(ScalarFunction::Struct.name(), "struct");
}

#[test]
fn date_part_and_date_trunc_have_a_short_spelling() {
    assert_eq!(lookup_scalar("datepart"), Some(ScalarFunction::DatePart));
    assert_eq!(lookup_scalar("date_part"), Some(ScalarFunction::DatePart));
    assert_eq!(lookup_scalar("datetrunc"), Some(ScalarFunction::DateTrunc));
    assert_eq!(lookup_scalar("date_trunc"), Some(ScalarFunction::DateTrunc));
}

#[test]
fn str_eq_compares_character_by_character() {
    assert!(str_eq("", ""));
    assert!(str_eq("abs", "abs"));
    assert!(!str_eq("abs", "abt"));
    assert!(!str_eq("abs", "ab"));
    assert!(!str_eq("ab", "abs"));
    assert!(!str_eq("abs", "ABS"));
    assert!(!str_eq("", "a"));
    assert!(str_eq("na\u{ef}ve", "na\u{ef}ve"));
    assert!(!str_eq("na\u{ef}ve", "naive"));
    assert!(!str_eq("\u{e9}", "\u{e8}"));
}
