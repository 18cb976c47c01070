//! The catalog of aggregate operations.
//!
//! The catalog is closed: a name either belongs to one of the operations listed
//! here, as its canonical name or as an alias, or it does not resolve.

use crate::catalog::{lookup, named, Operation};
use vstd::prelude::*;

verus! {

/// One aggregate operation of the engine: the tag that every name of the operation
/// resolves to.
#[derive(Clone, Copy, Debug, PartialEq, Eq, Hash, Structural)]
pub enum AggregateFunction {
    ApproxDistinct,
    ApproxMedian,
    ApproxPercentileCont,
    ApproxPercentileContWithWeight,
    ArrayAgg,
    Avg,
    Correlation,
    Count,
    Covariance,
    CovariancePop,
    Grouping,
    Max,
    Median,
    Min,
    Sum,
    Stddev,
    StddevPop,
    Variance,
    VariancePop,
    RegrAvgx,
    RegrAvgy,
    RegrCount,
    RegrIntercept,
    RegrR2,
    RegrSlope,
    RegrSXX,
    RegrSXY,
    RegrSYY,
    FirstValue,
    LastValue,
    BitAnd,
    BitOr,
    BitXor,
    BoolAnd,
    BoolOr,
}

/// The number of aggregate operations in the catalog.
pub const AGGREGATE_FUNCTION_COUNT: usize = 35;

impl Operation for AggregateFunction {
    open spec fn spec_name(self) -> Seq<char> {
        match self {
            AggregateFunction::ApproxDistinct => "approx_distinct"@,
            AggregateFunction::ApproxMedian => "approx_median"@,
            AggregateFunction::ApproxPercentileCont => "approx_percentile_cont"@,
            AggregateFunction::ApproxPercentileContWithWeight => "approx_percentile_cont_with_weight"@,
            AggregateFunction::ArrayAgg => "array_agg"@,
            AggregateFunction::Avg => "avg"@,
            AggregateFunction::Correlation => "corr"@,
            AggregateFunction::Count => "count"@,
            AggregateFunction::Covariance => "covar"@,
            AggregateFunction::CovariancePop => "covar_pop"@,
            AggregateFunction::Grouping => "grouping"@,
            AggregateFunction::Max => "max"@,
            AggregateFunction::Median => "median"@,
            AggregateFunction::Min => "min"@,
            AggregateFunction::Sum => "sum"@,
            AggregateFunction::Stddev => "stddev"@,
            AggregateFunction::StddevPop => "stddev_pop"@,
            AggregateFunction::Variance => "var"@,
            AggregateFunction::VariancePop => "var_pop"@,
            AggregateFunction::RegrAvgx => "regr_avgx"@,
            AggregateFunction::RegrAvgy => "regr_avgy"@,
            AggregateFunction::RegrCount => "regr_count"@,
            AggregateFunction::RegrIntercept => "regr_intercept"@,
            AggregateFunction::RegrR2 => "regr_r2"@,
            AggregateFunction::RegrSlope => "regr_slope"@,
            AggregateFunction::RegrSXX => "regr_sxx"@,
            AggregateFunction::RegrSXY => "regr_sxy"@,
            AggregateFunction::RegrSYY => "regr_syy"@,
            AggregateFunction::FirstValue => "first_value"@,
            AggregateFunction::LastValue => "last_value"@,
            AggregateFunction::BitAnd => "bit_and"@,
            AggregateFunction::BitOr => "bit_or"@,
            AggregateFunction::BitXor => "bit_xor"@,
            AggregateFunction::BoolAnd => "bool_and"@,
            AggregateFunction::BoolOr => "bool_or"@,
        }
    }

    open spec fn spec_aliases(self) -> Seq<Seq<char>> {
        match self {
            AggregateFunction::Avg => seq!["mean"@],
            AggregateFunction::Covariance => seq!["covar_samp"@],
            AggregateFunction::Stddev => seq!["stddev_samp"@],
            AggregateFunction::Variance => seq!["var_samp"@],
            _ => Seq::empty(),
        }
    }

    open spec fn position(self) -> nat {
        match self {
            AggregateFunction::ApproxDistinct => 0,
            AggregateFunction::ApproxMedian => 1,
            AggregateFunction::ApproxPercentileCont => 2,
            AggregateFunction::ApproxPercentileContWithWeight => 3,
            AggregateFunction::ArrayAgg => 4,
            AggregateFunction::Avg => 5,
            AggregateFunction::Correlation => 6,
            AggregateFunction::Count => 7,
            AggregateFunction::Covariance => 8,
            AggregateFunction::CovariancePop => 9,
            AggregateFunction::Grouping => 10,
            AggregateFunction::Max => 11,
            AggregateFunction::Median => 12,
            AggregateFunction::Min => 13,
            AggregateFunction::Sum => 14,
            AggregateFunction::Stddev => 15,
            AggregateFunction::StddevPop => 16,
            AggregateFunction::Variance => 17,
            AggregateFunction::VariancePop => 18,
            AggregateFunction::RegrAvgx => 19,
            AggregateFunction::RegrAvgy => 20,
            AggregateFunction::RegrCount => 21,
            AggregateFunction::RegrIntercept => 22,
            AggregateFunction::RegrR2 => 23,
            AggregateFunction::RegrSlope => 24,
            AggregateFunction::RegrSXX => 25,
            AggregateFunction::RegrSXY => 26,
            AggregateFunction::RegrSYY => 27,
            AggregateFunction::FirstValue => 28,
            AggregateFunction::LastValue => 29,
            AggregateFunction::BitAnd => 30,
            AggregateFunction::BitOr => 31,
            AggregateFunction::BitXor => 32,
            AggregateFunction::BoolAnd => 33,
            AggregateFunction::BoolOr => 34,
        }
    }

    open spec fn spec_count() -> nat {
        AGGREGATE_FUNCTION_COUNT as nat
    }

    fn name(self) -> (name: &'static str) {
        match self {
            AggregateFunction::ApproxDistinct => "approx_distinct",
            AggregateFunction::ApproxMedian => "approx_median",
            AggregateFunction::ApproxPercentileCont => "approx_percentile_cont",
            AggregateFunction::ApproxPercentileContWithWeight => "approx_percentile_cont_with_weight",
            AggregateFunction::ArrayAgg => "array_agg",
            AggregateFunction::Avg => "avg",
            AggregateFunction::Correlation => "corr",
            AggregateFunction::Count => "count",
            AggregateFunction::Covariance => "covar",
            AggregateFunction::CovariancePop => "covar_pop",
            AggregateFunction::Grouping => "grouping",
            AggregateFunction::Max => "max",
            AggregateFunction::Median => "median",
            AggregateFunction::Min => "min",
            AggregateFunction::Sum => "sum",
            AggregateFunction::Stddev => "stddev",
            AggregateFunction::StddevPop => "stddev_pop",
            AggregateFunction::Variance => "var",
            AggregateFunction::VariancePop => "var_pop",
            AggregateFunction::RegrAvgx => "regr_avgx",
            AggregateFunction::RegrAvgy => "regr_avgy",
            AggregateFunction::RegrCount => "regr_count",
            AggregateFunction::RegrIntercept => "regr_intercept",
            AggregateFunction::RegrR2 => "regr_r2",
            AggregateFunction::RegrSlope => "regr_slope",
            AggregateFunction::RegrSXX => "regr_sxx",
            AggregateFunction::RegrSXY => "regr_sxy",
            AggregateFunction::RegrSYY => "regr_syy",
            AggregateFunction::FirstValue => "first_value",
            AggregateFunction::LastValue => "last_value",
            AggregateFunction::BitAnd => "bit_and",
            AggregateFunction::BitOr => "bit_or",
            AggregateFunction::BitXor => "bit_xor",
            AggregateFunction::BoolAnd => "bool_and",
            AggregateFunction::BoolOr => "bool_or",
        }
    }

    fn aliases(self) -> (aliases: Vec<&'static str>) {
        match self {
            AggregateFunction::Avg => vec!["mean"],
            AggregateFunction::Covariance => vec!["covar_samp"],
            AggregateFunction::Stddev => vec!["stddev_samp"],
            AggregateFunction::Variance => vec!["var_samp"],
            _ => Vec::new(),
        }
    }

    fn count() -> (count: usize) {
        AGGREGATE_FUNCTION_COUNT
    }

    fn at(place: usize) -> (found: Option<AggregateFunction>) {
        match place {
            0 => Some(AggregateFunction::ApproxDistinct),
            1 => Some(AggregateFunction::ApproxMedian),
            2 => Some(AggregateFunction::ApproxPercentileCont),
            3 => Some(AggregateFunction::ApproxPercentileContWithWeight),
            4 => Some(AggregateFunction::ArrayAgg),
            5 => Some(AggregateFunction::Avg),
            6 => Some(AggregateFunction::Correlation),
            7 => Some(AggregateFunction::Count),
            8 => Some(AggregateFunction::Covariance),
            9 => Some(AggregateFunction::CovariancePop),
            10 => Some(AggregateFunction::Grouping),
            11 => Some(AggregateFunction::Max),
            12 => Some(AggregateFunction::Median),
            13 => Some(AggregateFunction::Min),
            14 => Some(AggregateFunction::Sum),
            15 => Some(AggregateFunction::Stddev),
            16 => Some(AggregateFunction::StddevPop),
            17 => Some(AggregateFunction::Variance),
            18 => Some(AggregateFunction::VariancePop),
            19 => Some(AggregateFunction::RegrAvgx),
            20 => Some(AggregateFunction::RegrAvgy),
            21 => Some(AggregateFunction::RegrCount),
            22 => Some(AggregateFunction::RegrIntercept),
            23 => Some(AggregateFunction::RegrR2),
            24 => Some(AggregateFunction::RegrSlope),
            25 => Some(AggregateFunction::RegrSXX),
            26 => Some(AggregateFunction::RegrSXY),
            27 => Some(AggregateFunction::RegrSYY),
            28 => Some(AggregateFunction::FirstValue),
            29 => Some(AggregateFunction::LastValue),
            30 => Some(AggregateFunction::BitAnd),
            31 => Some(AggregateFunction::BitOr),
            32 => Some(AggregateFunction::BitXor),
            33 => Some(AggregateFunction::BoolAnd),
            34 => Some(AggregateFunction::BoolOr),
            _ => None,
        }
    }

    proof fn lemma_places_differ(f: AggregateFunction, g: AggregateFunction) {
    }

    proof fn lemma_place_is_within(f: AggregateFunction) {
    }

    proof fn lemma_names_are_unique(f: AggregateFunction, g: AggregateFunction, name: Seq<char>) {
        // The solver tells two names apart by their spelling: each name is spelled out.
        reveal_strlit("approx_distinct");
        let s = "approx_distinct"@;
        assert(s.len() == 15 && s[0] == 'a' && s[1] == 'p' && s[2] == 'p' && s[3] == 'r'
            && s[4] == 'o' && s[5] == 'x' && s[6] == '_' && s[7] == 'd' && s[8] == 'i'
            && s[9] == 's' && s[10] == 't' && s[11] == 'i' && s[12] == 'n' && s[13] == 'c'
            && s[14] == 't');
        reveal_strlit("approx_median");
        let s = "approx_median"@;
        assert(s.len() == 13 && s[0] == 'a' && s[1] == 'p' && s[2] == 'p' && s[3] == 'r'
            && s[4] == 'o' && s[5] == 'x' && s[6] == '_' && s[7] == 'm' && s[8] == 'e'
            && s[9] == 'd' && s[10] == 'i' && s[11] == 'a' && s[12] == 'n');
        reveal_strlit("approx_percentile_cont");
        let s = "approx_percentile_cont"@;
        assert(s.len() == 22 && s[0] == 'a' && s[1] == 'p' && s[2] == 'p' && s[3] == 'r'
            && s[4] == 'o' && s[5] == 'x' && s[6] == '_' && s[7] == 'p' && s[8] == 'e'
            && s[9] == 'r' && s[10] == 'c' && s[11] == 'e' && s[12] == 'n' && s[13] == 't'
            && s[14] == 'i' && s[15] == 'l' && s[16] == 'e' && s[17] == '_' && s[18] == 'c'
            && s[19] == 'o' && s[20] == 'n' && s[21] == 't');
        reveal_strlit("approx_percentile_cont_with_weight");
        let s = "approx_percentile_cont_with_weight"@;
        assert(s.len() == 34 && s[0] == 'a' && s[1] == 'p' && s[2] == 'p' && s[3] == 'r'
            && s[4] == 'o' && s[5] == 'x' && s[6] == '_' && s[7] == 'p' && s[8] == 'e'
            && s[9] == 'r' && s[10] == 'c' && s[11] == 'e' && s[12] == 'n' && s[13] == 't'
            && s[14] == 'i' && s[15] == 'l' && s[16] == 'e' && s[17] == '_' && s[18] == 'c'
            && s[19] == 'o' && s[20] == 'n' && s[21] == 't' && s[22] == '_' && s[23] == 'w'
            && s[24] == 'i' && s[25] == 't' && s[26] == 'h' && s[27] == '_' && s[28] == 'w'
            && s[29] == 'e' && s[30] == 'i' && s[31] == 'g' && s[32] == 'h' && s[33] == 't');
        reveal_strlit("array_agg");
        let s = "array_agg"@;
        assert(s.len() == 9 && s[0] == 'a' && s[1] == 'r' && s[2] == 'r' && s[3] == 'a'
            && s[4] == 'y' && s[5] == '_' && s[6] == 'a' && s[7] == 'g' && s[8] == 'g');
        reveal_strlit("avg");
        let s = "avg"@;
        assert(s.len() == 3 && s[0] == 'a' && s[1] == 'v' && s[2] == 'g');
        reveal_strlit("mean");
        let s = "mean"@;
        assert(s.len() == 4 && s[0] == 'm' && s[1] == 'e' && s[2] == 'a' && s[3] == 'n');
        reveal_strlit("corr");
        let s = "corr"@;
        assert(s.len() == 4 && s[0] == 'c' && s[1] == 'o' && s[2] == 'r' && s[3] == 'r');
        reveal_strlit("count");
        let s = "count"@;
        assert(s.len() == 5 && s[0] == 'c' && s[1] == 'o' && s[2] == 'u' && s[3] == 'n'
            && s[4] == 't');
        reveal_strlit("covar");
        let s = "covar"@;
        assert(s.len() == 5 && s[0] == 'c' && s[1] == 'o' && s[2] == 'v' && s[3] == 'a'
            && s[4] == 'r');
        reveal_strlit("covar_samp");
        let s = "covar_samp"@;
        assert(s.len() == 10 && s[0] == 'c' && s[1] == 'o' && s[2] == 'v' && s[3] == 'a'
            && s[4] == 'r' && s[5] == '_' && s[6] == 's' && s[7] == 'a' && s[8] == 'm'
            && s[9] == 'p');
        reveal_strlit("covar_pop");
        let s = "covar_pop"@;
        assert(s.len() == 9 && s[0] == 'c' && s[1] == 'o' && s[2] == 'v' && s[3] == 'a'
            && s[4] == 'r' && s[5] == '_' && s[6] == 'p' && s[7] == 'o' && s[8] == 'p');
        reveal_strlit("grouping");
        let s = "grouping"@;
        assert(s.len() == 8 && s[0] == 'g' && s[1] == 'r' && s[2] == 'o' && s[3] == 'u'
            && s[4] == 'p' && s[5] == 'i' && s[6] == 'n' && s[7] == 'g');
        reveal_strlit("max");
        let s = "max"@;
        assert(s.len() == 3 && s[0] == 'm' && s[1] == 'a' && s[2] == 'x');
        reveal_strlit("median");
        let s = "median"@;
        assert(s.len() == 6 && s[0] == 'm' && s[1] == 'e' && s[2] == 'd' && s[3] == 'i'
            && s[4] == 'a' && s[5] == 'n');
        reveal_strlit("min");
        let s = "min"@;
        assert(s.len() == 3 && s[0] == 'm' && s[1] == 'i' && s[2] == 'n');
        reveal_strlit("sum");
        let s = "sum"@;
        assert(s.len() == 3 && s[0] == 's' && s[1] == 'u' && s[2] == 'm');
        reveal_strlit("stddev");
        let s = "stddev"@;
        assert(s.len() == 6 && s[0] == 's' && s[1] == 't' && s[2] == 'd' && s[3] == 'd'
            && s[4] == 'e' && s[5] == 'v');
        reveal_strlit("stddev_samp");
        let s = "stddev_samp"@;
        assert(s.len() == 11 && s[0] == 's' && s[1] == 't' && s[2] == 'd' && s[3] == 'd'
            && s[4] == 'e' && s[5] == 'v' && s[6] == '_' && s[7] == 's' && s[8] == 'a'
            && s[9] == 'm' && s[10] == 'p');
        reveal_strlit("stddev_pop");
        let s = "stddev_pop"@;
        assert(s.len() == 10 && s[0] == 's' && s[1] == 't' && s[2] == 'd' && s[3] == 'd'
            && s[4] == 'e' && s[5] == 'v' && s[6] == '_' && s[7] == 'p' && s[8] == 'o'
            && s[9] == 'p');
        reveal_strlit("var");
        let s = "var"@;
        assert(s.len() == 3 && s[0] == 'v' && s[1] == 'a' && s[2] == 'r');
        reveal_strlit("var_samp");
        let s = "var_samp"@;
        assert(s.len() == 8 && s[0] == 'v' && s[1] == 'a' && s[2] == 'r' && s[3] == '_'
            && s[4] == 's' && s[5] == 'a' && s[6] == 'm' && s[7] == 'p');
        reveal_strlit("var_pop");
        let s = "var_pop"@;
        assert(s.len() == 7 && s[0] == 'v' && s[1] == 'a' && s[2] == 'r' && s[3] == '_'
            && s[4] == 'p' && s[5] == 'o' && s[6] == 'p');
        reveal_strlit("regr_avgx");
        let s = "regr_avgx"@;
        assert(s.len() == 9 && s[0] == 'r' && s[1] == 'e' && s[2] == 'g' && s[3] == 'r'
            && s[4] == '_' && s[5] == 'a' && s[6] == 'v' && s[7] == 'g' && s[8] == 'x');
        reveal_strlit("regr_avgy");
        let s = "regr_avgy"@;
        assert(s.len() == 9 && s[0] == 'r' && s[1] == 'e' && s[2] == 'g' && s[3] == 'r'
            && s[4] == '_' && s[5] == 'a' && s[6] == 'v' && s[7] == 'g' && s[8] == 'y');
        reveal_strlit("regr_count");
        let s = "regr_count"@;
        assert(s.len() == 10 && s[0] == 'r' && s[1] == 'e' && s[2] == 'g' && s[3] == 'r'
            && s[4] == '_' && s[5] == 'c' && s[6] == 'o' && s[7] == 'u' && s[8] == 'n'
            && s[9] == 't');
        reveal_strlit("regr_intercept");
        let s = "regr_intercept"@;
        assert(s.len() == 14 && s[0] == 'r' && s[1] == 'e' && s[2] == 'g' && s[3] == 'r'
            && s[4] == '_' && s[5] == 'i' && s[6] == 'n' && s[7] == 't' && s[8] == 'e'
            && s[9] == 'r' && s[10] == 'c' && s[11] == 'e' && s[12] == 'p' && s[13] == 't');
        reveal_strlit("regr_r2");
        let s = "regr_r2"@;
        assert(s.len() == 7 && s[0] == 'r' && s[1] == 'e' && s[2] == 'g' && s[3] == 'r'
            && s[4] == '_' && s[5] == 'r' && s[6] == '2');
        reveal_strlit("regr_slope");
        let s = "regr_slope"@;
        assert(s.len() == 10 && s[0] == 'r' && s[1] == 'e' && s[2] == 'g' && s[3] == 'r'
            && s[4] == '_' && s[5] == 's' && s[6] == 'l' && s[7] == 'o' && s[8] == 'p'
            && s[9] == 'e');
        reveal_strlit("regr_sxx");
        let s = "regr_sxx"@;
        assert(s.len() == 8 && s[0] == 'r' && s[1] == 'e' && s[2] == 'g' && s[3] == 'r'
            && s[4] == '_' && s[5] == 's' && s[6] == 'x' && s[7] == 'x');
        reveal_strlit("regr_sxy");
        let s = "regr_sxy"@;
        assert(s.len() == 8 && s[0] == 'r' && s[1] == 'e' && s[2] == 'g' && s[3] == 'r'
            && s[4] == '_' && s[5] == 's' && s[6] == 'x' && s[7] == 'y');
        reveal_strlit("regr_syy");
        let s = "regr_syy"@;
        assert(s.len() == 8 && s[0] == 'r' && s[1] == 'e' && s[2] == 'g' && s[3] == 'r'
            && s[4] == '_' && s[5] == 's' && s[6] == 'y' && s[7] == 'y');
        reveal_strlit("first_value");
        let s = "first_value"@;
        assert(s.len() == 11 && s[0] == 'f' && s[1] == 'i' && s[2] == 'r' && s[3] == 's'
            && s[4] == 't' && s[5] == '_' && s[6] == 'v' && s[7] == 'a' && s[8] == 'l'
            && s[9] == 'u' && s[10] == 'e');
        reveal_strlit("last_value");
        let s = "last_value"@;
        assert(s.len() == 10 && s[0] == 'l' && s[1] == 'a' && s[2] == 's' && s[3] == 't'
            && s[4] == '_' && s[5] == 'v' && s[6] == 'a' && s[7] == 'l' && s[8] == 'u'
            && s[9] == 'e');
        reveal_strlit("bit_and");
        let s = "bit_and"@;
        assert(s.len() == 7 && s[0] == 'b' && s[1] == 'i' && s[2] == 't' && s[3] == '_'
            && s[4] == 'a' && s[5] == 'n' && s[6] == 'd');
        reveal_strlit("bit_or");
        let s = "bit_or"@;
        assert(s.len() == 6 && s[0] == 'b' && s[1] == 'i' && s[2] == 't' && s[3] == '_'
            && s[4] == 'o' && s[5] == 'r');
        reveal_strlit("bit_xor");
        let s = "bit_xor"@;
        assert(s.len() == 7 && s[0] == 'b' && s[1] == 'i' && s[2] == 't' && s[3] == '_'
            && s[4] == 'x' && s[5] == 'o' && s[6] == 'r');
        reveal_strlit("bool_and");
        let s = "bool_and"@;
        assert(s.len() == 8 && s[0] == 'b' && s[1] == 'o' && s[2] == 'o' && s[3] == 'l'
            && s[4] == '_' && s[5] == 'a' && s[6] == 'n' && s[7] == 'd');
        reveal_strlit("bool_or");
        let s = "bool_or"@;
        assert(s.len() == 7 && s[0] == 'b' && s[1] == 'o' && s[2] == 'o' && s[3] == 'l'
            && s[4] == '_' && s[5] == 'o' && s[6] == 'r');
    }
}

/// The aggregate operation that `name` resolves to, if there is one.
pub open spec fn aggregate_function_named(name: Seq<char>) -> Option<AggregateFunction> {
    named::<AggregateFunction>(name)
}

/// Looks `name` up among the aggregate operations. The name may be the canonical
/// name of an operation or one of its aliases; it is matched as it is written.
pub fn lookup_aggregate(name: &str) -> (found: Option<AggregateFunction>)
    ensures
        found == aggregate_function_named(name@),
{
    lookup::<AggregateFunction>(name)
}

} // verus!
