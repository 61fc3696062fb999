use crate::frame::{
    aggregate, aggregated, alias, alias_expr, avg, avg_expr, bool_literal_expr, case_builder,
    case_finished, case_of, case_otherwise, case_when, case_with_branch, column, column_expr,
    count, count_expr, int_literal_expr, is_null, is_null_expr, literal_bool, literal_int, max,
    max_expr, median, median_expr, min, min_expr, stddev, stddev_expr, sum, sum_expr,
};
use crate::method::DescribeMethod;
use crate::plan::{applies, applies_spec, empty_projection, is_empty_projection};
use crate::schema::{Field, Schema};
use datafusion::dataframe::DataFrame;
use datafusion::error::DataFusionError;
use datafusion::logical_expr::Expr;
use vstd::prelude::*;

verus! {

/// Why a statistic gave no row.
#[derive(Debug)]
pub enum AggregationError {
    /// The statistic applies to no field of the dataset. A summary answers
    /// this with a row of placeholders.
    EmptyProjection,
    /// The aggregate could not be planned.
    Execution(DataFusionError),
}

/// What the arguments decide of an outcome.
pub enum Decided<T> {
    /// The outcome itself.
    Exact(T),
    /// Only that the aggregates of the statistic could not be built, so
    /// that the outcome is an `Execution` error. What the error says is the
    /// engine's.
    Unbuilt(DescribeMethod),
}

/// The expression that is 1 where `expr` is null and 0 elsewhere:
/// `CASE expr IS NULL WHEN true THEN 1 ELSE 0 END`, and `None` where the
/// engine refuses to build it.
pub open spec fn null_indicator_spec(expr: Expr) -> Option<Expr> {
    case_finished(
        case_with_branch(
            case_builder(is_null_expr(expr)),
            bool_literal_expr(true),
            int_literal_expr(1),
        ),
        int_literal_expr(0),
    )
}

/// The aggregate of a statistic over an expression: the count of its
/// values, the sum of its null indicator, its average, its standard
/// deviation, its minimum, its maximum or its median; `None` where it
/// cannot be built. A percentile has no aggregate yet: for it the
/// expression is left as it is, and no function here accepts it.
pub open spec fn reduce_spec(method: DescribeMethod, expr: Expr) -> Option<Expr>
    recommends
        method.is_implemented(),
{
    match method {
        DescribeMethod::Total => Some(count_expr(expr)),
        DescribeMethod::NullTotal => match null_indicator_spec(expr) {
            Some(indicator) => Some(sum_expr(indicator)),
            None => None,
        },
        DescribeMethod::Mean => Some(avg_expr(expr)),
        DescribeMethod::Stddev => Some(stddev_expr(expr)),
        DescribeMethod::Min => Some(min_expr(expr)),
        DescribeMethod::Max => Some(max_expr(expr)),
        DescribeMethod::Median => Some(median_expr(expr)),
        DescribeMethod::Percentile(_) => Some(expr),
    }
}

/// The aggregate of a statistic over a field's measure, under the field's
/// name.
pub open spec fn field_aggregate_spec(method: DescribeMethod, field: Field) -> Option<Expr> {
    match reduce_spec(method, column_expr(field.name@)) {
        Some(reduced) => Some(alias_expr(reduced, field.name@)),
        None => None,
    }
}

/// The aggregates of a statistic over the first `n` fields: one for each
/// field that the statistic applies to, in schema order; `None` where one
/// of them cannot be built.
pub open spec fn aggregates_upto(method: DescribeMethod, fields: Seq<Field>, n: nat) -> Option<
    Seq<Expr>,
>
    decreases n,
{
    if n == 0 {
        Some(Seq::empty())
    } else {
        match aggregates_upto(method, fields, (n - 1) as nat) {
            None => None,
            Some(before) => if applies_spec(method, fields[n - 1].logical_type) {
                match field_aggregate_spec(method, fields[n - 1]) {
                    Some(expr) => Some(before.push(expr)),
                    None => None,
                }
            } else {
                Some(before)
            },
        }
    }
}

/// The aggregates of a statistic over a schema.
pub open spec fn aggregates_spec(method: DescribeMethod, fields: Seq<Field>) -> Option<Seq<Expr>> {
    aggregates_upto(method, fields, fields.len())
}

/// What running a statistic over the measured frame gives. Where the
/// statistic applies to no field, nothing is asked of the frame and the
/// answer is `EmptyProjection`. Elsewhere the aggregates are planned over
/// the frame without grouping, and any failure is an `Execution` error:
/// that of the planner where the aggregates were built, and one that the
/// arguments do not decide where they were not.
pub open spec fn run_spec(measured: DataFrame, fields: Seq<Field>, method: DescribeMethod) -> Decided<
    Result<DataFrame, AggregationError>,
> {
    if is_empty_projection(method, fields) {
        Decided::Exact(Err(AggregationError::EmptyProjection))
    } else {
        match aggregates_spec(method, fields) {
            None => Decided::Unbuilt(method),
            Some(exprs) => Decided::Exact(
                match aggregated(measured, Seq::empty(), exprs) {
                    Ok(frame) => Ok(frame),
                    Err(e) => Err(AggregationError::Execution(e)),
                },
            ),
        }
    }
}

/// Once an aggregate could not be built, the aggregates of every longer
/// prefix of the fields cannot be built either.
pub proof fn lemma_aggregates_error_stays(
    method: DescribeMethod,
    fields: Seq<Field>,
    n: nat,
    m: nat,
)
    requires
        n <= m,
        aggregates_upto(method, fields, n) is None,
    ensures
        aggregates_upto(method, fields, m) is None,
    decreases m,
{
    if n < m {
        lemma_aggregates_error_stays(method, fields, n, (m - 1) as nat);
    }
}

/// Builds the null indicator of an expression.
pub fn null_indicator(expr: Expr) -> (out: Result<Expr, DataFusionError>)
    ensures
        match null_indicator_spec(expr) {
            Some(indicator) => out == Ok::<Expr, DataFusionError>(indicator),
            None => out is Err,
        },
{
    let builder = case_of(is_null(expr));
    let builder = case_when(builder, literal_bool(true), literal_int(1));
    case_otherwise(builder, literal_int(0))
}

/// Builds the aggregate of a statistic over an expression. The statistic
/// must be one that a summary computes.
pub fn reduce(method: DescribeMethod, expr: Expr) -> (out: Result<Expr, DataFusionError>)
    requires
        method.is_implemented(),
    ensures
        match reduce_spec(method, expr) {
            Some(reduced) => out == Ok::<Expr, DataFusionError>(reduced),
            None => out is Err,
        },
{
    match method {
        DescribeMethod::Total => Ok(count(expr)),
        DescribeMethod::NullTotal => match null_indicator(expr) {
            Ok(indicator) => Ok(sum(indicator)),
            Err(e) => Err(e),
        },
        DescribeMethod::Mean => Ok(avg(expr)),
        DescribeMethod::Stddev => Ok(stddev(expr)),
        DescribeMethod::Min => Ok(min(expr)),
        DescribeMethod::Max => Ok(max(expr)),
        DescribeMethod::Median => Ok(median(expr)),
        DescribeMethod::Percentile(_) => Ok(expr),
    }
}

/// Builds the aggregates of a statistic over a schema: one for each field
/// that the statistic applies to, in schema order. The statistic must be
/// one that a summary computes.
pub fn aggregates(method: DescribeMethod, schema: &Schema) -> (out: Result<
    Vec<Expr>,
    DataFusionError,
>)
    requires
        method.is_implemented(),
    ensures
        match aggregates_spec(method, schema.fields@) {
            Some(exprs) => out matches Ok(built) && built@ == exprs,
            None => out is Err,
        },
{
    let mut exprs: Vec<Expr> = Vec::new();
    let n = schema.fields.len();
    let mut i: usize = 0;
    while i < n
        invariant
            method.is_implemented(),
            n == schema.fields@.len(),
            i <= n,
            aggregates_upto(method, schema.fields@, i as nat) == Some(exprs@),
        decreases n - i,
    {
        let field = &schema.fields[i];
        if applies(method, &field.logical_type) {
            match reduce(method, column(field.name.as_str())) {
                Ok(reduced) => {
                    exprs.push(alias(reduced, field.name.as_str()));
                },
                Err(e) => {
                    proof {
                        lemma_aggregates_error_stays(
                            method,
                            schema.fields@,
                            (i + 1) as nat,
                            n as nat,
                        );
                    }
                    return Err(e);
                },
            }
        }
        i += 1;
    }
    Ok(exprs)
}

/// Runs a statistic over the measured frame of a schema: plans its
/// aggregates over the fields it applies to, without grouping. The
/// statistic must be one that a summary computes.
pub fn run(measured: &DataFrame, schema: &Schema, method: DescribeMethod) -> (out: Result<
    DataFrame,
    AggregationError,
>)
    requires
        method.is_implemented(),
    ensures
        match run_spec(*measured, schema.fields@, method) {
            Decided::Exact(outcome) => out == outcome,
            Decided::Unbuilt(_) => out matches Err(AggregationError::Execution(_)),
        },
{
    if empty_projection(method, schema) {
        return Err(AggregationError::EmptyProjection);
    }
    match aggregates(method, schema) {
        Err(e) => Err(AggregationError::Execution(e)),
        Ok(exprs) => match aggregate(measured.clone(), Vec::new(), exprs) {
            Ok(frame) => Ok(frame),
            Err(e) => Err(AggregationError::Execution(e)),
        },
    }
}

} // verus!
