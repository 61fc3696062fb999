use arrow::datatypes::DataType;
use datafusion::dataframe::DataFrame;
use datafusion::error::DataFusionError;
use datafusion::logical_expr::conditional_expressions::CaseBuilder;
use datafusion::logical_expr::Expr;
use crate::datatype::{type_is_numeric, type_is_temporal};
use crate::text::views;
use vstd::prelude::*;

verus! {

/// `datafusion::dataframe::DataFrame`: the plan of a table. Nothing inside
/// it is visible here.
#[verifier::external_type_specification]
#[verifier::external_body]
pub struct ExDataFrame(DataFrame);

/// `datafusion::logical_expr::Expr`: an expression over the columns of a
/// frame. Nothing inside it is visible here.
#[verifier::external_type_specification]
#[verifier::external_body]
pub struct ExExpr(Expr);

/// `datafusion::error::DataFusionError`: why the planner refused. Nothing
/// inside it is visible here.
#[verifier::external_type_specification]
#[verifier::external_body]
pub struct ExDataFusionError(DataFusionError);

/// `datafusion::logical_expr::conditional_expressions::CaseBuilder`: a
/// `CASE` expression under construction. Nothing inside it is visible here.
#[verifier::external_type_specification]
#[verifier::external_body]
pub struct ExCaseBuilder(CaseBuilder);

/// A physical type that the summary casts to.
#[derive(Debug, Clone, Copy, PartialEq, Eq, Structural)]
pub enum CastTarget {
    Int64,
    Float64,
    Utf8,
}

/// The `DataType` variant of the same name as a cast target.
pub uninterp spec fn physical_type_spec(target: CastTarget) -> DataType;

/// The columns of a frame's schema, in its order: the name and the physical
/// type of each.
pub uninterp spec fn frame_columns(frame: DataFrame) -> Seq<(Seq<char>, DataType)>;

/// The expression that `ident` builds for a column name.
pub uninterp spec fn column_expr(name: Seq<char>) -> Expr;

/// The expression that `cast` builds.
pub uninterp spec fn cast_expr(expr: Expr, data_type: DataType) -> Expr;

/// The expression that `array_length` builds.
pub uninterp spec fn array_length_expr(expr: Expr) -> Expr;

/// The expression that `length` builds.
pub uninterp spec fn length_expr(expr: Expr) -> Expr;

/// The expression that `Expr::alias` builds.
pub uninterp spec fn alias_expr(expr: Expr, name: Seq<char>) -> Expr;

/// The expression that `count` builds.
pub uninterp spec fn count_expr(expr: Expr) -> Expr;

/// The expression that `sum` builds.
pub uninterp spec fn sum_expr(expr: Expr) -> Expr;

/// The expression that `avg` builds.
pub uninterp spec fn avg_expr(expr: Expr) -> Expr;

/// The expression that `stddev` builds.
pub uninterp spec fn stddev_expr(expr: Expr) -> Expr;

/// The expression that `min` builds.
pub uninterp spec fn min_expr(expr: Expr) -> Expr;

/// The expression that `max` builds.
pub uninterp spec fn max_expr(expr: Expr) -> Expr;

/// The expression that `median` builds.
pub uninterp spec fn median_expr(expr: Expr) -> Expr;

/// The expression that `is_null` builds.
pub uninterp spec fn is_null_expr(expr: Expr) -> Expr;

/// The literal expression that `lit` builds for a boolean.
pub uninterp spec fn bool_literal_expr(value: bool) -> Expr;

/// The literal expression that `lit` builds for an `i32`.
pub uninterp spec fn int_literal_expr(value: i32) -> Expr;

/// The literal expression that `lit` builds for a string.
pub uninterp spec fn text_literal_expr(value: Seq<char>) -> Expr;

/// The null literal of a type, as `ScalarValue::try_from` makes it, or the
/// error with which it refuses the type.
pub uninterp spec fn null_literal_expr(data_type: DataType) -> Result<Expr, DataFusionError>;

/// The builder that `case` gives for a base expression.
pub uninterp spec fn case_builder(expr: Expr) -> CaseBuilder;

/// The builder that `CaseBuilder::when` returns.
pub uninterp spec fn case_with_branch(builder: CaseBuilder, when: Expr, then: Expr) -> CaseBuilder;

/// The expression that `CaseBuilder::otherwise` returns, and `None` where
/// it returns an error.
pub uninterp spec fn case_finished(builder: CaseBuilder, otherwise: Expr) -> Option<Expr>;

/// What `DataFrame::select` returns.
pub uninterp spec fn selected(frame: DataFrame, exprs: Seq<Expr>) -> Result<
    DataFrame,
    DataFusionError,
>;

/// What `DataFrame::select_columns` returns.
pub uninterp spec fn selected_columns(frame: DataFrame, names: Seq<Seq<char>>) -> Result<
    DataFrame,
    DataFusionError,
>;

/// The names of a frame's columns, in order.
pub open spec fn column_names(columns: Seq<(Seq<char>, DataType)>) -> Seq<Seq<char>> {
    Seq::new(columns.len(), |i: int| columns[i].0)
}

/// What `DataFrame::aggregate` returns.
pub uninterp spec fn aggregated(frame: DataFrame, group: Seq<Expr>, aggregates: Seq<Expr>) -> Result<
    DataFrame,
    DataFusionError,
>;

/// The sort key that `Expr::sort` builds.
pub uninterp spec fn sort_expr(expr: Expr, ascending: bool, nulls_first: bool) -> Expr;

/// What `DataFrame::sort` returns for a list of one key over one column.
pub uninterp spec fn sorted(frame: DataFrame, keys: Seq<Expr>) -> Result<DataFrame, DataFusionError>;

/// The keys are one sort key, and that key is a column.
pub open spec fn is_column_key(keys: Seq<Expr>) -> bool {
    exists|name: Seq<char>, ascending: bool, nulls_first: bool|
        keys == seq![#[trigger] sort_expr(column_expr(name), ascending, nulls_first)]
}

/// What `DataFrame::union` returns.
pub uninterp spec fn united(top: DataFrame, bottom: DataFrame) -> Result<
    DataFrame,
    DataFusionError,
>;

/// Whether the null of a type is a scalar of its own: so it is for the
/// temporal types, the numeric types and `Utf8`.
pub open spec fn has_scalar_null(data_type: DataType) -> bool {
    type_is_temporal(data_type) || type_is_numeric(data_type) || data_type
        == physical_type_spec(CastTarget::Utf8)
}

/// Writes a cast target as the `DataType` variant of the same name. Of the
/// three, `Int64` and `Float64` are numeric to `DataType::is_numeric` and
/// `Utf8` is not; none is temporal to `DataType::is_temporal`.
#[verifier::external_body]
pub(crate) fn physical_type(target: CastTarget) -> (data_type: DataType)
    ensures
        data_type == physical_type_spec(target),
        type_is_numeric(data_type) == !(target is Utf8),
        !type_is_temporal(data_type),
{
    match target {
        CastTarget::Int64 => DataType::Int64,
        CastTarget::Float64 => DataType::Float64,
        CastTarget::Utf8 => DataType::Utf8,
    }
}

/// Hands out what `DataFrame::schema` holds: for each field, in order, what
/// `Field::name` and `Field::data_type` give.
#[verifier::external_body]
pub(crate) fn columns_of(frame: &DataFrame) -> (columns: Vec<(String, DataType)>)
    ensures
        columns@.len() == frame_columns(*frame).len(),
        forall|i: int|
            0 <= i < columns@.len() ==> (columns@[i].0@, columns@[i].1) == #[trigger] frame_columns(
                *frame,
            )[i],
{
    let fields = frame.schema().fields().iter();
    fields.map(|f| (f.name().clone(), f.data_type().clone())).collect()
}

/// `Clone` of `DataFrame`: the copy is the same frame.
pub assume_specification[ <DataFrame as Clone>::clone ](frame: &DataFrame) -> (copy: DataFrame)
    ensures
        copy == *frame,
;

/// `datafusion::prelude::ident`: the column of exactly this name. The
/// result is a function of the name.
#[verifier::external_body]
pub(crate) fn column(name: &str) -> (expr: Expr)
    ensures
        expr == column_expr(name@),
{
    datafusion::prelude::ident(name)
}

/// `datafusion::prelude::cast`: the expression cast to the type. The result
/// is a function of the two arguments.
#[verifier::external_body]
pub(crate) fn cast(expr: Expr, data_type: DataType) -> (out: Expr)
    ensures
        out == cast_expr(expr, data_type),
{
    datafusion::prelude::cast(expr, data_type)
}

/// `datafusion::prelude::array_length`: the number of elements of a list.
/// The result is a function of the argument.
#[verifier::external_body]
pub(crate) fn array_length(expr: Expr) -> (out: Expr)
    ensures
        out == array_length_expr(expr),
{
    datafusion::prelude::array_length(expr)
}

/// `datafusion::prelude::length`: the number of characters of a string. The
/// result is a function of the argument.
#[verifier::external_body]
pub(crate) fn length(expr: Expr) -> (out: Expr)
    ensures
        out == length_expr(expr),
{
    datafusion::prelude::length(expr)
}

/// `Expr::alias`: the expression under a new name. The result is a function
/// of the two arguments.
#[verifier::external_body]
pub(crate) fn alias(expr: Expr, name: &str) -> (out: Expr)
    ensures
        out == alias_expr(expr, name@),
{
    expr.alias(name)
}

/// `datafusion::functions_aggregate::count::count`. The result is a function
/// of the argument.
#[verifier::external_body]
pub(crate) fn count(expr: Expr) -> (out: Expr)
    ensures
        out == count_expr(expr),
{
    datafusion::functions_aggregate::count::count(expr)
}

/// `datafusion::functions_aggregate::sum::sum`. The result is a function of
/// the argument.
#[verifier::external_body]
pub(crate) fn sum(expr: Expr) -> (out: Expr)
    ensures
        out == sum_expr(expr),
{
    datafusion::functions_aggregate::sum::sum(expr)
}

/// `datafusion::functions_aggregate::expr_fn::avg`. The result is a function
/// of the argument.
#[verifier::external_body]
pub(crate) fn avg(expr: Expr) -> (out: Expr)
    ensures
        out == avg_expr(expr),
{
    datafusion::functions_aggregate::expr_fn::avg(expr)
}

/// `datafusion::functions_aggregate::stddev::stddev`. The result is a
/// function of the argument.
#[verifier::external_body]
pub(crate) fn stddev(expr: Expr) -> (out: Expr)
    ensures
        out == stddev_expr(expr),
{
    datafusion::functions_aggregate::stddev::stddev(expr)
}

/// `datafusion::prelude::min`. The result is a function of the argument.
#[verifier::external_body]
pub(crate) fn min(expr: Expr) -> (out: Expr)
    ensures
        out == min_expr(expr),
{
    datafusion::prelude::min(expr)
}

/// `datafusion::prelude::max`. The result is a function of the argument.
#[verifier::external_body]
pub(crate) fn max(expr: Expr) -> (out: Expr)
    ensures
        out == max_expr(expr),
{
    datafusion::prelude::max(expr)
}

/// `datafusion::functions_aggregate::median::median`. The result is a
/// function of the argument.
#[verifier::external_body]
pub(crate) fn median(expr: Expr) -> (out: Expr)
    ensures
        out == median_expr(expr),
{
    datafusion::functions_aggregate::median::median(expr)
}

/// `datafusion::prelude::is_null`. The result is a function of the argument.
#[verifier::external_body]
pub(crate) fn is_null(expr: Expr) -> (out: Expr)
    ensures
        out == is_null_expr(expr),
{
    datafusion::prelude::is_null(expr)
}

/// `datafusion::prelude::lit` of a boolean. The result is a function of the
/// value.
#[verifier::external_body]
pub(crate) fn literal_bool(value: bool) -> (out: Expr)
    ensures
        out == bool_literal_expr(value),
{
    datafusion::prelude::lit(value)
}

/// `datafusion::prelude::lit` of an `i32`. The result is a function of the
/// value.
#[verifier::external_body]
pub(crate) fn literal_int(value: i32) -> (out: Expr)
    ensures
        out == int_literal_expr(value),
{
    datafusion::prelude::lit(value)
}

/// `datafusion::prelude::lit` of a string. The result is a function of the
/// value.
#[verifier::external_body]
pub(crate) fn literal_text(value: &str) -> (out: Expr)
    ensures
        out == text_literal_expr(value@),
{
    datafusion::prelude::lit(value)
}

/// `ScalarValue::try_from` of a type, as a literal: the null of that type,
/// or the error for a type that has none. The result is a function of the
/// type. Only temporal types, numeric types and `Utf8` are admitted: for
/// these the null is a scalar of its own, and no array is built for it.
#[verifier::external_body]
pub(crate) fn null_literal(data_type: &DataType) -> (out: Result<Expr, DataFusionError>)
    requires
        has_scalar_null(*data_type),
    ensures
        out == null_literal_expr(*data_type),
{
    datafusion::scalar::ScalarValue::try_from(data_type).map(Expr::Literal)
}

/// `datafusion::prelude::case`: starts a `CASE expr WHEN ..`. The result is
/// a function of the argument.
#[verifier::external_body]
pub(crate) fn case_of(expr: Expr) -> (builder: CaseBuilder)
    ensures
        builder == case_builder(expr),
{
    datafusion::prelude::case(expr)
}

/// `CaseBuilder::when`: the builder with one more branch. The result is a
/// function of the three arguments.
#[verifier::external_body]
pub(crate) fn case_when(builder: CaseBuilder, when: Expr, then: Expr) -> (out: CaseBuilder)
    ensures
        out == case_with_branch(builder, when, then),
{
    let mut builder = builder;
    builder.when(when, then)
}

/// `CaseBuilder::otherwise`: the finished `CASE` expression, or an error
/// where the branches' literal types differ. Whether it succeeds, and the
/// expression where it does, are a function of the two arguments; what the
/// error says is not, and nothing is claimed of it.
#[verifier::external_body]
pub(crate) fn case_otherwise(builder: CaseBuilder, otherwise: Expr) -> (out: Result<
    Expr,
    DataFusionError,
>)
    ensures
        match case_finished(builder, otherwise) {
            Some(expr) => out == Ok::<Expr, DataFusionError>(expr),
            None => out is Err,
        },
{
    let mut builder = builder;
    builder.otherwise(otherwise)
}

/// `DataFrame::select`: the plan of a frame with one column per expression,
/// or the planner's error. The result is a function of the two arguments.
#[verifier::external_body]
pub(crate) fn select(frame: DataFrame, exprs: Vec<Expr>) -> (out: Result<DataFrame, DataFusionError>)
    ensures
        out == selected(frame, exprs@),
{
    frame.select(exprs)
}

/// `DataFrame::select_columns`: the plan of a frame that holds only the
/// columns named, or the planner's error. The result is a function of the
/// two arguments; where it is a frame, its schema holds exactly the names
/// asked for, in the order asked.
#[verifier::external_body]
pub(crate) fn select_columns(frame: DataFrame, names: &Vec<String>) -> (out: Result<
    DataFrame,
    DataFusionError,
>)
    ensures
        out == selected_columns(frame, views(names@)),
        out matches Ok(picked) ==> column_names(frame_columns(picked)) == views(names@),
{
    let names: Vec<&str> = names.iter().map(|name| name.as_str()).collect();
    frame.select_columns(&names)
}

/// `DataFrame::aggregate`: the plan of the aggregates over the groups, or
/// the planner's error. The result is a function of the three arguments.
#[verifier::external_body]
pub(crate) fn aggregate(frame: DataFrame, group: Vec<Expr>, aggregates: Vec<Expr>) -> (out: Result<
    DataFrame,
    DataFusionError,
>)
    ensures
        out == aggregated(frame, group@, aggregates@),
{
    frame.aggregate(group, aggregates)
}

/// `DataFrame::union`: the plan of the rows of both frames, duplicates
/// kept, or the planner's error. The result is a function of the two
/// arguments.
#[verifier::external_body]
pub(crate) fn union(top: DataFrame, bottom: DataFrame) -> (out: Result<DataFrame, DataFusionError>)
    ensures
        out == united(top, bottom),
{
    top.union(bottom)
}

/// `Expr::sort`: the expression as a sort key. The result is a function of
/// the three arguments.
#[verifier::external_body]
pub(crate) fn sort_key(expr: Expr, ascending: bool, nulls_first: bool) -> (out: Expr)
    ensures
        out == sort_expr(expr, ascending, nulls_first),
{
    expr.sort(ascending, nulls_first)
}

/// `DataFrame::sort`: the plan of the frame's rows ordered by the keys, or
/// the planner's error. Only a list of one key over one column is
/// admitted: for it the result is a function of the two arguments. With
/// keys over several columns that the frame lacks, the planner adds them
/// in the order in which a hash set hands them out.
#[verifier::external_body]
pub(crate) fn sort(frame: DataFrame, keys: Vec<Expr>) -> (out: Result<DataFrame, DataFusionError>)
    requires
        is_column_key(keys@),
    ensures
        out == sorted(frame, keys@),
{
    frame.sort(keys)
}

} // verus!
