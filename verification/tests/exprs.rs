use arrow::datatypes::{DataType, TimeUnit};
use datafusion::functions_aggregate::count::count;
use datafusion::functions_aggregate::expr_fn::avg;
use datafusion::functions_aggregate::median::median;
use datafusion::functions_aggregate::stddev::stddev;
use datafusion::functions_aggregate::sum::sum;
use datafusion::logical_expr::Expr;
use datafusion::prelude::{
    array_length, case, cast, ident, is_null, length, lit, max, min,
};
use datafusion::scalar::ScalarValue;
use taotie::aggregate::{aggregates, null_indicator, reduce};
use taotie::display::{cell_expr, display_type, row_exprs, shown};
use taotie::method::DescribeMethod;
use taotie::plan::CellPlan;
use taotie::project::{measurable, project};
use taotie::schema::{Field, Schema};

fn field(name: &str, data_type: DataType) -> Field {
    Field::new(name.to_string(), data_type)
}

fn list_of(item: DataType) -> DataType {
    DataType::List(std::sync::Arc::new(arrow::datatypes::Field::new("item", item, true)))
}

fn mixed() -> Schema {
    Schema::new(vec![
        field("N", DataType::Float32),
        field("at", DataType::Timestamp(TimeUnit::Second, None)),
        field("tags", list_of(DataType::Utf8)),
        field("s", DataType::Utf8),
        field("flag", DataType::Boolean),
    ])
    .unwrap()
}

fn null_count_of(name: &str) -> Expr {
    sum(case(is_null(ident(name))).when(lit(true), lit(1)).otherwise(lit(0)).unwrap())
}

#[test]
fn measurable_expressions_follow_the_type() {
    assert_eq!(measurable(&field("N", DataType::Int32)), ident("N").alias("N"));
    assert_eq!(
        measurable(&field("at", DataType::Date32)),
        cast(ident("at"), DataType::Int64).alias("at")
    );
    assert_eq!(
        measurable(&field("tags", list_of(DataType::Int32))),
        array_length(ident("tags")).alias("tags")
    );
    assert_eq!(
        measurable(&field("s", DataType::Utf8)),
        length(cast(ident("s"), DataType::Utf8)).alias("s")
    );
    assert_eq!(
        measurable(&field("flag", DataType::Boolean)),
        length(cast(ident("flag"), DataType::Utf8)).alias("flag")
    );
    assert_eq!(
        measurable(&field("raw", DataType::Binary)),
        length(cast(ident("raw"), DataType::Utf8)).alias("raw")
    );
}

#[test]
fn projection_keeps_the_schema_order() {
    let expected = vec![
        ident("N").alias("N"),
        cast(ident("at"), DataType::Int64).alias("at"),
        array_length(ident("tags")).alias("tags"),
        length(cast(ident("s"), DataType::Utf8)).alias("s"),
        length(cast(ident("flag"), DataType::Utf8)).alias("flag"),
    ];
    assert_eq!(project(&mixed()), expected);
    assert!(project(&Schema::new(vec![]).unwrap()).is_empty());
}

#[test]
fn each_statistic_reduces_with_its_aggregate() {
    let x = || ident("x");
    assert_eq!(reduce(DescribeMethod::Total, x()).unwrap(), count(x()));
    assert_eq!(reduce(DescribeMethod::Mean, x()).unwrap(), avg(x()));
    assert_eq!(reduce(DescribeMethod::Stddev, x()).unwrap(), stddev(x()));
    assert_eq!(reduce(DescribeMethod::Min, x()).unwrap(), min(x()));
    assert_eq!(reduce(DescribeMethod::Max, x()).unwrap(), max(x()));
    assert_eq!(reduce(DescribeMethod::Median, x()).unwrap(), median(x()));
    assert_eq!(reduce(DescribeMethod::NullTotal, x()).unwrap(), null_count_of("x"));
    assert_eq!(
        null_indicator(x()).unwrap(),
        case(is_null(x())).when(lit(true), lit(1)).otherwise(lit(0)).unwrap()
    );
}

#[test]
fn aggregates_cover_the_fields_that_apply() {
    let schema = mixed();
    assert_eq!(
        aggregates(DescribeMethod::Mean, &schema).unwrap(),
        vec![avg(ident("N")).alias("N"), avg(ident("at")).alias("at")]
    );
    assert_eq!(
        aggregates(DescribeMethod::Max, &schema).unwrap(),
        vec![
            max(ident("N")).alias("N"),
            max(ident("at")).alias("at"),
            max(ident("tags")).alias("tags"),
            max(ident("s")).alias("s"),
        ]
    );
    assert_eq!(
        aggregates(DescribeMethod::NullTotal, &schema).unwrap(),
        vec![
            null_count_of("N").alias("N"),
            null_count_of("at").alias("at"),
            null_count_of("tags").alias("tags"),
            null_count_of("s").alias("s"),
            null_count_of("flag").alias("flag"),
        ]
    );
    let flags = Schema::new(vec![field("flag", DataType::Boolean)]).unwrap();
    assert!(aggregates(DescribeMethod::Min, &flags).unwrap().is_empty());
}

#[test]
fn display_types_follow_the_logical_type() {
    let stamp = DataType::Timestamp(TimeUnit::Microsecond, Some("UTC".into()));
    assert_eq!(display_type(&field("at", stamp.clone())), stamp);
    assert_eq!(display_type(&field("n", DataType::Int8)), DataType::Float64);
    assert_eq!(display_type(&field("tags", list_of(DataType::Int8))), DataType::Int64);
    assert_eq!(display_type(&field("s", DataType::Utf8)), DataType::Utf8);
    assert_eq!(display_type(&field("flag", DataType::Boolean)), DataType::Utf8);
    assert_eq!(display_type(&field("raw", DataType::Binary)), DataType::Utf8);
}

#[test]
fn shown_expressions_cast_to_the_display_type() {
    assert_eq!(
        shown(&field("at", DataType::Date32)),
        cast(cast(ident("at"), DataType::Int64), DataType::Date32)
    );
    assert_eq!(shown(&field("n", DataType::UInt16)), cast(ident("n"), DataType::Float64));
    assert_eq!(
        shown(&field("tags", list_of(DataType::Int8))),
        cast(ident("tags"), DataType::Int64)
    );
    assert_eq!(shown(&field("s", DataType::LargeUtf8)), cast(ident("s"), DataType::Utf8));
}

#[test]
fn cells_are_values_or_typed_nulls() {
    let n = field("n", DataType::Int32);
    assert_eq!(
        cell_expr(CellPlan::Value, &n).unwrap(),
        cast(ident("n"), DataType::Float64).alias("n")
    );
    assert_eq!(
        cell_expr(CellPlan::Placeholder, &n).unwrap(),
        lit(ScalarValue::Float64(None)).alias("n")
    );
    assert_eq!(
        cell_expr(CellPlan::Placeholder, &field("s", DataType::Utf8)).unwrap(),
        lit(ScalarValue::Utf8(None)).alias("s")
    );
    assert_eq!(
        cell_expr(CellPlan::Placeholder, &field("tags", list_of(DataType::Utf8))).unwrap(),
        lit(ScalarValue::Int64(None)).alias("tags")
    );
    assert_eq!(
        cell_expr(CellPlan::Placeholder, &field("at", DataType::Date32)).unwrap(),
        lit(ScalarValue::Date32(None)).alias("at")
    );
}

#[test]
fn row_expressions_lead_with_name_and_place() {
    let schema = Schema::new(vec![
        field("n", DataType::Int32),
        field("s", DataType::Utf8),
        field("flag", DataType::Boolean),
    ])
    .unwrap();
    assert_eq!(
        row_exprs(DescribeMethod::Min, 4, "stats_order", &schema).unwrap(),
        vec![
            lit("Min").alias("stats"),
            lit(4).alias("stats_order"),
            cast(ident("n"), DataType::Float64).alias("n"),
            cast(ident("s"), DataType::Utf8).alias("s"),
            lit(ScalarValue::Utf8(None)).alias("flag"),
        ]
    );
    assert_eq!(
        row_exprs(DescribeMethod::NullTotal, 1, "place", &Schema::new(vec![]).unwrap()).unwrap(),
        vec![lit("Null Total").alias("stats"), lit(1).alias("place")]
    );
}
