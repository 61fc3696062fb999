use std::sync::Arc;

use arrow::array::{
    Array, ArrayRef, BinaryArray, BooleanArray, Float64Array, Int32Array, Int64Array, ListArray,
    StringArray, TimestampNanosecondArray,
};
use arrow::datatypes::{DataType, Int32Type, Schema as ArrowSchema, TimeUnit};
use arrow::record_batch::{RecordBatch, RecordBatchOptions};
use arrow::util::display::array_value_to_string;
use datafusion::dataframe::DataFrame;
use datafusion::prelude::SessionContext;
use taotie::aggregate::{run, AggregationError};
use taotie::describe::{DataFrameDescriber, DescribeError};
use taotie::method::DescribeMethod;
use taotie::schema::{Field, LogicalType, Schema};

fn frame_of(columns: Vec<(&str, ArrayRef)>) -> DataFrame {
    let batch = RecordBatch::try_from_iter(columns).unwrap();
    SessionContext::new().read_batch(batch).unwrap()
}

fn collect(frame: DataFrame) -> RecordBatch {
    let runtime = tokio::runtime::Runtime::new().unwrap();
    let batches = runtime.block_on(frame.collect()).unwrap();
    let schema = batches[0].schema();
    arrow::compute::concat_batches(&schema, &batches).unwrap()
}

fn summary_of(columns: Vec<(&str, ArrayRef)>) -> RecordBatch {
    let describer = DataFrameDescriber::try_new(frame_of(columns)).unwrap();
    collect(describer.describe().unwrap())
}

fn column_names(batch: &RecordBatch) -> Vec<String> {
    batch.schema().fields().iter().map(|f| f.name().clone()).collect()
}

fn texts(batch: &RecordBatch, column: &str) -> Vec<String> {
    let array = batch.column_by_name(column).unwrap();
    (0..array.len()).map(|row| array_value_to_string(array, row).unwrap()).collect()
}

fn floats(batch: &RecordBatch, column: &str) -> Vec<Option<f64>> {
    let array = batch.column_by_name(column).unwrap();
    let array = array.as_any().downcast_ref::<Float64Array>().unwrap();
    array.iter().collect()
}

fn ints(values: Vec<Option<i32>>) -> ArrayRef {
    Arc::new(Int32Array::from(values))
}

const TOTAL: usize = 0;
const NULL_TOTAL: usize = 1;
const MEAN: usize = 2;
const STDDEV: usize = 3;
const MIN: usize = 4;
const MAX: usize = 5;
const MEDIAN: usize = 6;

#[test]
fn one_to_five_has_the_expected_statistics() {
    let summary = summary_of(vec![(
        "n",
        ints(vec![Some(1), Some(2), Some(3), Some(4), Some(5)]),
    )]);
    let n = floats(&summary, "n");
    assert_eq!(n[TOTAL], Some(5.0));
    assert_eq!(n[NULL_TOTAL], Some(0.0));
    assert_eq!(n[MEAN], Some(3.0));
    assert_eq!(n[MIN], Some(1.0));
    assert_eq!(n[MAX], Some(5.0));
    assert_eq!(n[MEDIAN], Some(3.0));
    let stddev = n[STDDEV].unwrap();
    assert!((stddev - 2.5f64.sqrt()).abs() < 1e-12);
}

#[test]
fn nulls_are_counted_apart() {
    let summary = summary_of(vec![("n", ints(vec![Some(1), None, Some(3)]))]);
    let n = floats(&summary, "n");
    assert_eq!(n[TOTAL], Some(2.0));
    assert_eq!(n[NULL_TOTAL], Some(1.0));
    assert_eq!(n[MEAN], Some(2.0));
    assert_eq!(n[MIN], Some(1.0));
    assert_eq!(n[MAX], Some(3.0));
}

#[test]
fn summary_has_one_row_per_statistic_in_registry_order() {
    let summary = summary_of(vec![
        ("n", ints(vec![Some(7), Some(8)])),
        ("s", Arc::new(StringArray::from(vec![Some("x"), None]))),
    ]);
    assert_eq!(summary.num_rows(), 7);
    assert_eq!(
        texts(&summary, "stats"),
        vec!["Total", "Null Total", "Mean", "Stddev", "Min", "Max", "Median"]
    );
}

#[test]
fn summary_columns_are_stats_then_the_schema() {
    let summary = summary_of(vec![
        ("zeta", ints(vec![Some(1)])),
        ("Alpha", Arc::new(StringArray::from(vec![Some("x")]))),
        ("mid dle", Arc::new(BooleanArray::from(vec![Some(true)]))),
    ]);
    assert_eq!(column_names(&summary), vec!["stats", "zeta", "Alpha", "mid dle"]);
}

#[test]
fn boolean_and_binary_columns_degrade_to_placeholders() {
    let flags: ArrayRef = Arc::new(BooleanArray::from(vec![Some(true), None, Some(false)]));
    let bytes: ArrayRef = Arc::new(BinaryArray::from_opt_vec(vec![
        Some(b"ab".as_ref()),
        Some(b"".as_ref()),
        None,
    ]));
    let summary = summary_of(vec![("flag", flags), ("raw", bytes)]);
    assert_eq!(summary.num_rows(), 7);
    assert_eq!(column_names(&summary), vec!["stats", "flag", "raw"]);
    for name in ["flag", "raw"] {
        let column = summary.column_by_name(name).unwrap();
        assert_eq!(column.data_type(), &DataType::Utf8);
        assert!(column.is_valid(TOTAL));
        assert!(column.is_valid(NULL_TOTAL));
        for row in [MEAN, STDDEV, MIN, MAX, MEDIAN] {
            assert!(column.is_null(row));
        }
    }
    assert_eq!(texts(&summary, "flag")[TOTAL], "2");
    assert_eq!(texts(&summary, "flag")[NULL_TOTAL], "1");
    assert_eq!(texts(&summary, "raw")[TOTAL], "2");
}

#[test]
fn text_is_measured_by_its_length() {
    let names: ArrayRef =
        Arc::new(StringArray::from(vec![Some("a"), Some("bcd"), None, Some("ef"), Some("")]));
    let summary = summary_of(vec![("name", names)]);
    let name = summary.column_by_name("name").unwrap();
    assert_eq!(name.data_type(), &DataType::Utf8);
    let shown = texts(&summary, "name");
    assert_eq!(shown[TOTAL], "4");
    assert_eq!(shown[NULL_TOTAL], "1");
    assert_eq!(shown[MIN], "0");
    assert_eq!(shown[MAX], "3");
    assert!(name.is_null(MEAN));
    assert!(name.is_null(STDDEV));
    assert!(name.is_null(MEDIAN));
}

#[test]
fn lists_are_measured_by_their_element_count() {
    let lists: ArrayRef = Arc::new(ListArray::from_iter_primitive::<Int32Type, _, _>(vec![
        Some(vec![Some(1), Some(2)]),
        None,
        Some(vec![]),
        Some(vec![Some(4), Some(5), Some(6)]),
    ]));
    let summary = summary_of(vec![("tags", lists)]);
    let tags = summary.column_by_name("tags").unwrap();
    let tags = tags.as_any().downcast_ref::<Int64Array>().unwrap();
    assert_eq!(tags.value(TOTAL), 3);
    assert_eq!(tags.value(NULL_TOTAL), 1);
    assert_eq!(tags.value(MIN), 0);
    assert_eq!(tags.value(MAX), 3);
    assert!(tags.is_null(MEAN));
    assert!(tags.is_null(MEDIAN));
}

#[test]
fn temporal_minimum_and_maximum_keep_every_nanosecond() {
    let early = 1_600_000_000_000_000_001i64;
    let late = 1_700_000_000_123_456_790i64;
    let times: ArrayRef = Arc::new(TimestampNanosecondArray::from(vec![
        Some(1_700_000_000_123_456_789),
        Some(late),
        None,
        Some(early),
        Some(1_650_000_000_000_000_000),
    ]));
    let summary = summary_of(vec![("at", times)]);
    let at = summary.column_by_name("at").unwrap();
    assert_eq!(at.data_type(), &DataType::Timestamp(TimeUnit::Nanosecond, None));
    let at = at.as_any().downcast_ref::<TimestampNanosecondArray>().unwrap();
    assert_eq!(at.value(MIN), early);
    assert_eq!(at.value(MAX), late);
    assert_eq!(at.value(TOTAL), 4);
    assert_eq!(at.value(NULL_TOTAL), 1);
    assert!(at.is_valid(MEAN));
    assert!(at.is_valid(MEDIAN));
}

#[test]
fn describing_twice_gives_the_same_table() {
    let columns = || {
        vec![
            ("n", ints(vec![Some(3), None, Some(9), Some(4)])),
            ("s", Arc::new(StringArray::from(vec![Some("x"), None, Some("yz"), Some("")])) as ArrayRef),
        ]
    };
    let frame = frame_of(columns());
    let first = collect(DataFrameDescriber::try_new(frame.clone()).unwrap().describe().unwrap());
    let second = collect(DataFrameDescriber::try_new(frame).unwrap().describe().unwrap());
    assert_eq!(first, second);
    let describer = DataFrameDescriber::try_new(frame_of(columns())).unwrap();
    let third = collect(describer.describe().unwrap());
    let fourth = collect(describer.describe().unwrap());
    assert_eq!(third, fourth);
    assert_eq!(first, third);
}

#[test]
fn describer_reads_and_classifies_the_schema() {
    let describer = DataFrameDescriber::try_new(frame_of(vec![
        ("n", ints(vec![Some(1)])),
        ("flag", Arc::new(BooleanArray::from(vec![Some(true)]))),
    ]))
    .unwrap();
    let schema = describer.schema();
    assert_eq!(schema.fields.len(), 2);
    assert_eq!(schema.fields[0].name, "n");
    assert_eq!(schema.fields[0].data_type, DataType::Int32);
    assert_eq!(schema.fields[0].logical_type, LogicalType::Numeric(4));
    assert_eq!(schema.fields[1].name, "flag");
    assert_eq!(schema.fields[1].logical_type, LogicalType::Boolean);
    assert_eq!(
        describer.methods(),
        &vec![
            DescribeMethod::Total,
            DescribeMethod::NullTotal,
            DescribeMethod::Mean,
            DescribeMethod::Stddev,
            DescribeMethod::Min,
            DescribeMethod::Max,
            DescribeMethod::Median,
        ]
    );
}

#[test]
fn statistic_without_fields_is_an_empty_projection() {
    let describer = DataFrameDescriber::try_new(frame_of(vec![(
        "flag",
        Arc::new(BooleanArray::from(vec![Some(true), Some(false)])) as ArrayRef,
    )]))
    .unwrap();
    assert!(matches!(
        describer.run(DescribeMethod::Min),
        Err(AggregationError::EmptyProjection)
    ));
    assert!(matches!(
        describer.run(DescribeMethod::Mean),
        Err(AggregationError::EmptyProjection)
    ));
    let counted = collect(describer.run(DescribeMethod::Total).unwrap());
    assert_eq!(counted.num_rows(), 1);
    assert_eq!(column_names(&counted), vec!["flag"]);
    assert_eq!(texts(&counted, "flag"), vec!["2"]);
}

#[test]
fn run_aggregates_only_the_fields_that_apply() {
    let describer = DataFrameDescriber::try_new(frame_of(vec![
        ("s", Arc::new(StringArray::from(vec![Some("abc"), Some("z")])) as ArrayRef),
        ("n", ints(vec![Some(4), Some(8)])),
        ("flag", Arc::new(BooleanArray::from(vec![Some(true), None])) as ArrayRef),
    ]))
    .unwrap();
    let mean = collect(describer.run(DescribeMethod::Mean).unwrap());
    assert_eq!(column_names(&mean), vec!["n"]);
    assert_eq!(floats(&mean, "n"), vec![Some(6.0)]);
    let max = collect(describer.run(DescribeMethod::Max).unwrap());
    assert_eq!(column_names(&max), vec!["s", "n"]);
    assert_eq!(texts(&max, "s"), vec!["3"]);
    assert_eq!(texts(&max, "n"), vec!["8"]);
    let nulls = collect(describer.run(DescribeMethod::NullTotal).unwrap());
    assert_eq!(column_names(&nulls), vec!["s", "n", "flag"]);
    assert_eq!(texts(&nulls, "flag"), vec!["1"]);
}

#[test]
fn cast_back_answers_an_empty_projection_with_a_row_of_nulls() {
    let describer = DataFrameDescriber::try_new(frame_of(vec![(
        "flag",
        Arc::new(BooleanArray::from(vec![Some(true), Some(false)])) as ArrayRef,
    )]))
    .unwrap();
    let row = describer
        .cast_back(DescribeMethod::Max, 5, Err(AggregationError::EmptyProjection))
        .unwrap();
    let row = collect(row);
    assert_eq!(row.num_rows(), 1);
    assert_eq!(column_names(&row), vec!["stats", "stats_order", "flag"]);
    assert_eq!(texts(&row, "stats"), vec!["Max"]);
    assert_eq!(texts(&row, "stats_order"), vec!["5"]);
    assert!(row.column_by_name("flag").unwrap().is_null(0));
}

#[test]
fn cast_back_passes_an_execution_error_on() {
    let describer =
        DataFrameDescriber::try_new(frame_of(vec![("n", ints(vec![Some(1)]))])).unwrap();
    let failure = datafusion::error::DataFusionError::Plan("no such thing".to_string());
    let out = describer.cast_back(
        DescribeMethod::Stddev,
        3,
        Err(AggregationError::Execution(failure)),
    );
    match out {
        Err(DescribeError::Execution(method, source)) => {
            assert_eq!(method, DescribeMethod::Stddev);
            assert!(source.to_string().contains("no such thing"));
        }
        other => panic!("unexpected outcome: {:?}", other.map(|_| ())),
    }
}

#[test]
fn column_named_stats_fails_the_cast_back() {
    let describer =
        DataFrameDescriber::try_new(frame_of(vec![("stats", ints(vec![Some(1)]))])).unwrap();
    match describer.describe() {
        Err(DescribeError::CastFailure(method, _)) => assert_eq!(method, DescribeMethod::Total),
        other => panic!("unexpected outcome: {:?}", other.map(|_| ())),
    }
}

#[test]
fn two_columns_of_one_name_are_refused() {
    let context = SessionContext::new();
    let left = RecordBatch::try_from_iter(vec![("k", ints(vec![Some(1)]))]).unwrap();
    let right = RecordBatch::try_from_iter(vec![("k", ints(vec![Some(1)]))]).unwrap();
    context.register_batch("l", left).unwrap();
    context.register_batch("r", right).unwrap();
    let runtime = tokio::runtime::Runtime::new().unwrap();
    let joined = runtime
        .block_on(context.sql("select * from l join r on l.k = r.k"))
        .unwrap();
    assert!(matches!(
        DataFrameDescriber::try_new(joined),
        Err(DescribeError::InvalidSchema)
    ));
}

#[test]
fn dataset_without_columns_has_a_summary_of_names_only() {
    let options = RecordBatchOptions::new().with_row_count(Some(3));
    let batch =
        RecordBatch::try_new_with_options(Arc::new(ArrowSchema::empty()), vec![], &options)
            .unwrap();
    let frame = SessionContext::new().read_batch(batch).unwrap();
    let describer = DataFrameDescriber::try_new(frame).unwrap();
    assert!(describer.schema().fields.is_empty());
    assert!(matches!(
        describer.run(DescribeMethod::Total),
        Err(AggregationError::EmptyProjection)
    ));
    let summary = collect(describer.describe().unwrap());
    assert_eq!(column_names(&summary), vec!["stats"]);
    assert_eq!(
        texts(&summary, "stats"),
        vec!["Total", "Null Total", "Mean", "Stddev", "Min", "Max", "Median"]
    );
}

#[test]
fn summary_is_ordered_by_place_and_hides_the_order_column() {
    let describer =
        DataFrameDescriber::try_new(frame_of(vec![("n", ints(vec![Some(1), Some(2)]))])).unwrap();
    let summary = describer.describe().unwrap();
    let plan = format!("{}", summary.logical_plan().display_indent());
    let lines: Vec<&str> = plan.lines().map(|line| line.trim()).collect();
    assert_eq!(lines[0], "Projection: stats, n");
    assert_eq!(lines[1], "Sort: stats_order ASC NULLS LAST");
    assert_eq!(lines[2], "Union");
    assert_eq!(lines.iter().filter(|line| line.starts_with("Aggregate:")).count(), 7);
    assert_eq!(column_names(&collect(summary)), vec!["stats", "n"]);
}

#[test]
fn aggregate_over_a_missing_column_is_an_execution_error() {
    let frame = frame_of(vec![("n", ints(vec![Some(1)]))]);
    let schema = Schema::new(vec![Field::new("m".to_string(), DataType::Int32)]).unwrap();
    match run(&frame, &schema, DescribeMethod::Total) {
        Err(AggregationError::Execution(source)) => {
            assert!(source.to_string().contains("m"));
        }
        other => panic!("unexpected outcome: {:?}", other.map(|_| ())),
    }
    assert!(matches!(
        run(&frame, &Schema::new(vec![]).unwrap(), DescribeMethod::Total),
        Err(AggregationError::EmptyProjection)
    ));
}

#[test]
fn mixed_dataset_is_summarised_column_by_column() {
    let summary = summary_of(vec![
        ("Id", ints(vec![Some(1), None, Some(3), Some(4), Some(5)])),
        (
            "name",
            Arc::new(StringArray::from(vec![Some("a"), Some("bcd"), None, Some("ef"), Some("")]))
                as ArrayRef,
        ),
        (
            "flag",
            Arc::new(BooleanArray::from(vec![Some(true), Some(false), None, Some(true), None]))
                as ArrayRef,
        ),
    ]);
    assert_eq!(column_names(&summary), vec!["stats", "Id", "name", "flag"]);
    assert_eq!(
        floats(&summary, "Id"),
        vec![
            Some(4.0),
            Some(1.0),
            Some(3.25),
            Some((35.0f64 / 12.0).sqrt()),
            Some(1.0),
            Some(5.0),
            // the median of whole numbers is a whole number
            Some(3.0),
        ]
    );
    assert_eq!(texts(&summary, "name")[..2], ["4".to_string(), "1".to_string()]);
    assert_eq!(texts(&summary, "flag")[..2], ["3".to_string(), "2".to_string()]);
    assert!(summary.column_by_name("flag").unwrap().is_null(4));
}

#[test]
fn column_named_like_the_order_column_is_summarised() {
    let describer = DataFrameDescriber::try_new(frame_of(vec![
        ("stats_order", ints(vec![Some(4), None, Some(6)])),
        ("stats_order_", ints(vec![Some(1), Some(2), Some(3)])),
    ]))
    .unwrap();
    assert_eq!(describer.order_column(), "stats_order__");
    let summary = collect(describer.describe().unwrap());
    assert_eq!(column_names(&summary), vec!["stats", "stats_order", "stats_order_"]);
    assert_eq!(
        texts(&summary, "stats"),
        vec!["Total", "Null Total", "Mean", "Stddev", "Min", "Max", "Median"]
    );
    let first = floats(&summary, "stats_order");
    assert_eq!(first[TOTAL], Some(2.0));
    assert_eq!(first[NULL_TOTAL], Some(1.0));
    assert_eq!(first[MEAN], Some(5.0));
    assert_eq!(first[MAX], Some(6.0));
    let second = floats(&summary, "stats_order_");
    assert_eq!(second[TOTAL], Some(3.0));
    assert_eq!(second[MIN], Some(1.0));
    assert_eq!(second[MEDIAN], Some(2.0));
}
