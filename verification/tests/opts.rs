use taotie::method::{registry, DescribeMethod};
use taotie::opts::{DescribeOpts, HeadOpts, ListOpts, SchemaOpts, SqlOpts, DEFAULT_HEAD_ROWS};
use taotie::text::{joined, decimal_string, ends_with, rfind, same_text, slice, starts_with};

#[test]
fn describe_options_query_the_whole_dataset() {
    let opts = DescribeOpts::new("sales".to_string());
    assert_eq!(opts.name, "sales");
    assert_eq!(opts.query(), "select * from sales");
}

#[test]
fn schema_options_query_the_columns() {
    let opts = SchemaOpts::new("sales".to_string());
    assert_eq!(opts.name, "sales");
    assert_eq!(opts.query(), "DESCRIBE sales");
}

#[test]
fn head_options_default_to_five_rows() {
    let opts = HeadOpts::new("sales".to_string(), None);
    assert_eq!(opts.name, "sales");
    assert_eq!(opts.n, None);
    assert_eq!(DEFAULT_HEAD_ROWS, 5);
    assert_eq!(opts.rows(), 5);
    assert_eq!(opts.query(), "SELECT * FROM sales LIMIT 5");
}

#[test]
fn head_options_take_the_number_asked_for() {
    let opts = HeadOpts::new("sales".to_string(), Some(120));
    assert_eq!(opts.n, Some(120));
    assert_eq!(opts.rows(), 120);
    assert_eq!(opts.query(), "SELECT * FROM sales LIMIT 120");
    assert_eq!(HeadOpts::new("t".to_string(), Some(0)).query(), "SELECT * FROM t LIMIT 0");
}

#[test]
fn list_options_query_the_public_tables() {
    assert_eq!(
        ListOpts.query(),
        "select table_name, table_type from information_schema.tables where table_schema = 'public'"
    );
}

#[test]
fn sql_options_keep_the_query() {
    let opts = SqlOpts::new("select 1".to_string());
    assert_eq!(opts.query, "select 1");
}

#[test]
fn statistics_have_display_names() {
    assert_eq!(DescribeMethod::Total.name(), "Total");
    assert_eq!(DescribeMethod::NullTotal.name(), "Null Total");
    assert_eq!(DescribeMethod::Mean.name(), "Mean");
    assert_eq!(DescribeMethod::Stddev.name(), "Stddev");
    assert_eq!(DescribeMethod::Min.name(), "Min");
    assert_eq!(DescribeMethod::Max.name(), "Max");
    assert_eq!(DescribeMethod::Median.name(), "Median");
    assert_eq!(DescribeMethod::Percentile(0).name(), "Percentile 0");
    assert_eq!(DescribeMethod::Percentile(95).name(), "Percentile 95");
    assert_eq!(DescribeMethod::Percentile(255).name(), "Percentile 255");
}

#[test]
fn registry_lists_the_seven_statistics_in_order() {
    assert_eq!(
        registry(),
        vec![
            DescribeMethod::Total,
            DescribeMethod::NullTotal,
            DescribeMethod::Mean,
            DescribeMethod::Stddev,
            DescribeMethod::Min,
            DescribeMethod::Max,
            DescribeMethod::Median,
        ]
    );
    assert!(registry().iter().all(|m| m.implemented()));
    assert!(!DescribeMethod::Percentile(50).implemented());
}

#[test]
fn numbers_are_written_in_decimal() {
    assert_eq!(decimal_string(0), "0");
    assert_eq!(decimal_string(7), "7");
    assert_eq!(decimal_string(10), "10");
    assert_eq!(decimal_string(1234567890), "1234567890");
    assert_eq!(decimal_string(u64::MAX), "18446744073709551615");
}

#[test]
fn text_helpers_work_on_characters() {
    assert_eq!(joined("ab", "cd"), "abcd");
    assert_eq!(joined("", ""), "");
    assert!(same_text("é", "é"));
    assert!(!same_text("a", "A"));
    assert!(starts_with("postgres://x", "postgres://"));
    assert!(!starts_with("postgres:/", "postgres://"));
    assert!(starts_with("abc", ""));
    assert!(ends_with("a.parquet", ".parquet"));
    assert!(!ends_with("parquet", ".parquet"));
    assert_eq!(rfind("a.b.c", 5, '.'), Some(3));
    assert_eq!(rfind("a.b.c", 3, '.'), Some(1));
    assert_eq!(rfind("a.b.c", 1, '.'), None);
    assert_eq!(rfind("é.été", 5, '.'), Some(1));
    assert_eq!(slice("é.été", 2, 5), "été");
    assert_eq!(slice("abc", 1, 1), "");
}
