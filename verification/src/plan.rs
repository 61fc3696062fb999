use crate::method::DescribeMethod;
use crate::schema::{field_names, Field, LogicalType, Schema};
use crate::text::{same_text, views};
use vstd::prelude::*;
use vstd::string::*;

verus! {

/// The name of the leading column of a summary, which names each row's
/// statistic.
pub const STATS_COLUMN: &'static str = "stats";

/// The name of the column that holds each row's place in the registry while
/// a summary is put together, where no field has that name already. The
/// finished summary does not show it.
pub const ORDER_COLUMN: &'static str = "stats_order";

/// The number that stands for a value when statistics are computed.
#[derive(Debug, Clone, Copy, PartialEq, Eq, Structural)]
pub enum Measure {
    /// The value itself.
    Identity,
    /// The value's distance from the epoch, as a whole number.
    EpochNumber,
    /// The number of elements.
    ElementCount,
    /// The length of the value written as text.
    TextLength,
}

/// The type in which a column of a summary is shown.
#[derive(Debug, Clone, Copy, PartialEq, Eq, Structural)]
pub enum DisplayType {
    /// The temporal type of the field itself.
    Temporal,
    /// A floating-point number.
    Float,
    /// A whole number that counts elements.
    Count,
    /// Text.
    Text,
}

/// One cell of a summary.
#[derive(Debug, Clone, Copy, PartialEq, Eq, Structural)]
pub enum CellPlan {
    /// The statistic of the field's measure, shown in the display type.
    Value,
    /// A null of the display type: the statistic does not apply.
    Placeholder,
}

/// The measure of a logical type: a number is measured as it is, a temporal
/// value by its epoch number, a list by its element count and everything
/// else by the length of its text.
pub open spec fn measure_spec(t: LogicalType) -> Measure {
    match t {
        LogicalType::Numeric(_) => Measure::Identity,
        LogicalType::Temporal => Measure::EpochNumber,
        LogicalType::ListOf(_) => Measure::ElementCount,
        LogicalType::Text => Measure::TextLength,
        LogicalType::Boolean => Measure::TextLength,
        LogicalType::Binary => Measure::TextLength,
    }
}

/// The display type of a logical type: temporal fields are shown in their
/// own type, numbers as floats, lists as counts and everything else as text.
pub open spec fn display_spec(t: LogicalType) -> DisplayType {
    match t {
        LogicalType::Numeric(_) => DisplayType::Float,
        LogicalType::Temporal => DisplayType::Temporal,
        LogicalType::ListOf(_) => DisplayType::Count,
        LogicalType::Text => DisplayType::Text,
        LogicalType::Boolean => DisplayType::Text,
        LogicalType::Binary => DisplayType::Text,
    }
}

/// Whether the measure of a type is a number that stands for the value
/// itself, and not a length: so it is for numbers and temporal values.
pub open spec fn has_numeric_proxy(t: LogicalType) -> bool {
    t is Numeric || t is Temporal
}

/// Whether a statistic applies to a field of the given type. The two counts
/// apply to every field; mean, standard deviation, median and percentile
/// to fields with a numeric proxy; minimum and maximum to every field that
/// is neither boolean nor binary.
pub open spec fn applies_spec(method: DescribeMethod, t: LogicalType) -> bool {
    match method {
        DescribeMethod::Total => true,
        DescribeMethod::NullTotal => true,
        DescribeMethod::Mean => has_numeric_proxy(t),
        DescribeMethod::Stddev => has_numeric_proxy(t),
        DescribeMethod::Median => has_numeric_proxy(t),
        DescribeMethod::Percentile(_) => has_numeric_proxy(t),
        DescribeMethod::Min => !(t is Boolean || t is Binary),
        DescribeMethod::Max => !(t is Boolean || t is Binary),
    }
}

/// The cell of a statistic for a field of the given type.
pub open spec fn cell_spec(method: DescribeMethod, t: LogicalType) -> CellPlan {
    if applies_spec(method, t) {
        CellPlan::Value
    } else {
        CellPlan::Placeholder
    }
}

/// The cells of a statistic's row, one per field, in schema order.
pub open spec fn row_cells_spec(method: DescribeMethod, fields: Seq<Field>) -> Seq<CellPlan> {
    Seq::new(fields.len(), |i: int| cell_spec(method, fields[i].logical_type))
}

/// The statistic applies to no field.
pub open spec fn is_empty_projection(method: DescribeMethod, fields: Seq<Field>) -> bool {
    forall|i: int| 0 <= i < fields.len() ==> !applies_spec(method, #[trigger] fields[i].logical_type)
}

/// The column names of a summary: `stats`, then the field names in schema
/// order.
pub open spec fn summary_columns_spec(fields: Seq<Field>) -> Seq<Seq<char>> {
    seq![STATS_COLUMN@] + field_names(fields)
}

/// The measure of a logical type.
pub fn measure_of(t: &LogicalType) -> (m: Measure)
    ensures
        m == measure_spec(*t),
{
    match t {
        LogicalType::Numeric(_) => Measure::Identity,
        LogicalType::Temporal => Measure::EpochNumber,
        LogicalType::ListOf(_) => Measure::ElementCount,
        _ => Measure::TextLength,
    }
}

/// The display type of a logical type.
pub fn display_of(t: &LogicalType) -> (d: DisplayType)
    ensures
        d == display_spec(*t),
{
    match t {
        LogicalType::Numeric(_) => DisplayType::Float,
        LogicalType::Temporal => DisplayType::Temporal,
        LogicalType::ListOf(_) => DisplayType::Count,
        _ => DisplayType::Text,
    }
}

/// Whether a statistic applies to a field of the given type.
pub fn applies(method: DescribeMethod, t: &LogicalType) -> (b: bool)
    ensures
        b == applies_spec(method, *t),
{
    let proxy = match t {
        LogicalType::Numeric(_) => true,
        LogicalType::Temporal => true,
        _ => false,
    };
    let ordered = match t {
        LogicalType::Boolean => false,
        LogicalType::Binary => false,
        _ => true,
    };
    match method {
        DescribeMethod::Total => true,
        DescribeMethod::NullTotal => true,
        DescribeMethod::Min => ordered,
        DescribeMethod::Max => ordered,
        _ => proxy,
    }
}

/// One row of a summary: a statistic and its cells, one per field.
#[derive(Debug)]
pub struct RowPlan {
    pub method: DescribeMethod,
    pub cells: Vec<CellPlan>,
}

/// Plans the row of a statistic over a schema.
pub fn row_plan(method: DescribeMethod, schema: &Schema) -> (row: RowPlan)
    ensures
        row.method == method,
        row.cells@ == row_cells_spec(method, schema.fields@),
{
    let mut cells: Vec<CellPlan> = Vec::new();
    let n = schema.fields.len();
    let mut i: usize = 0;
    while i < n
        invariant
            n == schema.fields@.len(),
            i <= n,
            cells@ == row_cells_spec(method, schema.fields@).take(i as int),
        decreases n - i,
    {
        let cell = if applies(method, &schema.fields[i].logical_type) {
            CellPlan::Value
        } else {
            CellPlan::Placeholder
        };
        cells.push(cell);
        assert(cells@ =~= row_cells_spec(method, schema.fields@).take(i + 1));
        i += 1;
    }
    assert(cells@ =~= row_cells_spec(method, schema.fields@));
    RowPlan { method, cells }
}

/// Whether a statistic applies to no field of the schema: then there is
/// nothing to aggregate, and its row holds placeholders only.
pub fn empty_projection(method: DescribeMethod, schema: &Schema) -> (b: bool)
    ensures
        b == is_empty_projection(method, schema.fields@),
{
    let n = schema.fields.len();
    let mut i: usize = 0;
    while i < n
        invariant
            n == schema.fields@.len(),
            i <= n,
            forall|k: int| 0 <= k < i ==> !applies_spec(method, #[trigger] schema.fields@[k].logical_type),
        decreases n - i,
    {
        if applies(method, &schema.fields[i].logical_type) {
            return false;
        }
        i += 1;
    }
    true
}

/// The column names of the summary of a schema.
pub fn summary_columns(schema: &Schema) -> (columns: Vec<String>)
    ensures
        views(columns@) == summary_columns_spec(schema.fields@),
{
    let mut columns: Vec<String> = Vec::new();
    columns.push(String::from_str(STATS_COLUMN));
    let n = schema.fields.len();
    let mut i: usize = 0;
    while i < n
        invariant
            n == schema.fields@.len(),
            i <= n,
            columns@.len() == i + 1,
            columns@[0]@ == STATS_COLUMN@,
            forall|k: int| 0 <= k < i ==> columns@[k + 1]@ == schema.fields@[k].name@,
        decreases n - i,
    {
        columns.push(schema.fields[i].name.clone());
        i += 1;
    }
    assert(views(columns@) =~= summary_columns_spec(schema.fields@));
    columns
}

/// Whether one of the fields has the given name.
pub open spec fn has_name(fields: Seq<Field>, name: Seq<char>) -> bool {
    exists|i: int| 0 <= i < fields.len() && (#[trigger] fields[i]).name@ == name
}

/// The length of the longest field name, in characters.
pub open spec fn longest_name(fields: Seq<Field>) -> nat
    decreases fields.len(),
{
    if fields.len() == 0 {
        0
    } else {
        let before = longest_name(fields.drop_last());
        if fields.last().name@.len() > before {
            fields.last().name@.len()
        } else {
            before
        }
    }
}

/// `n` underscores.
pub open spec fn underscores(n: nat) -> Seq<char> {
    Seq::new(n, |i: int| '_')
}

/// The name of the order column for the given fields: `stats_order` where
/// no field has that name, and elsewhere `stats_order` drawn out with
/// underscores until it is one character longer than the longest field
/// name.
pub open spec fn order_column_spec(fields: Seq<Field>) -> Seq<char> {
    if has_name(fields, ORDER_COLUMN@) {
        ORDER_COLUMN@ + underscores((longest_name(fields) + 1 - ORDER_COLUMN@.len()) as nat)
    } else {
        ORDER_COLUMN@
    }
}

/// No field name is longer than the longest.
pub proof fn lemma_longest_name(fields: Seq<Field>, i: int)
    requires
        0 <= i < fields.len(),
    ensures
        fields[i].name@.len() <= longest_name(fields),
    decreases fields.len(),
{
    if i < fields.len() - 1 {
        lemma_longest_name(fields.drop_last(), i);
    }
}

/// The order column never gets in the way: no field has its name, and it
/// is not `stats`.
pub proof fn lemma_order_column_is_free(fields: Seq<Field>)
    ensures
        !has_name(fields, order_column_spec(fields)),
        order_column_spec(fields) != STATS_COLUMN@,
{
    reveal_strlit("stats");
    reveal_strlit("stats_order");
    let name = order_column_spec(fields);
    assert(STATS_COLUMN@.len() == 5);
    assert(ORDER_COLUMN@.len() == 11);
    assert(name.len() >= 11);
    if has_name(fields, ORDER_COLUMN@) {
        let at = choose|i: int| 0 <= i < fields.len() && (#[trigger] fields[i]).name@ == ORDER_COLUMN@;
        lemma_longest_name(fields, at);
        assert(name.len() == longest_name(fields) + 1);
        assert forall|i: int| 0 <= i < fields.len() implies (#[trigger] fields[i]).name@
            != name by {
            lemma_longest_name(fields, i);
        }
    }
}

/// Picks the name of the order column for a schema: one that no field has
/// and that is not `stats`.
pub fn order_column(schema: &Schema) -> (name: String)
    ensures
        name@ == order_column_spec(schema.fields@),
        !has_name(schema.fields@, name@),
        name@ != STATS_COLUMN@,
{
    proof {
        lemma_order_column_is_free(schema.fields@);
    }
    let n = schema.fields.len();
    let mut taken = false;
    let mut longest: usize = 0;
    let mut i: usize = 0;
    while i < n
        invariant
            n == schema.fields@.len(),
            i <= n,
            taken == has_name(schema.fields@.take(i as int), ORDER_COLUMN@),
            longest == longest_name(schema.fields@.take(i as int)),
        decreases n - i,
    {
        let name = schema.fields[i].name.as_str();
        let ghost before = schema.fields@.take(i as int);
        let ghost now = schema.fields@.take(i + 1);
        proof {
            assert(now.drop_last() =~= before);
            assert(now.last() == schema.fields@[i as int]);
            if has_name(before, ORDER_COLUMN@) {
                let k = choose|k: int|
                    0 <= k < before.len() && (#[trigger] before[k]).name@ == ORDER_COLUMN@;
                assert(now[k].name@ == ORDER_COLUMN@);
            }
            if has_name(now, ORDER_COLUMN@) && name@ != ORDER_COLUMN@ {
                let k = choose|k: int|
                    0 <= k < now.len() && (#[trigger] now[k]).name@ == ORDER_COLUMN@;
                assert(before[k].name@ == ORDER_COLUMN@);
            }
        }
        if same_text(name, ORDER_COLUMN) {
            taken = true;
            assert(now[i as int].name@ == ORDER_COLUMN@);
        }
        let len = name.unicode_len();
        if len > longest {
            longest = len;
        }
        i += 1;
    }
    assert(schema.fields@.take(n as int) =~= schema.fields@);
    let mut name = String::from_str(ORDER_COLUMN);
    if taken {
        let own = ORDER_COLUMN.unicode_len();
        proof {
            reveal_strlit("stats_order");
            reveal_strlit("_");
            let at = choose|k: int|
                0 <= k < schema.fields@.len() && (#[trigger] schema.fields@[k]).name@
                    == ORDER_COLUMN@;
            lemma_longest_name(schema.fields@, at);
        }
        let pad = longest - (own - 1);
        let mut k: usize = 0;
        while k < pad
            invariant
                k <= pad,
                "_"@ == seq!['_'],
                name@ == ORDER_COLUMN@ + underscores(k as nat),
            decreases pad - k,
        {
            name.append("_");
            assert(name@ =~= ORDER_COLUMN@ + underscores((k + 1) as nat));
            k += 1;
        }
    } else {
        assert(name@ =~= ORDER_COLUMN@);
    }
    name
}

} // verus!
