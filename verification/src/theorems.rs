use crate::aggregate::{
    aggregates_upto, field_aggregate_spec, run_spec, AggregationError, Decided,
};
use crate::describe::{
    agrees, arrange_spec, cast_back_spec, describe_spec, fields_match, row_spec, rows_upto,
    DescribeError,
};
use crate::display::{
    cell_expr_spec, cells_upto, display_type_spec, row_exprs_spec, shown_spec,
};
use crate::frame::{
    alias_expr, cast_expr, column_expr, frame_columns, max_expr, min_expr, null_literal_expr,
    physical_type_spec, selected, united, CastTarget,
};
use crate::method::{registry_spec, DescribeMethod};
use crate::plan::{
    applies_spec, has_name, is_empty_projection, longest_name, order_column_spec,
    row_cells_spec, summary_columns_spec, CellPlan, STATS_COLUMN,
};
use crate::project::{measurable_spec, projection_spec};
use crate::schema::{field_names, Field};
use datafusion::dataframe::DataFrame;
use datafusion::error::DataFusionError;
use datafusion::logical_expr::Expr;
use vstd::prelude::*;

verus! {

/// Two sequences of fields say the same: as many fields, and at each place
/// the same name, the same physical type and the same logical type.
pub open spec fn same_fields(a: Seq<Field>, b: Seq<Field>) -> bool {
    &&& a.len() == b.len()
    &&& forall|i: int|
        0 <= i < a.len() ==> {
            &&& (#[trigger] a[i]).name@ == b[i].name@
            &&& a[i].data_type == b[i].data_type
            &&& a[i].logical_type == b[i].logical_type
        }
}

/// The union of a sequence of at least one frame, from the first to the
/// last.
pub open spec fn stack_spec(rows: Seq<DataFrame>) -> Result<DataFrame, DataFusionError>
    decreases rows.len(),
{
    if rows.len() <= 1 {
        Ok(rows[0])
    } else {
        match stack_spec(rows.drop_last()) {
            Ok(top) => united(top, rows.last()),
            Err(e) => Err(e),
        }
    }
}

/// Completeness of the rows. Where the table of the first `n` statistics
/// is planned, it is the union of exactly `n` frames, and the frame at each
/// place is the row of the statistic at that place: no statistic is left
/// out and none comes twice.
pub proof fn lemma_one_row_per_statistic(
    measured: DataFrame,
    fields: Seq<Field>,
    methods: Seq<DescribeMethod>,
    n: nat,
    table: DataFrame,
) -> (rows: Seq<DataFrame>)
    requires
        1 <= n <= methods.len(),
        n <= i32::MAX,
        rows_upto(measured, fields, methods, n) == Decided::Exact(
            Ok::<DataFrame, DescribeError>(table),
        ),
    ensures
        rows.len() == n,
        forall|k: int|
            0 <= k < n ==> row_spec(measured, fields, methods[k], k as i32) == Decided::Exact(
                Ok::<DataFrame, DescribeError>(#[trigger] rows[k]),
            ),
        stack_spec(rows) == Ok::<DataFrame, DataFusionError>(table),
    decreases n,
{
    if n <= 1 {
        seq![table]
    } else {
        let top = match rows_upto(measured, fields, methods, (n - 1) as nat) {
            Decided::Exact(Ok(top)) => top,
            _ => table,
        };
        let bottom = match row_spec(measured, fields, methods[n - 1], (n - 1) as i32) {
            Decided::Exact(Ok(bottom)) => bottom,
            _ => table,
        };
        let before = lemma_one_row_per_statistic(measured, fields, methods, (n - 1) as nat, top);
        let rows = before.push(bottom);
        assert(rows.drop_last() =~= before);
        rows
    }
}

/// Completeness of a summary's rows: a planned summary arranges the union
/// of as many rows as the registry has statistics, one for each, at its
/// place.
pub proof fn lemma_summary_has_registry_rows(
    measured: DataFrame,
    fields: Seq<Field>,
    summary: DataFrame,
) -> (rows: Seq<DataFrame>)
    requires
        describe_spec(measured, fields) == Decided::Exact(
            Ok::<DataFrame, DescribeError>(summary),
        ),
    ensures
        rows.len() == registry_spec().len(),
        forall|k: int|
            0 <= k < rows.len() ==> row_spec(measured, fields, registry_spec()[k], k as i32)
                == Decided::Exact(Ok::<DataFrame, DescribeError>(#[trigger] rows[k])),
        stack_spec(rows) matches Ok(table) && arrange_spec(table, fields) == Ok::<
            DataFrame,
            DescribeError,
        >(summary),
{
    let table = match rows_upto(measured, fields, registry_spec(), registry_spec().len()) {
        Decided::Exact(Ok(table)) => table,
        _ => summary,
    };
    lemma_one_row_per_statistic(measured, fields, registry_spec(), registry_spec().len(), table)
}

/// The rows stack as planned: where the row of each of the first `n`
/// statistics is planned and their union is, the table of these rows is
/// that union.
pub proof fn lemma_rows_stack(
    measured: DataFrame,
    fields: Seq<Field>,
    methods: Seq<DescribeMethod>,
    rows: Seq<DataFrame>,
    n: nat,
)
    requires
        1 <= n <= rows.len(),
        forall|k: int|
            0 <= k < n ==> row_spec(measured, fields, methods[k], k as i32) == Decided::Exact(
                Ok::<DataFrame, DescribeError>(#[trigger] rows[k]),
            ),
        stack_spec(rows.take(n as int)) is Ok,
    ensures
        rows_upto(measured, fields, methods, n) == Decided::Exact(
            Ok::<DataFrame, DescribeError>(stack_spec(rows.take(n as int))->Ok_0),
        ),
    decreases n,
{
    let part = rows.take(n as int);
    if n > 1 {
        assert(part.drop_last() =~= rows.take(n - 1));
        assert(part.last() == rows[n - 1]);
        lemma_rows_stack(measured, fields, methods, rows, (n - 1) as nat);
    } else {
        assert(part[0] == rows[0]);
    }
}

/// A summary succeeds wherever the planner accepts its steps. Where the
/// row of every statistic of the registry is planned, the planner stacks
/// these rows, and it arranges the table, the summary is that arranged
/// table: nothing else can fail it.
pub proof fn lemma_summary_planned_from_rows(
    measured: DataFrame,
    fields: Seq<Field>,
    rows: Seq<DataFrame>,
)
    requires
        rows.len() == registry_spec().len(),
        forall|k: int|
            0 <= k < rows.len() ==> row_spec(measured, fields, registry_spec()[k], k as i32)
                == Decided::Exact(Ok::<DataFrame, DescribeError>(#[trigger] rows[k])),
        stack_spec(rows) is Ok,
    ensures
        describe_spec(measured, fields) == Decided::Exact(
            arrange_spec(stack_spec(rows)->Ok_0, fields),
        ),
{
    assert(rows.take(rows.len() as int) =~= rows);
    lemma_rows_stack(measured, fields, registry_spec(), rows, rows.len());
}

/// Column order. The columns of a summary are `stats`, then the fields'
/// names in the order of the schema: the name at place `i` of the schema
/// is the name at place `i + 1` of the summary.
pub proof fn lemma_columns_follow_schema(fields: Seq<Field>)
    ensures
        summary_columns_spec(fields).len() == fields.len() + 1,
        summary_columns_spec(fields)[0] == STATS_COLUMN@,
        summary_columns_spec(fields).subrange(1, fields.len() as int + 1) == field_names(fields),
        forall|i: int|
            0 <= i < fields.len() ==> #[trigger] summary_columns_spec(fields)[i + 1]
                == fields[i].name@,
{
    assert(summary_columns_spec(fields).subrange(1, fields.len() as int + 1) =~= field_names(fields));
}

/// Every row of a summary has one cell per field, where its cells can be
/// built at all.
pub proof fn lemma_row_has_schema_cells(
    method: DescribeMethod,
    place: i32,
    order: Seq<char>,
    fields: Seq<Field>,
)
    ensures
        row_cells_spec(method, fields).len() == fields.len(),
        row_exprs_spec(method, place, order, fields) matches Ok(exprs) ==> exprs.len()
            == fields.len() + 2,
{
    crate::display::lemma_cells_len(method, fields, fields.len());
}

/// Graceful degradation. Over a schema of boolean and binary fields only,
/// minimum and maximum apply to no field, and neither does any statistic
/// but the two counts. Running one of them asks nothing of the frame and
/// ends in `EmptyProjection`; its row is planned all the same, over the
/// placeholder base, and every cell of it is a placeholder.
pub proof fn lemma_unordered_fields_give_placeholders(
    measured: DataFrame,
    fields: Seq<Field>,
    method: DescribeMethod,
    place: i32,
)
    requires
        !(method is Total),
        !(method is NullTotal),
        forall|i: int|
            0 <= i < fields.len() ==> (#[trigger] fields[i]).logical_type is Boolean
                || fields[i].logical_type is Binary,
    ensures
        is_empty_projection(method, fields),
        run_spec(measured, fields, method) == Decided::Exact(
            Err::<DataFrame, AggregationError>(AggregationError::EmptyProjection),
        ),
        row_cells_spec(method, fields) == Seq::new(fields.len(), |i: int| CellPlan::Placeholder),
        row_spec(measured, fields, method, place) == Decided::Exact(
            cast_back_spec(
                measured,
                fields,
                method,
                place,
                Err(AggregationError::EmptyProjection),
            ),
        ),
{
    assert(row_cells_spec(method, fields) =~= Seq::new(
        fields.len(),
        |i: int| CellPlan::Placeholder,
    ));
}

/// The minimum and the maximum of a boolean or binary field are
/// placeholders, whatever the other fields of the schema are, and so is
/// every statistic of it but the two counts: the cell is the null of text
/// under the field's name.
pub proof fn lemma_unordered_field_has_placeholder(
    fields: Seq<Field>,
    at: int,
    method: DescribeMethod,
)
    requires
        0 <= at < fields.len(),
        !(method is Total),
        !(method is NullTotal),
        fields[at].logical_type is Boolean || fields[at].logical_type is Binary,
    ensures
        !applies_spec(method, fields[at].logical_type),
        row_cells_spec(method, fields)[at] == CellPlan::Placeholder,
        cell_expr_spec(method, fields[at]) == match null_literal_expr(
            physical_type_spec(CastTarget::Utf8),
        ) {
            Ok(null) => Ok::<Expr, DataFusionError>(alias_expr(null, fields[at].name@)),
            Err(e) => Err(e),
        },
{
}

/// An empty projection never ends a summary: whatever statistic it is, and
/// whatever the fields, the row is planned over the placeholder base, and
/// fails only where the planner refuses that base or the row's expressions.
pub proof fn lemma_empty_projection_is_recovered(
    measured: DataFrame,
    fields: Seq<Field>,
    method: DescribeMethod,
    place: i32,
)
    requires
        is_empty_projection(method, fields),
        crate::describe::placeholder_base_spec(measured) matches Ok(base) && row_exprs_spec(
            method,
            place,
            order_column_spec(fields),
            fields,
        ) matches Ok(exprs) && selected(base, exprs) is Ok,
    ensures
        row_spec(measured, fields, method, place) matches Decided::Exact(Ok(_)),
{
}

/// A temporal field keeps to whole numbers. It is measured by its cast to
/// a 64-bit integer; its minimum and its maximum are taken of that integer;
/// and it is shown by the integer's cast to the field's own type. No other
/// type stands between the column and these two rows of its summary.
pub proof fn lemma_temporal_fields_stay_whole(field: Field)
    requires
        field.logical_type is Temporal,
    ensures
        measurable_spec(field) == alias_expr(
            cast_expr(column_expr(field.name@), physical_type_spec(CastTarget::Int64)),
            field.name@,
        ),
        field_aggregate_spec(DescribeMethod::Min, field) == Some(
            alias_expr(min_expr(column_expr(field.name@)), field.name@),
        ),
        field_aggregate_spec(DescribeMethod::Max, field) == Some(
            alias_expr(max_expr(column_expr(field.name@)), field.name@),
        ),
        cell_expr_spec(DescribeMethod::Min, field) == cell_expr_spec(DescribeMethod::Max, field),
        cell_expr_spec(DescribeMethod::Min, field) == Ok::<Expr, DataFusionError>(
            alias_expr(
                cast_expr(
                    cast_expr(column_expr(field.name@), physical_type_spec(CastTarget::Int64)),
                    field.data_type,
                ),
                field.name@,
            ),
        ),
        display_type_spec(field) == field.data_type,
{
}

proof fn lemma_same_aggregates(method: DescribeMethod, a: Seq<Field>, b: Seq<Field>, n: nat)
    requires
        same_fields(a, b),
        n <= a.len(),
    ensures
        aggregates_upto(method, a, n) == aggregates_upto(method, b, n),
    decreases n,
{
    if n > 0 {
        lemma_same_aggregates(method, a, b, (n - 1) as nat);
        assert(a[n - 1].name@ == b[n - 1].name@);
        assert(field_aggregate_spec(method, a[n - 1]) == field_aggregate_spec(method, b[n - 1]));
    }
}

proof fn lemma_same_cells(method: DescribeMethod, a: Seq<Field>, b: Seq<Field>, n: nat)
    requires
        same_fields(a, b),
        n <= a.len(),
    ensures
        cells_upto(method, a, n) == cells_upto(method, b, n),
    decreases n,
{
    if n > 0 {
        lemma_same_cells(method, a, b, (n - 1) as nat);
        assert(a[n - 1].name@ == b[n - 1].name@);
        assert(display_type_spec(a[n - 1]) == display_type_spec(b[n - 1]));
        assert(shown_spec(a[n - 1]) == shown_spec(b[n - 1]));
        assert(cell_expr_spec(method, a[n - 1]) == cell_expr_spec(method, b[n - 1]));
    }
}

proof fn lemma_same_longest_name(a: Seq<Field>, b: Seq<Field>)
    requires
        same_fields(a, b),
    ensures
        longest_name(a) == longest_name(b),
    decreases a.len(),
{
    if a.len() > 0 {
        assert(a.last().name@ == b.last().name@) by {
            assert(a[a.len() - 1].name@ == b[a.len() - 1].name@);
        }
        assert(same_fields(a.drop_last(), b.drop_last())) by {
            assert forall|i: int| 0 <= i < a.drop_last().len() implies {
                &&& (#[trigger] a.drop_last()[i]).name@ == b.drop_last()[i].name@
                &&& a.drop_last()[i].data_type == b.drop_last()[i].data_type
                &&& a.drop_last()[i].logical_type == b.drop_last()[i].logical_type
            } by {
                assert(a[i].name@ == b[i].name@);
            }
        }
        lemma_same_longest_name(a.drop_last(), b.drop_last());
    }
}

proof fn lemma_same_order_column(a: Seq<Field>, b: Seq<Field>)
    requires
        same_fields(a, b),
    ensures
        order_column_spec(a) == order_column_spec(b),
{
    lemma_same_longest_name(a, b);
    let name = crate::plan::ORDER_COLUMN@;
    if has_name(a, name) {
        let i = choose|i: int| 0 <= i < a.len() && (#[trigger] a[i]).name@ == name;
        assert(b[i].name@ == name);
    }
    if has_name(b, name) {
        let i = choose|i: int| 0 <= i < b.len() && (#[trigger] b[i]).name@ == name;
        assert(a[i].name@ == name);
    }
}

proof fn lemma_same_row(
    measured: DataFrame,
    a: Seq<Field>,
    b: Seq<Field>,
    method: DescribeMethod,
    place: i32,
)
    requires
        same_fields(a, b),
    ensures
        row_spec(measured, a, method, place) == row_spec(measured, b, method, place),
{
    lemma_same_aggregates(method, a, b, a.len());
    lemma_same_cells(method, a, b, a.len());
    lemma_same_order_column(a, b);
    assert(is_empty_projection(method, a) == is_empty_projection(method, b)) by {
        if is_empty_projection(method, a) {
            assert forall|i: int| 0 <= i < b.len() implies !applies_spec(
                method,
                #[trigger] b[i].logical_type,
            ) by {
                assert(!applies_spec(method, a[i].logical_type));
            }
        }
        if is_empty_projection(method, b) {
            assert forall|i: int| 0 <= i < a.len() implies !applies_spec(
                method,
                #[trigger] a[i].logical_type,
            ) by {
                assert(!applies_spec(method, b[i].logical_type));
            }
        }
    }
}

proof fn lemma_same_rows(
    measured: DataFrame,
    a: Seq<Field>,
    b: Seq<Field>,
    methods: Seq<DescribeMethod>,
    n: nat,
)
    requires
        same_fields(a, b),
    ensures
        rows_upto(measured, a, methods, n) == rows_upto(measured, b, methods, n),
    decreases n,
{
    if n <= 1 {
        lemma_same_row(measured, a, b, methods[0], 0);
    } else {
        lemma_same_rows(measured, a, b, methods, (n - 1) as nat);
        lemma_same_row(measured, a, b, methods[n - 1], (n - 1) as i32);
    }
}

/// A summary depends on the fields only through what they say: their
/// names, their physical types and their logical types.
pub proof fn lemma_summary_of_same_fields(measured: DataFrame, a: Seq<Field>, b: Seq<Field>)
    requires
        same_fields(a, b),
    ensures
        describe_spec(measured, a) == describe_spec(measured, b),
        projection_spec(a) == projection_spec(b),
{
    lemma_same_rows(measured, a, b, registry_spec(), registry_spec().len());
    lemma_same_order_column(a, b);
    assert(summary_columns_spec(a) =~= summary_columns_spec(b));
    assert(projection_spec(a) =~= projection_spec(b));
}

/// Determinism. Two describers made from one frame plan one and the same
/// summary: the fields read off the frame say the same both times, the
/// measured frame is the same, and so is what is decided of the table. Two
/// summaries of it therefore succeed together and are then the same plan;
/// where they fail they fail alike, but for the text of an error that the
/// engine gives for an aggregate it could not build.
pub proof fn lemma_describe_deterministic(
    df: DataFrame,
    first_fields: Seq<Field>,
    first_measured: DataFrame,
    first: Result<DataFrame, DescribeError>,
    second_fields: Seq<Field>,
    second_measured: DataFrame,
    second: Result<DataFrame, DescribeError>,
)
    requires
        fields_match(first_fields, frame_columns(df)),
        fields_match(second_fields, frame_columns(df)),
        selected(df, projection_spec(first_fields)) == Ok::<DataFrame, DataFusionError>(
            first_measured,
        ),
        selected(df, projection_spec(second_fields)) == Ok::<DataFrame, DataFusionError>(
            second_measured,
        ),
        agrees(first, describe_spec(first_measured, first_fields)),
        agrees(second, describe_spec(second_measured, second_fields)),
    ensures
        first_measured == second_measured,
        describe_spec(first_measured, first_fields) == describe_spec(
            second_measured,
            second_fields,
        ),
        first is Ok <==> second is Ok,
        first is Ok ==> first == second,
        describe_spec(first_measured, first_fields) is Exact ==> first == second,
{
    assert(same_fields(first_fields, second_fields));
    lemma_summary_of_same_fields(first_measured, first_fields, second_fields);
}

} // verus!
