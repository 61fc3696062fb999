use crate::frame::{
    alias, alias_expr, cast, cast_expr, column, column_expr, has_scalar_null, int_literal_expr,
    literal_int, literal_text, null_literal, null_literal_expr, physical_type,
    physical_type_spec, text_literal_expr, CastTarget,
};
use crate::method::DescribeMethod;
use crate::plan::{
    cell_spec, display_of, display_spec, row_cells_spec, row_plan, CellPlan, DisplayType,
    STATS_COLUMN,
};
use crate::schema::{fields_wf, Field, Schema};
use arrow::datatypes::DataType;
use datafusion::error::DataFusionError;
use datafusion::logical_expr::Expr;
use vstd::prelude::*;

verus! {

/// The physical type in which a field's column of a summary is shown: the
/// field's own type where it is temporal, a 64-bit float for a number, a
/// 64-bit integer for the element count of a list, and text elsewhere.
pub open spec fn display_type_spec(field: Field) -> DataType {
    match display_spec(field.logical_type) {
        DisplayType::Temporal => field.data_type,
        DisplayType::Float => physical_type_spec(CastTarget::Float64),
        DisplayType::Count => physical_type_spec(CastTarget::Int64),
        DisplayType::Text => physical_type_spec(CastTarget::Utf8),
    }
}

/// A field's statistic cast to its display type. A temporal field goes
/// through a 64-bit integer first, so that a statistic that came out as a
/// float is rounded to a whole epoch number before it becomes a time again.
pub open spec fn shown_spec(field: Field) -> Expr {
    let col = column_expr(field.name@);
    match display_spec(field.logical_type) {
        DisplayType::Temporal => cast_expr(
            cast_expr(col, physical_type_spec(CastTarget::Int64)),
            field.data_type,
        ),
        _ => cast_expr(col, display_type_spec(field)),
    }
}

/// The expression of a planned cell, under the field's name: the shown
/// statistic for a value, a null of the display type for a placeholder.
pub open spec fn planned_cell_spec(cell: CellPlan, field: Field) -> Result<Expr, DataFusionError> {
    match cell {
        CellPlan::Value => Ok(alias_expr(shown_spec(field), field.name@)),
        CellPlan::Placeholder => match null_literal_expr(display_type_spec(field)) {
            Ok(null) => Ok(alias_expr(null, field.name@)),
            Err(e) => Err(e),
        },
    }
}

/// The expression of one cell of a summary: that of the cell planned for
/// the statistic and the field's type.
pub open spec fn cell_expr_spec(method: DescribeMethod, field: Field) -> Result<
    Expr,
    DataFusionError,
> {
    planned_cell_spec(cell_spec(method, field.logical_type), field)
}

/// The cell expressions of a statistic for the first `n` fields, or the
/// first error met in building them.
pub open spec fn cells_upto(method: DescribeMethod, fields: Seq<Field>, n: nat) -> Result<
    Seq<Expr>,
    DataFusionError,
>
    decreases n,
{
    if n == 0 {
        Ok(Seq::empty())
    } else {
        match cells_upto(method, fields, (n - 1) as nat) {
            Err(e) => Err(e),
            Ok(before) => match cell_expr_spec(method, fields[n - 1]) {
                Ok(expr) => Ok(before.push(expr)),
                Err(e) => Err(e),
            },
        }
    }
}

/// The two leading expressions of a row: the statistic's display name as
/// `stats`, and its place in the registry under the name of the order
/// column.
pub open spec fn row_head_spec(method: DescribeMethod, place: i32, order: Seq<char>) -> Seq<Expr> {
    seq![
        alias_expr(text_literal_expr(method.spec_name()), STATS_COLUMN@),
        alias_expr(int_literal_expr(place), order),
    ]
}

/// The expressions of a statistic's row: its head, then one cell per field
/// in schema order.
pub open spec fn row_exprs_spec(
    method: DescribeMethod,
    place: i32,
    order: Seq<char>,
    fields: Seq<Field>,
) -> Result<Seq<Expr>, DataFusionError> {
    match cells_upto(method, fields, fields.len()) {
        Ok(cells) => Ok(row_head_spec(method, place, order) + cells),
        Err(e) => Err(e),
    }
}

/// Once building the cells has failed, it has failed for every longer
/// prefix of the fields, with the same error.
pub proof fn lemma_cells_error_stays(method: DescribeMethod, fields: Seq<Field>, n: nat, m: nat)
    requires
        n <= m,
        cells_upto(method, fields, n) is Err,
    ensures
        cells_upto(method, fields, m) == cells_upto(method, fields, n),
    decreases m,
{
    if n < m {
        lemma_cells_error_stays(method, fields, n, (m - 1) as nat);
    }
}

/// Where building the cells succeeds, there is one cell per field.
pub proof fn lemma_cells_len(method: DescribeMethod, fields: Seq<Field>, n: nat)
    ensures
        cells_upto(method, fields, n) matches Ok(cells) ==> cells.len() == n,
    decreases n,
{
    if n > 0 {
        lemma_cells_len(method, fields, (n - 1) as nat);
    }
}

/// The physical type in which a field's column is shown.
pub fn display_type(field: &Field) -> (data_type: DataType)
    requires
        field.wf(),
    ensures
        data_type == display_type_spec(*field),
        has_scalar_null(data_type),
{
    match display_of(&field.logical_type) {
        DisplayType::Temporal => field.data_type.clone(),
        DisplayType::Float => physical_type(CastTarget::Float64),
        DisplayType::Count => physical_type(CastTarget::Int64),
        DisplayType::Text => physical_type(CastTarget::Utf8),
    }
}

/// Builds the cast of a field's statistic to its display type.
pub fn shown(field: &Field) -> (expr: Expr)
    requires
        field.wf(),
    ensures
        expr == shown_spec(*field),
{
    let col = column(field.name.as_str());
    match display_of(&field.logical_type) {
        DisplayType::Temporal => cast(
            cast(col, physical_type(CastTarget::Int64)),
            field.data_type.clone(),
        ),
        _ => cast(col, display_type(field)),
    }
}

/// Builds the expression of one cell of a summary.
pub fn cell_expr(cell: CellPlan, field: &Field) -> (out: Result<Expr, DataFusionError>)
    requires
        field.wf(),
    ensures
        out == planned_cell_spec(cell, *field),
{
    match cell {
        CellPlan::Value => Ok(alias(shown(field), field.name.as_str())),
        CellPlan::Placeholder => {
            let data_type = display_type(field);
            match null_literal(&data_type) {
                Ok(null) => Ok(alias(null, field.name.as_str())),
                Err(e) => Err(e),
            }
        },
    }
}

/// Builds the expressions of a statistic's row, with its place under the
/// given name.
pub fn row_exprs(method: DescribeMethod, place: i32, order: &str, schema: &Schema) -> (out: Result<
    Vec<Expr>,
    DataFusionError,
>)
    requires
        fields_wf(schema.fields@),
    ensures
        out matches Ok(exprs) ==> row_exprs_spec(method, place, order@, schema.fields@) == Ok::<
            Seq<Expr>,
            DataFusionError,
        >(exprs@),
        out matches Err(e) ==> row_exprs_spec(method, place, order@, schema.fields@) == Err::<
            Seq<Expr>,
            DataFusionError,
        >(e),
{
    let plan = row_plan(method, schema);
    let mut exprs: Vec<Expr> = Vec::new();
    let name = method.name();
    exprs.push(alias(literal_text(name.as_str()), STATS_COLUMN));
    exprs.push(alias(literal_int(place), order));
    assert(exprs@ =~= row_head_spec(method, place, order@));
    let ghost mut cells: Seq<Expr> = Seq::empty();
    let n = schema.fields.len();
    let mut i: usize = 0;
    while i < n
        invariant
            n == schema.fields@.len(),
            i <= n,
            fields_wf(schema.fields@),
            plan.cells@ == row_cells_spec(method, schema.fields@),
            cells_upto(method, schema.fields@, i as nat) == Ok::<Seq<Expr>, DataFusionError>(
                cells,
            ),
            exprs@ == row_head_spec(method, place, order@) + cells,
        decreases n - i,
    {
        match cell_expr(plan.cells[i], &schema.fields[i]) {
            Ok(expr) => {
                exprs.push(expr);
                proof {
                    cells = cells.push(expr);
                    assert(exprs@ =~= row_head_spec(method, place, order@) + cells);
                }
            },
            Err(e) => {
                proof {
                    lemma_cells_error_stays(method, schema.fields@, (i + 1) as nat, n as nat);
                }
                return Err(e);
            },
        }
        i += 1;
    }
    Ok(exprs)
}

} // verus!
