use crate::frame::{
    alias, alias_expr, array_length, array_length_expr, cast, cast_expr, column, column_expr,
    length, length_expr, physical_type, physical_type_spec, CastTarget,
};
use crate::plan::{measure_of, measure_spec, Measure};
use crate::schema::{fields_wf, Field, LogicalType, Schema};
use datafusion::logical_expr::Expr;
use vstd::prelude::*;

verus! {

/// The measurable expression of a field, under the field's own name: the
/// column itself for a number, its cast to a 64-bit integer for a temporal
/// value, its element count for a list, and the length of its cast to text
/// for everything else.
pub open spec fn measurable_expr_spec(name: Seq<char>, logical_type: LogicalType) -> Expr {
    let col = column_expr(name);
    let measured = match measure_spec(logical_type) {
        Measure::Identity => col,
        Measure::EpochNumber => cast_expr(col, physical_type_spec(CastTarget::Int64)),
        Measure::ElementCount => array_length_expr(col),
        Measure::TextLength => length_expr(cast_expr(col, physical_type_spec(CastTarget::Utf8))),
    };
    alias_expr(measured, name)
}

/// The measurable expression of a field.
pub open spec fn measurable_spec(field: Field) -> Expr {
    measurable_expr_spec(field.name@, field.logical_type)
}

/// The projection of a schema: the measurable expression of each field, in
/// schema order.
pub open spec fn projection_spec(fields: Seq<Field>) -> Seq<Expr> {
    Seq::new(fields.len(), |i: int| measurable_spec(fields[i]))
}

/// Builds the measurable expression of a field.
pub fn measurable(field: &Field) -> (expr: Expr)
    requires
        field.wf(),
    ensures
        expr == measurable_spec(*field),
{
    let col = column(field.name.as_str());
    let measured = match measure_of(&field.logical_type) {
        Measure::Identity => col,
        Measure::EpochNumber => cast(col, physical_type(CastTarget::Int64)),
        Measure::ElementCount => array_length(col),
        Measure::TextLength => length(cast(col, physical_type(CastTarget::Utf8))),
    };
    alias(measured, field.name.as_str())
}

/// Builds the projection of a schema: one measurable expression per field,
/// in schema order.
pub fn project(schema: &Schema) -> (exprs: Vec<Expr>)
    requires
        fields_wf(schema.fields@),
    ensures
        exprs@ == projection_spec(schema.fields@),
{
    let mut exprs: Vec<Expr> = Vec::new();
    let n = schema.fields.len();
    let mut i: usize = 0;
    while i < n
        invariant
            n == schema.fields@.len(),
            i <= n,
            fields_wf(schema.fields@),
            exprs@ == projection_spec(schema.fields@).take(i as int),
        decreases n - i,
    {
        exprs.push(measurable(&schema.fields[i]));
        assert(exprs@ =~= projection_spec(schema.fields@).take(i + 1));
        i += 1;
    }
    assert(exprs@ =~= projection_spec(schema.fields@));
    exprs
}

} // verus!
