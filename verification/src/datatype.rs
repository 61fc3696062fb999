use arrow::datatypes::DataType;
use vstd::prelude::*;

verus! {

/// `arrow::datatypes::DataType`: the physical type of a column. Nothing
/// inside it is visible here; it is read through the functions below.
#[verifier::external_type_specification]
#[verifier::external_body]
pub struct ExDataType(DataType);

/// What `DataType::is_temporal` answers for a type.
pub uninterp spec fn type_is_temporal(data_type: DataType) -> bool;

/// What `DataType::is_numeric` answers for a type.
pub uninterp spec fn type_is_numeric(data_type: DataType) -> bool;

/// What `DataType::primitive_width` answers for a type.
pub uninterp spec fn type_width(data_type: DataType) -> Option<usize>;

/// Whether a type is the variant `DataType::Boolean`.
pub uninterp spec fn type_is_boolean(data_type: DataType) -> bool;

/// Whether a type is the variant `DataType::Binary`.
pub uninterp spec fn type_is_binary(data_type: DataType) -> bool;

/// The element type of a `DataType::List` or `DataType::LargeList`, and
/// `None` for every other type.
pub uninterp spec fn type_list_item(data_type: DataType) -> Option<DataType>;

/// `DataType::is_temporal` is a function of the type alone: it tells the
/// date, time, timestamp, duration and interval types from the others.
pub assume_specification[ DataType::is_temporal ](data_type: &DataType) -> (b: bool)
    ensures
        b == type_is_temporal(*data_type),
;

/// `DataType::is_numeric` is a function of the type alone: it tells the
/// integer, float and decimal types from the others.
pub assume_specification[ DataType::is_numeric ](data_type: &DataType) -> (b: bool)
    ensures
        b == type_is_numeric(*data_type),
;

/// `DataType::primitive_width` is a function of the type alone: the size in
/// bytes of one value of a primitive type, `None` for the others.
pub assume_specification[ DataType::primitive_width ](data_type: &DataType) -> (w: Option<usize>)
    ensures
        w == type_width(*data_type),
;

/// `Clone` of `DataType`: the copy is the same type.
pub assume_specification[ <DataType as Clone>::clone ](data_type: &DataType) -> (copy: DataType)
    ensures
        copy == *data_type,
;

/// Tells the variant `DataType::Boolean` from the others.
#[verifier::external_body]
pub(crate) fn is_boolean(data_type: &DataType) -> (b: bool)
    ensures
        b == type_is_boolean(*data_type),
{
    matches!(data_type, DataType::Boolean)
}

/// Tells the variant `DataType::Binary` from the others.
#[verifier::external_body]
pub(crate) fn is_binary(data_type: &DataType) -> (b: bool)
    ensures
        b == type_is_binary(*data_type),
{
    matches!(data_type, DataType::Binary)
}

/// Hands out the element type that `Field::data_type` gives for the field
/// of a `DataType::List` or `DataType::LargeList`.
#[verifier::external_body]
pub(crate) fn list_item(data_type: &DataType) -> (item: Option<DataType>)
    ensures
        item == type_list_item(*data_type),
{
    match data_type {
        DataType::List(field) => Some(field.data_type().clone()),
        DataType::LargeList(field) => Some(field.data_type().clone()),
        _ => None,
    }
}

} // verus!
