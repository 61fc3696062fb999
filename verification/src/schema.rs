use crate::datatype::{
    is_binary, is_boolean, list_item, type_is_binary, type_is_boolean, type_is_numeric,
    type_is_temporal, type_list_item, type_width,
};
use arrow::datatypes::DataType;
use vstd::prelude::*;

verus! {

/// What a column's values mean, whatever their physical encoding.
#[derive(Debug, PartialEq, Eq)]
pub enum LogicalType {
    /// A number; the width is the size of one value in bytes.
    Numeric(usize),
    /// A date, a time, a timestamp, a duration or an interval.
    Temporal,
    /// Text, and every type that none of the other variants names.
    Text,
    /// A list of values of the given type.
    ListOf(Box<LogicalType>),
    /// True or false.
    Boolean,
    /// Raw bytes.
    Binary,
}

/// How deep the classifier looks into nested lists. The element of a list
/// nested deeper than this is taken as text.
pub const LIST_DEPTH_LIMIT: usize = 16;

/// What the classifier reads off a physical type.
#[derive(Debug, Clone, Copy)]
pub struct TypeTraits {
    pub temporal: bool,
    pub numeric: bool,
    pub width: Option<usize>,
    pub boolean: bool,
    pub binary: bool,
}

/// The logical type of a physical type with the given traits; `element` is
/// the logical type of its elements where it is a list.
pub open spec fn logical_type_spec(traits: TypeTraits, element: Option<LogicalType>) -> LogicalType {
    if traits.temporal {
        LogicalType::Temporal
    } else if traits.numeric {
        LogicalType::Numeric(
            match traits.width {
                Some(w) => w,
                None => 0,
            },
        )
    } else if let Some(e) = element {
        LogicalType::ListOf(Box::new(e))
    } else if traits.boolean {
        LogicalType::Boolean
    } else if traits.binary {
        LogicalType::Binary
    } else {
        LogicalType::Text
    }
}

/// The traits of a physical type.
pub open spec fn traits_spec(data_type: DataType) -> TypeTraits {
    TypeTraits {
        temporal: type_is_temporal(data_type),
        numeric: type_is_numeric(data_type),
        width: type_width(data_type),
        boolean: type_is_boolean(data_type),
        binary: type_is_binary(data_type),
    }
}

/// The logical type of a physical type, looking `depth` lists deep.
pub open spec fn classify_spec(data_type: DataType, depth: nat) -> LogicalType
    decreases depth,
{
    let element = match type_list_item(data_type) {
        Some(item) => Some(
            if depth == 0 {
                LogicalType::Text
            } else {
                classify_spec(item, (depth - 1) as nat)
            },
        ),
        None => None,
    };
    logical_type_spec(traits_spec(data_type), element)
}

/// Decides the logical type from the traits of a physical type. A temporal
/// type is temporal whatever else holds of it, then a numeric one is
/// numeric, then a list is a list; what is neither boolean nor binary either
/// counts as text.
pub fn logical_type_of(traits: TypeTraits, element: Option<LogicalType>) -> (t: LogicalType)
    ensures
        t == logical_type_spec(traits, element),
{
    if traits.temporal {
        LogicalType::Temporal
    } else if traits.numeric {
        match traits.width {
            Some(w) => LogicalType::Numeric(w),
            None => LogicalType::Numeric(0),
        }
    } else {
        match element {
            Some(e) => LogicalType::ListOf(Box::new(e)),
            None => {
                if traits.boolean {
                    LogicalType::Boolean
                } else if traits.binary {
                    LogicalType::Binary
                } else {
                    LogicalType::Text
                }
            },
        }
    }
}

/// Reads the traits off a physical type.
pub fn traits_of(data_type: &DataType) -> (traits: TypeTraits)
    ensures
        traits == traits_spec(*data_type),
{
    TypeTraits {
        temporal: data_type.is_temporal(),
        numeric: data_type.is_numeric(),
        width: data_type.primitive_width(),
        boolean: is_boolean(data_type),
        binary: is_binary(data_type),
    }
}

/// Classifies a physical type, looking `depth` lists deep.
pub fn classify(data_type: &DataType, depth: usize) -> (t: LogicalType)
    ensures
        t == classify_spec(*data_type, depth as nat),
    decreases depth,
{
    let element = match list_item(data_type) {
        Some(item) => {
            if depth == 0 {
                Some(LogicalType::Text)
            } else {
                Some(classify(&item, depth - 1))
            }
        },
        None => None,
    };
    logical_type_of(traits_of(data_type), element)
}

/// One column of a dataset: its name, its physical type and what the
/// values mean.
#[derive(Debug)]
pub struct Field {
    pub name: String,
    pub data_type: DataType,
    pub logical_type: LogicalType,
}

impl Field {
    /// The validity of a field: its logical type is the one that the
    /// classifier gives its physical type.
    pub open spec fn wf(&self) -> bool {
        self.logical_type == classify_spec(self.data_type, LIST_DEPTH_LIMIT as nat)
    }

    /// The field of the given name and physical type, classified.
    pub fn new(name: String, data_type: DataType) -> (field: Field)
        ensures
            field.name == name,
            field.data_type == data_type,
            field.logical_type == classify_spec(data_type, LIST_DEPTH_LIMIT as nat),
            field.wf(),
    {
        let logical_type = classify(&data_type, LIST_DEPTH_LIMIT);
        Field { name, data_type, logical_type }
    }
}

/// The names of a sequence of fields, in their order.
pub open spec fn field_names(fields: Seq<Field>) -> Seq<Seq<char>> {
    Seq::new(fields.len(), |i: int| fields[i].name@)
}

/// No two fields have the same name.
pub open spec fn names_distinct(fields: Seq<Field>) -> bool {
    forall|i: int, j: int| 0 <= i < j < fields.len() ==> fields[i].name@ != fields[j].name@
}

/// Every field is valid.
pub open spec fn fields_wf(fields: Seq<Field>) -> bool {
    forall|i: int| 0 <= i < fields.len() ==> (#[trigger] fields[i]).wf()
}

/// The columns of a dataset, in their order. A schema is valid where every
/// field is valid and no two fields have the same name.
#[derive(Debug)]
pub struct Schema {
    pub fields: Vec<Field>,
}

impl Schema {
    /// The validity of a schema: its fields are valid and their names are
    /// distinct.
    pub open spec fn wf(&self) -> bool {
        fields_wf(self.fields@) && names_distinct(self.fields@)
    }

    /// The schema of the given fields, or `None` where two of them have the
    /// same name.
    pub fn new(fields: Vec<Field>) -> (schema: Option<Schema>)
        ensures
            schema is Some <==> names_distinct(fields@),
            schema matches Some(s) ==> s.fields == fields && (fields_wf(fields@) ==> s.wf()),
    {
        let n = fields.len();
        let mut j: usize = 0;
        while j < n
            invariant
                n == fields.len(),
                j <= n,
                forall|a: int, b: int| 0 <= a < b < j ==> fields[a].name@ != fields[b].name@,
            decreases n - j,
        {
            let mut i: usize = 0;
            while i < j
                invariant
                    n == fields.len(),
                    j < n,
                    i <= j,
                    forall|a: int| 0 <= a < i ==> fields[a].name@ != fields[j as int].name@,
                decreases j - i,
            {
                if fields[i].name == fields[j].name {
                    return None;
                }
                i += 1;
            }
            j += 1;
        }
        Some(Schema { fields })
    }
}

} // verus!
