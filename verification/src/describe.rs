use crate::aggregate::{run, run_spec, AggregationError, Decided};
use crate::display::{row_exprs, row_exprs_spec};
use crate::frame::{
    aggregate, aggregated, alias, alias_expr, column, column_expr, column_names, columns_of,
    is_column_key,
    count, count_expr, frame_columns, int_literal_expr, literal_int, select, select_columns,
    selected, selected_columns, sort, sort_expr, sort_key, sorted, union, united,
};
use crate::method::{registry, registry_spec, DescribeMethod};
use crate::plan::{
    order_column, order_column_spec, summary_columns, summary_columns_spec, STATS_COLUMN,
};
use crate::project::{measurable_expr_spec, project, projection_spec};
use crate::schema::{
    classify_spec, fields_wf, names_distinct, Field, Schema, LIST_DEPTH_LIMIT,
};
use arrow::datatypes::DataType;
use datafusion::dataframe::DataFrame;
use datafusion::error::DataFusionError;
use datafusion::logical_expr::Expr;
use vstd::prelude::*;

verus! {

/// Why a summary could not be planned.
#[derive(Debug)]
pub enum DescribeError {
    /// Two columns of the dataset have the same name.
    InvalidSchema,
    /// The measured frame could not be planned.
    Projection(DataFusionError),
    /// The aggregate of a statistic could not be planned.
    Execution(DescribeMethod, DataFusionError),
    /// The row of a statistic could not be cast to the display types.
    CastFailure(DescribeMethod, DataFusionError),
    /// The rows could not be put together into one table.
    Assembly(DataFusionError),
}

/// The fields are those of the columns, in order: the same name, the same
/// physical type, and the logical type that the classifier gives it.
pub open spec fn fields_match(fields: Seq<Field>, columns: Seq<(Seq<char>, DataType)>) -> bool {
    &&& fields.len() == columns.len()
    &&& forall|i: int|
        0 <= i < fields.len() ==> {
            &&& (#[trigger] fields[i]).name@ == columns[i].0
            &&& fields[i].data_type == columns[i].1
            &&& fields[i].logical_type == classify_spec(columns[i].1, LIST_DEPTH_LIMIT as nat)
        }
}

/// No two columns have the same name.
pub open spec fn columns_distinct(columns: Seq<(Seq<char>, DataType)>) -> bool {
    forall|i: int, j: int| 0 <= i < j < columns.len() ==> columns[i].0 != columns[j].0
}

/// The projection of a frame's columns: the measurable expression of each,
/// in order.
pub open spec fn columns_projection(columns: Seq<(Seq<char>, DataType)>) -> Seq<Expr> {
    Seq::new(
        columns.len(),
        |i: int| measurable_expr_spec(columns[i].0, classify_spec(columns[i].1, LIST_DEPTH_LIMIT as nat)),
    )
}

/// The one-row frame under a row of placeholders: the count of a constant
/// over the measured frame, without grouping.
pub open spec fn placeholder_base_spec(measured: DataFrame) -> Result<DataFrame, DataFusionError> {
    aggregated(
        measured,
        Seq::empty(),
        seq![alias_expr(count_expr(int_literal_expr(1)), STATS_COLUMN@)],
    )
}

/// The row of a statistic, given how running it ended. A frame of
/// aggregates is shown as it is; an empty projection is answered with the
/// placeholder base; an execution error is fatal. Over that one-row frame
/// the row's expressions are selected: the statistic's name, its place
/// under the name of the order column, and one cell per field cast to the
/// display type.
pub open spec fn cast_back_spec(
    measured: DataFrame,
    fields: Seq<Field>,
    method: DescribeMethod,
    place: i32,
    outcome: Result<DataFrame, AggregationError>,
) -> Result<DataFrame, DescribeError> {
    let base: Result<DataFrame, DescribeError> = match outcome {
        Ok(frame) => Ok(frame),
        Err(AggregationError::EmptyProjection) => match placeholder_base_spec(measured) {
            Ok(frame) => Ok(frame),
            Err(e) => Err(DescribeError::Execution(method, e)),
        },
        Err(AggregationError::Execution(e)) => Err(DescribeError::Execution(method, e)),
    };
    match base {
        Err(e) => Err(e),
        Ok(frame) => match row_exprs_spec(method, place, order_column_spec(fields), fields) {
            Err(e) => Err(DescribeError::CastFailure(method, e)),
            Ok(exprs) => match selected(frame, exprs) {
                Ok(row) => Ok(row),
                Err(e) => Err(DescribeError::CastFailure(method, e)),
            },
        },
    }
}

/// Whether an outcome is the one decided: the very outcome where the
/// arguments decide it, and an `Execution` error of the statistic named
/// where they decide no more than that.
pub open spec fn agrees(
    out: Result<DataFrame, DescribeError>,
    decided: Decided<Result<DataFrame, DescribeError>>,
) -> bool {
    match decided {
        Decided::Exact(outcome) => out == outcome,
        Decided::Unbuilt(method) => out matches Err(DescribeError::Execution(m, _)) && m == method,
    }
}

/// The row of a statistic at a place of the registry.
pub open spec fn row_spec(
    measured: DataFrame,
    fields: Seq<Field>,
    method: DescribeMethod,
    place: i32,
) -> Decided<Result<DataFrame, DescribeError>> {
    match run_spec(measured, fields, method) {
        Decided::Exact(outcome) => Decided::Exact(
            cast_back_spec(measured, fields, method, place, outcome),
        ),
        Decided::Unbuilt(m) => Decided::Unbuilt(m),
    }
}

/// The union of the rows of the first `n` statistics, for `n` of at least
/// one, or the first failure met: that of a row, or that of stacking it.
pub open spec fn rows_upto(
    measured: DataFrame,
    fields: Seq<Field>,
    methods: Seq<DescribeMethod>,
    n: nat,
) -> Decided<Result<DataFrame, DescribeError>>
    decreases n,
{
    if n <= 1 {
        row_spec(measured, fields, methods[0], 0)
    } else {
        match rows_upto(measured, fields, methods, (n - 1) as nat) {
            Decided::Exact(Ok(top)) => match row_spec(
                measured,
                fields,
                methods[n - 1],
                (n - 1) as i32,
            ) {
                Decided::Exact(Ok(bottom)) => Decided::Exact(
                    match united(top, bottom) {
                        Ok(table) => Ok(table),
                        Err(e) => Err(DescribeError::Assembly(e)),
                    },
                ),
                failed => failed,
            },
            failed => failed,
        }
    }
}

/// The finished summary of a table of rows: the rows in the order of their
/// places, and of the columns `stats` and the fields in schema order.
pub open spec fn arrange_spec(table: DataFrame, fields: Seq<Field>) -> Result<
    DataFrame,
    DescribeError,
> {
    match sorted(table, seq![sort_expr(column_expr(order_column_spec(fields)), true, false)]) {
        Err(e) => Err(DescribeError::Assembly(e)),
        Ok(ordered) => match selected_columns(ordered, summary_columns_spec(fields)) {
            Ok(summary) => Ok(summary),
            Err(e) => Err(DescribeError::Assembly(e)),
        },
    }
}

/// The summary of a measured frame: one row per statistic of the registry,
/// stacked and arranged.
pub open spec fn describe_spec(measured: DataFrame, fields: Seq<Field>) -> Decided<
    Result<DataFrame, DescribeError>,
> {
    match rows_upto(measured, fields, registry_spec(), registry_spec().len()) {
        Decided::Exact(Ok(table)) => Decided::Exact(arrange_spec(table, fields)),
        failed => failed,
    }
}

/// Once stacking the rows has failed, it has failed for every larger
/// number of rows, with the same error.
pub proof fn lemma_rows_error_stays(
    measured: DataFrame,
    fields: Seq<Field>,
    methods: Seq<DescribeMethod>,
    n: nat,
    m: nat,
)
    requires
        1 <= n <= m,
        !(rows_upto(measured, fields, methods, n) matches Decided::Exact(Ok(_))),
    ensures
        rows_upto(measured, fields, methods, m) == rows_upto(measured, fields, methods, n),
    decreases m,
{
    if n < m {
        lemma_rows_error_stays(measured, fields, methods, n, (m - 1) as nat);
    }
}

/// Fields that match a frame's columns project as the columns do.
pub proof fn lemma_projection_of_columns(fields: Seq<Field>, columns: Seq<(Seq<char>, DataType)>)
    requires
        fields_match(fields, columns),
    ensures
        projection_spec(fields) == columns_projection(columns),
        names_distinct(fields) == columns_distinct(columns),
{
    assert(projection_spec(fields) =~= columns_projection(columns));
    if names_distinct(fields) {
        assert forall|i: int, j: int| 0 <= i < j < columns.len() implies columns[i].0
            != columns[j].0 by {
            assert(fields[i].name@ != fields[j].name@);
        }
    }
    if columns_distinct(columns) {
        assert forall|i: int, j: int| 0 <= i < j < fields.len() implies fields[i].name@
            != fields[j].name@ by {
            assert(columns[i].0 != columns[j].0);
        }
    }
}

/// Reads the fields of a frame off its schema, and classifies each.
pub fn fields_of(frame: &DataFrame) -> (fields: Vec<Field>)
    ensures
        fields_match(fields@, frame_columns(*frame)),
        fields_wf(fields@),
{
    let columns = columns_of(frame);
    let mut fields: Vec<Field> = Vec::new();
    let n = columns.len();
    let mut i: usize = 0;
    while i < n
        invariant
            n == columns@.len(),
            n == frame_columns(*frame).len(),
            i <= n,
            forall|k: int|
                0 <= k < n ==> (columns@[k].0@, columns@[k].1) == #[trigger] frame_columns(
                    *frame,
                )[k],
            fields_match(fields@, frame_columns(*frame).take(i as int)),
            fields_wf(fields@),
        decreases n - i,
    {
        let name = columns[i].0.clone();
        let data_type = columns[i].1.clone();
        fields.push(Field::new(name, data_type));
        proof {
            let cols = frame_columns(*frame);
            assert(cols[i as int] == (columns@[i as int].0@, columns@[i as int].1));
            assert forall|k: int| 0 <= k < fields@.len() implies {
                &&& (#[trigger] fields@[k]).name@ == cols.take(i + 1)[k].0
                &&& fields@[k].data_type == cols.take(i + 1)[k].1
                &&& fields@[k].logical_type == classify_spec(
                    cols.take(i + 1)[k].1,
                    LIST_DEPTH_LIMIT as nat,
                )
            } by {
                if k < i {
                    assert(cols.take(i as int)[k] == cols[k]);
                }
            }
        }
        i += 1;
    }
    assert(frame_columns(*frame).take(n as int) =~= frame_columns(*frame));
    fields
}

/// A dataset made ready for its summary: its frame, the frame of its
/// measures, its schema, the statistics to compute, and the name of the
/// order column.
pub struct DataFrameDescriber {
    source: DataFrame,
    measured: DataFrame,
    schema: Schema,
    methods: Vec<DescribeMethod>,
    order: String,
}

impl DataFrameDescriber {
    #[verifier::type_invariant]
    spec fn inv(self) -> bool {
        &&& self.methods@ == registry_spec()
        &&& self.schema.wf()
        &&& self.order@ == order_column_spec(self.schema.fields@)
        &&& fields_match(self.schema.fields@, frame_columns(self.source))
        &&& selected(self.source, projection_spec(self.schema.fields@)) == Ok::<
            DataFrame,
            DataFusionError,
        >(self.measured)
    }

    /// The frame that the describer was made from.
    pub closed spec fn source(&self) -> DataFrame {
        self.source
    }

    /// The frame of the measures: the projection of the schema, selected
    /// over the source.
    pub closed spec fn measured(&self) -> DataFrame {
        self.measured
    }

    /// The fields of the source, in schema order.
    pub closed spec fn fields(&self) -> Seq<Field> {
        self.schema.fields@
    }

    /// Makes a dataset ready for its summary. The schema is read off the
    /// frame; a frame with two columns of one name is refused. Then the
    /// projection of the schema is selected over the frame, and a failure
    /// there is a `Projection` error.
    pub fn try_new(df: DataFrame) -> (out: Result<Self, DescribeError>)
        ensures
            !columns_distinct(frame_columns(df)) ==> out matches Err(DescribeError::InvalidSchema),
            columns_distinct(frame_columns(df)) ==> match selected(
                df,
                columns_projection(frame_columns(df)),
            ) {
                Err(e) => out matches Err(DescribeError::Projection(err)) && err == e,
                Ok(measured) => out matches Ok(describer) && describer.source() == df
                    && describer.measured() == measured && fields_match(
                    describer.fields(),
                    frame_columns(df),
                ) && names_distinct(describer.fields()) && fields_wf(describer.fields()),
            },
    {
        let fields = fields_of(&df);
        proof {
            lemma_projection_of_columns(fields@, frame_columns(df));
        }
        match Schema::new(fields) {
            None => Err(DescribeError::InvalidSchema),
            Some(schema) => {
                let expressions = project(&schema);
                let order = order_column(&schema);
                match select(df.clone(), expressions) {
                    Err(e) => Err(DescribeError::Projection(e)),
                    Ok(transformed) => Ok(
                        Self {
                            source: df,
                            measured: transformed,
                            schema,
                            methods: registry(),
                            order,
                        },
                    ),
                }
            },
        }
    }

    /// The schema of the source.
    pub fn schema(&self) -> (schema: &Schema)
        ensures
            schema.fields@ == self.fields(),
            schema.wf(),
    {
        proof {
            use_type_invariant(self);
        }
        &self.schema
    }

    /// The statistics of the summary, in the order of its rows.
    pub fn methods(&self) -> (methods: &Vec<DescribeMethod>)
        ensures
            methods@ == registry_spec(),
    {
        proof {
            use_type_invariant(self);
        }
        &self.methods
    }

    /// The name of the column that holds each row's place while the
    /// summary is put together: one that no field has.
    pub fn order_column(&self) -> (name: &str)
        ensures
            name@ == order_column_spec(self.fields()),
    {
        proof {
            use_type_invariant(self);
        }
        self.order.as_str()
    }

    /// Plans the aggregate of one statistic over the measured frame. The
    /// statistic must be one that a summary computes.
    pub fn run(&self, method: DescribeMethod) -> (out: Result<DataFrame, AggregationError>)
        requires
            method.is_implemented(),
        ensures
            match run_spec(self.measured(), self.fields(), method) {
                Decided::Exact(outcome) => out == outcome,
                Decided::Unbuilt(_) => out matches Err(AggregationError::Execution(_)),
            },
    {
        run(&self.measured, &self.schema, method)
    }

    /// Plans the row of a statistic from how running it ended: the
    /// statistic's name, its place in the registry, and each field's cell
    /// cast back to its display type.
    pub fn cast_back(
        &self,
        method: DescribeMethod,
        place: i32,
        outcome: Result<DataFrame, AggregationError>,
    ) -> (out: Result<DataFrame, DescribeError>)
        ensures
            out == cast_back_spec(self.measured(), self.fields(), method, place, outcome),
    {
        proof {
            use_type_invariant(self);
        }
        let base = match outcome {
            Ok(frame) => frame,
            Err(AggregationError::EmptyProjection) => {
                let mut counted: Vec<Expr> = Vec::new();
                counted.push(alias(count(literal_int(1)), STATS_COLUMN));
                assert(counted@ =~= seq![
                    alias_expr(count_expr(int_literal_expr(1)), STATS_COLUMN@),
                ]);
                match aggregate(self.measured.clone(), Vec::new(), counted) {
                    Ok(frame) => frame,
                    Err(e) => {
                        return Err(DescribeError::Execution(method, e));
                    },
                }
            },
            Err(AggregationError::Execution(e)) => {
                return Err(DescribeError::Execution(method, e));
            },
        };
        match row_exprs(method, place, self.order.as_str(), &self.schema) {
            Err(e) => Err(DescribeError::CastFailure(method, e)),
            Ok(exprs) => match select(base, exprs) {
                Ok(row) => Ok(row),
                Err(e) => Err(DescribeError::CastFailure(method, e)),
            },
        }
    }

    /// Plans the row of the statistic at a place of the registry.
    fn row(&self, place: usize) -> (out: Result<DataFrame, DescribeError>)
        requires
            place < registry_spec().len(),
        ensures
            agrees(
                out,
                row_spec(
                    self.measured(),
                    self.fields(),
                    registry_spec()[place as int],
                    place as i32,
                ),
            ),
    {
        proof {
            use_type_invariant(self);
        }
        let method = self.methods[place];
        self.cast_back(method, place as i32, self.run(method))
    }

    /// Plans the table of all rows: the row of each statistic of the
    /// registry, stacked in registry order.
    fn do_describe(&self) -> (out: Result<DataFrame, DescribeError>)
        ensures
            agrees(
                out,
                rows_upto(
                    self.measured(),
                    self.fields(),
                    registry_spec(),
                    registry_spec().len(),
                ),
            ),
    {
        proof {
            use_type_invariant(self);
        }
        let n = self.methods.len();
        let mut table = match self.row(0) {
            Ok(row) => row,
            Err(e) => {
                proof {
                    lemma_rows_error_stays(
                        self.measured(),
                        self.fields(),
                        registry_spec(),
                        1,
                        n as nat,
                    );
                }
                return Err(e);
            },
        };
        let mut i: usize = 1;
        while i < n
            invariant
                n == registry_spec().len(),
                1 <= i <= n,
                rows_upto(self.measured(), self.fields(), registry_spec(), i as nat)
                    == Decided::Exact(Ok::<DataFrame, DescribeError>(table)),
            decreases n - i,
        {
            let stacked = match self.row(i) {
                Err(e) => Err(e),
                Ok(row) => match union(table, row) {
                    Ok(both) => Ok(both),
                    Err(e) => Err(DescribeError::Assembly(e)),
                },
            };
            assert(agrees(
                stacked,
                rows_upto(self.measured(), self.fields(), registry_spec(), (i + 1) as nat),
            ));
            match stacked {
                Ok(both) => {
                    table = both;
                },
                Err(e) => {
                    proof {
                        lemma_rows_error_stays(
                            self.measured(),
                            self.fields(),
                            registry_spec(),
                            (i + 1) as nat,
                            n as nat,
                        );
                    }
                    return Err(e);
                },
            }
            i += 1;
        }
        Ok(table)
    }

    /// Plans the summary of the dataset: a table with one row per statistic
    /// of the registry, in registry order, and the columns `stats` and the
    /// fields in schema order. A statistic that applies to no field gives a
    /// row of placeholders; every other failure ends the summary.
    ///
    /// The summary is a plan: its values are computed when the frame is
    /// collected, and a value that cannot be cast then fails the collecting.
    /// While the rows are put together they carry the column `stats`, so
    /// the planner refuses a dataset that has a column of that name.
    pub fn describe(&self) -> (out: Result<DataFrame, DescribeError>)
        ensures
            agrees(out, describe_spec(self.measured(), self.fields())),
            out matches Ok(summary) ==> column_names(frame_columns(summary))
                == summary_columns_spec(self.fields()),
    {
        proof {
            use_type_invariant(self);
        }
        match self.do_describe() {
            Err(e) => Err(e),
            Ok(table) => {
                let mut keys: Vec<Expr> = Vec::new();
                keys.push(sort_key(column(self.order.as_str()), true, false));
                assert(keys@ =~= seq![
                    sort_expr(column_expr(order_column_spec(self.fields())), true, false),
                ]);
                assert(is_column_key(keys@));
                match sort(table, keys) {
                    Err(e) => Err(DescribeError::Assembly(e)),
                    Ok(ordered) => match select_columns(ordered, &summary_columns(&self.schema)) {
                        Ok(summary) => Ok(summary),
                        Err(e) => Err(DescribeError::Assembly(e)),
                    },
                }
            },
        }
    }
}

} // verus!
