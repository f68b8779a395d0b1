//! The statement engine's decision logic: the two-state fetch machine, the
//! typed payloads a bind call hands to the native layer, per-column output
//! planning, and the assembly of fetched column buffers into rows. The
//! native calls themselves happen outside this crate; every function here
//! computes over plain values handed in by the caller that drives them.

use crate::codes::{OciDataType, ReturnCode, StatementType};
use crate::error::{ConversionError, OciError};
use crate::row::Row;
use crate::types::{
    decode_succeeds, decodes_to, lemma_decode_deterministic, lemma_decode_ok_succeeds,
    sql_value_like, SqlValue,
};
use vstd::prelude::*;

verus! {

/// Whether the statement's results have been materialized since the last
/// execution.
#[derive(Clone, Copy, Debug, PartialEq, Eq, Structural)]
pub enum ResultState {
    Fetched,
    NotFetched,
}

/// What a statement's state amounts to: the values bound last, the cached
/// result rows, and the fetch flag.
pub struct StatementModel {
    pub values: Seq<SqlValue>,
    pub rows: Seq<Row>,
    pub state: ResultState,
}

/// The stateful core of a prepared statement: binding parameters and
/// materializing the result set update it. The prepared-statement handle
/// itself, and every call against it, live with the caller; this core
/// decides and remembers.
#[derive(Debug)]
pub struct Statement {
    values: Vec<SqlValue>,
    result_set: Vec<Row>,
    result_state: ResultState,
}

impl View for Statement {
    type V = StatementModel;

    closed spec fn view(&self) -> StatementModel {
        StatementModel {
            values: self.values@,
            rows: self.result_set@,
            state: self.result_state,
        }
    }
}

/// The tag and buffer one bound parameter hands to the native bind call;
/// the buffer must stay alive and in place until the execution returns.
#[derive(Debug)]
pub struct BindPayload {
    pub data_type: OciDataType,
    pub buffer: Vec<u8>,
}

/// What `result_set` amounts to on the model: a statement that has
/// already fetched returns its cache unchanged; one that has not stores
/// what draining the server yields, and returns that.
pub open spec fn spec_result_set(m: StatementModel, server_rows: Seq<Row>) -> (
    StatementModel,
    Seq<Row>,
) {
    if m.state is Fetched {
        (m, m.rows)
    } else {
        (StatementModel { values: m.values, rows: server_rows, state: ResultState::Fetched },
        server_rows)
    }
}

/// Asking for the result set twice returns the identical row collection
/// both times and leaves the statement as it was, whatever a second drain
/// of the server would have produced: the second call fetches nothing.
pub proof fn lemma_result_set_idempotent(
    m: StatementModel,
    first_drain: Seq<Row>,
    second_drain: Seq<Row>,
)
    ensures
        ({
            let (m1, r1) = spec_result_set(m, first_drain);
            let (m2, r2) = spec_result_set(m1, second_drain);
            r2 == r1 && m2 == m1
        }),
{
}

impl Statement {
    /// A fresh statement: nothing bound, nothing fetched.
    pub fn new() -> (r: Statement)
        ensures
            r@.values == Seq::<SqlValue>::empty(),
            r@.rows == Seq::<Row>::empty(),
            r@.state is NotFetched,
    {
        Statement { values: Vec::new(), result_set: Vec::new(), result_state: ResultState::NotFetched }
    }

    /// Replaces the bound values with the given parameters and produces,
    /// in order, the payload each positional bind call needs. The old
    /// values are cleared first; nulls cannot be bound.
    pub fn bind(&mut self, params: Vec<SqlValue>) -> (r: Vec<BindPayload>)
        requires
            forall|i: int|
                0 <= i < params@.len() ==> !(#[trigger] params@[i] is Null) && params@[i].wf(),
        ensures
            final(self)@.values == params@,
            final(self)@.rows == old(self)@.rows,
            final(self)@.state == old(self)@.state,
            r@.len() == params@.len(),
            forall|i: int|
                0 <= i < params@.len() ==> (#[trigger] r@[i]).data_type
                    == params@[i].spec_oci_data_type() && r@[i].buffer@
                    == params@[i].spec_wire_bytes(),
    {
        let mut payloads: Vec<BindPayload> = Vec::new();
        let mut i: usize = 0;
        while i < params.len()
            invariant
                i <= params@.len(),
                forall|j: int|
                    0 <= j < params@.len() ==> !(#[trigger] params@[j] is Null) && params@[j].wf(),
                payloads@.len() == i,
                forall|j: int|
                    0 <= j < i ==> (#[trigger] payloads@[j]).data_type
                        == params@[j].spec_oci_data_type() && payloads@[j].buffer@
                        == params@[j].spec_wire_bytes(),
            decreases params@.len() - i,
        {
            let (data_type, buffer) = params[i].encode();
            payloads.push(BindPayload { data_type, buffer });
            i = i + 1;
        }
        self.values = params;
        payloads
    }

    /// The values bound last, in position order.
    pub fn bound_values(&self) -> (r: &[SqlValue])
        ensures
            r@ == self@.values,
    {
        self.values.as_slice()
    }

    /// Transition to the fetched state.
    pub fn results_fetched(&mut self)
        ensures
            final(self)@.state is Fetched,
            final(self)@.values == old(self)@.values,
            final(self)@.rows == old(self)@.rows,
    {
        self.result_state = ResultState::Fetched;
    }

    /// Transition to the not-fetched state: what a successful execution
    /// does, making any earlier result set stale.
    pub fn results_not_fetched(&mut self)
        ensures
            final(self)@.state is NotFetched,
            final(self)@.values == old(self)@.values,
            final(self)@.rows == old(self)@.rows,
    {
        self.result_state = ResultState::NotFetched;
    }

    /// Whether asking for the result set requires draining the server:
    /// only when nothing has been fetched since the last execution.
    pub fn needs_fetch(&self) -> (r: bool)
        ensures
            r == (self@.state is NotFetched),
    {
        match self.result_state {
            ResultState::Fetched => false,
            ResultState::NotFetched => true,
        }
    }

    /// Caches the rows a drain of the server produced, completing one
    /// eager materialization.
    pub fn store_result_set(&mut self, rows: Vec<Row>)
        requires
            old(self)@.state is NotFetched,
        ensures
            final(self)@ == spec_result_set(old(self)@, rows@).0,
            final(self)@.rows == rows@,
            final(self)@.state is Fetched,
            final(self)@.values == old(self)@.values,
    {
        self.result_set = rows;
        self.result_state = ResultState::Fetched;
    }

    /// The cached result rows; the same collection on every call until
    /// the next execution.
    pub fn cached_result_set(&self) -> (r: &[Row])
        ensures
            r@ == self@.rows,
    {
        self.result_set.as_slice()
    }

    /// Claims the single lazy traversal of this execution's results.
    /// Succeeds only from the not-fetched state, moving to fetched; a
    /// second claim before a fresh execution reports failure, since the
    /// server-side cursor may already have been consumed destructively.
    pub fn try_begin_lazy(&mut self) -> (r: bool)
        ensures
            r == (old(self)@.state is NotFetched),
            final(self)@.state is Fetched,
            final(self)@.values == old(self)@.values,
            final(self)@.rows == old(self)@.rows,
    {
        match self.result_state {
            ResultState::Fetched => false,
            ResultState::NotFetched => {
                self.result_state = ResultState::Fetched;
                true
            },
        }
    }
}

/// The iteration count an execution passes to the native layer: queries
/// execute with zero (rows are pulled later by fetch), everything else
/// with one.
pub fn execution_iterations(statement_type: &StatementType) -> (r: u32)
    ensures
        statement_type is Select ==> r == 0,
        !(statement_type is Select) ==> r == 1,
{
    match *statement_type {
        StatementType::Select => 0,
        _ => 1,
    }
}

/// What a column's declared type resolves to as the external type of its
/// output buffer. The wire format stores every number as one generic
/// representation, so numeric columns are told apart by two side-channel
/// attributes: non-zero precision with the sentinel scale -127 means a
/// float, every other combination an integer. A declared type that is
/// itself an external-only code has no resolution.
pub open spec fn spec_external_data_type(
    internal: OciDataType,
    precision: i16,
    scale: i8,
) -> Result<OciDataType, OciError> {
    match internal {
        OciDataType::SqlVarChar => Ok(OciDataType::SqlVarChar),
        OciDataType::SqlChar => Ok(OciDataType::SqlChar),
        OciDataType::SqlNum => {
            if precision != 0 && scale == -127 {
                Ok(OciDataType::SqlFloat)
            } else {
                Ok(OciDataType::SqlInt)
            }
        },
        OciDataType::SqlDate => Ok(OciDataType::SqlDate),
        OciDataType::SqlTimestamp => Ok(OciDataType::SqlTimestamp),
        OciDataType::SqlTimestampTz => Ok(OciDataType::SqlTimestampTz),
        _ => Err(OciError::Conversion(ConversionError::Unsupported)),
    }
}

pub fn determine_external_data_type(internal: OciDataType, precision: i16, scale: i8) -> (r:
    Result<OciDataType, OciError>)
    ensures
        r == spec_external_data_type(internal, precision, scale),
{
    match internal {
        OciDataType::SqlVarChar => Ok(OciDataType::SqlVarChar),
        OciDataType::SqlChar => Ok(OciDataType::SqlChar),
        OciDataType::SqlNum => {
            if precision != 0 && scale == -127 {
                Ok(OciDataType::SqlFloat)
            } else {
                Ok(OciDataType::SqlInt)
            }
        },
        OciDataType::SqlDate => Ok(OciDataType::SqlDate),
        OciDataType::SqlTimestamp => Ok(OciDataType::SqlTimestamp),
        OciDataType::SqlTimestampTz => Ok(OciDataType::SqlTimestampTz),
        _ => Err(OciError::Conversion(ConversionError::Unsupported)),
    }
}

/// For every precision and scale, a numeric column resolves to a float
/// exactly when the precision is non-zero and the scale is the sentinel
/// -127, and to an integer otherwise.
pub proof fn lemma_numeric_disambiguation(precision: i16, scale: i8)
    ensures
        spec_external_data_type(OciDataType::SqlNum, precision, scale) == Ok::<
            OciDataType,
            OciError,
        >(
            if precision != 0 && scale == -127 {
                OciDataType::SqlFloat
            } else {
                OciDataType::SqlInt
            },
        ),
{
}

/// How large the output buffer of a column is made: the declared column
/// width for the text types, the type's fixed wire width for the rest.
pub fn output_buffer_size(data_type: &OciDataType, column_width: u16) -> (r: u16)
    ensures
        (data_type is SqlVarChar || data_type is SqlChar) ==> r == column_width,
        !(data_type is SqlVarChar || data_type is SqlChar) ==> r == data_type.spec_size(),
{
    match *data_type {
        OciDataType::SqlVarChar | OciDataType::SqlChar => column_width,
        _ => data_type.size(),
    }
}

/// What one "fetch next row" status code means.
#[derive(Clone, Copy, Debug, PartialEq, Eq, Structural)]
pub enum FetchResult {
    /// A row was fetched into the defined buffers.
    Data,
    /// The cursor is exhausted; the buffers hold nothing new.
    NoData,
}

/// Reads a fetch call's status: success means a row arrived, the no-data
/// code means exhaustion, and anything else is a failure whose error
/// records the caller must retrieve.
pub fn interpret_fetch(code: ReturnCode) -> (r: Option<FetchResult>)
    ensures
        code is Success ==> r == Some(FetchResult::Data),
        code is NoData ==> r == Some(FetchResult::NoData),
        !(code is Success) && !(code is NoData) ==> r is None,
{
    match code {
        ReturnCode::Success => Some(FetchResult::Data),
        ReturnCode::NoData => Some(FetchResult::NoData),
        _ => None,
    }
}

/// One result column as one fetch leaves it: the external type its buffer
/// was defined with, the null indicator the server wrote beside it, and
/// the buffer's bytes.
#[derive(Clone, Debug, PartialEq)]
pub struct Column {
    pub sql_type: OciDataType,
    pub null_indicator: i16,
    pub buffer: Vec<u8>,
}

/// What a column's typed value relates to the column as: a null wherever
/// the indicator says so, whatever the buffer holds; otherwise whatever
/// the buffer decodes to under the column's type.
pub open spec fn column_decodes_to(c: Column, r: Result<SqlValue, OciError>) -> bool {
    if c.spec_is_null() {
        r == Ok::<SqlValue, OciError>(SqlValue::Null)
    } else {
        decodes_to(c.buffer@, c.sql_type, r)
    }
}

impl Column {
    /// The server sets the indicator to -1 for an absent value.
    pub open spec fn spec_is_null(self) -> bool {
        self.null_indicator == -1
    }

    /// Whether this column yields a value rather than an error.
    pub open spec fn spec_ok(self) -> bool {
        self.spec_is_null() || decode_succeeds(self.buffer@, self.sql_type)
    }

    pub fn is_null(&self) -> (r: bool)
        ensures
            r == self.spec_is_null(),
    {
        self.null_indicator == -1
    }

    /// The typed value of this column: a null wherever the indicator says
    /// so, whatever the buffer holds; otherwise the buffer decoded under
    /// the column's type.
    pub fn create_sql_value(&self) -> (r: Result<SqlValue, OciError>)
        ensures
            column_decodes_to(*self, r),
            r is Ok <==> self.spec_ok(),
            r matches Ok(v) ==> v.wf(),
    {
        if self.is_null() {
            Ok(SqlValue::Null)
        } else {
            SqlValue::create_from_raw(self.buffer.as_slice(), &self.sql_type)
        }
    }
}

/// A column whose null indicator is set decodes to a null and to nothing
/// else, regardless of what its buffer holds.
pub proof fn lemma_null_indicator(c: Column)
    requires
        c.null_indicator == -1,
    ensures
        forall|r: Result<SqlValue, OciError>|
            #[trigger] column_decodes_to(c, r) <==> r == Ok::<SqlValue, OciError>(SqlValue::Null),
{
}

/// What a built row relates to its columns as: every column decoded, in
/// column order; or the error of the first column that fails.
pub open spec fn row_decodes_to(cols: Seq<Column>, r: Result<Row, OciError>) -> bool {
    match r {
        Ok(row) => row@.len() == cols.len() && (forall|i: int|
            0 <= i < cols.len() ==> column_decodes_to(cols[i], Ok(#[trigger] row@[i]))),
        Err(e) => exists|i: int|
            0 <= i < cols.len() && !(#[trigger] cols[i]).spec_ok() && column_decodes_to(
                cols[i],
                Err(e),
            ) && (forall|j: int| 0 <= j < i ==> (#[trigger] cols[j]).spec_ok()),
    }
}

/// Assembles one row from its fetched columns: each column's typed value
/// in order, or the first column's conversion failure.
pub fn build_result_row(columns: &Vec<Column>) -> (r: Result<Row, OciError>)
    ensures
        row_decodes_to(columns@, r),
        r matches Ok(row) ==> forall|i: int|
            0 <= i < row@.len() ==> (#[trigger] row@[i]).wf(),
{
    let mut values: Vec<SqlValue> = Vec::new();
    let mut i: usize = 0;
    while i < columns.len()
        invariant
            i <= columns@.len(),
            values@.len() == i,
            forall|j: int|
                0 <= j < i ==> column_decodes_to(columns@[j], Ok(#[trigger] values@[j])),
            forall|j: int| 0 <= j < i ==> (#[trigger] columns@[j]).spec_ok(),
            forall|j: int| 0 <= j < i ==> (#[trigger] values@[j]).wf(),
        decreases columns@.len() - i,
    {
        match columns[i].create_sql_value() {
            Ok(v) => {
                values.push(v);
            },
            Err(e) => {
                return Err(e);
            },
        }
        i = i + 1;
    }
    Ok(Row::new(values))
}

/// Whether every column of one fetched row decodes.
pub open spec fn row_ok(cols: Seq<Column>) -> bool {
    forall|i: int| 0 <= i < cols.len() ==> (#[trigger] cols[i]).spec_ok()
}

/// What the eager materialization relates the fetched data to: one row
/// per fetch, in fetch order, or the failure of the first row that does
/// not decode.
pub open spec fn rows_decode_to(raw: Seq<Vec<Column>>, r: Result<Vec<Row>, OciError>) -> bool {
    match r {
        Ok(rows) => rows@.len() == raw.len() && (forall|k: int|
            0 <= k < raw.len() ==> row_decodes_to(#[trigger] raw[k]@, Ok(rows@[k]))),
        Err(e) => exists|k: int|
            0 <= k < raw.len() && !row_ok((#[trigger] raw[k])@) && row_decodes_to(
                raw[k]@,
                Err(e),
            ) && (forall|j: int| 0 <= j < k ==> row_ok((#[trigger] raw[j])@)),
    }
}

/// The eager half of the fetch loop, once every row's column buffers have
/// been pulled: assembles one row per fetch, in order, stopping at the
/// first conversion failure. The lazy traversal performs exactly one
/// `build_result_row` per pull over the same data.
pub fn materialize_rows(raw: &Vec<Vec<Column>>) -> (r: Result<Vec<Row>, OciError>)
    ensures
        rows_decode_to(raw@, r),
{
    let mut rows: Vec<Row> = Vec::new();
    let mut k: usize = 0;
    while k < raw.len()
        invariant
            k <= raw@.len(),
            rows@.len() == k,
            forall|j: int| 0 <= j < k ==> row_decodes_to((#[trigger] raw@[j])@, Ok(rows@[j])),
            forall|j: int| 0 <= j < k ==> row_ok((#[trigger] raw@[j])@),
        decreases raw@.len() - k,
    {
        match build_result_row(&raw[k]) {
            Ok(row) => {
                proof {
                    let cols = raw@[k as int]@;
                    assert forall|i: int| 0 <= i < cols.len() implies (
                    #[trigger] cols[i]).spec_ok() by {
                        assert(column_decodes_to(cols[i], Ok(row@[i])));
                        lemma_column_ok_of_value(cols[i], row@[i]);
                    }
                }
                rows.push(row);
            },
            Err(e) => {
                proof {
                    lemma_row_error_means_not_ok(raw@[k as int]@, e);
                }
                return Err(e);
            },
        }
        k = k + 1;
    }
    Ok(rows)
}

proof fn lemma_row_error_means_not_ok(cols: Seq<Column>, e: OciError)
    requires
        row_decodes_to(cols, Err(e)),
    ensures
        !row_ok(cols),
{
    let i = choose|i: int|
        0 <= i < cols.len() && !(#[trigger] cols[i]).spec_ok() && column_decodes_to(
            cols[i],
            Err(e),
        ) && (forall|j: int| 0 <= j < i ==> (#[trigger] cols[j]).spec_ok());
    assert(!cols[i].spec_ok());
}

/// The eager loop and the lazy traversal end after exactly the number of
/// rows the server reported, and they observe the same rows in the same
/// order: an eager result and the per-pull results over the same fetched
/// data have the same length, and pull `k` relates to fetch `k` exactly
/// as eager row `k` does.
pub proof fn lemma_fetch_exhaustion(
    raw: Seq<Vec<Column>>,
    eager: Vec<Row>,
    lazy: Seq<Result<Row, OciError>>,
)
    requires
        rows_decode_to(raw, Ok(eager)),
        lazy.len() == raw.len(),
        forall|k: int| 0 <= k < raw.len() ==> row_decodes_to((#[trigger] raw[k])@, lazy[k]),
    ensures
        eager@.len() == raw.len(),
        forall|k: int|
            0 <= k < raw.len() ==> ((#[trigger] lazy[k]) matches Ok(row) && row_like(
                row,
                eager@[k],
            )),
{
    assert forall|k: int| 0 <= k < raw.len() implies (#[trigger] lazy[k]) matches Ok(row)
        && row_like(row, eager@[k]) by {
        assert(row_decodes_to(raw[k]@, Ok(eager@[k])));
        assert(row_ok(raw[k]@)) by {
            assert forall|i: int| 0 <= i < raw[k]@.len() implies (#[trigger] raw[k]@[i]).spec_ok() by {
                assert(column_decodes_to(raw[k]@[i], Ok(eager@[k]@[i])));
                lemma_column_ok_of_value(raw[k]@[i], eager@[k]@[i]);
            }
        }
        match lazy[k] {
            Ok(row) => {
                lemma_row_decode_deterministic(raw[k]@, row, eager@[k]);
            },
            Err(e) => {
                lemma_row_error_means_not_ok(raw[k]@, e);
            },
        }
    }
}

proof fn lemma_column_ok_of_value(c: Column, v: SqlValue)
    requires
        column_decodes_to(c, Ok(v)),
    ensures
        c.spec_ok(),
{
    if !c.spec_is_null() {
        lemma_decode_ok_succeeds(c.buffer@, c.sql_type, v);
    }
}

proof fn lemma_column_decode_deterministic(c: Column, u: SqlValue, v: SqlValue)
    requires
        column_decodes_to(c, Ok(u)),
        column_decodes_to(c, Ok(v)),
    ensures
        sql_value_like(u, v),
{
    if !c.spec_is_null() {
        lemma_decode_deterministic(c.buffer@, c.sql_type, u, v);
    }
}

/// Two rows that hold the same values position by position, text
/// compared by its characters.
pub open spec fn row_like(a: Row, b: Row) -> bool {
    a@.len() == b@.len() && (forall|i: int|
        0 <= i < a@.len() ==> sql_value_like(#[trigger] a@[i], b@[i]))
}

/// Two rows built from the same fetched columns hold the same values.
pub proof fn lemma_row_decode_deterministic(cols: Seq<Column>, a: Row, b: Row)
    requires
        row_decodes_to(cols, Ok(a)),
        row_decodes_to(cols, Ok(b)),
    ensures
        row_like(a, b),
{
    assert forall|i: int| 0 <= i < a@.len() implies sql_value_like(a@[i], b@[i]) by {
        assert(column_decodes_to(cols[i], Ok(a@[i])));
        assert(column_decodes_to(cols[i], Ok(b@[i])));
        lemma_column_decode_deterministic(cols[i], a@[i], b@[i]);
    }
}

} // verus!
