//! Turning rows of tagged cells into typed columns.

use vstd::prelude::*;

use crate::arrays::{
    boolean_array_from, boolean_cells, int32_cells, int32_column_from, int64_cells,
    int64_column_from, text_cell, text_cells, utf8_bytes, utf8_cells, utf8_column_from, Int32Column,
    Int64Column, Utf8Column, MAX_UTF8_BYTES,
};
use crate::error::{ErrorKind, TaskError};
use crate::schema::{semantic_type_of, Field, Schema, SemanticType};
use crate::text::{concat3, nat_text, usize_to_text};
use crate::value::{formatted, FloatCell, FloatSpec, RowSet, SqlValue, SqlValueSpec};

verus! {

/// One cell of a typed column.
pub enum CellSpec {
    Null,
    Boolean(bool),
    Int32(i32),
    Int64(i64),
    Float64(FloatSpec),
    Utf8(Seq<char>),
}

/// The cell of a row set at a row and a column, if there is one.
pub open spec fn cell_at(rows: Seq<Seq<SqlValueSpec>>, i: int, j: int) -> Option<SqlValueSpec> {
    if 0 <= i < rows.len() && 0 <= j < rows[i].len() {
        Some(rows[i][j])
    } else {
        None
    }
}

/// What a boolean column takes from a cell: the value of a boolean, nothing
/// else.
pub open spec fn bool_of(v: Option<SqlValueSpec>) -> Option<bool> {
    match v {
        Some(SqlValueSpec::Boolean(b)) => Some(b),
        _ => None,
    }
}

/// What a 32-bit integer column takes from a cell: the value of an integer
/// of 8, 16 or 32 bits, nothing else.
pub open spec fn int32_of(v: Option<SqlValueSpec>) -> Option<i32> {
    match v {
        Some(SqlValueSpec::TinyInt(n)) => Some(n as i32),
        Some(SqlValueSpec::SmallInt(n)) => Some(n as i32),
        Some(SqlValueSpec::Int(n)) => Some(n),
        _ => None,
    }
}

/// What a 64-bit integer column takes from a cell: the value of a 64-bit
/// integer, nothing else.
pub open spec fn int64_of(v: Option<SqlValueSpec>) -> Option<i64> {
    match v {
        Some(SqlValueSpec::BigInt(n)) => Some(n),
        _ => None,
    }
}

/// What a float column takes from a cell: a float of either width, nothing
/// else.
pub open spec fn float64_of(v: Option<SqlValueSpec>) -> Option<FloatSpec> {
    match v {
        Some(SqlValueSpec::Float(c)) => Some(c),
        Some(SqlValueSpec::Double(c)) => Some(c),
        _ => None,
    }
}

/// What a string column takes from a cell: the text of a textual cell, and
/// of any other cell what the generic formatter makes of it.
pub open spec fn string_of(v: Option<SqlValueSpec>) -> Option<Seq<char>> {
    match v {
        Some(SqlValueSpec::Text(s)) => Some(s),
        Some(other) => Some(formatted(other)),
        None => None,
    }
}

/// The cell that a column of the given type holds for a cell of the row
/// set: the typed value where the tag fits the type, and null where it does
/// not. A string column takes every cell.
pub open spec fn cell_of(t: SemanticType, v: Option<SqlValueSpec>) -> CellSpec {
    match t {
        SemanticType::Boolean => match bool_of(v) {
            Some(b) => CellSpec::Boolean(b),
            None => CellSpec::Null,
        },
        SemanticType::Int32 => match int32_of(v) {
            Some(n) => CellSpec::Int32(n),
            None => CellSpec::Null,
        },
        SemanticType::Int64 => match int64_of(v) {
            Some(n) => CellSpec::Int64(n),
            None => CellSpec::Null,
        },
        SemanticType::Float64 => match float64_of(v) {
            Some(c) => CellSpec::Float64(c),
            None => CellSpec::Null,
        },
        SemanticType::Utf8 => match string_of(v) {
            Some(s) => CellSpec::Utf8(s),
            None => CellSpec::Null,
        },
    }
}

/// In a column that is not a string column, a cell whose tag stands for
/// another type, a null among them, becomes null.
pub proof fn lemma_mismatch_is_null(t: SemanticType, v: SqlValueSpec)
    requires
        t != SemanticType::Utf8,
        semantic_type_of(v) != t,
    ensures
        cell_of(t, Some(v)) == CellSpec::Null,
{
}

/// A cell whose tag stands for the type of its column is never null there.
pub proof fn lemma_match_is_kept(t: SemanticType, v: SqlValueSpec)
    requires
        semantic_type_of(v) == t,
    ensures
        cell_of(t, Some(v)) != CellSpec::Null,
{
}

/// A string column holds every cell as text: a text as it is, and any
/// other cell, a null among them, as the generic formatter prints it.
pub proof fn lemma_string_column_takes_all(v: SqlValueSpec)
    ensures
        cell_of(SemanticType::Utf8, Some(v)) == CellSpec::Utf8(
            if v is Text {
                v->Text_0
            } else {
                formatted(v)
            },
        ),
{
}

/// The cells of the column at position `j`, typed as `t`: one per row, in
/// row order.
pub open spec fn column_cells(t: SemanticType, rows: Seq<Seq<SqlValueSpec>>, j: int) -> Seq<
    CellSpec,
> {
    Seq::new(rows.len(), |i: int| cell_of(t, cell_at(rows, i, j)))
}

/// The texts that a string column at position `j` holds.
pub open spec fn column_texts(rows: Seq<Seq<SqlValueSpec>>, j: int) -> Seq<Option<Seq<char>>> {
    Seq::new(rows.len(), |i: int| string_of(cell_at(rows, i, j)))
}

/// Whether the texts of the column at position `j` are more than one string
/// column can hold.
pub open spec fn text_overflows(rows: Seq<Seq<SqlValueSpec>>, j: int) -> bool {
    utf8_bytes(column_texts(rows, j)) > MAX_UTF8_BYTES
}

/// The view of a cell that may be missing.
pub open spec fn opt_view(value: Option<&SqlValue>) -> Option<SqlValueSpec> {
    match value {
        Some(v) => Some(v@),
        None => None,
    }
}

/// The value of a boolean cell.
pub fn extract_bool(value: Option<&SqlValue>) -> (r: Option<bool>)
    ensures
        r == bool_of(opt_view(value)),
{
    match value {
        Some(SqlValue::Boolean(b)) => Some(*b),
        _ => None,
    }
}

/// The value of an integer cell of at most 32 bits.
pub fn extract_int32(value: Option<&SqlValue>) -> (r: Option<i32>)
    ensures
        r == int32_of(opt_view(value)),
{
    match value {
        Some(SqlValue::TinyInt(v)) => Some(*v as i32),
        Some(SqlValue::SmallInt(v)) => Some(*v as i32),
        Some(SqlValue::Int(v)) => Some(*v),
        _ => None,
    }
}

/// The value of a 64-bit integer cell.
pub fn extract_int64(value: Option<&SqlValue>) -> (r: Option<i64>)
    ensures
        r == int64_of(opt_view(value)),
{
    match value {
        Some(SqlValue::BigInt(v)) => Some(*v),
        _ => None,
    }
}

/// The number of a float cell.
pub fn extract_float64(value: Option<&SqlValue>) -> (r: Option<FloatCell>)
    ensures
        match r {
            Some(c) => float64_of(opt_view(value)) == Some(c@),
            None => float64_of(opt_view(value)) is None,
        },
{
    match value {
        Some(SqlValue::Float(c)) => Some(c.duplicate()),
        Some(SqlValue::Double(c)) => Some(c.duplicate()),
        _ => None,
    }
}

/// The text of a cell.
pub fn extract_string(value: Option<&SqlValue>) -> (r: Option<String>)
    ensures
        match r {
            Some(s) => string_of(opt_view(value)) == Some(s@),
            None => string_of(opt_view(value)) is None,
        },
{
    match value {
        Some(SqlValue::Text(s)) => Some(s.clone()),
        Some(v) => Some(v.format()),
        None => None,
    }
}

/// A typed column: one array of cells with its null positions.
pub enum Column {
    Boolean(arrow::array::BooleanArray),
    Int32(Int32Column),
    Int64(Int64Column),
    /// Floats are kept cell by cell, with the renderings that they came
    /// with: no floating-point type stands in this crate, so the column
    /// cannot be an array of floats.
    Float64(Vec<Option<FloatCell>>),
    Utf8(Utf8Column),
}

impl Column {
    /// The type of the column's cells.
    pub open spec fn data_type(&self) -> SemanticType {
        match self {
            Column::Boolean(_) => SemanticType::Boolean,
            Column::Int32(_) => SemanticType::Int32,
            Column::Int64(_) => SemanticType::Int64,
            Column::Float64(_) => SemanticType::Float64,
            Column::Utf8(_) => SemanticType::Utf8,
        }
    }

    /// The cells of the column, in row order.
    pub open spec fn cells(&self) -> Seq<CellSpec> {
        match self {
            Column::Boolean(a) => boolean_cells(*a).map_values(
                |o: Option<bool>|
                    match o {
                        Some(b) => CellSpec::Boolean(b),
                        None => CellSpec::Null,
                    },
            ),
            Column::Int32(a) => int32_cells(*a).map_values(
                |o: Option<i32>|
                    match o {
                        Some(n) => CellSpec::Int32(n),
                        None => CellSpec::Null,
                    },
            ),
            Column::Int64(a) => int64_cells(*a).map_values(
                |o: Option<i64>|
                    match o {
                        Some(n) => CellSpec::Int64(n),
                        None => CellSpec::Null,
                    },
            ),
            Column::Float64(v) => v@.map_values(
                |o: Option<FloatCell>|
                    match o {
                        Some(c) => CellSpec::Float64(c@),
                        None => CellSpec::Null,
                    },
            ),
            Column::Utf8(a) => utf8_cells(*a).map_values(
                |o: Option<Seq<char>>|
                    match o {
                        Some(s) => CellSpec::Utf8(s),
                        None => CellSpec::Null,
                    },
            ),
        }
    }
}

/// Adding a cell adds its bytes.
pub proof fn lemma_utf8_bytes_push(cells: Seq<Option<Seq<char>>>, cell: Option<Seq<char>>)
    ensures
        utf8_bytes(cells.push(cell)) == utf8_bytes(cells) + match cell {
            Some(s) => vstd::utf8::encode_utf8(s).len(),
            None => 0,
        },
{
    assert(cells.push(cell).drop_last() =~= cells);
}

/// The first cells of a column take no more bytes than all of them.
pub proof fn lemma_utf8_bytes_prefix(cells: Seq<Option<Seq<char>>>, k: int)
    requires
        0 <= k <= cells.len(),
    ensures
        utf8_bytes(cells.take(k)) <= utf8_bytes(cells),
    decreases cells.len() - k,
{
    if k == cells.len() {
        assert(cells.take(k) =~= cells);
    } else {
        lemma_utf8_bytes_prefix(cells, k + 1);
        assert(cells.take(k + 1) =~= cells.take(k).push(cells[k]));
        lemma_utf8_bytes_push(cells.take(k), cells[k]);
    }
}

/// Builds the boolean column at position `j`.
fn boolean_column(rows: &RowSet, j: usize) -> (column: Column)
    ensures
        column.data_type() == SemanticType::Boolean,
        column.cells() == column_cells(SemanticType::Boolean, rows@, j as int),
{
    let mut values: Vec<Option<bool>> = Vec::new();
    let n = rows.len();
    let mut i: usize = 0;
    while i < n
        invariant
            n == rows@.len(),
            rows.valid(),
            i <= n,
            values@.len() == i,
            forall|k: int| 0 <= k < i ==> #[trigger] values@[k] == bool_of(cell_at(rows@, k, j as int)),
        decreases n - i,
    {
        let cell = rows.get(i, j);
        proof {
            rows.lemma_rectangular();
        }
        values.push(extract_bool(cell));
        i += 1;
    }
    let column = Column::Boolean(boolean_array_from(values));
    assert(column.cells() =~= column_cells(SemanticType::Boolean, rows@, j as int));
    column
}

/// Builds the 32-bit integer column at position `j`.
fn int32_column(rows: &RowSet, j: usize) -> (column: Column)
    ensures
        column.data_type() == SemanticType::Int32,
        column.cells() == column_cells(SemanticType::Int32, rows@, j as int),
{
    let mut values: Vec<Option<i32>> = Vec::new();
    let n = rows.len();
    let mut i: usize = 0;
    while i < n
        invariant
            n == rows@.len(),
            rows.valid(),
            i <= n,
            values@.len() == i,
            forall|k: int|
                0 <= k < i ==> #[trigger] values@[k] == int32_of(cell_at(rows@, k, j as int)),
        decreases n - i,
    {
        let cell = rows.get(i, j);
        proof {
            rows.lemma_rectangular();
        }
        values.push(extract_int32(cell));
        i += 1;
    }
    let column = Column::Int32(int32_column_from(values));
    assert(column.cells() =~= column_cells(SemanticType::Int32, rows@, j as int));
    column
}

/// Builds the 64-bit integer column at position `j`.
fn int64_column(rows: &RowSet, j: usize) -> (column: Column)
    ensures
        column.data_type() == SemanticType::Int64,
        column.cells() == column_cells(SemanticType::Int64, rows@, j as int),
{
    let mut values: Vec<Option<i64>> = Vec::new();
    let n = rows.len();
    let mut i: usize = 0;
    while i < n
        invariant
            n == rows@.len(),
            rows.valid(),
            i <= n,
            values@.len() == i,
            forall|k: int|
                0 <= k < i ==> #[trigger] values@[k] == int64_of(cell_at(rows@, k, j as int)),
        decreases n - i,
    {
        let cell = rows.get(i, j);
        proof {
            rows.lemma_rectangular();
        }
        values.push(extract_int64(cell));
        i += 1;
    }
    let column = Column::Int64(int64_column_from(values));
    assert(column.cells() =~= column_cells(SemanticType::Int64, rows@, j as int));
    column
}

/// Builds the float column at position `j`.
fn float64_column(rows: &RowSet, j: usize) -> (column: Column)
    ensures
        column.data_type() == SemanticType::Float64,
        column.cells() == column_cells(SemanticType::Float64, rows@, j as int),
{
    let mut values: Vec<Option<FloatCell>> = Vec::new();
    let n = rows.len();
    let mut i: usize = 0;
    while i < n
        invariant
            n == rows@.len(),
            rows.valid(),
            i <= n,
            values@.len() == i,
            forall|k: int|
                0 <= k < i ==> match #[trigger] values@[k] {
                    Some(c) => float64_of(cell_at(rows@, k, j as int)) == Some(c@),
                    None => float64_of(cell_at(rows@, k, j as int)) is None,
                },
        decreases n - i,
    {
        let cell = rows.get(i, j);
        proof {
            rows.lemma_rectangular();
        }
        values.push(extract_float64(cell));
        i += 1;
    }
    let column = Column::Float64(values);
    assert(column.cells() =~= column_cells(SemanticType::Float64, rows@, j as int));
    column
}

/// The number of bytes that a string column takes for a cell.
fn text_size(value: Option<&SqlValue>) -> (size: usize)
    ensures
        size == match string_of(opt_view(value)) {
            Some(s) => vstd::utf8::encode_utf8(s).len(),
            None => 0,
        },
{
    match value {
        Some(SqlValue::Text(s)) => s.as_str().as_bytes().len(),
        Some(v) => v.format().as_str().as_bytes().len(),
        None => 0,
    }
}

/// Whether one string column can hold the texts of the column at position
/// `j`.
fn texts_fit(rows: &RowSet, j: usize) -> (fits: bool)
    ensures
        fits == !text_overflows(rows@, j as int),
{
    let ghost texts = column_texts(rows@, j as int);
    let mut total: usize = 0;
    let n = rows.len();
    let mut i: usize = 0;
    while i < n
        invariant
            n == rows@.len(),
            rows.valid(),
            texts == column_texts(rows@, j as int),
            i <= n,
            total == utf8_bytes(texts.take(i as int)),
            total <= MAX_UTF8_BYTES,
        decreases n - i,
    {
        let cell = rows.get(i, j);
        let size = text_size(cell);
        proof {
            rows.lemma_rectangular();
            assert(texts.take(i + 1) =~= texts.take(i as int).push(texts[i as int]));
            lemma_utf8_bytes_push(texts.take(i as int), texts[i as int]);
            lemma_utf8_bytes_prefix(texts, i + 1);
        }
        if size > MAX_UTF8_BYTES - total {
            return false;
        }
        total = total + size;
        i += 1;
    }
    assert(texts.take(n as int) =~= texts);
    true
}

/// Builds the string column at position `j`, unless its texts are more than
/// one column can hold.
fn utf8_column(rows: &RowSet, j: usize) -> (made: Option<Column>)
    ensures
        made is None <==> text_overflows(rows@, j as int),
        made matches Some(column) ==> {
            &&& column.data_type() == SemanticType::Utf8
            &&& column.cells() == column_cells(SemanticType::Utf8, rows@, j as int)
        },
{
    if !texts_fit(rows, j) {
        return None;
    }
    let ghost texts = column_texts(rows@, j as int);
    let mut values: Vec<Option<String>> = Vec::new();
    let n = rows.len();
    let mut i: usize = 0;
    while i < n
        invariant
            n == rows@.len(),
            rows.valid(),
            texts == column_texts(rows@, j as int),
            i <= n,
            values@.len() == i,
            text_cells(values@) == texts.take(i as int),
        decreases n - i,
    {
        let cell = rows.get(i, j);
        proof {
            rows.lemma_rectangular();
        }
        let text = extract_string(cell);
        assert(text_cell(text) == texts[i as int]);
        values.push(text);
        assert(text_cells(values@) =~= texts.take(i + 1));
        i += 1;
    }
    assert(texts.take(n as int) =~= texts);
    let column = Column::Utf8(utf8_column_from(values));
    assert(column.cells() =~= column_cells(SemanticType::Utf8, rows@, j as int));
    Some(column)
}

/// Whether some string column of the schema overflows on the given rows.
pub open spec fn conversion_fails(rows: Seq<Seq<SqlValueSpec>>, types: Seq<SemanticType>) -> bool {
    exists|j: int|
        0 <= j < types.len() && types[j] == SemanticType::Utf8 && #[trigger] text_overflows(rows, j)
}

/// Whether the column at position `j` is the first string column that
/// overflows.
pub open spec fn first_overflow(
    rows: Seq<Seq<SqlValueSpec>>,
    types: Seq<SemanticType>,
    j: int,
) -> bool {
    &&& 0 <= j < types.len()
    &&& types[j] == SemanticType::Utf8
    &&& text_overflows(rows, j)
    &&& forall|k: int|
        0 <= k < j && types[k] == SemanticType::Utf8 ==> !#[trigger] text_overflows(rows, k)
}

/// What a failed conversion says of the column at position `j`.
pub open spec fn overflow_detail(j: nat) -> Seq<char> {
    "column "@ + nat_text(j) + " holds more text than a string column can"@
}

/// Whether a failure is the one that a conversion reports: a conversion
/// failure that names the first string column that overflows.
pub open spec fn is_conversion_failure(
    e: TaskError,
    rows: Seq<Seq<SqlValueSpec>>,
    types: Seq<SemanticType>,
) -> bool {
    &&& e.kind == ErrorKind::Conversion
    &&& exists|j: int| #[trigger] first_overflow(rows, types, j) && e.detail@ == overflow_detail(j as nat)
}

/// The declared types of a schema's fields.
pub open spec fn types_of(schema: Schema) -> Seq<SemanticType> {
    schema.fields@.map_values(|f: Field| f.data_type)
}

/// Builds one typed column per field of the schema from the cells of the
/// rows. A cell whose tag does not fit the declared type becomes null; a
/// string column takes every cell, formatting what is not text. It fails
/// only where a string column would hold more text than it can.
pub fn convert_to_arrays(rows: &RowSet, schema: &Schema) -> (result: Result<Vec<Column>, TaskError>)
    ensures
        result is Err <==> conversion_fails(rows@, types_of(*schema)),
        match result {
            Ok(columns) => {
                &&& columns@.len() == schema.fields@.len()
                &&& forall|j: int|
                    0 <= j < columns@.len() ==> {
                        &&& (#[trigger] columns@[j]).data_type() == schema.fields@[j].data_type
                        &&& columns@[j].cells() == column_cells(
                            schema.fields@[j].data_type,
                            rows@,
                            j,
                        )
                    }
            },
            Err(e) => is_conversion_failure(e, rows@, types_of(*schema)),
        },
{
    let mut arrays: Vec<Column> = Vec::new();
    let count = schema.fields.len();
    let mut j: usize = 0;
    while j < count
        invariant
            count == schema.fields@.len(),
            j <= count,
            arrays@.len() == j,
            forall|k: int|
                0 <= k < j ==> {
                    &&& (#[trigger] arrays@[k]).data_type() == schema.fields@[k].data_type
                    &&& arrays@[k].cells() == column_cells(schema.fields@[k].data_type, rows@, k)
                },
            forall|k: int|
                0 <= k < j && types_of(*schema)[k] == SemanticType::Utf8 ==> !#[trigger] text_overflows(
                    rows@,
                    k,
                ),
        decreases count - j,
    {
        let array = match schema.fields[j].data_type {
            SemanticType::Boolean => boolean_column(rows, j),
            SemanticType::Int32 => int32_column(rows, j),
            SemanticType::Int64 => int64_column(rows, j),
            SemanticType::Float64 => float64_column(rows, j),
            SemanticType::Utf8 => match utf8_column(rows, j) {
                Some(column) => column,
                None => {
                    let detail = concat3(
                        "column ",
                        usize_to_text(j).as_str(),
                        " holds more text than a string column can",
                    );
                    assert(first_overflow(rows@, types_of(*schema), j as int));
                    return Err(TaskError::new(ErrorKind::Conversion, detail));
                },
            },
        };
        arrays.push(array);
        j += 1;
    }
    Ok(arrays)
}

} // verus!
