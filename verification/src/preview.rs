//! The bounded JSON preview of a result.

use vstd::prelude::*;

use crate::arrays::{
    boolean_is_null, boolean_value, int32_is_null, int32_value, int64_is_null, int64_value,
    utf8_is_null, utf8_value,
};
use crate::batch::{batch_of, BatchSpec, ColumnarBatch};
use crate::columnar::{CellSpec, Column};
use crate::error::{ErrorKind, TaskError};
use crate::json::{
    array_text, bool_text, encode_array, json_bool, json_clone, json_error_text, json_integer,
    json_null, json_object, json_string, json_text, no_entries, null_text, object_entries,
    object_insert, object_new, object_text, string_text, texts_of,
};
use crate::schema::{column_name, inferred_type, lemma_column_name_injective, SemanticType};
use crate::text::int_text;
use crate::value::{rectangular, SqlValueSpec};

verus! {

/// The most rows that a preview shows.
pub const PREVIEW_LIMIT: usize = 10;

/// The JSON text of a cell: `null` for a null, `true` or `false` for a
/// boolean, the decimal number for an integer, the number that a float came
/// with, and the quoted string for a text.
pub open spec fn cell_text(c: CellSpec) -> Seq<char> {
    match c {
        CellSpec::Null => null_text(),
        CellSpec::Boolean(b) => bool_text(b),
        CellSpec::Int32(n) => int_text(n as int),
        CellSpec::Int64(n) => int_text(n as int),
        CellSpec::Float64(c) => c.json,
        CellSpec::Utf8(s) => string_text(s),
    }
}

/// The entries of the object for row `i` after the first `upto` columns
/// were stored, each under the name of its field. A column replaces one of
/// the same name that was stored before it.
pub open spec fn row_entries(b: BatchSpec, i: int, upto: nat) -> Map<Seq<char>, Seq<char>>
    decreases upto,
{
    if upto == 0 {
        no_entries()
    } else {
        row_entries(b, i, (upto - 1) as nat).insert(
            b.fields[upto - 1].name,
            cell_text(b.columns[upto - 1][i]),
        )
    }
}

/// The JSON text of the object for row `i` of a batch.
pub open spec fn row_text(b: BatchSpec, i: int) -> Seq<char> {
    object_text(row_entries(b, i, b.fields.len()))
}

/// The texts of the objects for the first `count` rows of a batch.
pub open spec fn batch_row_texts(b: BatchSpec, count: nat) -> Seq<Seq<char>> {
    Seq::new(count, |i: int| row_text(b, i))
}

/// The number of rows in all the batches.
pub open spec fn total_rows(batches: Seq<BatchSpec>) -> nat
    decreases batches.len(),
{
    if batches.len() == 0 {
        0
    } else {
        total_rows(batches.drop_last()) + batches.last().num_rows
    }
}

/// The smaller of two numbers.
pub open spec fn smaller(a: nat, b: nat) -> nat {
    if a <= b {
        a
    } else {
        b
    }
}

/// The texts of the row objects of a preview: the rows of the batches in
/// order, cut off after `PREVIEW_LIMIT` rows in all.
pub open spec fn preview_texts(batches: Seq<BatchSpec>) -> Seq<Seq<char>>
    decreases batches.len(),
{
    if batches.len() == 0 {
        Seq::empty()
    } else {
        let before = preview_texts(batches.drop_last());
        let room = (PREVIEW_LIMIT - before.len()) as nat;
        before + batch_row_texts(batches.last(), smaller(room, batches.last().num_rows))
    }
}

/// The views of a list of batches.
pub open spec fn batch_views(batches: Seq<ColumnarBatch>) -> Seq<BatchSpec> {
    batches.map_values(|b: ColumnarBatch| b@)
}

/// A preview holds as many rows as the batches have, and no more than
/// `PREVIEW_LIMIT`.
pub proof fn lemma_preview_length(batches: Seq<BatchSpec>)
    ensures
        preview_texts(batches).len() == smaller(PREVIEW_LIMIT as nat, total_rows(batches)),
    decreases batches.len(),
{
    if batches.len() > 0 {
        lemma_preview_length(batches.drop_last());
    }
}

/// The texts of the objects for all rows of the batches, in the order of
/// the batches and of the rows in each.
pub open spec fn all_row_texts(batches: Seq<BatchSpec>) -> Seq<Seq<char>>
    decreases batches.len(),
{
    if batches.len() == 0 {
        Seq::empty()
    } else {
        all_row_texts(batches.drop_last()) + batch_row_texts(
            batches.last(),
            batches.last().num_rows,
        )
    }
}

/// A preview is the beginning of the rows of the batches taken together:
/// the first `PREVIEW_LIMIT` of them, or all where there are fewer. The cut
/// may fall inside a batch.
pub proof fn lemma_preview_is_prefix(batches: Seq<BatchSpec>)
    ensures
        all_row_texts(batches).len() == total_rows(batches),
        preview_texts(batches) == all_row_texts(batches).take(
            smaller(PREVIEW_LIMIT as nat, total_rows(batches)) as int,
        ),
    decreases batches.len(),
{
    if batches.len() > 0 {
        let front = batches.drop_last();
        let last = batches.last();
        lemma_preview_is_prefix(front);
        lemma_preview_length(front);
        let all_front = all_row_texts(front);
        let shown_front = preview_texts(front);
        let room = (PREVIEW_LIMIT - shown_front.len()) as nat;
        let count = smaller(room, last.num_rows);
        let all = all_front + batch_row_texts(last, last.num_rows);
        let cut = smaller(PREVIEW_LIMIT as nat, total_rows(batches)) as int;
        assert(shown_front + batch_row_texts(last, count) =~= all.take(cut));
    } else {
        assert(all_row_texts(batches).take(0) =~= Seq::<Seq<char>>::empty());
    }
}

/// Batches without rows have an empty array as their preview.
pub proof fn lemma_preview_without_rows(batches: Seq<BatchSpec>)
    requires
        total_rows(batches) == 0,
    ensures
        array_text(preview_texts(batches)) == seq!['[', ']'],
{
    lemma_preview_length(batches);
    assert(preview_texts(batches) =~= Seq::<Seq<char>>::empty());
    assert(array_text(Seq::<Seq<char>>::empty()) =~= seq!['[', ']']);
}

/// The preview of a single batch shows its first rows, `PREVIEW_LIMIT` at
/// most.
pub proof fn lemma_single_batch(b: BatchSpec)
    ensures
        total_rows(seq![b]) == b.num_rows,
        preview_texts(seq![b]) == batch_row_texts(b, smaller(PREVIEW_LIMIT as nat, b.num_rows)),
{
    reveal_with_fuel(total_rows, 2);
    reveal_with_fuel(preview_texts, 2);
    assert(seq![b].drop_last() =~= Seq::<BatchSpec>::empty());
    assert(preview_texts(seq![b]) =~= batch_row_texts(
        b,
        smaller(PREVIEW_LIMIT as nat, b.num_rows),
    ));
}

/// In the batch of a row set, a null of the row set that stands in a column
/// which is not a string column is shown as `null`, which is no quoted
/// text.
pub proof fn lemma_null_in_typed_column(width: nat, rows: Seq<Seq<SqlValueSpec>>, i: int, j: int)
    requires
        rectangular(rows, width),
        0 <= i < rows.len(),
        0 <= j < width,
        rows[i][j] == SqlValueSpec::Null,
        inferred_type(rows, j) != SemanticType::Utf8,
    ensures
        cell_text(batch_of(width, rows).columns[j][i]) == null_text(),
        cell_text(batch_of(width, rows).columns[j][i]).first() != '"',
{
}

/// In the batch of a row set, a null of the row set that stands in a string
/// column is shown as the text `Null`: a string column formats every cell
/// that is not text.
pub proof fn lemma_null_in_string_column(width: nat, rows: Seq<Seq<SqlValueSpec>>, i: int, j: int)
    requires
        rectangular(rows, width),
        0 <= i < rows.len(),
        0 <= j < width,
        rows[i][j] == SqlValueSpec::Null,
        inferred_type(rows, j) == SemanticType::Utf8,
    ensures
        cell_text(batch_of(width, rows).columns[j][i]) == string_text("Null"@),
{
}

/// The object for a row of a converted row set has one entry per column,
/// under the column's placeholder name, and that entry is the JSON text of
/// the column's cell in that row.
pub proof fn lemma_row_object_entries(width: nat, rows: Seq<Seq<SqlValueSpec>>, i: int, upto: nat)
    requires
        rows.len() > 0,
        0 <= i < rows.len(),
        upto <= width,
    ensures
        row_entries(batch_of(width, rows), i, upto).dom() =~= Set::new(
            |name: Seq<char>| exists|j: nat| j < upto && name == column_name(j),
        ),
        row_entries(batch_of(width, rows), i, upto).dom().finite(),
        row_entries(batch_of(width, rows), i, upto).dom().len() == upto,
        forall|j: nat|
            j < upto ==> (#[trigger] row_entries(batch_of(width, rows), i, upto)[column_name(j)])
                == cell_text(batch_of(width, rows).columns[j as int][i]),
    decreases upto,
{
    let b = batch_of(width, rows);
    if upto > 0 {
        let last = (upto - 1) as nat;
        lemma_row_object_entries(width, rows, i, last);
        let before = row_entries(b, i, last);
        let after = row_entries(b, i, upto);
        assert(b.fields[last as int].name == column_name(last));
        assert(after == before.insert(column_name(last), cell_text(b.columns[last as int][i])));
        assert(!before.dom().contains(column_name(last))) by {
            if before.dom().contains(column_name(last)) {
                let j = choose|j: nat| j < last && column_name(last) == column_name(j);
                lemma_column_name_injective(j, last);
            }
        }
        assert(after.dom() =~= before.dom().insert(column_name(last)));
        assert forall|j: nat| j < upto implies (#[trigger] after[column_name(j)]) == cell_text(
            b.columns[j as int][i],
        ) by {
            if j < last {
                if column_name(j) == column_name(last) {
                    lemma_column_name_injective(j, last);
                }
                assert(before[column_name(j)] == cell_text(b.columns[j as int][i]));
            }
        }
        assert forall|name: Seq<char>| after.dom().contains(name) <==> (exists|j: nat|
            j < upto && name == column_name(j)) by {
            if after.dom().contains(name) {
                if name == column_name(last) {
                    assert(last < upto && name == column_name(last));
                } else {
                    assert(before.dom().contains(name));
                    let j = choose|j: nat| j < last && name == column_name(j);
                    assert(j < upto && name == column_name(j));
                }
            }
            if exists|j: nat| j < upto && name == column_name(j) {
                let j = choose|j: nat| j < upto && name == column_name(j);
                if j < last {
                    assert(before.dom().contains(name));
                }
            }
        }
    } else {
        assert(row_entries(b, i, 0).dom() =~= Set::<Seq<char>>::empty());
    }
}

/// Renders one cell of a column as a JSON value.
pub fn array_value_to_json(column: &Column, index: usize) -> (value: serde_json::Value)
    requires
        index < column.cells().len(),
    ensures
        json_text(value) == cell_text(column.cells()[index as int]),
{
    match column {
        Column::Boolean(a) => {
            if boolean_is_null(a, index) {
                json_null()
            } else {
                json_bool(boolean_value(a, index))
            }
        },
        Column::Int32(a) => {
            if int32_is_null(a, index) {
                json_null()
            } else {
                json_integer(int32_value(a, index) as i64)
            }
        },
        Column::Int64(a) => {
            if int64_is_null(a, index) {
                json_null()
            } else {
                json_integer(int64_value(a, index))
            }
        },
        Column::Float64(cells) => {
            match &cells[index] {
                Some(c) => json_clone(&c.number),
                None => json_null(),
            }
        },
        Column::Utf8(a) => {
            if utf8_is_null(a, index) {
                json_null()
            } else {
                json_string(utf8_value(a, index))
            }
        },
    }
}

/// Builds the JSON object of one row: each cell under the name of its
/// field.
pub fn row_object(batch: &ColumnarBatch, i: usize) -> (value: serde_json::Value)
    requires
        i < batch@.num_rows,
    ensures
        json_text(value) == row_text(batch@, i as int),
{
    let mut object = object_new();
    let count = batch.num_columns();
    let schema = batch.schema();
    let mut j: usize = 0;
    while j < count
        invariant
            i < batch@.num_rows,
            count == batch@.fields.len(),
            count == batch@.columns.len(),
            schema@ == batch@.fields,
            j <= count,
            object_entries(object) == row_entries(batch@, i as int, j as nat),
        decreases count - j,
    {
        let column = batch.column(j);
        let value = array_value_to_json(column, i);
        assert(schema@[j as int] == schema.fields@[j as int]@);
        object_insert(&mut object, schema.fields[j].name.clone(), value);
        j += 1;
    }
    json_object(object)
}

/// Builds the row objects of a preview: the rows of the batches in order,
/// `PREVIEW_LIMIT` at most.
pub fn preview_values(batches: &Vec<ColumnarBatch>) -> (values: Vec<serde_json::Value>)
    ensures
        texts_of(values@) == preview_texts(batch_views(batches@)),
{
    let mut values: Vec<serde_json::Value> = Vec::new();
    let ghost views = batch_views(batches@);
    let mut k: usize = 0;
    assert(views.take(0) =~= Seq::<BatchSpec>::empty());
    assert(texts_of(values@) =~= preview_texts(views.take(0)));
    while k < batches.len()
        invariant
            views == batch_views(batches@),
            k <= batches@.len(),
            texts_of(values@) == preview_texts(views.take(k as int)),
            values@.len() <= PREVIEW_LIMIT,
        decreases batches@.len() - k,
    {
        let batch = &batches[k];
        let ghost before = preview_texts(views.take(k as int));
        let room = PREVIEW_LIMIT - values.len();
        let rows = batch.num_rows();
        let count = if rows < room {
            rows
        } else {
            room
        };
        proof {
            assert(views.take(k + 1).drop_last() =~= views.take(k as int));
            assert(views.take(k + 1).last() == batch@);
            assert(count == smaller((PREVIEW_LIMIT - before.len()) as nat, batch@.num_rows));
        }
        let mut i: usize = 0;
        assert(texts_of(values@) =~= before + batch_row_texts(batch@, 0));
        while i < count
            invariant
                i <= count,
                count <= batch@.num_rows,
                before.len() + count <= PREVIEW_LIMIT,
                texts_of(values@) == before + batch_row_texts(batch@, i as nat),
            decreases count - i,
        {
            let value = row_object(batch, i);
            let ghost old_values = values@;
            values.push(value);
            assert(texts_of(values@) =~= texts_of(old_values).push(json_text(value)));
            assert(before + batch_row_texts(batch@, (i + 1) as nat) =~= (before + batch_row_texts(
                batch@,
                i as nat,
            )).push(row_text(batch@, i as int)));
            i += 1;
        }
        k += 1;
    }
    assert(views.take(batches@.len() as int) =~= views);
    values
}

/// Turns the encoder's answer into the preview, or into the failure that
/// is reported for an answer that is none.
pub fn preview_from_encoding(outcome: Result<String, serde_json::Error>) -> (result: Result<
    String,
    TaskError,
>)
    ensures
        match outcome {
            Ok(text) => result == Ok::<String, TaskError>(text),
            Err(_) => result matches Err(e) && e.kind == ErrorKind::Serialization,
        },
{
    match outcome {
        Ok(text) => Ok(text),
        Err(e) => Err(TaskError::new(ErrorKind::Serialization, json_error_text(&e))),
    }
}

/// Renders the preview of a result: a JSON array with one object per row,
/// for the first `PREVIEW_LIMIT` rows of the batches, in their order. It
/// succeeds on every input.
pub fn generate_preview(batches: &Vec<ColumnarBatch>) -> (result: Result<String, TaskError>)
    ensures
        result matches Ok(text) && text@ == array_text(preview_texts(batch_views(batches@))),
{
    let values = preview_values(batches);
    preview_from_encoding(encode_array(&values))
}

} // verus!
