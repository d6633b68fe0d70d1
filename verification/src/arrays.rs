//! The typed arrays of `arrow` that hold the columns of a result.
//!
//! Each array is opaque to the verifier and is described by its cells: one
//! `Option` per row, `None` where the validity bitmap marks a null. The
//! contracts in this file are trusted: they restate what the source of
//! `arrow-array` shows of `From<Vec<Option<_>>>`, `Array::is_null` and
//! `value`, and are not proved.

use arrow::array::Array;
use vstd::prelude::*;
use vstd::utf8::encode_utf8;

verus! {

/// Declares `arrow::array::BooleanArray`, a column of booleans, as an
/// opaque type.
#[verifier::external_type_specification]
#[verifier::external_body]
pub struct ExBooleanArray(arrow::array::BooleanArray);

/// A column of 32-bit integers, held in an `arrow::array::Int32Array`. The
/// array type is generic over a trait of `arrow` and cannot be declared as
/// it stands, so it is kept behind this opaque struct.
#[verifier::external_body]
pub struct Int32Column {
    inner: arrow::array::Int32Array,
}

/// A column of 64-bit integers, held in an `arrow::array::Int64Array`,
/// behind an opaque struct as `Int32Column` is.
#[verifier::external_body]
pub struct Int64Column {
    inner: arrow::array::Int64Array,
}

/// A column of strings, held in an `arrow::array::StringArray`, behind an
/// opaque struct as `Int32Column` is.
#[verifier::external_body]
pub struct Utf8Column {
    inner: arrow::array::StringArray,
}

/// The cells of a boolean array, in row order.
pub uninterp spec fn boolean_cells(a: arrow::array::BooleanArray) -> Seq<Option<bool>>;

/// The cells of a 32-bit integer column, in row order.
pub uninterp spec fn int32_cells(a: Int32Column) -> Seq<Option<i32>>;

/// The cells of a 64-bit integer column, in row order.
pub uninterp spec fn int64_cells(a: Int64Column) -> Seq<Option<i64>>;

/// The cells of a string column, in row order.
pub uninterp spec fn utf8_cells(a: Utf8Column) -> Seq<Option<Seq<char>>>;

/// The most bytes of text that one string column can hold: its offsets are
/// 32-bit signed integers.
pub const MAX_UTF8_BYTES: usize = 2147483647;

/// The characters of an optional string.
pub open spec fn text_cell(value: Option<String>) -> Option<Seq<char>> {
    match value {
        Some(s) => Some(s@),
        None => None,
    }
}

/// The characters of each cell of a list of optional strings.
pub open spec fn text_cells(values: Seq<Option<String>>) -> Seq<Option<Seq<char>>> {
    values.map_values(|o: Option<String>| text_cell(o))
}

/// The number of bytes that the non-null cells take in UTF-8.
pub open spec fn utf8_bytes(cells: Seq<Option<Seq<char>>>) -> nat
    decreases cells.len(),
{
    if cells.len() == 0 {
        0
    } else {
        utf8_bytes(cells.drop_last()) + match cells.last() {
            Some(s) => encode_utf8(s).len(),
            None => 0,
        }
    }
}

/// Trusted: `BooleanArray::from(Vec<Option<bool>>)`. The array has one cell
/// per element, null where the element is `None`.
#[verifier::external_body]
pub(crate) fn boolean_array_from(values: Vec<Option<bool>>) -> (a: arrow::array::BooleanArray)
    ensures
        boolean_cells(a) == values@,
{
    arrow::array::BooleanArray::from(values)
}

/// Trusted: `Array::is_null` on a `BooleanArray`, which panics past the end.
#[verifier::external_body]
pub(crate) fn boolean_is_null(a: &arrow::array::BooleanArray, i: usize) -> (r: bool)
    requires
        i < boolean_cells(*a).len(),
    ensures
        r == (boolean_cells(*a)[i as int] is None),
{
    a.is_null(i)
}

/// Trusted: `BooleanArray::value`, which panics past the end and returns the
/// stored value of a cell that is not null.
#[verifier::external_body]
pub(crate) fn boolean_value(a: &arrow::array::BooleanArray, i: usize) -> (r: bool)
    requires
        i < boolean_cells(*a).len(),
    ensures
        boolean_cells(*a)[i as int] matches Some(b) ==> r == b,
{
    a.value(i)
}

/// Trusted: `Int32Array::from(Vec<Option<i32>>)`. The array has one cell per
/// element, null where the element is `None`.
#[verifier::external_body]
pub(crate) fn int32_column_from(values: Vec<Option<i32>>) -> (a: Int32Column)
    ensures
        int32_cells(a) == values@,
{
    Int32Column { inner: arrow::array::Int32Array::from(values) }
}

/// Trusted: `Array::is_null` on an `Int32Array`, which panics past the end.
#[verifier::external_body]
pub(crate) fn int32_is_null(a: &Int32Column, i: usize) -> (r: bool)
    requires
        i < int32_cells(*a).len(),
    ensures
        r == (int32_cells(*a)[i as int] is None),
{
    a.inner.is_null(i)
}

/// Trusted: `PrimitiveArray::value` on an `Int32Array`, which panics past
/// the end and returns the stored value of a cell that is not null.
#[verifier::external_body]
pub(crate) fn int32_value(a: &Int32Column, i: usize) -> (r: i32)
    requires
        i < int32_cells(*a).len(),
    ensures
        int32_cells(*a)[i as int] matches Some(v) ==> r == v,
{
    a.inner.value(i)
}

/// Trusted: `Int64Array::from(Vec<Option<i64>>)`. The array has one cell per
/// element, null where the element is `None`.
#[verifier::external_body]
pub(crate) fn int64_column_from(values: Vec<Option<i64>>) -> (a: Int64Column)
    ensures
        int64_cells(a) == values@,
{
    Int64Column { inner: arrow::array::Int64Array::from(values) }
}

/// Trusted: `Array::is_null` on an `Int64Array`, which panics past the end.
#[verifier::external_body]
pub(crate) fn int64_is_null(a: &Int64Column, i: usize) -> (r: bool)
    requires
        i < int64_cells(*a).len(),
    ensures
        r == (int64_cells(*a)[i as int] is None),
{
    a.inner.is_null(i)
}

/// Trusted: `PrimitiveArray::value` on an `Int64Array`, which panics past
/// the end and returns the stored value of a cell that is not null.
#[verifier::external_body]
pub(crate) fn int64_value(a: &Int64Column, i: usize) -> (r: i64)
    requires
        i < int64_cells(*a).len(),
    ensures
        int64_cells(*a)[i as int] matches Some(v) ==> r == v,
{
    a.inner.value(i)
}

/// Trusted: `StringArray::from(Vec<Option<String>>)`. The array has one cell
/// per element, null where the element is `None`. The builder behind it
/// panics once the text of the cells exceeds `i32::MAX` bytes, so longer
/// input is left out.
#[verifier::external_body]
pub(crate) fn utf8_column_from(values: Vec<Option<String>>) -> (a: Utf8Column)
    requires
        utf8_bytes(text_cells(values@)) <= MAX_UTF8_BYTES,
    ensures
        utf8_cells(a) == text_cells(values@),
{
    Utf8Column { inner: arrow::array::StringArray::from(values) }
}

/// Trusted: `Array::is_null` on a `StringArray`, which panics past the end.
#[verifier::external_body]
pub(crate) fn utf8_is_null(a: &Utf8Column, i: usize) -> (r: bool)
    requires
        i < utf8_cells(*a).len(),
    ensures
        r == (utf8_cells(*a)[i as int] is None),
{
    a.inner.is_null(i)
}

/// Trusted: `GenericByteArray::value` on a `StringArray`, which panics past
/// the end and returns the stored text of a cell that is not null.
#[verifier::external_body]
pub(crate) fn utf8_value(a: &Utf8Column, i: usize) -> (r: &str)
    requires
        i < utf8_cells(*a).len(),
    ensures
        utf8_cells(*a)[i as int] matches Some(s) ==> r@ == s,
{
    a.inner.value(i)
}

} // verus!
