//! Schemas, and how one is inferred from the first row of a result.

use vstd::prelude::*;

use crate::text::{lemma_nat_text_injective, nat_text, usize_to_text};
use crate::value::{RowSet, SqlValue, SqlValueSpec};

verus! {

/// The type that a column is declared with.
#[derive(Clone, Copy, Debug, PartialEq, Eq, Structural)]
pub enum SemanticType {
    Boolean,
    Int32,
    Int64,
    Float64,
    /// Strings; also the fallback for what has no type of its own.
    Utf8,
}

/// One column of a schema.
#[derive(Debug)]
pub struct Field {
    pub name: String,
    pub data_type: SemanticType,
    pub nullable: bool,
}

/// What the contracts say of a `Field`.
pub struct FieldSpec {
    pub name: Seq<char>,
    pub data_type: SemanticType,
    pub nullable: bool,
}

impl View for Field {
    type V = FieldSpec;

    open spec fn view(&self) -> FieldSpec {
        FieldSpec { name: self.name@, data_type: self.data_type, nullable: self.nullable }
    }
}

impl Field {
    /// A field from its parts.
    pub fn new(name: String, data_type: SemanticType, nullable: bool) -> (field: Field)
        ensures
            field.name == name,
            field.data_type == data_type,
            field.nullable == nullable,
    {
        Field { name, data_type, nullable }
    }

    /// A copy of the field.
    pub fn duplicate(&self) -> (copy: Field)
        ensures
            copy@ == self@,
    {
        Field { name: self.name.clone(), data_type: self.data_type, nullable: self.nullable }
    }
}

/// The ordered columns of a result.
#[derive(Debug)]
pub struct Schema {
    pub fields: Vec<Field>,
}

impl View for Schema {
    type V = Seq<FieldSpec>;

    open spec fn view(&self) -> Seq<FieldSpec> {
        self.fields@.map_values(|f: Field| f@)
    }
}

impl Schema {
    /// The schema of the given fields.
    pub fn new(fields: Vec<Field>) -> (schema: Schema)
        ensures
            schema.fields == fields,
    {
        Schema { fields }
    }

    /// The schema without columns.
    pub fn empty() -> (schema: Schema)
        ensures
            schema@.len() == 0,
    {
        Schema { fields: Vec::new() }
    }

    /// The number of columns.
    pub fn len(&self) -> (n: usize)
        ensures
            n == self@.len(),
    {
        self.fields.len()
    }

    /// A copy of the schema.
    pub fn duplicate(&self) -> (copy: Schema)
        ensures
            copy@ == self@,
    {
        let mut fields: Vec<Field> = Vec::new();
        let mut j: usize = 0;
        while j < self.fields.len()
            invariant
                j <= self.fields@.len(),
                fields@.len() == j,
                forall|k: int| 0 <= k < j ==> (#[trigger] fields@[k])@ == self.fields@[k]@,
            decreases self.fields@.len() - j,
        {
            fields.push(self.fields[j].duplicate());
            j += 1;
        }
        let copy = Schema { fields };
        assert(copy@ =~= self@);
        copy
    }
}

/// The type that a cell's tag stands for: booleans, the narrow integers as
/// 32-bit ones, 64-bit integers, both float widths as 64-bit floats, and
/// strings for text and for everything else.
pub open spec fn semantic_type_of(v: SqlValueSpec) -> SemanticType {
    match v {
        SqlValueSpec::Boolean(_) => SemanticType::Boolean,
        SqlValueSpec::TinyInt(_) => SemanticType::Int32,
        SqlValueSpec::SmallInt(_) => SemanticType::Int32,
        SqlValueSpec::Int(_) => SemanticType::Int32,
        SqlValueSpec::BigInt(_) => SemanticType::Int64,
        SqlValueSpec::Float(_) => SemanticType::Float64,
        SqlValueSpec::Double(_) => SemanticType::Float64,
        SqlValueSpec::Null => SemanticType::Utf8,
        SqlValueSpec::Text(_) => SemanticType::Utf8,
        SqlValueSpec::Unsupported(_) => SemanticType::Utf8,
    }
}

/// Maps a cell's tag to the type of its column.
pub fn value_to_datatype(value: &SqlValue) -> (data_type: SemanticType)
    ensures
        data_type == semantic_type_of(value@),
{
    match value {
        SqlValue::Null => SemanticType::Utf8,
        SqlValue::Boolean(_) => SemanticType::Boolean,
        SqlValue::TinyInt(_) | SqlValue::SmallInt(_) | SqlValue::Int(_) => SemanticType::Int32,
        SqlValue::BigInt(_) => SemanticType::Int64,
        SqlValue::Float(_) | SqlValue::Double(_) => SemanticType::Float64,
        SqlValue::Text(_) => SemanticType::Utf8,
        SqlValue::Unsupported(_) => SemanticType::Utf8,
    }
}

/// The placeholder name of the column at a position: `col_0`, `col_1`, ...
pub open spec fn column_name(j: nat) -> Seq<char> {
    "col_"@ + nat_text(j)
}

/// Different positions have different placeholder names.
pub proof fn lemma_column_name_injective(a: nat, b: nat)
    requires
        column_name(a) == column_name(b),
    ensures
        a == b,
{
    let prefix = "col_"@;
    assert(nat_text(a) =~= column_name(a).subrange(
        prefix.len() as int,
        column_name(a).len() as int,
    ));
    assert(nat_text(b) =~= column_name(b).subrange(
        prefix.len() as int,
        column_name(b).len() as int,
    ));
    lemma_nat_text_injective(a, b);
}

/// The placeholder names of the first `count` columns.
pub open spec fn placeholder_names(count: nat) -> Seq<Seq<char>> {
    Seq::new(count, |j: int| column_name(j as nat))
}

/// The characters of each of a list of strings.
pub open spec fn names_view(names: Seq<String>) -> Seq<Seq<char>> {
    names.map_values(|s: String| s@)
}

/// Makes the placeholder names of `count` columns.
pub fn column_names(count: usize) -> (names: Vec<String>)
    ensures
        names_view(names@) == placeholder_names(count as nat),
{
    let mut names: Vec<String> = Vec::new();
    let mut j: usize = 0;
    while j < count
        invariant
            j <= count,
            names@.len() == j,
            forall|k: int| 0 <= k < j ==> (#[trigger] names@[k])@ == column_name(k as nat),
        decreases count - j,
    {
        let mut name = String::from_str("col_");
        let digits = usize_to_text(j);
        name.append(digits.as_str());
        names.push(name);
        j += 1;
    }
    assert(names_view(names@) =~= placeholder_names(count as nat));
    names
}

/// The type inferred for a column: that of the first row's cell, and
/// strings where there is no first row or it has no such cell.
pub open spec fn inferred_type(rows: Seq<Seq<SqlValueSpec>>, j: int) -> SemanticType {
    if rows.len() > 0 && 0 <= j < rows[0].len() {
        semantic_type_of(rows[0][j])
    } else {
        SemanticType::Utf8
    }
}

/// The schema inferred for the given column names: one nullable field per
/// name, typed by the first row.
pub open spec fn inferred_schema(names: Seq<Seq<char>>, rows: Seq<Seq<SqlValueSpec>>) -> Seq<
    FieldSpec,
> {
    Seq::new(
        names.len(),
        |j: int| FieldSpec { name: names[j], data_type: inferred_type(rows, j), nullable: true },
    )
}

/// Infers the schema of a result from its first row.
pub fn infer_schema(column_names: &Vec<String>, rows: &RowSet) -> (schema: Schema)
    ensures
        schema@ == inferred_schema(names_view(column_names@), rows@),
{
    let mut fields: Vec<Field> = Vec::new();
    let mut j: usize = 0;
    while j < column_names.len()
        invariant
            j <= column_names@.len(),
            fields@.len() == j,
            forall|k: int|
                0 <= k < j ==> (#[trigger] fields@[k])@ == (FieldSpec {
                    name: column_names@[k]@,
                    data_type: inferred_type(rows@, k),
                    nullable: true,
                }),
        decreases column_names@.len() - j,
    {
        let data_type = match rows.get(0, j) {
            Some(value) => value_to_datatype(value),
            None => SemanticType::Utf8,
        };
        proof {
            rows.lemma_rectangular();
        }
        fields.push(Field { name: column_names[j].clone(), data_type, nullable: true });
        j += 1;
    }
    let schema = Schema { fields };
    assert(schema@ =~= inferred_schema(names_view(column_names@), rows@));
    schema
}

} // verus!
