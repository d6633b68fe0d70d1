//! The cells that the engine returns, and the row sets made of them.

use vstd::prelude::*;

use crate::json::{json_clone, json_text};
use crate::text::{concat3, i64_to_text, int_text};

verus! {

/// A floating-point number as it crosses into this crate. No arithmetic is
/// done on it here: it is carried by its bit pattern, together with the two
/// renderings that the rest of the crate hands on.
#[derive(Debug)]
pub struct FloatCell {
    /// The IEEE 754 bit pattern of the number, widened to 64 bits.
    pub bits: u64,
    /// The number as the engine's generic formatter prints it.
    pub text: String,
    /// The number as a JSON value.
    pub number: serde_json::Value,
}

/// What the contracts say of a `FloatCell`.
pub struct FloatSpec {
    pub bits: u64,
    pub text: Seq<char>,
    pub json: Seq<char>,
}

impl View for FloatCell {
    type V = FloatSpec;

    open spec fn view(&self) -> FloatSpec {
        FloatSpec { bits: self.bits, text: self.text@, json: json_text(self.number) }
    }
}

impl FloatCell {
    /// A cell from its three parts.
    pub fn new(bits: u64, text: String, number: serde_json::Value) -> (cell: FloatCell)
        ensures
            cell.bits == bits,
            cell.text == text,
            cell.number == number,
    {
        FloatCell { bits, text, number }
    }

    /// A copy of the cell.
    pub fn duplicate(&self) -> (copy: FloatCell)
        ensures
            copy@ == self@,
    {
        FloatCell { bits: self.bits, text: self.text.clone(), number: json_clone(&self.number) }
    }
}

/// One cell of a result, tagged with its runtime type.
#[derive(Debug)]
pub enum SqlValue {
    /// SQL `NULL`.
    Null,
    Boolean(bool),
    /// An 8-bit signed integer.
    TinyInt(i8),
    /// A 16-bit signed integer.
    SmallInt(i16),
    /// A 32-bit signed integer.
    Int(i32),
    /// A 64-bit signed integer.
    BigInt(i64),
    /// A 32-bit float.
    Float(FloatCell),
    /// A 64-bit float.
    Double(FloatCell),
    Text(String),
    /// A value of any other type, held as the engine's generic formatter
    /// prints it.
    Unsupported(String),
}

/// What the contracts say of a `SqlValue`.
pub enum SqlValueSpec {
    Null,
    Boolean(bool),
    TinyInt(i8),
    SmallInt(i16),
    Int(i32),
    BigInt(i64),
    Float(FloatSpec),
    Double(FloatSpec),
    Text(Seq<char>),
    Unsupported(Seq<char>),
}

impl View for SqlValue {
    type V = SqlValueSpec;

    open spec fn view(&self) -> SqlValueSpec {
        match self {
            SqlValue::Null => SqlValueSpec::Null,
            SqlValue::Boolean(b) => SqlValueSpec::Boolean(*b),
            SqlValue::TinyInt(v) => SqlValueSpec::TinyInt(*v),
            SqlValue::SmallInt(v) => SqlValueSpec::SmallInt(*v),
            SqlValue::Int(v) => SqlValueSpec::Int(*v),
            SqlValue::BigInt(v) => SqlValueSpec::BigInt(*v),
            SqlValue::Float(c) => SqlValueSpec::Float(c@),
            SqlValue::Double(c) => SqlValueSpec::Double(c@),
            SqlValue::Text(s) => SqlValueSpec::Text(s@),
            SqlValue::Unsupported(s) => SqlValueSpec::Unsupported(s@),
        }
    }
}

/// A tag's name, an opening parenthesis, the payload and a closing one.
pub open spec fn tagged(tag: Seq<char>, payload: Seq<char>) -> Seq<char> {
    tag + seq!['('] + payload + seq![')']
}

/// The text that the generic formatter gives for a cell: the tag with the
/// payload in parentheses, `Null` for a null, and the text itself for a
/// textual or an unsupported cell.
pub open spec fn formatted(v: SqlValueSpec) -> Seq<char> {
    match v {
        SqlValueSpec::Null => "Null"@,
        SqlValueSpec::Boolean(b) => tagged(
            "Boolean"@,
            if b {
                "true"@
            } else {
                "false"@
            },
        ),
        SqlValueSpec::TinyInt(n) => tagged("TinyInt"@, int_text(n as int)),
        SqlValueSpec::SmallInt(n) => tagged("SmallInt"@, int_text(n as int)),
        SqlValueSpec::Int(n) => tagged("Int"@, int_text(n as int)),
        SqlValueSpec::BigInt(n) => tagged("BigInt"@, int_text(n as int)),
        SqlValueSpec::Float(c) => tagged("Float"@, c.text),
        SqlValueSpec::Double(c) => tagged("Double"@, c.text),
        SqlValueSpec::Text(s) => s,
        SqlValueSpec::Unsupported(s) => s,
    }
}

/// Puts a payload in parentheses behind a tag.
fn tag_text(tag: &str, payload: &str) -> (s: String)
    ensures
        s@ == tagged(tag@, payload@),
{
    proof {
        reveal_strlit("(");
        reveal_strlit(")");
    }
    let mut s = concat3(tag, "(", payload);
    s.append(")");
    s
}

impl SqlValue {
    /// A copy of the cell.
    pub fn duplicate(&self) -> (copy: SqlValue)
        ensures
            copy@ == self@,
    {
        match self {
            SqlValue::Null => SqlValue::Null,
            SqlValue::Boolean(b) => SqlValue::Boolean(*b),
            SqlValue::TinyInt(v) => SqlValue::TinyInt(*v),
            SqlValue::SmallInt(v) => SqlValue::SmallInt(*v),
            SqlValue::Int(v) => SqlValue::Int(*v),
            SqlValue::BigInt(v) => SqlValue::BigInt(*v),
            SqlValue::Float(c) => SqlValue::Float(c.duplicate()),
            SqlValue::Double(c) => SqlValue::Double(c.duplicate()),
            SqlValue::Text(s) => SqlValue::Text(s.clone()),
            SqlValue::Unsupported(s) => SqlValue::Unsupported(s.clone()),
        }
    }

    /// Renders the cell with the generic formatter.
    pub fn format(&self) -> (s: String)
        ensures
            s@ == formatted(self@),
    {
        match self {
            SqlValue::Null => String::from_str("Null"),
            SqlValue::Boolean(b) => {
                if *b {
                    tag_text("Boolean", "true")
                } else {
                    tag_text("Boolean", "false")
                }
            },
            SqlValue::TinyInt(n) => tag_text("TinyInt", i64_to_text(*n as i64).as_str()),
            SqlValue::SmallInt(n) => tag_text("SmallInt", i64_to_text(*n as i64).as_str()),
            SqlValue::Int(n) => tag_text("Int", i64_to_text(*n as i64).as_str()),
            SqlValue::BigInt(n) => tag_text("BigInt", i64_to_text(*n).as_str()),
            SqlValue::Float(c) => tag_text("Float", c.text.as_str()),
            SqlValue::Double(c) => tag_text("Double", c.text.as_str()),
            SqlValue::Text(s) => s.clone(),
            SqlValue::Unsupported(s) => s.clone(),
        }
    }
}

/// The views of the cells of one row.
pub open spec fn row_view(row: Seq<SqlValue>) -> Seq<SqlValueSpec> {
    row.map_values(|v: SqlValue| v@)
}

/// An ordered set of rows, all of one length.
#[derive(Debug)]
pub struct RowSet {
    rows: Vec<Vec<SqlValue>>,
    width: usize,
}

impl View for RowSet {
    type V = Seq<Seq<SqlValueSpec>>;

    closed spec fn view(&self) -> Seq<Seq<SqlValueSpec>> {
        self.rows@.map_values(|row: Vec<SqlValue>| row_view(row@))
    }
}

/// Whether every row has the given length.
pub open spec fn rectangular(rows: Seq<Seq<SqlValueSpec>>, width: nat) -> bool {
    forall|i: int| 0 <= i < rows.len() ==> (#[trigger] rows[i]).len() == width
}

impl RowSet {
    #[verifier::type_invariant]
    spec fn well_formed(&self) -> bool {
        &&& self.rows@.len() == 0 ==> self.width == 0
        &&& forall|i: int|
            0 <= i < self.rows@.len() ==> (#[trigger] self.rows@[i])@.len() == self.width
    }

    /// Whether all rows have the set's width. It holds of every row set that
    /// the program holds.
    pub closed spec fn valid(&self) -> bool {
        self.well_formed()
    }

    /// The number of cells in each row; 0 for a set without rows.
    pub closed spec fn spec_width(&self) -> nat {
        self.width as nat
    }

    /// The row set without rows.
    pub fn new() -> (rows: RowSet)
        ensures
            rows.valid(),
            rows@.len() == 0,
            rows.spec_width() == 0,
    {
        RowSet { rows: Vec::new(), width: 0 }
    }

    /// Makes a row set of the given rows. Their common length is that of
    /// the first one; rows of different lengths are refused.
    pub fn from_rows(rows: Vec<Vec<SqlValue>>) -> (made: Option<RowSet>)
        ensures
            made is Some <==> (forall|i: int|
                0 <= i < rows@.len() ==> (#[trigger] rows@[i])@.len() == rows@[0]@.len()),
            made matches Some(set) ==> {
                &&& set.valid()
                &&& set@ == rows@.map_values(|row: Vec<SqlValue>| row_view(row@))
                &&& set.spec_width() == (if rows@.len() == 0 {
                    0
                } else {
                    rows@[0]@.len()
                })
            },
    {
        let width: usize = if rows.len() == 0 {
            0
        } else {
            rows[0].len()
        };
        let mut i: usize = 0;
        while i < rows.len()
            invariant
                i <= rows@.len(),
                rows@.len() > 0 ==> width == rows@[0]@.len(),
                forall|k: int| 0 <= k < i ==> (#[trigger] rows@[k])@.len() == width,
            decreases rows@.len() - i,
        {
            if rows[i].len() != width {
                return None;
            }
            i += 1;
        }
        Some(RowSet { rows, width })
    }

    /// Every row of a row set has the set's width, and a set without rows
    /// has no width; so the width is that of the first row, if there is
    /// one.
    pub proof fn lemma_rectangular(&self)
        requires
            self.valid(),
        ensures
            rectangular(self@, self.spec_width()),
            self@.len() == 0 ==> self.spec_width() == 0,
            self@.len() > 0 ==> self.spec_width() == self@[0].len(),
    {
        assert forall|i: int| 0 <= i < self@.len() implies (#[trigger] self@[i]).len()
            == self.spec_width() by {
            assert(self.rows@[i]@.len() == self.width);
        }
    }

    /// The number of rows.
    pub fn len(&self) -> (n: usize)
        ensures
            n == self@.len(),
            self.valid(),
    {
        proof {
            use_type_invariant(self);
        }
        self.rows.len()
    }

    /// The number of cells in each row.
    pub fn width(&self) -> (n: usize)
        ensures
            n == self.spec_width(),
            self.valid(),
    {
        proof {
            use_type_invariant(self);
        }
        self.width
    }

    /// The row at the given position.
    pub fn row(&self, i: usize) -> (row: &Vec<SqlValue>)
        requires
            i < self@.len(),
        ensures
            self.valid(),
            row_view(row@) == self@[i as int],
            row@.len() == self.spec_width(),
    {
        proof {
            use_type_invariant(self);
        }
        &self.rows[i]
    }

    /// The cell at the given row and column, if the set has one there.
    pub fn get(&self, i: usize, j: usize) -> (cell: Option<&SqlValue>)
        ensures
            self.valid(),
            match cell {
                Some(v) => i < self@.len() && j < self.spec_width() && v@ == self@[i as int][j as int],
                None => i >= self@.len() || j >= self.spec_width(),
            },
    {
        proof {
            use_type_invariant(self);
        }
        if i < self.rows.len() && j < self.rows[i].len() {
            Some(&self.rows[i][j])
        } else {
            None
        }
    }
}

} // verus!
