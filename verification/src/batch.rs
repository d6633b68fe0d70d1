//! Columnar batches: a schema with one typed column per field.

use vstd::prelude::*;

use crate::columnar::{
    column_cells, conversion_fails, convert_to_arrays, is_conversion_failure, types_of, CellSpec,
    Column,
};
use crate::error::TaskError;
use crate::schema::{
    column_names, infer_schema, inferred_schema, inferred_type, placeholder_names, FieldSpec,
    Schema, SemanticType,
};
use crate::value::{RowSet, SqlValueSpec};

verus! {

/// What the contracts say of a batch: its fields, the cells of each column,
/// and the number of rows.
pub struct BatchSpec {
    pub fields: Seq<FieldSpec>,
    pub columns: Seq<Seq<CellSpec>>,
    pub num_rows: nat,
}

/// Whether a batch has one column per field and one cell per row in each.
pub open spec fn well_shaped(b: BatchSpec) -> bool {
    &&& b.columns.len() == b.fields.len()
    &&& forall|j: int| 0 <= j < b.columns.len() ==> (#[trigger] b.columns[j]).len() == b.num_rows
}

/// A schema paired with one typed column per field; every column has one
/// cell per row.
pub struct ColumnarBatch {
    schema: Schema,
    columns: Vec<Column>,
    num_rows: usize,
}

impl View for ColumnarBatch {
    type V = BatchSpec;

    closed spec fn view(&self) -> BatchSpec {
        BatchSpec {
            fields: self.schema@,
            columns: self.columns@.map_values(|c: Column| c.cells()),
            num_rows: self.num_rows as nat,
        }
    }
}

/// The types inferred for the first `width` columns of a row set.
pub open spec fn inferred_types(width: nat, rows: Seq<Seq<SqlValueSpec>>) -> Seq<SemanticType> {
    Seq::new(width, |j: int| inferred_type(rows, j))
}

/// The batch that a row set of the given width is converted to. Without
/// rows it has no fields and no columns. Otherwise it has one field per
/// column, named by position and typed by the first row, and one cell per
/// row in each column.
pub open spec fn batch_of(width: nat, rows: Seq<Seq<SqlValueSpec>>) -> BatchSpec {
    if rows.len() == 0 {
        BatchSpec { fields: Seq::empty(), columns: Seq::empty(), num_rows: 0 }
    } else {
        BatchSpec {
            fields: inferred_schema(placeholder_names(width), rows),
            columns: Seq::new(width, |j: int| column_cells(inferred_type(rows, j), rows, j)),
            num_rows: rows.len(),
        }
    }
}

/// The batch of a row set is well shaped: it has one column per field, and
/// every column has one cell per row. Without rows it has neither fields
/// nor columns; otherwise it has as many as the rows are wide, and every
/// field is nullable.
pub proof fn lemma_batch_of_shape(width: nat, rows: Seq<Seq<SqlValueSpec>>)
    ensures
        well_shaped(batch_of(width, rows)),
        batch_of(width, rows).num_rows == rows.len(),
        batch_of(width, rows).fields.len() == (if rows.len() == 0 {
            0
        } else {
            width
        }),
        forall|j: int|
            0 <= j < batch_of(width, rows).fields.len() ==> (#[trigger] batch_of(
                width,
                rows,
            ).fields[j]).nullable,
{
}

impl ColumnarBatch {
    #[verifier::type_invariant]
    spec fn well_formed(&self) -> bool {
        &&& self.columns@.len() == self.schema.fields@.len()
        &&& forall|j: int|
            0 <= j < self.columns@.len() ==> {
                &&& (#[trigger] self.columns@[j]).cells().len() == self.num_rows
                &&& self.columns@[j].data_type() == self.schema.fields@[j].data_type
            }
    }

    /// Whether the batch has one column per field, each of the field's type
    /// and with one cell per row. It holds of every batch that the program
    /// holds.
    pub closed spec fn valid(&self) -> bool {
        self.well_formed()
    }

    /// A valid batch is well shaped.
    pub proof fn lemma_well_shaped(&self)
        requires
            self.valid(),
        ensures
            well_shaped(self@),
    {
        assert forall|j: int| 0 <= j < self@.columns.len() implies (#[trigger] self@.columns[j]).len()
            == self@.num_rows by {
            assert(self.columns@[j].cells().len() == self.num_rows);
        }
    }

    /// The batch without fields and without rows.
    pub fn new_empty() -> (batch: ColumnarBatch)
        ensures
            batch.valid(),
            batch@ == (BatchSpec { fields: Seq::empty(), columns: Seq::empty(), num_rows: 0 }),
    {
        let batch = ColumnarBatch { schema: Schema::empty(), columns: Vec::new(), num_rows: 0 };
        assert(batch@.fields =~= Seq::<FieldSpec>::empty());
        assert(batch@.columns =~= Seq::<Seq<CellSpec>>::empty());
        batch
    }

    /// Converts a row set to a batch: the schema is inferred from the first
    /// row, under placeholder names, and every column is built from the
    /// cells of its position. A row set without rows gives the empty batch.
    /// It fails only where a string column would hold more text than it
    /// can.
    pub fn from_rows(rows: &RowSet) -> (result: Result<ColumnarBatch, TaskError>)
        ensures
            result is Err <==> rows@.len() > 0 && conversion_fails(
                rows@,
                inferred_types(rows.spec_width(), rows@),
            ),
            match result {
                Ok(batch) => batch.valid() && batch@ == batch_of(rows.spec_width(), rows@),
                Err(e) => is_conversion_failure(
                    e,
                    rows@,
                    inferred_types(rows.spec_width(), rows@),
                ),
            },
    {
        if rows.len() == 0 {
            return Ok(ColumnarBatch::new_empty());
        }
        let width = rows.width();
        let names = column_names(width);
        let schema = infer_schema(&names, rows);
        let ghost types = inferred_types(width as nat, rows@);
        assert(types_of(schema) =~= types) by {
            assert(schema@.len() == width);
            assert forall|j: int| 0 <= j < width implies types_of(schema)[j]
                == types[j] by {
                assert(schema@[j].data_type == inferred_type(rows@, j));
            }
        }
        match convert_to_arrays(rows, &schema) {
            Err(e) => Err(e),
            Ok(columns) => {
                let num_rows = rows.len();
                assert forall|j: int| 0 <= j < columns@.len() implies {
                    &&& (#[trigger] columns@[j]).cells().len() == num_rows
                    &&& columns@[j].cells() == column_cells(inferred_type(rows@, j), rows@, j)
                } by {
                    assert(schema@[j].data_type == inferred_type(rows@, j));
                }
                let batch = ColumnarBatch { schema, columns, num_rows };
                assert(batch@.columns =~= batch_of(width as nat, rows@).columns);
                Ok(batch)
            },
        }
    }

    /// The number of rows.
    pub fn num_rows(&self) -> (n: usize)
        ensures
            n == self@.num_rows,
            self.valid(),
    {
        proof {
            use_type_invariant(self);
        }
        self.num_rows
    }

    /// The number of columns.
    pub fn num_columns(&self) -> (n: usize)
        ensures
            n == self@.fields.len(),
            n == self@.columns.len(),
            self.valid(),
    {
        proof {
            use_type_invariant(self);
        }
        self.columns.len()
    }

    /// The schema of the batch.
    pub fn schema(&self) -> (schema: &Schema)
        ensures
            schema@ == self@.fields,
            self.valid(),
    {
        proof {
            use_type_invariant(self);
        }
        &self.schema
    }

    /// The column at the given position.
    pub fn column(&self, j: usize) -> (column: &Column)
        requires
            j < self@.columns.len(),
        ensures
            column.cells() == self@.columns[j as int],
            column.cells().len() == self@.num_rows,
            column.data_type() == self@.fields[j as int].data_type,
            self.valid(),
    {
        proof {
            use_type_invariant(self);
        }
        &self.columns[j]
    }
}

} // verus!
