//! Typed statement descriptors: the effects a migration unit may perform.
//!
//! A unit's operation is an ordered batch of these descriptors, executed
//! atomically by the runner.  Keeping the effects typed (rather than as
//! raw statement text) lets the runner's contract pin down exactly what
//! each batch does to the database.

use vstd::prelude::*;

use crate::value::{ColumnDef, ColumnView, Value, ValueView};

verus! {

/// The abstract form of a [`Statement`].
pub ghost enum StmtView {
    CreateTable { name: Seq<char>, columns: Seq<ColumnView> },
    CreateIndex { name: Seq<char>, table: Seq<char> },
    InsertRow { table: Seq<char>, row: Seq<ValueView> },
    AddColumn { table: Seq<char>, column: ColumnView, fill: ValueView },
    FillNulls { table: Seq<char>, column: Seq<char>, value: ValueView },
    FillNullsFrom { table: Seq<char>, column: Seq<char>, source: Seq<char> },
    ShadowRebuild { table: Seq<char>, columns: Seq<ColumnView> },
}

/// One schema or data change.
#[derive(Debug)]
pub enum Statement {
    /// Create a table with the given columns; a no-op when a table of that
    /// name already exists.
    CreateTable { name: String, columns: Vec<ColumnDef> },
    /// Create a named index on a table; a no-op when an index of that name
    /// already exists.
    CreateIndex { name: String, table: String },
    /// Append one full row to a table.
    InsertRow { table: String, row: Vec<Value> },
    /// Append a column to a table, filling the new cell of every existing
    /// row with `fill`.
    AddColumn { table: String, column: ColumnDef, fill: Value },
    /// Backfill: set the named column to `value` in every row where it is
    /// NULL.
    FillNulls { table: String, column: String, value: Value },
    /// Backfill: set the named column to the value of `source` in the same
    /// row, in every row where it is NULL.
    FillNullsFrom { table: String, column: String, source: String },
    /// Shadow-table rebuild: replace a table's column list in one step,
    /// keeping every row, for structural changes (such as a nullability
    /// change) that the storage layer cannot alter in place.  The indexes
    /// of the table are dropped, as the rebuild replaces the table; the
    /// unit recreates the ones it wants to keep.
    ShadowRebuild { table: String, columns: Vec<ColumnDef> },
}

/// The abstract form of a column list.
pub open spec fn cols_view(cs: Seq<ColumnDef>) -> Seq<ColumnView> {
    cs.map_values(|c: ColumnDef| c@)
}

/// The abstract form of a row.
pub open spec fn row_view(r: Seq<Value>) -> Seq<ValueView> {
    r.map_values(|v: Value| v@)
}

impl View for Statement {
    type V = StmtView;

    open spec fn view(&self) -> StmtView {
        match self {
            Statement::CreateTable { name, columns } => StmtView::CreateTable {
                name: name@,
                columns: cols_view(columns@),
            },
            Statement::CreateIndex { name, table } => StmtView::CreateIndex {
                name: name@,
                table: table@,
            },
            Statement::InsertRow { table, row } => StmtView::InsertRow {
                table: table@,
                row: row_view(row@),
            },
            Statement::AddColumn { table, column, fill } => StmtView::AddColumn {
                table: table@,
                column: column@,
                fill: fill@,
            },
            Statement::FillNulls { table, column, value } => StmtView::FillNulls {
                table: table@,
                column: column@,
                value: value@,
            },
            Statement::FillNullsFrom { table, column, source } => StmtView::FillNullsFrom {
                table: table@,
                column: column@,
                source: source@,
            },
            Statement::ShadowRebuild { table, columns } => StmtView::ShadowRebuild {
                table: table@,
                columns: cols_view(columns@),
            },
        }
    }
}

/// Why a single statement failed.
#[derive(Clone, Copy, Debug, PartialEq, Eq, Structural)]
pub enum StatementError {
    /// The named table does not exist.
    NoSuchTable,
    /// The named column does not exist in the table.
    NoSuchColumn,
    /// A column of that name already exists in the table.
    DuplicateColumn,
    /// A row's arity does not match the table's column list.
    ArityMismatch,
    /// A NULL cell would stand under a column that forbids NULL.
    NullViolation,
    /// A table cannot be created or rebuilt with an empty column list.
    EmptyColumns,
}

} // verus!
