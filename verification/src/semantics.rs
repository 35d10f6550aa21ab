//! The meaning of statements, operations and unit sequences: a spec-level
//! interpreter over [`DbView`].  The runner's contracts are stated against
//! these functions, so every property of the engine reduces to properties
//! of this interpreter.

use vstd::prelude::*;

use crate::catalog::UnitView;
use crate::schema::{
    column_names, distinct_names, lemma_name_at, name_at, table_names, table_wf, DbView, IndexView,
    TableView,
};
use crate::statement::{StatementError, StmtView};
use crate::value::{row_fits, value_fits, ColumnView, ValueView};

verus! {

/// The indexes that survive when `table` is rebuilt: all but those on it.
pub open spec fn drop_indexes(idxs: Seq<IndexView>, table: Seq<char>) -> Seq<IndexView>
    decreases idxs.len(),
{
    if idxs.len() == 0 {
        Seq::empty()
    } else {
        let rest = drop_indexes(idxs.drop_first(), table);
        if idxs[0].table == table {
            rest
        } else {
            seq![idxs[0]] + rest
        }
    }
}

/// Effect of `CreateTable`.
pub open spec fn step_create_table(
    db: DbView,
    name: Seq<char>,
    columns: Seq<ColumnView>,
) -> Result<DbView, StatementError> {
    if columns.len() == 0 {
        Err(StatementError::EmptyColumns)
    } else if name_at(table_names(db.tables), name) >= 0 {
        Ok(db)
    } else {
        Ok(
            DbView {
                version: db.version,
                tables: db.tables.push(
                    TableView { name, columns, rows: Seq::empty() },
                ),
                indexes: db.indexes,
            },
        )
    }
}

/// Effect of `CreateIndex`.
pub open spec fn step_create_index(
    db: DbView,
    name: Seq<char>,
    table: Seq<char>,
) -> Result<DbView, StatementError> {
    if name_at(table_names(db.tables), table) < 0 {
        Err(StatementError::NoSuchTable)
    } else if name_at(crate::schema::index_names(db.indexes), name) >= 0 {
        Ok(db)
    } else {
        Ok(
            DbView {
                version: db.version,
                tables: db.tables,
                indexes: db.indexes.push(IndexView { name, table }),
            },
        )
    }
}

/// Effect of `InsertRow`.
pub open spec fn step_insert_row(
    db: DbView,
    table: Seq<char>,
    row: Seq<ValueView>,
) -> Result<DbView, StatementError> {
    let ti = name_at(table_names(db.tables), table);
    if ti < 0 {
        Err(StatementError::NoSuchTable)
    } else {
        let t = db.tables[ti];
        if row.len() != t.columns.len() {
            Err(StatementError::ArityMismatch)
        } else if !row_fits(row, t.columns) {
            Err(StatementError::NullViolation)
        } else {
            Ok(
                DbView {
                    version: db.version,
                    tables: db.tables.update(
                        ti,
                        TableView { name: t.name, columns: t.columns, rows: t.rows.push(row) },
                    ),
                    indexes: db.indexes,
                },
            )
        }
    }
}

/// Effect of `AddColumn`.
pub open spec fn step_add_column(
    db: DbView,
    table: Seq<char>,
    column: ColumnView,
    fill: ValueView,
) -> Result<DbView, StatementError> {
    let ti = name_at(table_names(db.tables), table);
    if ti < 0 {
        Err(StatementError::NoSuchTable)
    } else {
        let t = db.tables[ti];
        if name_at(column_names(t.columns), column.name) >= 0 {
            Err(StatementError::DuplicateColumn)
        } else if !value_fits(fill, column) {
            Err(StatementError::NullViolation)
        } else {
            Ok(
                DbView {
                    version: db.version,
                    tables: db.tables.update(
                        ti,
                        TableView {
                            name: t.name,
                            columns: t.columns.push(column),
                            rows: t.rows.map_values(|r: Seq<ValueView>| r.push(fill)),
                        },
                    ),
                    indexes: db.indexes,
                },
            )
        }
    }
}

/// Effect of `FillNulls`.
pub open spec fn step_fill_nulls(
    db: DbView,
    table: Seq<char>,
    column: Seq<char>,
    value: ValueView,
) -> Result<DbView, StatementError> {
    let ti = name_at(table_names(db.tables), table);
    if ti < 0 {
        Err(StatementError::NoSuchTable)
    } else {
        let t = db.tables[ti];
        let ci = name_at(column_names(t.columns), column);
        if ci < 0 {
            Err(StatementError::NoSuchColumn)
        } else {
            Ok(
                DbView {
                    version: db.version,
                    tables: db.tables.update(
                        ti,
                        TableView {
                            name: t.name,
                            columns: t.columns,
                            rows: t.rows.map_values(
                                |r: Seq<ValueView>|
                                    if r[ci] is Null {
                                        r.update(ci, value)
                                    } else {
                                        r
                                    },
                            ),
                        },
                    ),
                    indexes: db.indexes,
                },
            )
        }
    }
}

/// Effect of `FillNullsFrom`.
pub open spec fn step_fill_nulls_from(
    db: DbView,
    table: Seq<char>,
    column: Seq<char>,
    source: Seq<char>,
) -> Result<DbView, StatementError> {
    let ti = name_at(table_names(db.tables), table);
    if ti < 0 {
        Err(StatementError::NoSuchTable)
    } else {
        let t = db.tables[ti];
        let ci = name_at(column_names(t.columns), column);
        let si = name_at(column_names(t.columns), source);
        if ci < 0 || si < 0 {
            Err(StatementError::NoSuchColumn)
        } else {
            Ok(
                DbView {
                    version: db.version,
                    tables: db.tables.update(
                        ti,
                        TableView {
                            name: t.name,
                            columns: t.columns,
                            rows: t.rows.map_values(
                                |r: Seq<ValueView>|
                                    if r[ci] is Null {
                                        r.update(ci, r[si])
                                    } else {
                                        r
                                    },
                            ),
                        },
                    ),
                    indexes: db.indexes,
                },
            )
        }
    }
}

/// Effect of `ShadowRebuild`.
pub open spec fn step_shadow_rebuild(
    db: DbView,
    table: Seq<char>,
    columns: Seq<ColumnView>,
) -> Result<DbView, StatementError> {
    let ti = name_at(table_names(db.tables), table);
    if ti < 0 {
        Err(StatementError::NoSuchTable)
    } else {
        let t = db.tables[ti];
        if columns.len() == 0 {
            Err(StatementError::EmptyColumns)
        } else if columns.len() != t.columns.len() {
            Err(StatementError::ArityMismatch)
        } else if exists|i: int| 0 <= i < t.rows.len() && !row_fits(#[trigger] t.rows[i], columns) {
            Err(StatementError::NullViolation)
        } else {
            Ok(
                DbView {
                    version: db.version,
                    tables: db.tables.update(
                        ti,
                        TableView { name: t.name, columns, rows: t.rows },
                    ),
                    indexes: drop_indexes(db.indexes, table),
                },
            )
        }
    }
}

/// Effect of one statement on the database, or the reason it fails.  A
/// failing statement has no effect at all.
pub open spec fn step(db: DbView, s: StmtView) -> Result<DbView, StatementError> {
    match s {
        StmtView::CreateTable { name, columns } => step_create_table(db, name, columns),
        StmtView::CreateIndex { name, table } => step_create_index(db, name, table),
        StmtView::InsertRow { table, row } => step_insert_row(db, table, row),
        StmtView::AddColumn { table, column, fill } => step_add_column(db, table, column, fill),
        StmtView::FillNulls { table, column, value } => step_fill_nulls(db, table, column, value),
        StmtView::FillNullsFrom { table, column, source } => step_fill_nulls_from(
            db,
            table,
            column,
            source,
        ),
        StmtView::ShadowRebuild { table, columns } => step_shadow_rebuild(db, table, columns),
    }
}

/// Effect of an ordered batch of statements: each in turn, stopping at the
/// first failure.
pub open spec fn run_ops(db: DbView, ops: Seq<StmtView>) -> Result<DbView, StatementError>
    decreases ops.len(),
{
    if ops.len() == 0 {
        Ok(db)
    } else {
        match step(db, ops[0]) {
            Ok(d) => run_ops(d, ops.drop_first()),
            Err(e) => Err(e),
        }
    }
}

/// Effect of one whole unit: its batch in full, then the version record
/// updated to the unit's version.  A failing unit has no effect at all.
pub open spec fn apply_unit_s(db: DbView, u: UnitView) -> Result<DbView, StatementError> {
    match run_ops(db, u.ops) {
        Ok(d) => Ok(DbView { version: u.version, tables: d.tables, indexes: d.indexes }),
        Err(e) => Err(e),
    }
}

/// What a run over a sequence of units ends in: either every unit applied,
/// or a failure identifying the failing unit, with the database exactly as
/// it stood when that unit began.
pub ghost enum Outcome {
    Done { db: DbView },
    Failed { db: DbView, version: int, description: Seq<char>, cause: StatementError },
}

impl Outcome {
    /// The database state the run ends in.
    pub open spec fn db(self) -> DbView {
        match self {
            Outcome::Done { db } => db,
            Outcome::Failed { db, .. } => db,
        }
    }
}

/// Effect of applying units in the order given, committing each unit's
/// version as it succeeds and stopping at the first failure.
pub open spec fn apply_seq(db: DbView, us: Seq<UnitView>) -> Outcome
    decreases us.len(),
{
    if us.len() == 0 {
        Outcome::Done { db }
    } else {
        match apply_unit_s(db, us[0]) {
            Ok(d) => apply_seq(d, us.drop_first()),
            Err(e) => Outcome::Failed {
                db,
                version: us[0].version,
                description: us[0].description,
                cause: e,
            },
        }
    }
}

/// The units still to apply when the database records version `v`: those
/// with a greater version, in catalog order.
pub open spec fn pending_from(c: Seq<UnitView>, v: int) -> Seq<UnitView>
    decreases c.len(),
{
    if c.len() == 0 {
        Seq::empty()
    } else {
        let rest = pending_from(c.drop_first(), v);
        if c[0].version > v {
            seq![c[0]] + rest
        } else {
            rest
        }
    }
}

/// Where a sorted catalog splits into applied and pending at `idx`, the
/// pending units are exactly the suffix from `idx` on.
pub(crate) proof fn lemma_pending_skip(s: Seq<UnitView>, v: int, idx: int)
    requires
        0 <= idx <= s.len(),
        forall|k: int| 0 <= k < idx ==> s[k].version <= v,
        forall|k: int| idx <= k < s.len() ==> s[k].version > v,
    ensures
        pending_from(s, v) == s.skip(idx),
    decreases s.len(),
{
    if s.len() == 0 {
        assert(pending_from(s, v) =~= s.skip(idx));
    } else if idx == 0 {
        assert(forall|k: int| 0 <= k < s.drop_first().len() ==> #[trigger] s.drop_first()[k].version
            > v) by {
            assert(forall|k: int| 0 <= k < s.drop_first().len() ==> s.drop_first()[k] == s[k + 1]);
        }
        lemma_pending_skip(s.drop_first(), v, 0);
        assert(s.drop_first().skip(0) =~= s.drop_first());
        assert(seq![s[0]] + s.drop_first() =~= s.skip(0));
    } else {
        assert(forall|k: int| 0 <= k < s.drop_first().len() ==> s.drop_first()[k] == s[k + 1]);
        lemma_pending_skip(s.drop_first(), v, idx - 1);
        assert(s.drop_first().skip(idx - 1) =~= s.skip(idx));
    }
}

/// Every statement preserves well-formedness and leaves the version record
/// alone.
pub(crate) proof fn lemma_step_wf(db: DbView, s: StmtView)
    requires
        db.wf(),
    ensures
        match step(db, s) {
            Ok(d) => d.wf() && d.version == db.version,
            Err(_) => true,
        },
{
    lemma_name_at(table_names(db.tables), spec_stmt_table(s));
    match step(db, s) {
        Ok(d) => {
            match s {
                StmtView::CreateTable { name, columns } => {
                    if !(name_at(table_names(db.tables), name) >= 0) && columns.len() > 0 {
                        let tn = TableView { name, columns, rows: Seq::empty() };
                        assert(table_names(d.tables) =~= table_names(db.tables).push(name));
                        assert(distinct_names(table_names(d.tables)));
                    }
                },
                StmtView::CreateIndex { .. } => {},
                StmtView::InsertRow { table, row } => {
                    let ti = name_at(table_names(db.tables), table);
                    let t = db.tables[ti];
                    assert(table_names(d.tables) =~= table_names(db.tables));
                    assert(table_wf(d.tables[ti]));
                },
                StmtView::AddColumn { table, column, fill } => {
                    let ti = name_at(table_names(db.tables), table);
                    let t = db.tables[ti];
                    assert(table_names(d.tables) =~= table_names(db.tables));
                    assert forall|i: int| 0 <= i < d.tables[ti].rows.len() implies row_fits(
                        #[trigger] d.tables[ti].rows[i],
                        d.tables[ti].columns,
                    ) by {
                        assert(row_fits(t.rows[i], t.columns));
                        let nr = d.tables[ti].rows[i];
                        assert(nr == t.rows[i].push(fill));
                        assert forall|k: int| 0 <= k < nr.len() implies value_fits(
                            #[trigger] nr[k],
                            d.tables[ti].columns[k],
                        ) by {
                            if k < t.columns.len() {
                                assert(nr[k] == t.rows[i][k]);
                                assert(value_fits(t.rows[i][k], t.columns[k]));
                            }
                        }
                    }
                    assert(table_wf(d.tables[ti]));
                },
                StmtView::FillNulls { table, column, value } => {
                    let ti = name_at(table_names(db.tables), table);
                    let t = db.tables[ti];
                    let ci = name_at(column_names(t.columns), column);
                    lemma_name_at(column_names(t.columns), column);
                    assert(table_names(d.tables) =~= table_names(db.tables));
                    assert forall|i: int| 0 <= i < d.tables[ti].rows.len() implies row_fits(
                        #[trigger] d.tables[ti].rows[i],
                        d.tables[ti].columns,
                    ) by {
                        assert(row_fits(t.rows[i], t.columns));
                        let nr = d.tables[ti].rows[i];
                        if t.rows[i][ci] is Null {
                            assert(value_fits(t.rows[i][ci], t.columns[ci]));
                            assert(t.columns[ci].nullable);
                            assert(nr == t.rows[i].update(ci, value));
                            assert forall|k: int| 0 <= k < nr.len() implies value_fits(
                                #[trigger] nr[k],
                                t.columns[k],
                            ) by {
                                if k != ci {
                                    assert(nr[k] == t.rows[i][k]);
                                    assert(value_fits(t.rows[i][k], t.columns[k]));
                                }
                            }
                        } else {
                            assert(nr == t.rows[i]);
                        }
                    }
                    assert(table_wf(d.tables[ti]));
                },
                StmtView::FillNullsFrom { table, column, source } => {
                    let ti = name_at(table_names(db.tables), table);
                    let t = db.tables[ti];
                    let ci = name_at(column_names(t.columns), column);
                    let si = name_at(column_names(t.columns), source);
                    lemma_name_at(column_names(t.columns), column);
                    lemma_name_at(column_names(t.columns), source);
                    assert(table_names(d.tables) =~= table_names(db.tables));
                    assert forall|i: int| 0 <= i < d.tables[ti].rows.len() implies row_fits(
                        #[trigger] d.tables[ti].rows[i],
                        d.tables[ti].columns,
                    ) by {
                        assert(row_fits(t.rows[i], t.columns));
                        let nr = d.tables[ti].rows[i];
                        if t.rows[i][ci] is Null {
                            assert(value_fits(t.rows[i][ci], t.columns[ci]));
                            assert(t.columns[ci].nullable);
                            assert(nr == t.rows[i].update(ci, t.rows[i][si]));
                            assert forall|k: int| 0 <= k < nr.len() implies value_fits(
                                #[trigger] nr[k],
                                t.columns[k],
                            ) by {
                                if k != ci {
                                    assert(nr[k] == t.rows[i][k]);
                                    assert(value_fits(t.rows[i][k], t.columns[k]));
                                }
                            }
                        } else {
                            assert(nr == t.rows[i]);
                        }
                    }
                    assert(table_wf(d.tables[ti]));
                },
                StmtView::ShadowRebuild { table, columns } => {
                    let ti = name_at(table_names(db.tables), table);
                    assert(table_names(d.tables) =~= table_names(db.tables));
                    assert(table_wf(d.tables[ti]));
                },
            }
        },
        Err(_) => {},
    }
}

/// The table name a statement addresses; creation addresses the new name.
pub open spec fn spec_stmt_table(s: StmtView) -> Seq<char> {
    match s {
        StmtView::CreateTable { name, .. } => name,
        StmtView::CreateIndex { table, .. } => table,
        StmtView::InsertRow { table, .. } => table,
        StmtView::AddColumn { table, .. } => table,
        StmtView::FillNulls { table, .. } => table,
        StmtView::FillNullsFrom { table, .. } => table,
        StmtView::ShadowRebuild { table, .. } => table,
    }
}

} // verus!
