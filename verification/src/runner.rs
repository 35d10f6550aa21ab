//! The migration runner: validates the catalog, determines the pending
//! units from the recorded schema version, and applies them in ascending
//! version order, one transaction per unit.

use vstd::prelude::*;

use crate::catalog::{catalog_ok, catalog_view, dup_versions, has_empty_op, MigrationUnit, UnitView};
use crate::db::{
    copy_columns, copy_row, find_column, find_index, find_table, indexes_view, tables_view, Db,
    IndexEntry, Table,
};
use crate::order::{lemma_sort_units_sorted, sort_catalog, sort_units};
use crate::schema::{DbView, IndexView, TableView};
use crate::semantics::{
    apply_seq, apply_unit_s, drop_indexes, lemma_pending_skip, lemma_step_wf, pending_from,
    run_ops, step, step_add_column, step_create_index, step_create_table, step_fill_nulls,
    step_fill_nulls_from, step_insert_row, step_shadow_rebuild, Outcome,
};
use crate::statement::{cols_view, row_view, Statement, StatementError, StmtView};
use crate::value::{row_fits, value_fits, ColumnDef, Value, ValueView};

verus! {

/// What makes a catalog unusable.
#[derive(Clone, Copy, Debug, PartialEq, Eq, Structural)]
pub enum CatalogFault {
    /// Two units share a version.
    DuplicateVersion,
    /// A unit carries an empty operation.
    EmptyOperation,
}

/// Why a migration run failed.  Every failure is terminal for the run: the
/// host must not serve the application over a schema in an unknown state.
#[derive(Debug)]
pub enum MigrationError {
    /// The catalog itself is malformed; nothing was executed.
    Catalog { fault: CatalogFault },
    /// The database file could not be opened or created.  Raised by the
    /// embedding host; [`apply`] itself never produces it.
    Connection,
    /// The version record exists but cannot be read.  Raised by the
    /// embedding host; [`apply`] itself never produces it.
    VersionRead,
    /// The identified unit's operation failed: that unit was rolled back
    /// in full and no later unit was attempted.
    Execution { version: u64, description: String, cause: StatementError },
}

/// Whether two units of the catalog share a version.
fn catalog_has_dup(units: &Vec<MigrationUnit>) -> (r: bool)
    ensures
        r == dup_versions(catalog_view(units@)),
{
    let ghost c = catalog_view(units@);
    let mut i: usize = 0;
    while i < units.len()
        invariant
            i <= units.len(),
            c == catalog_view(units@),
            c.len() == units@.len(),
            forall|a: int, b: int|
                0 <= a < b < c.len() && a < i ==> c[a].version != c[b].version,
        decreases units.len() - i,
    {
        let mut j: usize = i + 1;
        while j < units.len()
            invariant
                i < j <= units.len() || j == i + 1,
                i < units.len(),
                c == catalog_view(units@),
                c.len() == units@.len(),
                forall|b: int| i < b < j ==> c[i as int].version != c[b].version,
            decreases units.len() - j,
        {
            if units[i].version == units[j].version {
                proof {
                    assert(c[i as int].version == c[j as int].version);
                }
                return true;
            }
            j = j + 1;
        }
        i = i + 1;
    }
    proof {
        assert(!dup_versions(c));
    }
    false
}

/// Whether some unit of the catalog carries an empty operation.
fn catalog_has_empty_op(units: &Vec<MigrationUnit>) -> (r: bool)
    ensures
        r == has_empty_op(catalog_view(units@)),
{
    let ghost c = catalog_view(units@);
    let mut i: usize = 0;
    while i < units.len()
        invariant
            i <= units.len(),
            c == catalog_view(units@),
            c.len() == units@.len(),
            forall|a: int| 0 <= a < i ==> c[a].ops.len() > 0,
        decreases units.len() - i,
    {
        if units[i].operation.len() == 0 {
            proof {
                assert(c[i as int].ops.len() == 0);
            }
            return true;
        }
        i = i + 1;
    }
    false
}

/// Executes `CreateTable` against the database.
#[verifier::loop_isolation(false)]
fn exec_create_table(db: &mut Db, name: &String, columns: &Vec<ColumnDef>) -> (r: Result<
    (),
    StatementError,
>)
    requires
        old(db)@.wf(),
    ensures
        match r {
            Ok(()) => step_create_table(old(db)@, name@, cols_view(columns@)) == Ok::<
                DbView,
                StatementError,
            >(final(db)@),
            Err(e) => step_create_table(old(db)@, name@, cols_view(columns@)) == Err::<
                DbView,
                StatementError,
            >(e) && final(db)@ == old(db)@,
        },
{
    if columns.len() == 0 {
        return Err(StatementError::EmptyColumns);
    }
    match find_table(&db.tables, name) {
        Some(_) => Ok(()),
        None => {
            let ghost db0 = db@;
            let t = Table { name: name.clone(), columns: copy_columns(columns), rows: Vec::new() };
            let ghost tv = TableView {
                name: name@,
                columns: cols_view(columns@),
                rows: Seq::empty(),
            };
            proof {
                assert(t@ =~= tv);
            }
            db.tables.push(t);
            proof {
                assert(tables_view(db.tables@) =~= db0.tables.push(tv));
                assert(db@ =~= (DbView {
                    version: db0.version,
                    tables: db0.tables.push(tv),
                    indexes: db0.indexes,
                }));
            }
            Ok(())
        },
    }
}

/// Executes `CreateIndex` against the database.
#[verifier::loop_isolation(false)]
fn exec_create_index(db: &mut Db, name: &String, table: &String) -> (r: Result<
    (),
    StatementError,
>)
    requires
        old(db)@.wf(),
    ensures
        match r {
            Ok(()) => step_create_index(old(db)@, name@, table@) == Ok::<
                DbView,
                StatementError,
            >(final(db)@),
            Err(e) => step_create_index(old(db)@, name@, table@) == Err::<
                DbView,
                StatementError,
            >(e) && final(db)@ == old(db)@,
        },
{
    match find_table(&db.tables, table) {
        None => Err(StatementError::NoSuchTable),
        Some(_) => {
            match find_index(&db.indexes, name) {
                Some(_) => Ok(()),
                None => {
                    let ghost db0 = db@;
                    let e = IndexEntry { name: name.clone(), table: table.clone() };
                    let ghost ev = IndexView { name: name@, table: table@ };
                    db.indexes.push(e);
                    proof {
                        assert(indexes_view(db.indexes@) =~= db0.indexes.push(ev));
                        assert(db@ =~= (DbView {
                            version: db0.version,
                            tables: db0.tables,
                            indexes: db0.indexes.push(ev),
                        }));
                    }
                    Ok(())
                },
            }
        },
    }
}

/// Executes `InsertRow` against the database.
#[verifier::loop_isolation(false)]
fn exec_insert_row(db: &mut Db, table: &String, row: &Vec<Value>) -> (r: Result<
    (),
    StatementError,
>)
    requires
        old(db)@.wf(),
    ensures
        match r {
            Ok(()) => step_insert_row(old(db)@, table@, row_view(row@)) == Ok::<
                DbView,
                StatementError,
            >(final(db)@),
            Err(e) => step_insert_row(old(db)@, table@, row_view(row@)) == Err::<
                DbView,
                StatementError,
            >(e) && final(db)@ == old(db)@,
        },
{
    let ghost db0 = db@;
    match find_table(&db.tables, table) {
        None => Err(StatementError::NoSuchTable),
        Some(i) => {
            let ghost ti = i as int;
            let ghost tv = db0.tables[ti];
            if row.len() != db.tables[i].columns.len() {
                return Err(StatementError::ArityMismatch);
            }
            let mut k: usize = 0;
            while k < row.len()
                invariant
                    k <= row@.len(),
                    forall|c: int| 0 <= c < k ==> value_fits(
                        #[trigger] row_view(row@)[c],
                        tv.columns[c],
                    ),
                decreases row.len() - k,
            {
                if row[k].is_null() && !db.tables[i].columns[k].nullable {
                    proof {
                        assert(!value_fits(row_view(row@)[k as int], tv.columns[k as int]));
                        assert(!row_fits(row_view(row@), tv.columns));
                    }
                    return Err(StatementError::NullViolation);
                }
                k = k + 1;
            }
            proof {
                assert(row_fits(row_view(row@), tv.columns));
            }
            let r2 = copy_row(row);
            let ghost tseq = db.tables@;
            let mut t = db.tables.remove(i);
            t.rows.push(r2);
            let ghost tvnew = t@;
            db.tables.insert(i, t);
            proof {
                assert(db.tables@[ti]@ == tvnew);
                assert(forall|x: int| 0 <= x < tseq.len() && x != ti ==> db.tables@[x] == tseq[x]);
                assert(tvnew =~~= (TableView {
                    name: tv.name,
                    columns: tv.columns,
                    rows: tv.rows.push(row_view(row@)),
                }));
                assert(tables_view(db.tables@) =~= db0.tables.update(
                    ti,
                    TableView {
                        name: tv.name,
                        columns: tv.columns,
                        rows: tv.rows.push(row_view(row@)),
                    },
                ));
                assert(db@ =~= (DbView {
                    version: db0.version,
                    tables: db0.tables.update(
                        ti,
                        TableView {
                            name: tv.name,
                            columns: tv.columns,
                            rows: tv.rows.push(row_view(row@)),
                        },
                    ),
                    indexes: db0.indexes,
                }));
            }
            Ok(())
        },
    }
}

/// Executes `AddColumn` against the database.
#[verifier::loop_isolation(false)]
fn exec_add_column(db: &mut Db, table: &String, column: &ColumnDef, fill: &Value) -> (r: Result<
    (),
    StatementError,
>)
    requires
        old(db)@.wf(),
    ensures
        match r {
            Ok(()) => step_add_column(old(db)@, table@, column@, fill@) == Ok::<
                DbView,
                StatementError,
            >(final(db)@),
            Err(e) => step_add_column(old(db)@, table@, column@, fill@) == Err::<
                DbView,
                StatementError,
            >(e) && final(db)@ == old(db)@,
        },
{
    let ghost db0 = db@;
    match find_table(&db.tables, table) {
        None => Err(StatementError::NoSuchTable),
        Some(i) => {
            let ghost ti = i as int;
            let ghost tv = db0.tables[ti];
            match find_column(&db.tables[i].columns, &column.name) {
                Some(_) => Err(StatementError::DuplicateColumn),
                None => {
                    if fill.is_null() && !column.nullable {
                        return Err(StatementError::NullViolation);
                    }
                    let ghost tseq = db.tables@;
                    let mut t = db.tables.remove(i);
                    let ghost rows0 = t.rows@;
                    proof {
                        assert(tables_view(tseq)[ti] == tseq[ti]@);
                        assert(t@ == tv);
                        assert(forall|x: int| 0 <= x < rows0.len() ==> tv.rows[x] == row_view(
                            #[trigger] rows0[x]@,
                        ));
                    }
                    t.columns.push(column.duplicate());
                    let mut k: usize = 0;
                    while k < t.rows.len()
                        invariant
                            k <= t.rows@.len(),
                            t.rows@.len() == rows0.len(),
                            t.name@ == tv.name,
                            cols_view(t.columns@) == tv.columns.push(column@),
                            forall|x: int| 0 <= x < k ==> row_view(#[trigger] t.rows@[x]@)
                                == row_view(rows0[x]@).push(fill@),
                            forall|x: int| k <= x < rows0.len() ==> t.rows@[x] == rows0[x],
                        decreases t.rows.len() - k,
                    {
                        let rref = &mut t.rows[k];
                        rref.push(fill.duplicate());
                        proof {
                            assert(row_view(t.rows@[k as int]@) =~= row_view(rows0[k as int]@).push(
                                fill@,
                            ));
                        }
                        k = k + 1;
                    }
                    let ghost tvnew = t@;
                    db.tables.insert(i, t);
                    proof {
                        assert(db.tables@[ti]@ == tvnew);
                        assert(forall|x: int| 0 <= x < tseq.len() && x != ti ==> db.tables@[x]
                            == tseq[x]);
                        assert forall|x: int| 0 <= x < rows0.len() implies tvnew.rows[x]
                            == tv.rows.map_values(|r: Seq<ValueView>| r.push(fill@))[x] by {
                            assert(tv.rows[x] == row_view(rows0[x]@));
                            assert(tvnew.rows[x] == row_view(rows0[x]@).push(fill@));
                        }
                        assert(tvnew.name == tv.name);
                        assert(tvnew.columns =~= tv.columns.push(column@));
                        assert(tvnew.rows.len() == rows0.len());
                        assert(tvnew.rows =~~= tv.rows.map_values(
                            |r: Seq<ValueView>| r.push(fill@),
                        ));
                        assert(tvnew =~~= (TableView {
                            name: tv.name,
                            columns: tv.columns.push(column@),
                            rows: tv.rows.map_values(|r: Seq<ValueView>| r.push(fill@)),
                        }));
                        assert(tables_view(db.tables@) =~= db0.tables.update(
                            ti,
                            TableView {
                                name: tv.name,
                                columns: tv.columns.push(column@),
                                rows: tv.rows.map_values(|r: Seq<ValueView>| r.push(fill@)),
                            },
                        ));
                        assert(db@ =~= (DbView {
                            version: db0.version,
                            tables: db0.tables.update(
                                ti,
                                TableView {
                                    name: tv.name,
                                    columns: tv.columns.push(column@),
                                    rows: tv.rows.map_values(|r: Seq<ValueView>| r.push(fill@)),
                                },
                            ),
                            indexes: db0.indexes,
                        }));
                    }
                    Ok(())
                },
            }
        },
    }
}

/// Executes `FillNulls` against the database.
#[verifier::loop_isolation(false)]
fn exec_fill_nulls(db: &mut Db, table: &String, column: &String, value: &Value) -> (r: Result<
    (),
    StatementError,
>)
    requires
        old(db)@.wf(),
    ensures
        match r {
            Ok(()) => step_fill_nulls(old(db)@, table@, column@, value@) == Ok::<
                DbView,
                StatementError,
            >(final(db)@),
            Err(e) => step_fill_nulls(old(db)@, table@, column@, value@) == Err::<
                DbView,
                StatementError,
            >(e) && final(db)@ == old(db)@,
        },
{
    let ghost db0 = db@;
    match find_table(&db.tables, table) {
        None => Err(StatementError::NoSuchTable),
        Some(i) => {
            let ghost ti = i as int;
            let ghost tv = db0.tables[ti];
            match find_column(&db.tables[i].columns, column) {
                None => Err(StatementError::NoSuchColumn),
                Some(ci) => {
                    let ghost cii = ci as int;
                    let ghost tseq = db.tables@;
                    let mut t = db.tables.remove(i);
                    let ghost rows0 = t.rows@;
                    proof {
                        assert(tables_view(tseq)[ti] == tseq[ti]@);
                        assert(t@ == tv);
                        assert(forall|x: int| 0 <= x < rows0.len() ==> tv.rows[x] == row_view(
                            #[trigger] rows0[x]@,
                        ));
                    }
                    let mut k: usize = 0;
                    while k < t.rows.len()
                        invariant
                            k <= t.rows@.len(),
                            t.rows@.len() == rows0.len(),
                            t.name@ == tv.name,
                            cols_view(t.columns@) == tv.columns,
                            forall|x: int| 0 <= x < k ==> row_view(#[trigger] t.rows@[x]@) == (
                            if row_view(rows0[x]@)[cii] is Null {
                                row_view(rows0[x]@).update(cii, value@)
                            } else {
                                row_view(rows0[x]@)
                            }),
                            forall|x: int| k <= x < rows0.len() ==> t.rows@[x] == rows0[x],
                        decreases t.rows.len() - k,
                    {
                        proof {
                            assert(crate::schema::table_wf(tv));
                            assert(row_fits(tv.rows[k as int], tv.columns));
                            assert(tv.rows[k as int] == row_view(rows0[k as int]@));
                        }
                        if t.rows[k][ci].is_null() {
                            let rref = &mut t.rows[k];
                            let nv = value.duplicate();
                            rref[ci] = nv;
                            proof {
                                assert(row_view(t.rows@[k as int]@) =~= row_view(
                                    rows0[k as int]@,
                                ).update(cii, value@));
                            }
                        }
                        k = k + 1;
                    }
                    let ghost tvnew = t@;
                    db.tables.insert(i, t);
                    proof {
                        assert(db.tables@[ti]@ == tvnew);
                        assert(forall|x: int| 0 <= x < tseq.len() && x != ti ==> db.tables@[x]
                            == tseq[x]);
                        assert forall|x: int| 0 <= x < rows0.len() implies tvnew.rows[x]
                            == tv.rows.map_values(
                            |r: Seq<ValueView>|
                                if r[cii] is Null {
                                    r.update(cii, value@)
                                } else {
                                    r
                                },
                        )[x] by {
                            assert(tv.rows[x] == row_view(rows0[x]@));
                        }
                        assert(tvnew.name == tv.name);
                        assert(tvnew.columns =~= tv.columns);
                        assert(tvnew.rows.len() == rows0.len());
                        assert(tvnew.rows =~~= tv.rows.map_values(
                            |r: Seq<ValueView>|
                                if r[cii] is Null {
                                    r.update(cii, value@)
                                } else {
                                    r
                                },
                        ));
                        assert(tvnew =~~= (TableView {
                            name: tv.name,
                            columns: tv.columns,
                            rows: tv.rows.map_values(
                                |r: Seq<ValueView>|
                                    if r[cii] is Null {
                                        r.update(cii, value@)
                                    } else {
                                        r
                                    },
                            ),
                        }));
                        assert(tables_view(db.tables@) =~= db0.tables.update(
                            ti,
                            TableView {
                                name: tv.name,
                                columns: tv.columns,
                                rows: tv.rows.map_values(
                                    |r: Seq<ValueView>|
                                        if r[cii] is Null {
                                            r.update(cii, value@)
                                        } else {
                                            r
                                        },
                                ),
                            },
                        ));
                        assert(db@ =~= (DbView {
                            version: db0.version,
                            tables: db0.tables.update(
                                ti,
                                TableView {
                                    name: tv.name,
                                    columns: tv.columns,
                                    rows: tv.rows.map_values(
                                        |r: Seq<ValueView>|
                                            if r[cii] is Null {
                                                r.update(cii, value@)
                                            } else {
                                                r
                                            },
                                    ),
                                },
                            ),
                            indexes: db0.indexes,
                        }));
                    }
                    Ok(())
                },
            }
        },
    }
}

/// Executes `FillNullsFrom` against the database.
#[verifier::loop_isolation(false)]
fn exec_fill_nulls_from(db: &mut Db, table: &String, column: &String, source: &String) -> (r:
    Result<(), StatementError>)
    requires
        old(db)@.wf(),
    ensures
        match r {
            Ok(()) => step_fill_nulls_from(old(db)@, table@, column@, source@) == Ok::<
                DbView,
                StatementError,
            >(final(db)@),
            Err(e) => step_fill_nulls_from(old(db)@, table@, column@, source@) == Err::<
                DbView,
                StatementError,
            >(e) && final(db)@ == old(db)@,
        },
{
    let ghost db0 = db@;
    match find_table(&db.tables, table) {
        None => Err(StatementError::NoSuchTable),
        Some(i) => {
            let ghost ti = i as int;
            let ghost tv = db0.tables[ti];
            let ci = match find_column(&db.tables[i].columns, column) {
                None => {
                    return Err(StatementError::NoSuchColumn);
                },
                Some(ci) => ci,
            };
            let si = match find_column(&db.tables[i].columns, source) {
                None => {
                    return Err(StatementError::NoSuchColumn);
                },
                Some(si) => si,
            };
            let ghost cii = ci as int;
            let ghost sii = si as int;
            let ghost tseq = db.tables@;
            let mut t = db.tables.remove(i);
            let ghost rows0 = t.rows@;
            proof {
                assert(tables_view(tseq)[ti] == tseq[ti]@);
                assert(t@ == tv);
                assert(forall|x: int| 0 <= x < rows0.len() ==> tv.rows[x] == row_view(
                    #[trigger] rows0[x]@,
                ));
            }
            let mut k: usize = 0;
            while k < t.rows.len()
                invariant
                    k <= t.rows@.len(),
                    t.rows@.len() == rows0.len(),
                    t.name@ == tv.name,
                    cols_view(t.columns@) == tv.columns,
                    forall|x: int| 0 <= x < k ==> row_view(#[trigger] t.rows@[x]@) == (
                    if row_view(rows0[x]@)[cii] is Null {
                        row_view(rows0[x]@).update(cii, row_view(rows0[x]@)[sii])
                    } else {
                        row_view(rows0[x]@)
                    }),
                    forall|x: int| k <= x < rows0.len() ==> t.rows@[x] == rows0[x],
                decreases t.rows.len() - k,
            {
                proof {
                    assert(crate::schema::table_wf(tv));
                    assert(row_fits(tv.rows[k as int], tv.columns));
                    assert(tv.rows[k as int] == row_view(rows0[k as int]@));
                }
                if t.rows[k][ci].is_null() {
                    let sv = t.rows[k][si].duplicate();
                    let rref = &mut t.rows[k];
                    rref[ci] = sv;
                    proof {
                        assert(row_view(t.rows@[k as int]@) =~= row_view(rows0[k as int]@).update(
                            cii,
                            row_view(rows0[k as int]@)[sii],
                        ));
                    }
                }
                k = k + 1;
            }
            let ghost tvnew = t@;
            db.tables.insert(i, t);
            proof {
                assert(db.tables@[ti]@ == tvnew);
                assert(forall|x: int| 0 <= x < tseq.len() && x != ti ==> db.tables@[x] == tseq[x]);
                assert forall|x: int| 0 <= x < rows0.len() implies tvnew.rows[x]
                    == tv.rows.map_values(
                    |r: Seq<ValueView>|
                        if r[cii] is Null {
                            r.update(cii, r[sii])
                        } else {
                            r
                        },
                )[x] by {
                    assert(tv.rows[x] == row_view(rows0[x]@));
                }
                assert(tvnew.name == tv.name);
                assert(tvnew.columns =~= tv.columns);
                assert(tvnew.rows.len() == rows0.len());
                assert(tvnew.rows =~~= tv.rows.map_values(
                    |r: Seq<ValueView>|
                        if r[cii] is Null {
                            r.update(cii, r[sii])
                        } else {
                            r
                        },
                ));
                assert(tvnew =~~= (TableView {
                    name: tv.name,
                    columns: tv.columns,
                    rows: tv.rows.map_values(
                        |r: Seq<ValueView>|
                            if r[cii] is Null {
                                r.update(cii, r[sii])
                            } else {
                                r
                            },
                    ),
                }));
                assert(tables_view(db.tables@) =~= db0.tables.update(
                    ti,
                    TableView {
                        name: tv.name,
                        columns: tv.columns,
                        rows: tv.rows.map_values(
                            |r: Seq<ValueView>|
                                if r[cii] is Null {
                                    r.update(cii, r[sii])
                                } else {
                                    r
                                },
                        ),
                    },
                ));
                assert(db@ =~= (DbView {
                    version: db0.version,
                    tables: db0.tables.update(
                        ti,
                        TableView {
                            name: tv.name,
                            columns: tv.columns,
                            rows: tv.rows.map_values(
                                |r: Seq<ValueView>|
                                    if r[cii] is Null {
                                        r.update(cii, r[sii])
                                    } else {
                                        r
                                    },
                            ),
                        },
                    ),
                    indexes: db0.indexes,
                }));
            }
            Ok(())
        },
    }
}

/// Executes `ShadowRebuild` against the database.
#[verifier::loop_isolation(false)]
fn exec_shadow_rebuild(db: &mut Db, table: &String, columns: &Vec<ColumnDef>) -> (r: Result<
    (),
    StatementError,
>)
    requires
        old(db)@.wf(),
    ensures
        match r {
            Ok(()) => step_shadow_rebuild(old(db)@, table@, cols_view(columns@)) == Ok::<
                DbView,
                StatementError,
            >(final(db)@),
            Err(e) => step_shadow_rebuild(old(db)@, table@, cols_view(columns@)) == Err::<
                DbView,
                StatementError,
            >(e) && final(db)@ == old(db)@,
        },
{
    let ghost db0 = db@;
    match find_table(&db.tables, table) {
        None => Err(StatementError::NoSuchTable),
        Some(i) => {
            let ghost ti = i as int;
            let ghost tv = db0.tables[ti];
            if columns.len() == 0 {
                return Err(StatementError::EmptyColumns);
            }
            if columns.len() != db.tables[i].columns.len() {
                return Err(StatementError::ArityMismatch);
            }
            let mut k: usize = 0;
            while k < db.tables[i].rows.len()
                invariant
                    k <= tv.rows.len(),
                    forall|x: int| 0 <= x < k ==> row_fits(
                        #[trigger] tv.rows[x],
                        cols_view(columns@),
                    ),
                decreases db.tables[i as int].rows.len() - k,
            {
                proof {
                    assert(crate::schema::table_wf(tv));
                    assert(row_fits(tv.rows[k as int], tv.columns));
                }
                let mut c: usize = 0;
                while c < columns.len()
                    invariant
                        c <= columns@.len(),
                        k < tv.rows.len(),
                        forall|x: int| 0 <= x < c ==> value_fits(
                            #[trigger] tv.rows[k as int][x],
                            cols_view(columns@)[x],
                        ),
                    decreases columns.len() - c,
                {
                    if db.tables[i].rows[k][c].is_null() && !columns[c].nullable {
                        proof {
                            assert(!value_fits(tv.rows[k as int][c as int], cols_view(
                                columns@,
                            )[c as int]));
                            assert(!row_fits(tv.rows[k as int], cols_view(columns@)));
                        }
                        return Err(StatementError::NullViolation);
                    }
                    c = c + 1;
                }
                proof {
                    assert(row_fits(tv.rows[k as int], cols_view(columns@)));
                }
                k = k + 1;
            }
            let ghost tseq = db.tables@;
            let mut t = db.tables.remove(i);
            t.columns = copy_columns(columns);
            let ghost tvnew = t@;
            db.tables.insert(i, t);
            let survivors = surviving_indexes(&db.indexes, table);
            db.indexes = survivors;
            proof {
                assert(db.tables@[ti]@ == tvnew);
                assert(forall|x: int| 0 <= x < tseq.len() && x != ti ==> db.tables@[x] == tseq[x]);
                assert(tvnew =~~= (TableView {
                    name: tv.name,
                    columns: cols_view(columns@),
                    rows: tv.rows,
                }));
                assert(tables_view(db.tables@) =~= db0.tables.update(
                    ti,
                    TableView { name: tv.name, columns: cols_view(columns@), rows: tv.rows },
                ));
                assert(db@ =~= (DbView {
                    version: db0.version,
                    tables: db0.tables.update(
                        ti,
                        TableView { name: tv.name, columns: cols_view(columns@), rows: tv.rows },
                    ),
                    indexes: drop_indexes(db0.indexes, table@),
                }));
            }
            Ok(())
        },
    }
}

/// The index entries that survive a rebuild of `table`: all but its own.
#[verifier::loop_isolation(false)]
fn surviving_indexes(idxs: &Vec<IndexEntry>, table: &String) -> (r: Vec<IndexEntry>)
    ensures
        indexes_view(r@) == drop_indexes(indexes_view(idxs@), table@),
{
    let ghost all = indexes_view(idxs@);
    let mut out: Vec<IndexEntry> = Vec::new();
    proof {
        assert(all.skip(0) =~= all);
        assert(indexes_view(out@) =~= Seq::<IndexView>::empty());
        assert(Seq::<IndexView>::empty() + drop_indexes(all, table@) =~= drop_indexes(
            all,
            table@,
        ));
    }
    let mut j: usize = 0;
    while j < idxs.len()
        invariant
            j <= idxs@.len(),
            drop_indexes(all, table@) == indexes_view(out@) + drop_indexes(
                all.skip(j as int),
                table@,
            ),
        decreases idxs.len() - j,
    {
        let ghost pre = indexes_view(out@);
        proof {
            assert(all.skip(j as int)[0] == all[j as int]);
            assert(all.skip(j as int).drop_first() =~= all.skip(j as int + 1));
        }
        if idxs[j].table == *table {
            proof {
                assert(drop_indexes(all.skip(j as int), table@) == drop_indexes(
                    all.skip(j as int + 1),
                    table@,
                ));
            }
        } else {
            let e = IndexEntry { name: idxs[j].name.clone(), table: idxs[j].table.clone() };
            out.push(e);
            proof {
                assert(indexes_view(out@) =~= pre.push(all[j as int]));
                assert(drop_indexes(all.skip(j as int), table@) == seq![all[j as int]]
                    + drop_indexes(all.skip(j as int + 1), table@));
                assert(pre + (seq![all[j as int]] + drop_indexes(all.skip(j as int + 1), table@))
                    =~= indexes_view(out@) + drop_indexes(all.skip(j as int + 1), table@));
            }
        }
        j = j + 1;
    }
    proof {
        assert(all.skip(idxs@.len() as int) =~= Seq::<IndexView>::empty());
        assert(indexes_view(out@) + Seq::<IndexView>::empty() =~= indexes_view(out@));
    }
    out
}

/// Executes one statement.  On success the database is exactly what the
/// statement's semantics give; on failure it is untouched.
fn run_statement(db: &mut Db, s: &Statement) -> (r: Result<(), StatementError>)
    requires
        old(db)@.wf(),
    ensures
        final(db)@.wf(),
        match r {
            Ok(()) => step(old(db)@, s@) == Ok::<DbView, StatementError>(final(db)@),
            Err(e) => step(old(db)@, s@) == Err::<DbView, StatementError>(e)
                && final(db)@ == old(db)@,
        },
{
    let ghost db0 = db@;
    let ghost sv = s@;
    let r = match s {
        Statement::CreateTable { name, columns } => exec_create_table(db, name, columns),
        Statement::CreateIndex { name, table } => exec_create_index(db, name, table),
        Statement::InsertRow { table, row } => exec_insert_row(db, table, row),
        Statement::AddColumn { table, column, fill } => exec_add_column(db, table, column, fill),
        Statement::FillNulls { table, column, value } => exec_fill_nulls(db, table, column, value),
        Statement::FillNullsFrom { table, column, source } => exec_fill_nulls_from(
            db,
            table,
            column,
            source,
        ),
        Statement::ShadowRebuild { table, columns } => exec_shadow_rebuild(db, table, columns),
    };
    proof {
        lemma_step_wf(db0, sv);
    }
    r
}

/// Applies one unit as a transaction: every statement of its operation in
/// order, then the version record set to the unit's version.  A failing
/// statement rolls the whole unit back: the database is left exactly as it
/// stood when the unit began.
#[verifier::loop_isolation(false)]
fn apply_unit(db: &mut Db, unit: &MigrationUnit) -> (r: Result<(), StatementError>)
    requires
        old(db)@.wf(),
    ensures
        final(db)@.wf(),
        match r {
            Ok(()) => apply_unit_s(old(db)@, unit@) == Ok::<DbView, StatementError>(final(db)@),
            Err(e) => apply_unit_s(old(db)@, unit@) == Err::<DbView, StatementError>(e)
                && final(db)@ == old(db)@,
        },
{
    let backup = db.snapshot();
    let ghost db0 = db@;
    let ghost ops = unit@.ops;
    proof {
        assert(ops.skip(0) =~= ops);
    }
    let mut k: usize = 0;
    while k < unit.operation.len()
        invariant
            k <= unit.operation@.len(),
            db@.wf(),
            run_ops(db@, ops.skip(k as int)) == run_ops(db0, ops),
        decreases unit.operation.len() - k,
    {
        let ghost dpre = db@;
        proof {
            assert(ops.skip(k as int)[0] == ops[k as int]);
            assert(ops[k as int] == unit.operation@[k as int]@);
            assert(ops.skip(k as int).drop_first() =~= ops.skip(k as int + 1));
        }
        match run_statement(db, &unit.operation[k]) {
            Ok(()) => {
                proof {
                    assert(run_ops(dpre, ops.skip(k as int)) == run_ops(
                        db@,
                        ops.skip(k as int + 1),
                    ));
                }
                k = k + 1;
            },
            Err(e) => {
                proof {
                    assert(run_ops(dpre, ops.skip(k as int)) == Err::<DbView, StatementError>(e));
                }
                *db = backup;
                return Err(e);
            },
        }
    }
    proof {
        assert(ops.skip(unit.operation@.len() as int) =~= Seq::<StmtView>::empty());
    }
    db.version = unit.version;
    proof {
        assert(db@ =~= (DbView {
            version: unit@.version,
            tables: run_ops(db0, ops)->Ok_0.tables,
            indexes: run_ops(db0, ops)->Ok_0.indexes,
        }));
    }
    Ok(())
}

/// Brings the database up to the latest catalog version.
///
/// The catalog is validated first: a duplicate version or an empty
/// operation is refused before any database access.  The valid catalog is
/// sorted ascending by version; every unit whose version exceeds the
/// recorded schema version is applied in order, one transaction per unit,
/// and the version record is advanced as each unit commits.  On success
/// the number of units applied is returned.  On a unit failure the failing
/// unit is rolled back in full, no later unit is attempted, and the error
/// identifies the unit's version, description and cause.
#[verifier::loop_isolation(false)]
pub fn apply(db: &mut Db, catalog: Vec<MigrationUnit>) -> (r: Result<usize, MigrationError>)
    requires
        old(db)@.wf(),
    ensures
        final(db)@.wf(),
        ({
            let c = catalog_view(catalog@);
            let s = sort_units(c);
            let p = pending_from(s, old(db)@.version);
            match r {
                Ok(n) => catalog_ok(c) && apply_seq(old(db)@, p) == (Outcome::Done {
                    db: final(db)@,
                }) && n == p.len(),
                Err(MigrationError::Catalog { fault }) => !catalog_ok(c) && final(db)@ == old(db)@
                    && fault == (if dup_versions(c) {
                    CatalogFault::DuplicateVersion
                } else {
                    CatalogFault::EmptyOperation
                }),
                Err(MigrationError::Execution { version, description, cause }) => catalog_ok(c)
                    && apply_seq(old(db)@, p) == (Outcome::Failed {
                    db: final(db)@,
                    version: version as int,
                    description: description@,
                    cause,
                }),
                Err(_) => false,
            }
        }),
{
    let ghost c = catalog_view(catalog@);
    let ghost db0 = db@;
    if catalog_has_dup(&catalog) {
        return Err(MigrationError::Catalog { fault: CatalogFault::DuplicateVersion });
    }
    if catalog_has_empty_op(&catalog) {
        return Err(MigrationError::Catalog { fault: CatalogFault::EmptyOperation });
    }
    let sorted = sort_catalog(catalog);
    let ghost s = sort_units(c);
    proof {
        lemma_sort_units_sorted(c);
    }
    let mut idx: usize = 0;
    while idx < sorted.len() && sorted[idx].version <= db.version
        invariant
            idx <= sorted@.len(),
            forall|k: int| 0 <= k < idx ==> s[k].version <= db0.version,
        decreases sorted.len() - idx,
    {
        idx = idx + 1;
    }
    proof {
        assert forall|k: int| idx <= k < s.len() implies s[k].version > db0.version by {
            if k > idx {
                assert(s[idx as int].version <= s[k].version);
            }
        }
        lemma_pending_skip(s, db0.version, idx as int);
    }
    let ghost p = pending_from(s, db0.version);
    let mut i: usize = idx;
    while i < sorted.len()
        invariant
            idx <= i <= sorted@.len(),
            db@.wf(),
            apply_seq(db@, s.skip(i as int)) == apply_seq(db0, p),
        decreases sorted.len() - i,
    {
        let ghost dpre = db@;
        proof {
            assert(s.skip(i as int)[0] == s[i as int]);
            assert(s[i as int] == sorted@[i as int]@);
            assert(s.skip(i as int).drop_first() =~= s.skip(i as int + 1));
        }
        match apply_unit(db, &sorted[i]) {
            Ok(()) => {
                proof {
                    assert(apply_seq(dpre, s.skip(i as int)) == apply_seq(
                        db@,
                        s.skip(i as int + 1),
                    ));
                }
                i = i + 1;
            },
            Err(e) => {
                proof {
                    assert(apply_seq(dpre, s.skip(i as int)) == (Outcome::Failed {
                        db: dpre,
                        version: s[i as int].version,
                        description: s[i as int].description,
                        cause: e,
                    }));
                }
                return Err(MigrationError::Execution {
                    version: sorted[i].version,
                    description: sorted[i].description.clone(),
                    cause: e,
                });
            },
        }
    }
    proof {
        assert(s.skip(sorted@.len() as int) =~= Seq::<UnitView>::empty());
        assert(p.len() == s.len() - idx);
    }
    Ok(i - idx)
}

} // verus!
