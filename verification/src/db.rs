//! The model database a migration run operates on: named tables of typed
//! rows, tracked indexes, and the durable schema version record.
//!
//! A handle is obtained through [`Db::new`], which stands for opening a
//! fresh database file: the version record exists from the start and reads
//! zero.  The runner is the only writer; readers inspect the state through
//! the accessor methods.

use vstd::prelude::*;

use crate::schema::{
    column_names, index_names, lemma_name_at, lemma_name_at_absent, lemma_name_at_found, name_at,
    table_names, DbView, IndexView, TableView,
};
use crate::statement::{cols_view, row_view};
use crate::value::{row_fits, ColumnDef, Value};

verus! {

/// One table: its name, column list, and rows in insertion order.
#[derive(Debug)]
pub struct Table {
    pub name: String,
    pub columns: Vec<ColumnDef>,
    pub rows: Vec<Vec<Value>>,
}

/// One tracked index: its name and the table it belongs to.
#[derive(Debug)]
pub struct IndexEntry {
    pub name: String,
    pub table: String,
}

/// The database: the schema version record plus all tables and indexes.
#[derive(Debug)]
pub struct Db {
    pub version: u64,
    pub tables: Vec<Table>,
    pub indexes: Vec<IndexEntry>,
}

/// The abstract form of a table list.
pub open spec fn tables_view(ts: Seq<Table>) -> Seq<TableView> {
    ts.map_values(|t: Table| t@)
}

/// The abstract form of an index list.
pub open spec fn indexes_view(ixs: Seq<IndexEntry>) -> Seq<IndexView> {
    ixs.map_values(|ix: IndexEntry| ix@)
}

impl View for Table {
    type V = TableView;

    open spec fn view(&self) -> TableView {
        TableView {
            name: self.name@,
            columns: cols_view(self.columns@),
            rows: self.rows@.map_values(|r: Vec<Value>| row_view(r@)),
        }
    }
}

impl View for IndexEntry {
    type V = IndexView;

    open spec fn view(&self) -> IndexView {
        IndexView { name: self.name@, table: self.table@ }
    }
}

impl View for Db {
    type V = DbView;

    open spec fn view(&self) -> DbView {
        DbView {
            version: self.version as int,
            tables: tables_view(self.tables@),
            indexes: indexes_view(self.indexes@),
        }
    }
}

/// An exact duplicate of a row.
pub(crate) fn copy_row(r: &Vec<Value>) -> (c: Vec<Value>)
    ensures
        row_view(c@) == row_view(r@),
{
    let mut c: Vec<Value> = Vec::new();
    let mut i: usize = 0;
    while i < r.len()
        invariant
            i <= r.len(),
            c@.len() == i,
            forall|k: int| 0 <= k < i ==> c@[k]@ == r@[k]@,
        decreases r.len() - i,
    {
        c.push(r[i].duplicate());
        i = i + 1;
    }
    proof {
        assert(row_view(c@) =~= row_view(r@));
    }
    c
}

/// An exact duplicate of a column list.
pub(crate) fn copy_columns(cs: &Vec<ColumnDef>) -> (c: Vec<ColumnDef>)
    ensures
        cols_view(c@) == cols_view(cs@),
{
    let mut c: Vec<ColumnDef> = Vec::new();
    let mut i: usize = 0;
    while i < cs.len()
        invariant
            i <= cs.len(),
            c@.len() == i,
            forall|k: int| 0 <= k < i ==> c@[k]@ == cs@[k]@,
        decreases cs.len() - i,
    {
        c.push(cs[i].duplicate());
        i = i + 1;
    }
    proof {
        assert(cols_view(c@) =~= cols_view(cs@));
    }
    c
}

/// An exact duplicate of a table.
pub(crate) fn copy_table(t: &Table) -> (c: Table)
    ensures
        c@ == t@,
{
    let mut rows: Vec<Vec<Value>> = Vec::new();
    let mut i: usize = 0;
    while i < t.rows.len()
        invariant
            i <= t.rows.len(),
            rows@.len() == i,
            forall|k: int| 0 <= k < i ==> row_view(rows@[k]@) == row_view(t.rows@[k]@),
        decreases t.rows.len() - i,
    {
        rows.push(copy_row(&t.rows[i]));
        i = i + 1;
    }
    let c = Table { name: t.name.clone(), columns: copy_columns(&t.columns), rows };
    proof {
        assert(c@ =~= t@);
    }
    c
}

impl Db {
    /// A fresh database: no tables, no indexes, and the schema version
    /// record present and reading zero.
    pub fn new() -> (r: Db)
        ensures
            r@ == (DbView { version: 0, tables: Seq::<TableView>::empty(), indexes: Seq::<
                IndexView,
            >::empty() }),
            r@.wf(),
    {
        let r = Db { version: 0, tables: Vec::new(), indexes: Vec::new() };
        proof {
            assert(r@ =~= (DbView {
                version: 0,
                tables: Seq::<TableView>::empty(),
                indexes: Seq::<IndexView>::empty(),
            }));
        }
        r
    }

    /// An exact duplicate of the database state.  The runner duplicates
    /// the state before each unit, so that a failing unit can be rolled
    /// back without trace.
    pub fn snapshot(&self) -> (r: Db)
        ensures
            r@ == self@,
    {
        let mut tables: Vec<Table> = Vec::new();
        let mut i: usize = 0;
        while i < self.tables.len()
            invariant
                i <= self.tables.len(),
                tables@.len() == i,
                forall|k: int| 0 <= k < i ==> tables@[k]@ == self.tables@[k]@,
            decreases self.tables.len() - i,
        {
            tables.push(copy_table(&self.tables[i]));
            i = i + 1;
        }
        let mut indexes: Vec<IndexEntry> = Vec::new();
        let mut j: usize = 0;
        while j < self.indexes.len()
            invariant
                j <= self.indexes.len(),
                indexes@.len() == j,
                forall|k: int| 0 <= k < j ==> indexes@[k]@ == self.indexes@[k]@,
            decreases self.indexes.len() - j,
        {
            let ix = &self.indexes[j];
            indexes.push(IndexEntry { name: ix.name.clone(), table: ix.table.clone() });
            j = j + 1;
        }
        let r = Db { version: self.version, tables, indexes };
        proof {
            assert(r@ =~= self@);
        }
        r
    }

    /// The version the schema record currently holds.
    pub fn current_version(&self) -> (r: u64)
        ensures
            r as int == self@.version,
    {
        self.version
    }

    /// How many tables exist.
    pub fn table_count(&self) -> (r: usize)
        ensures
            r == self@.tables.len(),
    {
        self.tables.len()
    }

    /// Whether a table of the given name exists.
    pub fn has_table(&self, table: &str) -> (r: bool)
        ensures
            r == self@.has_table(table@),
    {
        let key: String = table.to_string();
        find_table(&self.tables, &key).is_some()
    }

    /// Whether an index of the given name exists.
    pub fn has_index(&self, name: &str) -> (r: bool)
        ensures
            r == (name_at(index_names(self@.indexes), name@) >= 0),
    {
        let key: String = name.to_string();
        find_index(&self.indexes, &key).is_some()
    }

    /// The number of rows of the named table, or `None` when it does not
    /// exist.
    pub fn row_count(&self, table: &str) -> (r: Option<usize>)
        ensures
            match r {
                Some(n) => self@.has_table(table@) && n == self@.table(table@).rows.len(),
                None => !self@.has_table(table@),
            },
    {
        let key: String = table.to_string();
        match find_table(&self.tables, &key) {
            Some(i) => Some(self.tables[i].rows.len()),
            None => None,
        }
    }

    /// The number of columns of the named table, or `None` when it does
    /// not exist.
    pub fn column_count(&self, table: &str) -> (r: Option<usize>)
        ensures
            match r {
                Some(n) => self@.has_table(table@) && n == self@.table(table@).columns.len(),
                None => !self@.has_table(table@),
            },
    {
        let key: String = table.to_string();
        match find_table(&self.tables, &key) {
            Some(i) => Some(self.tables[i].columns.len()),
            None => None,
        }
    }

    /// Whether the named column of the named table admits NULL, or `None`
    /// when table or column does not exist.
    pub fn column_nullable(&self, table: &str, column: &str) -> (r: Option<bool>)
        ensures
            match r {
                Some(b) => self@.has_table(table@) && ({
                    let t = self@.table(table@);
                    let ci = name_at(column_names(t.columns), column@);
                    ci >= 0 && b == t.columns[ci].nullable
                }),
                None => !self@.has_table(table@) || name_at(
                    column_names(self@.table(table@).columns),
                    column@,
                ) < 0,
            },
    {
        let tkey: String = table.to_string();
        let ckey: String = column.to_string();
        match find_table(&self.tables, &tkey) {
            Some(i) => match find_column(&self.tables[i].columns, &ckey) {
                Some(j) => Some(self.tables[i].columns[j].nullable),
                None => None,
            },
            None => None,
        }
    }

    /// The cell at the given row of the named column, or `None` when the
    /// table or column does not exist or the row is out of range.
    pub fn cell(&self, table: &str, row: usize, column: &str) -> (r: Option<Value>)
        requires
            self@.wf(),
        ensures
            match r {
                Some(v) => self@.has_table(table@) && ({
                    let t = self@.table(table@);
                    let ci = name_at(column_names(t.columns), column@);
                    &&& ci >= 0
                    &&& row < t.rows.len()
                    &&& v@ == t.rows[row as int][ci]
                }),
                None => !self@.has_table(table@) || name_at(
                    column_names(self@.table(table@).columns),
                    column@,
                ) < 0 || row >= self@.table(table@).rows.len(),
            },
    {
        let tkey: String = table.to_string();
        let ckey: String = column.to_string();
        match find_table(&self.tables, &tkey) {
            Some(i) => match find_column(&self.tables[i].columns, &ckey) {
                Some(j) => {
                    if row < self.tables[i].rows.len() {
                        proof {
                            assert(crate::schema::table_wf(self@.tables[i as int]));
                            assert(self@.tables[i as int].rows[row as int] == row_view(
                                self.tables@[i as int].rows@[row as int]@,
                            ));
                            assert(row_fits(
                                self@.tables[i as int].rows[row as int],
                                self@.tables[i as int].columns,
                            ));
                        }
                        Some(self.tables[i].rows[row][j].duplicate())
                    } else {
                        None
                    }
                },
                None => None,
            },
            None => None,
        }
    }
}

/// The position of the named table, agreeing with `name_at` on the view.
pub(crate) fn find_table(tables: &Vec<Table>, name: &String) -> (r: Option<usize>)
    ensures
        match r {
            Some(i) => i < tables@.len() && name_at(table_names(tables_view(tables@)), name@)
                == i,
            None => name_at(table_names(tables_view(tables@)), name@) == -1,
        },
{
    let ghost names = table_names(tables_view(tables@));
    let mut i: usize = 0;
    while i < tables.len()
        invariant
            i <= tables.len(),
            names == table_names(tables_view(tables@)),
            names.len() == tables@.len(),
            forall|k: int| 0 <= k < i ==> names[k] != name@,
        decreases tables.len() - i,
    {
        if tables[i].name == *name {
            proof {
                lemma_name_at_found(names, name@, i as int);
            }
            return Some(i);
        }
        i = i + 1;
    }
    proof {
        lemma_name_at_absent(names, name@);
    }
    None
}

/// The position of the named column, agreeing with `name_at` on the view.
pub(crate) fn find_column(cols: &Vec<ColumnDef>, name: &String) -> (r: Option<usize>)
    ensures
        match r {
            Some(i) => i < cols@.len() && name_at(column_names(cols_view(cols@)), name@) == i,
            None => name_at(column_names(cols_view(cols@)), name@) == -1,
        },
{
    let ghost names = column_names(cols_view(cols@));
    let mut i: usize = 0;
    while i < cols.len()
        invariant
            i <= cols.len(),
            names == column_names(cols_view(cols@)),
            names.len() == cols@.len(),
            forall|k: int| 0 <= k < i ==> names[k] != name@,
        decreases cols.len() - i,
    {
        if cols[i].name == *name {
            proof {
                lemma_name_at_found(names, name@, i as int);
            }
            return Some(i);
        }
        i = i + 1;
    }
    proof {
        lemma_name_at_absent(names, name@);
    }
    None
}

/// The position of the named index, agreeing with `name_at` on the view.
pub(crate) fn find_index(idxs: &Vec<IndexEntry>, name: &String) -> (r: Option<usize>)
    ensures
        match r {
            Some(i) => i < idxs@.len() && name_at(index_names(indexes_view(idxs@)), name@) == i,
            None => name_at(index_names(indexes_view(idxs@)), name@) == -1,
        },
{
    let ghost names = index_names(indexes_view(idxs@));
    let mut i: usize = 0;
    while i < idxs.len()
        invariant
            i <= idxs.len(),
            names == index_names(indexes_view(idxs@)),
            names.len() == idxs@.len(),
            forall|k: int| 0 <= k < i ==> names[k] != name@,
        decreases idxs.len() - i,
    {
        if idxs[i].name == *name {
            proof {
                lemma_name_at_found(names, name@, i as int);
            }
            return Some(i);
        }
        i = i + 1;
    }
    proof {
        lemma_name_at_absent(names, name@);
    }
    None
}

} // verus!
