//! Abstract views of tables, indexes and the whole database, with the
//! well-formedness predicate the engine maintains.

use vstd::prelude::*;

use crate::value::{row_fits, ColumnView};

verus! {

/// The abstract form of one table: its name, column list, and rows in
/// insertion order.
#[verifier::ext_equal]
pub ghost struct TableView {
    pub name: Seq<char>,
    pub columns: Seq<ColumnView>,
    pub rows: Seq<Seq<crate::value::ValueView>>,
}

/// The abstract form of one index: its name and the table it belongs to.
/// The engine tracks indexes by name only; their internal structure is the
/// storage layer's concern.
#[verifier::ext_equal]
pub ghost struct IndexView {
    pub name: Seq<char>,
    pub table: Seq<char>,
}

/// The abstract form of the whole database: the durable schema version
/// record together with every table and index.
#[verifier::ext_equal]
pub ghost struct DbView {
    pub version: int,
    pub tables: Seq<TableView>,
    pub indexes: Seq<IndexView>,
}

/// The position of `name` in a list of names: the first index holding it,
/// or -1 when it is absent.
pub open spec fn name_at(names: Seq<Seq<char>>, name: Seq<char>) -> int
    decreases names.len(),
{
    if names.len() == 0 {
        -1
    } else if names[0] == name {
        0
    } else {
        let r = name_at(names.drop_first(), name);
        if r < 0 {
            -1
        } else {
            r + 1
        }
    }
}

/// Characterisation of [`name_at`]: a non-negative result is the first
/// position holding the name, and -1 means the name is absent.
pub proof fn lemma_name_at(names: Seq<Seq<char>>, name: Seq<char>)
    ensures
        -1 <= name_at(names, name) < names.len(),
        name_at(names, name) >= 0 ==> names[name_at(names, name)] == name,
        name_at(names, name) >= 0 ==> forall|k: int|
            0 <= k < name_at(names, name) ==> names[k] != name,
        name_at(names, name) == -1 ==> forall|k: int| 0 <= k < names.len() ==> names[k] != name,
    decreases names.len(),
{
    if names.len() == 0 {
    } else if names[0] == name {
    } else {
        lemma_name_at(names.drop_first(), name);
        if name_at(names, name) >= 0 {
            assert forall|k: int| 0 <= k < name_at(names, name) implies names[k] != name by {
                if k >= 1 {
                    assert(names.drop_first()[k - 1] == names[k]);
                }
            }
        } else {
            assert forall|k: int| 0 <= k < names.len() implies names[k] != name by {
                if k >= 1 {
                    assert(names.drop_first()[k - 1] == names[k]);
                }
            }
        }
    }
}

/// The position at which a scan that saw `name` first at `i` must stop:
/// `name_at` returns exactly that position.
pub proof fn lemma_name_at_found(names: Seq<Seq<char>>, name: Seq<char>, i: int)
    requires
        0 <= i < names.len(),
        names[i] == name,
        forall|k: int| 0 <= k < i ==> names[k] != name,
    ensures
        name_at(names, name) == i,
{
    lemma_name_at(names, name);
}

/// When no position holds `name`, `name_at` returns -1.
pub proof fn lemma_name_at_absent(names: Seq<Seq<char>>, name: Seq<char>)
    requires
        forall|k: int| 0 <= k < names.len() ==> names[k] != name,
    ensures
        name_at(names, name) == -1,
{
    lemma_name_at(names, name);
}

/// The names of a table list, in order.
pub open spec fn table_names(tables: Seq<TableView>) -> Seq<Seq<char>> {
    tables.map_values(|t: TableView| t.name)
}

/// The names of a column list, in order.
pub open spec fn column_names(cols: Seq<ColumnView>) -> Seq<Seq<char>> {
    cols.map_values(|c: ColumnView| c.name)
}

/// The names of an index list, in order.
pub open spec fn index_names(idxs: Seq<IndexView>) -> Seq<Seq<char>> {
    idxs.map_values(|ix: IndexView| ix.name)
}

/// Whether all names in a list are distinct.
pub open spec fn distinct_names(names: Seq<Seq<char>>) -> bool {
    forall|i: int, j: int| 0 <= i < j < names.len() ==> names[i] != names[j]
}

/// Whether one table is well formed: every row conforms to the column list.
pub open spec fn table_wf(t: TableView) -> bool {
    forall|i: int| 0 <= i < t.rows.len() ==> row_fits(#[trigger] t.rows[i], t.columns)
}

impl DbView {
    /// Whether the database is well formed: the version record is a
    /// non-negative integer, table names are distinct, and every table is
    /// well formed.  Constructors establish this and every statement
    /// preserves it.
    pub open spec fn wf(self) -> bool {
        &&& self.version >= 0
        &&& distinct_names(table_names(self.tables))
        &&& forall|i: int| 0 <= i < self.tables.len() ==> table_wf(#[trigger] self.tables[i])
    }

    /// Whether a table of the given name exists.
    pub open spec fn has_table(self, name: Seq<char>) -> bool {
        name_at(table_names(self.tables), name) >= 0
    }

    /// The table of the given name; meaningful only when it exists.
    pub open spec fn table(self, name: Seq<char>) -> TableView {
        self.tables[name_at(table_names(self.tables), name)]
    }
}

} // verus!
