//! Cell values and column definitions of the model database.

use vstd::prelude::*;

verus! {

/// The abstract form of a stored cell: what a [`Value`] means in contracts.
pub ghost enum ValueView {
    Null,
    Int(int),
    Text(Seq<char>),
}

/// One cell of a row.  The engine stores integers, text, or NULL; richer
/// column types of the underlying database are carried as text.
#[derive(Debug)]
pub enum Value {
    Null,
    Int(i64),
    Text(String),
}

impl View for Value {
    type V = ValueView;

    open spec fn view(&self) -> ValueView {
        match self {
            Value::Null => ValueView::Null,
            Value::Int(i) => ValueView::Int(*i as int),
            Value::Text(s) => ValueView::Text(s@),
        }
    }
}

impl Value {
    /// An exact duplicate of the cell.
    pub fn duplicate(&self) -> (r: Value)
        ensures
            r@ == self@,
    {
        match self {
            Value::Null => Value::Null,
            Value::Int(i) => Value::Int(*i),
            Value::Text(s) => Value::Text(s.clone()),
        }
    }

    /// Whether the cell is NULL.
    pub fn is_null(&self) -> (r: bool)
        ensures
            r == (self@ is Null),
    {
        matches!(self, Value::Null)
    }
}

impl PartialEq for Value {
    fn eq(&self, other: &Value) -> (r: bool) {
        match (self, other) {
            (Value::Null, Value::Null) => true,
            (Value::Int(a), Value::Int(b)) => a == b,
            (Value::Text(a), Value::Text(b)) => *a == *b,
            _ => false,
        }
    }
}

impl vstd::std_specs::cmp::PartialEqSpecImpl for Value {
    open spec fn obeys_eq_spec() -> bool {
        true
    }

    open spec fn eq_spec(&self, other: &Value) -> bool {
        self@ == other@
    }
}

/// The abstract form of a column definition.
pub ghost struct ColumnView {
    pub name: Seq<char>,
    pub nullable: bool,
}

/// One column of a table: its name and whether NULL cells are admitted.
#[derive(Debug)]
pub struct ColumnDef {
    pub name: String,
    pub nullable: bool,
}

impl View for ColumnDef {
    type V = ColumnView;

    open spec fn view(&self) -> ColumnView {
        ColumnView { name: self.name@, nullable: self.nullable }
    }
}

impl ColumnDef {
    /// An exact duplicate of the column definition.
    pub fn duplicate(&self) -> (r: ColumnDef)
        ensures
            r@ == self@,
    {
        ColumnDef { name: self.name.clone(), nullable: self.nullable }
    }
}

/// Whether a cell may stand under a column: NULL is admitted only in
/// nullable columns.
pub open spec fn value_fits(v: ValueView, c: ColumnView) -> bool {
    c.nullable || !(v is Null)
}

/// Whether a row conforms to a column list: same arity, and every cell
/// admitted by its column.
pub open spec fn row_fits(r: Seq<ValueView>, cols: Seq<ColumnView>) -> bool {
    &&& r.len() == cols.len()
    &&& forall|i: int| 0 <= i < r.len() ==> value_fits(#[trigger] r[i], cols[i])
}

} // verus!
