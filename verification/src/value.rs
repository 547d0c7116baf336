//! Database values and rows.

use vstd::prelude::*;

verus! {

#[verifier::external_type_specification]
#[verifier::external_body]
pub struct ExEngineValue(rusqlite::types::Value);

/// Tells the variant `Value::Real` of `rusqlite::types::Value` from the
/// others.
#[verifier::external_body]
fn holds_real(value: &rusqlite::types::Value) -> (holds: bool) {
    matches!(value, rusqlite::types::Value::Real(_))
}

/// `Clone` of `rusqlite::types::Value`: the copy is the same value.
#[verifier::external_body]
fn copy_engine_value(value: &rusqlite::types::Value) -> (copy: rusqlite::types::Value)
    ensures
        copy == *value,
{
    value.clone()
}

/// A real number, in the form in which the engine holds it. The library
/// carries such a number and never looks into it.
#[derive(Debug)]
pub struct Real {
    pub(crate) raw: rusqlite::types::Value,
}

impl View for Real {
    type V = rusqlite::types::Value;

    closed spec fn view(&self) -> rusqlite::types::Value {
        self.raw
    }
}

impl Real {
    /// The engine value as a real number, given whether the engine holds it
    /// as one.
    fn carried(value: rusqlite::types::Value, holds: bool) -> (number: Option<Real>)
        ensures
            match number {
                Some(r) => holds && r@ == value,
                None => !holds,
            },
    {
        if holds {
            Some(Real { raw: value })
        } else {
            None
        }
    }

    /// The engine value as a real number, if the engine holds it as one.
    pub fn from_engine(value: rusqlite::types::Value) -> (number: Option<Real>)
        ensures
            number matches Some(r) ==> r@ == value,
    {
        let holds = holds_real(&value);
        Self::carried(value, holds)
    }

    /// The number in the engine's form.
    pub fn engine(&self) -> (value: &rusqlite::types::Value)
        ensures
            *value == self@,
    {
        &self.raw
    }
}

impl Clone for Real {
    fn clone(&self) -> (copy: Self)
        ensures
            copy@ == self@,
    {
        Real { raw: copy_engine_value(&self.raw) }
    }
}

/// The mathematical content of a database value.
pub enum ValueView {
    Null,
    Integer(int),
    /// The number, in the engine's form.
    Real(rusqlite::types::Value),
    Text(Seq<char>),
    Blob(Seq<u8>),
}

/// A value stored in, bound to or read from a database column.
#[derive(Debug)]
pub enum SQLiteValue {
    Null,
    Integer(i64),
    Real(Real),
    Text(String),
    Blob(Vec<u8>),
}

impl View for SQLiteValue {
    type V = ValueView;

    open spec fn view(&self) -> ValueView {
        match *self {
            SQLiteValue::Null => ValueView::Null,
            SQLiteValue::Integer(n) => ValueView::Integer(n as int),
            SQLiteValue::Real(r) => ValueView::Real(r@),
            SQLiteValue::Text(s) => ValueView::Text(s@),
            SQLiteValue::Blob(b) => ValueView::Blob(b@),
        }
    }
}

impl DeepView for SQLiteValue {
    type V = ValueView;

    open spec fn deep_view(&self) -> ValueView {
        self@
    }
}

impl Clone for SQLiteValue {
    fn clone(&self) -> (copy: Self)
        ensures
            copy@ == self@,
    {
        match self {
            SQLiteValue::Null => SQLiteValue::Null,
            SQLiteValue::Integer(n) => SQLiteValue::Integer(*n),
            SQLiteValue::Real(r) => SQLiteValue::Real(r.clone()),
            SQLiteValue::Text(s) => SQLiteValue::Text(s.clone()),
            SQLiteValue::Blob(b) => {
                let copy = b.clone();
                assert(copy@ =~= b@);
                SQLiteValue::Blob(copy)
            },
        }
    }
}

/// The `rusqlite::types::Value` of the same kind and content; a real number
/// is handed over in the form in which it is carried.
#[verifier::external_body]
pub(crate) fn engine_value(value: &SQLiteValue) -> (converted: rusqlite::types::Value) {
    match value {
        SQLiteValue::Null => rusqlite::types::Value::Null,
        SQLiteValue::Integer(n) => rusqlite::types::Value::Integer(*n),
        SQLiteValue::Real(r) => r.raw.clone(),
        SQLiteValue::Text(s) => rusqlite::types::Value::Text(s.clone()),
        SQLiteValue::Blob(b) => rusqlite::types::Value::Blob(b.clone()),
    }
}

/// The content of a row: one value per column, in column order.
pub open spec fn row_view(row: Seq<SQLiteValue>) -> Seq<ValueView> {
    row.map_values(|v: SQLiteValue| v@)
}

/// The content of a batch of rows, in cursor order.
pub open spec fn rows_view(rows: Seq<Vec<SQLiteValue>>) -> Seq<Seq<ValueView>> {
    rows.map_values(|r: Vec<SQLiteValue>| row_view(r@))
}

/// Copies a row, value by value.
pub fn clone_row(row: &Vec<SQLiteValue>) -> (copy: Vec<SQLiteValue>)
    ensures
        row_view(copy@) == row_view(row@),
{
    let mut copy: Vec<SQLiteValue> = Vec::new();
    let mut i: usize = 0;
    while i < row.len()
        invariant
            i <= row.len(),
            copy@.len() == i,
            forall|k: int| 0 <= k < i ==> copy@[k]@ == row@[k]@,
        decreases row.len() - i,
    {
        copy.push(row[i].clone());
        i = i + 1;
    }
    assert(row_view(copy@) =~= row_view(row@));
    copy
}

} // verus!
