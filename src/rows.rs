//! Typed column values of a stored row, and reading them back one by one.

use vstd::prelude::*;

verus! {

/// One column value of a stored row.
#[derive(Clone, Debug)]
pub enum SqlValue {
    Key(u128),
    Text(String),
    BigInt(i64),
    Int(i32),
    SmallInt(i16),
    Bool(bool),
    Texts(Vec<String>),
    Keys(Vec<u128>),
    Null,
}

/// Removes the last column of a row and reads it as a key.
pub fn take_key(row: &mut Vec<SqlValue>) -> (r: Option<u128>)
    requires
        old(row).len() > 0,
    ensures
        final(row)@ == old(row)@.drop_last(),
        r == (if old(row)@.last() is Key {
            Some(old(row)@.last()->Key_0)
        } else {
            None::<u128>
        }),
{
    match row.pop() {
        Some(SqlValue::Key(v)) => Some(v),
        _ => None,
    }
}

/// Removes the last column of a row and reads it as a text.
pub fn take_text(row: &mut Vec<SqlValue>) -> (r: Option<String>)
    requires
        old(row).len() > 0,
    ensures
        final(row)@ == old(row)@.drop_last(),
        r == (if old(row)@.last() is Text {
            Some(old(row)@.last()->Text_0)
        } else {
            None::<String>
        }),
{
    match row.pop() {
        Some(SqlValue::Text(v)) => Some(v),
        _ => None,
    }
}

/// Removes the last column of a row and reads it as a 64-bit integer.
pub fn take_big(row: &mut Vec<SqlValue>) -> (r: Option<i64>)
    requires
        old(row).len() > 0,
    ensures
        final(row)@ == old(row)@.drop_last(),
        r == (if old(row)@.last() is BigInt {
            Some(old(row)@.last()->BigInt_0)
        } else {
            None::<i64>
        }),
{
    match row.pop() {
        Some(SqlValue::BigInt(v)) => Some(v),
        _ => None,
    }
}

/// Removes the last column of a row and reads it as a 32-bit integer.
pub fn take_int(row: &mut Vec<SqlValue>) -> (r: Option<i32>)
    requires
        old(row).len() > 0,
    ensures
        final(row)@ == old(row)@.drop_last(),
        r == (if old(row)@.last() is Int {
            Some(old(row)@.last()->Int_0)
        } else {
            None::<i32>
        }),
{
    match row.pop() {
        Some(SqlValue::Int(v)) => Some(v),
        _ => None,
    }
}

/// Removes the last column of a row and reads it as a 16-bit integer.
pub fn take_small(row: &mut Vec<SqlValue>) -> (r: Option<i16>)
    requires
        old(row).len() > 0,
    ensures
        final(row)@ == old(row)@.drop_last(),
        r == (if old(row)@.last() is SmallInt {
            Some(old(row)@.last()->SmallInt_0)
        } else {
            None::<i16>
        }),
{
    match row.pop() {
        Some(SqlValue::SmallInt(v)) => Some(v),
        _ => None,
    }
}

/// Removes the last column of a row and reads it as a flag.
pub fn take_bool(row: &mut Vec<SqlValue>) -> (r: Option<bool>)
    requires
        old(row).len() > 0,
    ensures
        final(row)@ == old(row)@.drop_last(),
        r == (if old(row)@.last() is Bool {
            Some(old(row)@.last()->Bool_0)
        } else {
            None::<bool>
        }),
{
    match row.pop() {
        Some(SqlValue::Bool(v)) => Some(v),
        _ => None,
    }
}

/// Removes the last column of a row and reads it as a list of texts.
pub fn take_texts(row: &mut Vec<SqlValue>) -> (r: Option<Vec<String>>)
    requires
        old(row).len() > 0,
    ensures
        final(row)@ == old(row)@.drop_last(),
        r == (if old(row)@.last() is Texts {
            Some(old(row)@.last()->Texts_0)
        } else {
            None::<Vec<String>>
        }),
{
    match row.pop() {
        Some(SqlValue::Texts(v)) => Some(v),
        _ => None,
    }
}

/// Removes the last column of a row and reads it as a list of keys.
pub fn take_keys(row: &mut Vec<SqlValue>) -> (r: Option<Vec<u128>>)
    requires
        old(row).len() > 0,
    ensures
        final(row)@ == old(row)@.drop_last(),
        r == (if old(row)@.last() is Keys {
            Some(old(row)@.last()->Keys_0)
        } else {
            None::<Vec<u128>>
        }),
{
    match row.pop() {
        Some(SqlValue::Keys(v)) => Some(v),
        _ => None,
    }
}

} // verus!
