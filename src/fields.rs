//! Reading typed fields out of documents.
use vstd::prelude::*;
use crate::error::DatabaseError;
use crate::value::{Document, ObjectId, Value, ValueModel, lookup};

verus! {

/// The field `key` of `d`, which must hold a string.
pub fn get_str(d: &Document, key: &str) -> (r: Result<String, DatabaseError>)
    ensures
        match r {
            Ok(s) => lookup(d@, key@) == Some(ValueModel::Str(s@)),
            Err(e) => !(lookup(d@, key@) matches Some(ValueModel::Str(_))) && e is DocumentNotValid,
        },
{
    match d.get(&key.to_owned()) {
        Some(Value::Str(s)) => Ok(s.clone()),
        _ => Err(DatabaseError::DocumentNotValid(key.to_owned())),
    }
}

/// The field `key` of `d`, which must hold a boolean.
pub fn get_bool(d: &Document, key: &str) -> (r: Result<bool, DatabaseError>)
    ensures
        match r {
            Ok(b) => lookup(d@, key@) == Some(ValueModel::Bool(b)),
            Err(e) => !(lookup(d@, key@) matches Some(ValueModel::Bool(_))) && e is DocumentNotValid,
        },
{
    match d.get(&key.to_owned()) {
        Some(Value::Bool(b)) => Ok(*b),
        _ => Err(DatabaseError::DocumentNotValid(key.to_owned())),
    }
}

/// The field `key` of `d`, which must hold a date and time.
pub fn get_datetime(d: &Document, key: &str) -> (r: Result<i64, DatabaseError>)
    ensures
        match r {
            Ok(t) => lookup(d@, key@) == Some(ValueModel::DateTime(t as int)),
            Err(e) => !(lookup(d@, key@) matches Some(ValueModel::DateTime(_))) && e is DocumentNotValid,
        },
{
    match d.get(&key.to_owned()) {
        Some(Value::DateTime(t)) => Ok(*t),
        _ => Err(DatabaseError::DocumentNotValid(key.to_owned())),
    }
}

/// The field `key` of `d`, which must hold an identity.
pub fn get_id(d: &Document, key: &str) -> (r: Result<ObjectId, DatabaseError>)
    ensures
        match r {
            Ok(id) => lookup(d@, key@) == Some(ValueModel::Id(id@)),
            Err(e) => !(lookup(d@, key@) matches Some(ValueModel::Id(_))) && e is DocumentNotValid,
        },
{
    match d.get(&key.to_owned()) {
        Some(Value::Id(id)) => Ok(ObjectId::from_bytes(id.bytes)),
        _ => Err(DatabaseError::DocumentNotValid(key.to_owned())),
    }
}

} // verus!
