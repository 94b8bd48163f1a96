//! What saving a record sent by a client comes to.

use crate::user::{AuthError, User};
use vstd::prelude::*;

verus! {

/// The outcome of a request that saves a record. Only `Insert` and `Update`
/// touch stored data.
#[derive(Clone, Debug)]
pub enum Save<T> {
    /// No signed-in user: the caller is sent to sign in, nothing is stored.
    Unauthenticated,
    /// The body could not be read as a record: nothing is stored.
    BadRequest,
    /// A new record to store.
    Insert(T),
    /// A record that replaces the stored one with the same key.
    Update(T),
}

/// The outcome of a request that deletes a record.
#[derive(Clone, Debug)]
pub enum Removal {
    /// No signed-in user: the caller is sent to sign in, nothing is deleted.
    Unauthenticated,
    /// The path names no record.
    NotFound,
    /// Delete the record with this key, if the signed-in user owns it.
    Delete { key: u128, owner_key: u128 },
}

/// What a request to delete the record whose key the path gives (`None`
/// when the path holds no key) comes to. Without a signed-in user nothing
/// is deleted.
pub fn delete(session: &Result<User, AuthError>, key: Option<u128>) -> (r: Removal)
    ensures
        session is Err ==> r is Unauthenticated,
        session is Ok && key is None ==> r is NotFound,
        session is Ok && key is Some ==> r == (Removal::Delete { key: key->0, owner_key: session->Ok_0.key }),
{
    match session {
        Err(_) => Removal::Unauthenticated,
        Ok(u) => match key {
            None => Removal::NotFound,
            Some(k) => Removal::Delete { key: k, owner_key: u.key },
        },
    }
}

} // verus!
