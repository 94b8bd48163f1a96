//! Notes attached to other records: records and their rows.

use crate::kinds::AssociationType;
use crate::rows::{take_big, take_key, take_small, take_text, SqlValue};
use crate::save::Save;
use crate::text::{fresh_key, now_seconds};
use crate::user::{AuthError, User};
use vstd::prelude::*;

verus! {

/// A note attached to another record.
#[derive(Clone, Debug)]
pub struct Note {
    pub key: u128,
    pub organization_key: u128,
    pub owner_key: u128,
    pub association_type: AssociationType,
    pub association_key: u128,
    pub title: String,
    pub content: String,
    pub url: String,
    pub created: i64,
    pub updated: i64,
}

impl Note {
    /// The row stored for this record, in the column order of the `notes` table.
    pub open spec fn row_spec(self) -> Seq<SqlValue> {
        seq![
            SqlValue::Key(self.key),
            SqlValue::Key(self.organization_key),
            SqlValue::Key(self.owner_key),
            SqlValue::SmallInt(self.association_type.spec_code()),
            SqlValue::Key(self.association_key),
            SqlValue::Text(self.title),
            SqlValue::Text(self.content),
            SqlValue::Text(self.url),
            SqlValue::BigInt(self.created),
            SqlValue::BigInt(self.updated),
        ]
    }

    /// The record a stored row reads as, if every column holds a value of its type.
    pub open spec fn spec_from_row(row: Seq<SqlValue>) -> Option<Note> {
        if row.len() == 10
            && row[0] is Key
            && row[1] is Key
            && row[2] is Key
            && row[3] is SmallInt
            && AssociationType::spec_from_code(row[3]->SmallInt_0) is Some
            && row[4] is Key
            && row[5] is Text
            && row[6] is Text
            && row[7] is Text
            && row[8] is BigInt
            && row[9] is BigInt {
            Some(Note {
                key: row[0]->Key_0,
                organization_key: row[1]->Key_0,
                owner_key: row[2]->Key_0,
                association_type: AssociationType::spec_from_code(row[3]->SmallInt_0)->0,
                association_key: row[4]->Key_0,
                title: row[5]->Text_0,
                content: row[6]->Text_0,
                url: row[7]->Text_0,
                created: row[8]->BigInt_0,
                updated: row[9]->BigInt_0,
            })
        } else {
            None
        }
    }

    /// The row stored for this record, in the column order of the `notes` table.
    pub fn to_row(self) -> (r: Vec<SqlValue>)
        ensures
            r@ == self.row_spec(),
    {
        let mut row: Vec<SqlValue> = Vec::new();
        row.push(SqlValue::Key(self.key));
        row.push(SqlValue::Key(self.organization_key));
        row.push(SqlValue::Key(self.owner_key));
        row.push(SqlValue::SmallInt(self.association_type.code()));
        row.push(SqlValue::Key(self.association_key));
        row.push(SqlValue::Text(self.title));
        row.push(SqlValue::Text(self.content));
        row.push(SqlValue::Text(self.url));
        row.push(SqlValue::BigInt(self.created));
        row.push(SqlValue::BigInt(self.updated));
        proof {
            assert(row@ =~= self.row_spec());
        }
        row
    }

    /// Reads a stored row back; `None` when a column is missing or of another type.
    pub fn from_row(row: Vec<SqlValue>) -> (r: Option<Note>)
        ensures
            r == Note::spec_from_row(row@),
    {
        let mut row = row;
        if row.len() != 10 {
            return None;
        }
        let updated = match take_big(&mut row) {
            Some(v) => v,
            None => return None,
        };
        let created = match take_big(&mut row) {
            Some(v) => v,
            None => return None,
        };
        let url = match take_text(&mut row) {
            Some(v) => v,
            None => return None,
        };
        let content = match take_text(&mut row) {
            Some(v) => v,
            None => return None,
        };
        let title = match take_text(&mut row) {
            Some(v) => v,
            None => return None,
        };
        let association_key = match take_key(&mut row) {
            Some(v) => v,
            None => return None,
        };
        let association_type = match take_small(&mut row) {
            Some(v) => v,
            None => return None,
        };
        let owner_key = match take_key(&mut row) {
            Some(v) => v,
            None => return None,
        };
        let organization_key = match take_key(&mut row) {
            Some(v) => v,
            None => return None,
        };
        let key = match take_key(&mut row) {
            Some(v) => v,
            None => return None,
        };
        let association_type = match AssociationType::from_code(association_type) {
            Some(v) => v,
            None => return None,
        };
        Some(Note {
            key,
            organization_key,
            owner_key,
            association_type,
            association_key,
            title,
            content,
            url,
            created,
            updated,
        })
    }

    /// A new record: a fresh key, created now, never updated.
    pub fn new(
        organization_key: u128,
        owner_key: u128,
        association_type: AssociationType,
        association_key: u128,
        url: String,
        title: String,
        content: String,
    ) -> (r: Note)
        ensures
            r.key != 0,
            r.organization_key == organization_key,
            r.owner_key == owner_key,
            r.association_type == association_type,
            r.association_key == association_key,
            r.url == url,
            r.title == title,
            r.content == content,
            r.updated == 0,
    {
        let key = fresh_key();
        let created = now_seconds();
        Note {
            key,
            organization_key,
            owner_key,
            association_type,
            association_key,
            title,
            content,
            url,
            created,
            updated: 0,
        }
    }
}

/// A Note written as a row reads back as the same Note, field for field.
pub proof fn lemma_note_row_round_trip(x: Note)
    ensures
        Note::spec_from_row(x.row_spec()) == Some(x),
{
    crate::kinds::lemma_association_type_code_round_trip(x.association_type);
}

impl Note {
    /// Whether this record was created from a client's body: a fresh key,
    /// never updated, and the body's content.
    pub open spec fn created_from(self, body: Note) -> bool {
        &&& self.key != 0
        &&& self.updated == 0
        &&& self.organization_key == body.organization_key
        &&& self.owner_key == body.owner_key
        &&& self.association_type == body.association_type
        &&& self.association_key == body.association_key
        &&& self.title == body.title
        &&& self.content == body.content
        &&& self.url == body.url
    }
}

/// Saves a note sent by a client. Without a signed-in user nothing is
/// stored; a body that could not be read is a bad request; a body with the
/// nil key is stored as a new record; any other body
/// replaces the stored record with its key.
pub fn insert(session: &Result<User, AuthError>, body: Option<Note>) -> (r: Save<Note>)
    ensures
        session is Err ==> r is Unauthenticated,
        session is Ok && body is None ==> r is BadRequest,
        session is Ok && body is Some && body->0.key != 0 ==> r == Save::Update(body->0),
        session is Ok && body is Some && body->0.key == 0 ==> (r matches Save::Insert(n) && n.created_from(body->0)),
{
    if let Err(_) = session {
        return Save::Unauthenticated;
    }
    match body {
        None => Save::BadRequest,
        Some(b) => {
            if b.key == 0 {
                Save::Insert(
                    Note::new(
                        b.organization_key,
                        b.owner_key,
                        b.association_type,
                        b.association_key,
                        b.url,
                        b.title,
                        b.content,
                    ),
                )
            } else {
                Save::Update(b)
            }
        },
    }
}

} // verus!
