//! Organizations: records and their rows.

use crate::rows::{take_big, take_key, take_text, SqlValue};
use crate::save::Save;
use crate::text::{fresh_key, now_seconds};
use crate::user::{AuthError, User};
use vstd::prelude::*;

verus! {

/// A tenant: owns projects, contacts, rooms and accounting settings.
#[derive(Clone, Debug)]
pub struct Organization {
    pub key: u128,
    pub external_accounting_id: String,
    pub external_accounting_url: String,
    pub owner_key: u128,
    pub name: String,
    pub description: String,
    pub matrix_home_server: String,
    pub matrix_live_support_room_url: String,
    pub matrix_general_room_url: String,
    pub domain: String,
    pub contact_email: String,
    pub created: i64,
    pub updated: i64,
}

impl Organization {
    /// The row stored for this record, in the column order of the `organization` table.
    pub open spec fn row_spec(self) -> Seq<SqlValue> {
        seq![
            SqlValue::Key(self.key),
            SqlValue::Text(self.external_accounting_id),
            SqlValue::Text(self.external_accounting_url),
            SqlValue::Key(self.owner_key),
            SqlValue::Text(self.name),
            SqlValue::Text(self.description),
            SqlValue::Text(self.matrix_home_server),
            SqlValue::Text(self.matrix_live_support_room_url),
            SqlValue::Text(self.matrix_general_room_url),
            SqlValue::Text(self.domain),
            SqlValue::Text(self.contact_email),
            SqlValue::BigInt(self.created),
            SqlValue::BigInt(self.updated),
        ]
    }

    /// The record a stored row reads as, if every column holds a value of its type.
    pub open spec fn spec_from_row(row: Seq<SqlValue>) -> Option<Organization> {
        if row.len() == 13
            && row[0] is Key
            && row[1] is Text
            && row[2] is Text
            && row[3] is Key
            && row[4] is Text
            && row[5] is Text
            && row[6] is Text
            && row[7] is Text
            && row[8] is Text
            && row[9] is Text
            && row[10] is Text
            && row[11] is BigInt
            && row[12] is BigInt {
            Some(Organization {
                key: row[0]->Key_0,
                external_accounting_id: row[1]->Text_0,
                external_accounting_url: row[2]->Text_0,
                owner_key: row[3]->Key_0,
                name: row[4]->Text_0,
                description: row[5]->Text_0,
                matrix_home_server: row[6]->Text_0,
                matrix_live_support_room_url: row[7]->Text_0,
                matrix_general_room_url: row[8]->Text_0,
                domain: row[9]->Text_0,
                contact_email: row[10]->Text_0,
                created: row[11]->BigInt_0,
                updated: row[12]->BigInt_0,
            })
        } else {
            None
        }
    }

    /// The row stored for this record, in the column order of the `organization` table.
    pub fn to_row(self) -> (r: Vec<SqlValue>)
        ensures
            r@ == self.row_spec(),
    {
        let mut row: Vec<SqlValue> = Vec::new();
        row.push(SqlValue::Key(self.key));
        row.push(SqlValue::Text(self.external_accounting_id));
        row.push(SqlValue::Text(self.external_accounting_url));
        row.push(SqlValue::Key(self.owner_key));
        row.push(SqlValue::Text(self.name));
        row.push(SqlValue::Text(self.description));
        row.push(SqlValue::Text(self.matrix_home_server));
        row.push(SqlValue::Text(self.matrix_live_support_room_url));
        row.push(SqlValue::Text(self.matrix_general_room_url));
        row.push(SqlValue::Text(self.domain));
        row.push(SqlValue::Text(self.contact_email));
        row.push(SqlValue::BigInt(self.created));
        row.push(SqlValue::BigInt(self.updated));
        proof {
            assert(row@ =~= self.row_spec());
        }
        row
    }

    /// Reads a stored row back; `None` when a column is missing or of another type.
    pub fn from_row(row: Vec<SqlValue>) -> (r: Option<Organization>)
        ensures
            r == Organization::spec_from_row(row@),
    {
        let mut row = row;
        if row.len() != 13 {
            return None;
        }
        let updated = match take_big(&mut row) {
            Some(v) => v,
            None => return None,
        };
        let created = match take_big(&mut row) {
            Some(v) => v,
            None => return None,
        };
        let contact_email = match take_text(&mut row) {
            Some(v) => v,
            None => return None,
        };
        let domain = match take_text(&mut row) {
            Some(v) => v,
            None => return None,
        };
        let matrix_general_room_url = match take_text(&mut row) {
            Some(v) => v,
            None => return None,
        };
        let matrix_live_support_room_url = match take_text(&mut row) {
            Some(v) => v,
            None => return None,
        };
        let matrix_home_server = match take_text(&mut row) {
            Some(v) => v,
            None => return None,
        };
        let description = match take_text(&mut row) {
            Some(v) => v,
            None => return None,
        };
        let name = match take_text(&mut row) {
            Some(v) => v,
            None => return None,
        };
        let owner_key = match take_key(&mut row) {
            Some(v) => v,
            None => return None,
        };
        let external_accounting_url = match take_text(&mut row) {
            Some(v) => v,
            None => return None,
        };
        let external_accounting_id = match take_text(&mut row) {
            Some(v) => v,
            None => return None,
        };
        let key = match take_key(&mut row) {
            Some(v) => v,
            None => return None,
        };
        Some(Organization {
            key,
            external_accounting_id,
            external_accounting_url,
            owner_key,
            name,
            description,
            matrix_home_server,
            matrix_live_support_room_url,
            matrix_general_room_url,
            domain,
            contact_email,
            created,
            updated,
        })
    }

    /// A new record: created now, never updated.
    pub fn new(
        key: u128,
        external_accounting_id: String,
        external_accounting_url: String,
        owner_key: u128,
        name: String,
        description: String,
        matrix_home_server: String,
        matrix_live_support_room_url: String,
        matrix_general_room_url: String,
        domain: String,
        contact_email: String,
    ) -> (r: Organization)
        ensures
            r.key == key,
            r.external_accounting_id == external_accounting_id,
            r.external_accounting_url == external_accounting_url,
            r.owner_key == owner_key,
            r.name == name,
            r.description == description,
            r.matrix_home_server == matrix_home_server,
            r.matrix_live_support_room_url == matrix_live_support_room_url,
            r.matrix_general_room_url == matrix_general_room_url,
            r.domain == domain,
            r.contact_email == contact_email,
            r.updated == 0,
    {
        let created = now_seconds();
        Organization {
            key,
            external_accounting_id,
            external_accounting_url,
            owner_key,
            name,
            description,
            matrix_home_server,
            matrix_live_support_room_url,
            matrix_general_room_url,
            domain,
            contact_email,
            created,
            updated: 0,
        }
    }
}

/// A Organization written as a row reads back as the same Organization, field for field.
pub proof fn lemma_organization_row_round_trip(x: Organization)
    ensures
        Organization::spec_from_row(x.row_spec()) == Some(x),
{
}

impl Organization {
    /// Whether this record was created from a client's body: a fresh key,
    /// never updated, and the body's content.
    pub open spec fn created_from(self, body: Organization) -> bool {
        &&& self.key != 0
        &&& self.updated == 0
        &&& self.external_accounting_id == body.external_accounting_id
        &&& self.external_accounting_url == body.external_accounting_url
        &&& self.owner_key == body.owner_key
        &&& self.name == body.name
        &&& self.description == body.description
        &&& self.matrix_home_server == body.matrix_home_server
        &&& self.matrix_live_support_room_url == body.matrix_live_support_room_url
        &&& self.matrix_general_room_url == body.matrix_general_room_url
        &&& self.domain == body.domain
        &&& self.contact_email == body.contact_email
    }
}

/// Saves an organization sent by a client. Without a signed-in user nothing is
/// stored; a body that could not be read is a bad request; a body with the
/// nil key is stored as a new record; any other body
/// replaces the stored record with its key.
pub fn insert(session: &Result<User, AuthError>, body: Option<Organization>) -> (r: Save<Organization>)
    ensures
        session is Err ==> r is Unauthenticated,
        session is Ok && body is None ==> r is BadRequest,
        session is Ok && body is Some && body->0.key != 0 ==> r == Save::Update(body->0),
        session is Ok && body is Some && body->0.key == 0 ==> (r matches Save::Insert(n) && n.created_from(body->0)),
{
    if let Err(_) = session {
        return Save::Unauthenticated;
    }
    match body {
        None => Save::BadRequest,
        Some(b) => {
            if b.key == 0 {
                Save::Insert(
                    Organization::new(
                        fresh_key(),
                        b.external_accounting_id,
                        b.external_accounting_url,
                        b.owner_key,
                        b.name,
                        b.description,
                        b.matrix_home_server,
                        b.matrix_live_support_room_url,
                        b.matrix_general_room_url,
                        b.domain,
                        b.contact_email,
                    ),
                )
            } else {
                Save::Update(b)
            }
        },
    }
}

impl Organization {
    /// Whether the organization is linked to a company of the accounting service.
    pub fn has_external_accounting(&self) -> (r: bool)
        ensures
            r == (self.external_accounting_id@.len() > 0),
    {
        self.external_accounting_id.as_str().unicode_len() > 0
    }
}

} // verus!
