//! Clients, suppliers and their contacts: records and their rows.

use crate::kinds::EntityType;
use crate::rows::{take_big, take_key, take_small, take_text, take_texts, SqlValue};
use crate::save::Save;
use crate::text::{fresh_key, now_seconds, parse_int, parsed_i64};
use crate::user::{AuthError, User};
use vstd::prelude::*;

verus! {

/// A client or supplier of an organization.
#[derive(Clone, Debug)]
pub struct Entity {
    pub key: u128,
    pub organization_key: u128,
    pub external_accounting_id: String,
    pub owner_key: u128,
    pub matrix_room_url: String,
    pub web_url: String,
    pub avatar_url: String,
    pub entity_type: EntityType,
    pub name: String,
    pub description: String,
    pub address_primary: String,
    pub address_unit: String,
    pub city: String,
    pub state: String,
    pub zip_code: String,
    pub country: String,
    pub created: i64,
    pub updated: i64,
}

impl Entity {
    /// The row stored for this record, in the column order of the `entitys` table.
    pub open spec fn row_spec(self) -> Seq<SqlValue> {
        seq![
            SqlValue::Key(self.key),
            SqlValue::Key(self.organization_key),
            SqlValue::Text(self.external_accounting_id),
            SqlValue::Key(self.owner_key),
            SqlValue::Text(self.name),
            SqlValue::Text(self.description),
            SqlValue::Text(self.matrix_room_url),
            SqlValue::Text(self.web_url),
            SqlValue::Text(self.avatar_url),
            SqlValue::SmallInt(self.entity_type.spec_code()),
            SqlValue::Text(self.address_primary),
            SqlValue::Text(self.address_unit),
            SqlValue::Text(self.city),
            SqlValue::Text(self.state),
            SqlValue::Text(self.zip_code),
            SqlValue::Text(self.country),
            SqlValue::BigInt(self.created),
            SqlValue::BigInt(self.updated),
        ]
    }

    /// The record a stored row reads as, if every column holds a value of its type.
    pub open spec fn spec_from_row(row: Seq<SqlValue>) -> Option<Entity> {
        if row.len() == 18
            && row[0] is Key
            && row[1] is Key
            && row[2] is Text
            && row[3] is Key
            && row[4] is Text
            && row[5] is Text
            && row[6] is Text
            && row[7] is Text
            && row[8] is Text
            && row[9] is SmallInt
            && EntityType::spec_from_code(row[9]->SmallInt_0) is Some
            && row[10] is Text
            && row[11] is Text
            && row[12] is Text
            && row[13] is Text
            && row[14] is Text
            && row[15] is Text
            && row[16] is BigInt
            && row[17] is BigInt {
            Some(Entity {
                key: row[0]->Key_0,
                organization_key: row[1]->Key_0,
                external_accounting_id: row[2]->Text_0,
                owner_key: row[3]->Key_0,
                matrix_room_url: row[6]->Text_0,
                web_url: row[7]->Text_0,
                avatar_url: row[8]->Text_0,
                entity_type: EntityType::spec_from_code(row[9]->SmallInt_0)->0,
                name: row[4]->Text_0,
                description: row[5]->Text_0,
                address_primary: row[10]->Text_0,
                address_unit: row[11]->Text_0,
                city: row[12]->Text_0,
                state: row[13]->Text_0,
                zip_code: row[14]->Text_0,
                country: row[15]->Text_0,
                created: row[16]->BigInt_0,
                updated: row[17]->BigInt_0,
            })
        } else {
            None
        }
    }

    /// The row stored for this record, in the column order of the `entitys` table.
    pub fn to_row(self) -> (r: Vec<SqlValue>)
        ensures
            r@ == self.row_spec(),
    {
        let mut row: Vec<SqlValue> = Vec::new();
        row.push(SqlValue::Key(self.key));
        row.push(SqlValue::Key(self.organization_key));
        row.push(SqlValue::Text(self.external_accounting_id));
        row.push(SqlValue::Key(self.owner_key));
        row.push(SqlValue::Text(self.name));
        row.push(SqlValue::Text(self.description));
        row.push(SqlValue::Text(self.matrix_room_url));
        row.push(SqlValue::Text(self.web_url));
        row.push(SqlValue::Text(self.avatar_url));
        row.push(SqlValue::SmallInt(self.entity_type.code()));
        row.push(SqlValue::Text(self.address_primary));
        row.push(SqlValue::Text(self.address_unit));
        row.push(SqlValue::Text(self.city));
        row.push(SqlValue::Text(self.state));
        row.push(SqlValue::Text(self.zip_code));
        row.push(SqlValue::Text(self.country));
        row.push(SqlValue::BigInt(self.created));
        row.push(SqlValue::BigInt(self.updated));
        proof {
            assert(row@ =~= self.row_spec());
        }
        row
    }

    /// Reads a stored row back; `None` when a column is missing or of another type.
    pub fn from_row(row: Vec<SqlValue>) -> (r: Option<Entity>)
        ensures
            r == Entity::spec_from_row(row@),
    {
        let mut row = row;
        if row.len() != 18 {
            return None;
        }
        let updated = match take_big(&mut row) {
            Some(v) => v,
            None => return None,
        };
        let created = match take_big(&mut row) {
            Some(v) => v,
            None => return None,
        };
        let country = match take_text(&mut row) {
            Some(v) => v,
            None => return None,
        };
        let zip_code = match take_text(&mut row) {
            Some(v) => v,
            None => return None,
        };
        let state = match take_text(&mut row) {
            Some(v) => v,
            None => return None,
        };
        let city = match take_text(&mut row) {
            Some(v) => v,
            None => return None,
        };
        let address_unit = match take_text(&mut row) {
            Some(v) => v,
            None => return None,
        };
        let address_primary = match take_text(&mut row) {
            Some(v) => v,
            None => return None,
        };
        let entity_type = match take_small(&mut row) {
            Some(v) => v,
            None => return None,
        };
        let avatar_url = match take_text(&mut row) {
            Some(v) => v,
            None => return None,
        };
        let web_url = match take_text(&mut row) {
            Some(v) => v,
            None => return None,
        };
        let matrix_room_url = match take_text(&mut row) {
            Some(v) => v,
            None => return None,
        };
        let description = match take_text(&mut row) {
            Some(v) => v,
            None => return None,
        };
        let name = match take_text(&mut row) {
            Some(v) => v,
            None => return None,
        };
        let owner_key = match take_key(&mut row) {
            Some(v) => v,
            None => return None,
        };
        let external_accounting_id = match take_text(&mut row) {
            Some(v) => v,
            None => return None,
        };
        let organization_key = match take_key(&mut row) {
            Some(v) => v,
            None => return None,
        };
        let key = match take_key(&mut row) {
            Some(v) => v,
            None => return None,
        };
        let entity_type = match EntityType::from_code(entity_type) {
            Some(v) => v,
            None => return None,
        };
        Some(Entity {
            key,
            organization_key,
            external_accounting_id,
            owner_key,
            matrix_room_url,
            web_url,
            avatar_url,
            entity_type,
            name,
            description,
            address_primary,
            address_unit,
            city,
            state,
            zip_code,
            country,
            created,
            updated,
        })
    }

    /// A new record: a fresh key, created now, never updated.
    pub fn new(
        organization_key: u128,
        external_accounting_id: String,
        owner_key: u128,
        name: String,
        description: String,
        matrix_room_url: String,
        web_url: String,
        avatar_url: String,
        entity_type: EntityType,
        address_primary: String,
        address_unit: String,
        city: String,
        state: String,
        zip_code: String,
        country: String,
    ) -> (r: Entity)
        ensures
            r.key != 0,
            r.organization_key == organization_key,
            r.external_accounting_id == external_accounting_id,
            r.owner_key == owner_key,
            r.name == name,
            r.description == description,
            r.matrix_room_url == matrix_room_url,
            r.web_url == web_url,
            r.avatar_url == avatar_url,
            r.entity_type == entity_type,
            r.address_primary == address_primary,
            r.address_unit == address_unit,
            r.city == city,
            r.state == state,
            r.zip_code == zip_code,
            r.country == country,
            r.updated == 0,
    {
        let key = fresh_key();
        let created = now_seconds();
        Entity {
            key,
            organization_key,
            external_accounting_id,
            owner_key,
            matrix_room_url,
            web_url,
            avatar_url,
            entity_type,
            name,
            description,
            address_primary,
            address_unit,
            city,
            state,
            zip_code,
            country,
            created,
            updated: 0,
        }
    }
}

/// A Entity written as a row reads back as the same Entity, field for field.
pub proof fn lemma_entity_row_round_trip(x: Entity)
    ensures
        Entity::spec_from_row(x.row_spec()) == Some(x),
{
    crate::kinds::lemma_entity_type_code_round_trip(x.entity_type);
}

/// A person at a client or supplier.
#[derive(Clone, Debug)]
pub struct Contact {
    pub key: u128,
    pub external_accounting_id: String,
    pub entity_key: u128,
    pub first_name: String,
    pub middle_initial: String,
    pub last_name: String,
    pub description: String,
    pub position: String,
    pub email: String,
    pub phone: String,
    pub secondary_email: String,
    pub secondary_phone: String,
    pub matrix_user_id: String,
    pub web_url: String,
    pub avatar_url: String,
    pub social_urls: Vec<String>,
    pub address_primary: String,
    pub address_unit: String,
    pub city: String,
    pub state: String,
    pub zip_code: String,
    pub country: String,
    pub created: i64,
    pub updated: i64,
}

impl Contact {
    /// The row stored for this record, in the column order of the `contacts` table.
    pub open spec fn row_spec(self) -> Seq<SqlValue> {
        seq![
            SqlValue::Key(self.key),
            SqlValue::Text(self.external_accounting_id),
            SqlValue::Key(self.entity_key),
            SqlValue::Text(self.first_name),
            SqlValue::Text(self.middle_initial),
            SqlValue::Text(self.last_name),
            SqlValue::Text(self.description),
            SqlValue::Text(self.position),
            SqlValue::Text(self.email),
            SqlValue::Text(self.phone),
            SqlValue::Text(self.secondary_email),
            SqlValue::Text(self.secondary_phone),
            SqlValue::Text(self.matrix_user_id),
            SqlValue::Text(self.web_url),
            SqlValue::Text(self.avatar_url),
            SqlValue::Texts(self.social_urls),
            SqlValue::Text(self.address_primary),
            SqlValue::Text(self.address_unit),
            SqlValue::Text(self.city),
            SqlValue::Text(self.state),
            SqlValue::Text(self.zip_code),
            SqlValue::Text(self.country),
            SqlValue::BigInt(self.created),
            SqlValue::BigInt(self.updated),
        ]
    }

    /// The record a stored row reads as, if every column holds a value of its type.
    pub open spec fn spec_from_row(row: Seq<SqlValue>) -> Option<Contact> {
        if row.len() == 24
            && row[0] is Key
            && row[1] is Text
            && row[2] is Key
            && row[3] is Text
            && row[4] is Text
            && row[5] is Text
            && row[6] is Text
            && row[7] is Text
            && row[8] is Text
            && row[9] is Text
            && row[10] is Text
            && row[11] is Text
            && row[12] is Text
            && row[13] is Text
            && row[14] is Text
            && row[15] is Texts
            && row[16] is Text
            && row[17] is Text
            && row[18] is Text
            && row[19] is Text
            && row[20] is Text
            && row[21] is Text
            && row[22] is BigInt
            && row[23] is BigInt {
            Some(Contact {
                key: row[0]->Key_0,
                external_accounting_id: row[1]->Text_0,
                entity_key: row[2]->Key_0,
                first_name: row[3]->Text_0,
                middle_initial: row[4]->Text_0,
                last_name: row[5]->Text_0,
                description: row[6]->Text_0,
                position: row[7]->Text_0,
                email: row[8]->Text_0,
                phone: row[9]->Text_0,
                secondary_email: row[10]->Text_0,
                secondary_phone: row[11]->Text_0,
                matrix_user_id: row[12]->Text_0,
                web_url: row[13]->Text_0,
                avatar_url: row[14]->Text_0,
                social_urls: row[15]->Texts_0,
                address_primary: row[16]->Text_0,
                address_unit: row[17]->Text_0,
                city: row[18]->Text_0,
                state: row[19]->Text_0,
                zip_code: row[20]->Text_0,
                country: row[21]->Text_0,
                created: row[22]->BigInt_0,
                updated: row[23]->BigInt_0,
            })
        } else {
            None
        }
    }

    /// The row stored for this record, in the column order of the `contacts` table.
    pub fn to_row(self) -> (r: Vec<SqlValue>)
        ensures
            r@ == self.row_spec(),
    {
        let mut row: Vec<SqlValue> = Vec::new();
        row.push(SqlValue::Key(self.key));
        row.push(SqlValue::Text(self.external_accounting_id));
        row.push(SqlValue::Key(self.entity_key));
        row.push(SqlValue::Text(self.first_name));
        row.push(SqlValue::Text(self.middle_initial));
        row.push(SqlValue::Text(self.last_name));
        row.push(SqlValue::Text(self.description));
        row.push(SqlValue::Text(self.position));
        row.push(SqlValue::Text(self.email));
        row.push(SqlValue::Text(self.phone));
        row.push(SqlValue::Text(self.secondary_email));
        row.push(SqlValue::Text(self.secondary_phone));
        row.push(SqlValue::Text(self.matrix_user_id));
        row.push(SqlValue::Text(self.web_url));
        row.push(SqlValue::Text(self.avatar_url));
        row.push(SqlValue::Texts(self.social_urls));
        row.push(SqlValue::Text(self.address_primary));
        row.push(SqlValue::Text(self.address_unit));
        row.push(SqlValue::Text(self.city));
        row.push(SqlValue::Text(self.state));
        row.push(SqlValue::Text(self.zip_code));
        row.push(SqlValue::Text(self.country));
        row.push(SqlValue::BigInt(self.created));
        row.push(SqlValue::BigInt(self.updated));
        proof {
            assert(row@ =~= self.row_spec());
        }
        row
    }

    /// Reads a stored row back; `None` when a column is missing or of another type.
    pub fn from_row(row: Vec<SqlValue>) -> (r: Option<Contact>)
        ensures
            r == Contact::spec_from_row(row@),
    {
        let mut row = row;
        if row.len() != 24 {
            return None;
        }
        let updated = match take_big(&mut row) {
            Some(v) => v,
            None => return None,
        };
        let created = match take_big(&mut row) {
            Some(v) => v,
            None => return None,
        };
        let country = match take_text(&mut row) {
            Some(v) => v,
            None => return None,
        };
        let zip_code = match take_text(&mut row) {
            Some(v) => v,
            None => return None,
        };
        let state = match take_text(&mut row) {
            Some(v) => v,
            None => return None,
        };
        let city = match take_text(&mut row) {
            Some(v) => v,
            None => return None,
        };
        let address_unit = match take_text(&mut row) {
            Some(v) => v,
            None => return None,
        };
        let address_primary = match take_text(&mut row) {
            Some(v) => v,
            None => return None,
        };
        let social_urls = match take_texts(&mut row) {
            Some(v) => v,
            None => return None,
        };
        let avatar_url = match take_text(&mut row) {
            Some(v) => v,
            None => return None,
        };
        let web_url = match take_text(&mut row) {
            Some(v) => v,
            None => return None,
        };
        let matrix_user_id = match take_text(&mut row) {
            Some(v) => v,
            None => return None,
        };
        let secondary_phone = match take_text(&mut row) {
            Some(v) => v,
            None => return None,
        };
        let secondary_email = match take_text(&mut row) {
            Some(v) => v,
            None => return None,
        };
        let phone = match take_text(&mut row) {
            Some(v) => v,
            None => return None,
        };
        let email = match take_text(&mut row) {
            Some(v) => v,
            None => return None,
        };
        let position = match take_text(&mut row) {
            Some(v) => v,
            None => return None,
        };
        let description = match take_text(&mut row) {
            Some(v) => v,
            None => return None,
        };
        let last_name = match take_text(&mut row) {
            Some(v) => v,
            None => return None,
        };
        let middle_initial = match take_text(&mut row) {
            Some(v) => v,
            None => return None,
        };
        let first_name = match take_text(&mut row) {
            Some(v) => v,
            None => return None,
        };
        let entity_key = match take_key(&mut row) {
            Some(v) => v,
            None => return None,
        };
        let external_accounting_id = match take_text(&mut row) {
            Some(v) => v,
            None => return None,
        };
        let key = match take_key(&mut row) {
            Some(v) => v,
            None => return None,
        };
        Some(Contact {
            key,
            external_accounting_id,
            entity_key,
            first_name,
            middle_initial,
            last_name,
            description,
            position,
            email,
            phone,
            secondary_email,
            secondary_phone,
            matrix_user_id,
            web_url,
            avatar_url,
            social_urls,
            address_primary,
            address_unit,
            city,
            state,
            zip_code,
            country,
            created,
            updated,
        })
    }

    /// A new record: a fresh key, created now, never updated.
    pub fn new(
        entity_key: u128,
        external_accounting_id: String,
        first_name: String,
        middle_initial: String,
        last_name: String,
        description: String,
        position: String,
        email: String,
        phone: String,
        secondary_email: String,
        secondary_phone: String,
        matrix_user_id: String,
        web_url: String,
        avatar_url: String,
        social_urls: Vec<String>,
        address_primary: String,
        address_unit: String,
        city: String,
        state: String,
        zip_code: String,
        country: String,
    ) -> (r: Contact)
        ensures
            r.key != 0,
            r.entity_key == entity_key,
            r.external_accounting_id == external_accounting_id,
            r.first_name == first_name,
            r.middle_initial == middle_initial,
            r.last_name == last_name,
            r.description == description,
            r.position == position,
            r.email == email,
            r.phone == phone,
            r.secondary_email == secondary_email,
            r.secondary_phone == secondary_phone,
            r.matrix_user_id == matrix_user_id,
            r.web_url == web_url,
            r.avatar_url == avatar_url,
            r.social_urls == social_urls,
            r.address_primary == address_primary,
            r.address_unit == address_unit,
            r.city == city,
            r.state == state,
            r.zip_code == zip_code,
            r.country == country,
            r.updated == 0,
    {
        let key = fresh_key();
        let created = now_seconds();
        Contact {
            key,
            external_accounting_id,
            entity_key,
            first_name,
            middle_initial,
            last_name,
            description,
            position,
            email,
            phone,
            secondary_email,
            secondary_phone,
            matrix_user_id,
            web_url,
            avatar_url,
            social_urls,
            address_primary,
            address_unit,
            city,
            state,
            zip_code,
            country,
            created,
            updated: 0,
        }
    }
}

/// A Contact written as a row reads back as the same Contact, field for field.
pub proof fn lemma_contact_row_round_trip(x: Contact)
    ensures
        Contact::spec_from_row(x.row_spec()) == Some(x),
{
}

impl Entity {
    /// Whether this record was created from a client's body: a fresh key,
    /// never updated, and the body's content, but `external_accounting_id` set to empty.
    pub open spec fn created_from(self, body: Entity) -> bool {
        &&& self.key != 0
        &&& self.updated == 0
        &&& self.organization_key == body.organization_key
        &&& self.external_accounting_id@.len() == 0
        &&& self.owner_key == body.owner_key
        &&& self.matrix_room_url == body.matrix_room_url
        &&& self.web_url == body.web_url
        &&& self.avatar_url == body.avatar_url
        &&& self.entity_type == body.entity_type
        &&& self.name == body.name
        &&& self.description == body.description
        &&& self.address_primary == body.address_primary
        &&& self.address_unit == body.address_unit
        &&& self.city == body.city
        &&& self.state == body.state
        &&& self.zip_code == body.zip_code
        &&& self.country == body.country
    }
}

/// Saves a client or supplier sent by a client. Without a signed-in user nothing is
/// stored; a body that could not be read is a bad request; a body with the
/// nil key is stored as a new record, with no accounting id; any other
/// body replaces the stored record with its key.
pub fn insert(session: &Result<User, AuthError>, body: Option<Entity>) -> (r: Save<Entity>)
    ensures
        session is Err ==> r is Unauthenticated,
        session is Ok && body is None ==> r is BadRequest,
        session is Ok && body is Some && body->0.key != 0 ==> r == Save::Update(body->0),
        session is Ok && body is Some && body->0.key == 0 ==> (r matches Save::Insert(n) && n.created_from(body->0)),
{
    if let Err(_) = session {
        return Save::Unauthenticated;
    }
    match body {
        None => Save::BadRequest,
        Some(b) => {
            if b.key == 0 {
                Save::Insert(
                    Entity::new(
                        b.organization_key,
                        String::new(),
                        b.owner_key,
                        b.name,
                        b.description,
                        b.matrix_room_url,
                        b.web_url,
                        b.avatar_url,
                        b.entity_type,
                        b.address_primary,
                        b.address_unit,
                        b.city,
                        b.state,
                        b.zip_code,
                        b.country,
                    ),
                )
            } else {
                Save::Update(b)
            }
        },
    }
}

impl Contact {
    /// Whether this record was created from a client's body: a fresh key,
    /// never updated, and the body's content.
    pub open spec fn created_from(self, body: Contact) -> bool {
        &&& self.key != 0
        &&& self.updated == 0
        &&& self.external_accounting_id == body.external_accounting_id
        &&& self.entity_key == body.entity_key
        &&& self.first_name == body.first_name
        &&& self.middle_initial == body.middle_initial
        &&& self.last_name == body.last_name
        &&& self.description == body.description
        &&& self.position == body.position
        &&& self.email == body.email
        &&& self.phone == body.phone
        &&& self.secondary_email == body.secondary_email
        &&& self.secondary_phone == body.secondary_phone
        &&& self.matrix_user_id == body.matrix_user_id
        &&& self.web_url == body.web_url
        &&& self.avatar_url == body.avatar_url
        &&& self.social_urls == body.social_urls
        &&& self.address_primary == body.address_primary
        &&& self.address_unit == body.address_unit
        &&& self.city == body.city
        &&& self.state == body.state
        &&& self.zip_code == body.zip_code
        &&& self.country == body.country
    }
}

/// Saves a contact sent by a client. Without a signed-in user nothing is
/// stored; a body that could not be read is a bad request; a body with the
/// nil key is stored as a new record; any other body
/// replaces the stored record with its key.
pub fn insert_contact_route(session: &Result<User, AuthError>, body: Option<Contact>) -> (r: Save<Contact>)
    ensures
        session is Err ==> r is Unauthenticated,
        session is Ok && body is None ==> r is BadRequest,
        session is Ok && body is Some && body->0.key != 0 ==> r == Save::Update(body->0),
        session is Ok && body is Some && body->0.key == 0 ==> (r matches Save::Insert(n) && n.created_from(body->0)),
{
    if let Err(_) = session {
        return Save::Unauthenticated;
    }
    match body {
        None => Save::BadRequest,
        Some(b) => {
            if b.key == 0 {
                Save::Insert(
                    Contact::new(
                        b.entity_key,
                        b.external_accounting_id,
                        b.first_name,
                        b.middle_initial,
                        b.last_name,
                        b.description,
                        b.position,
                        b.email,
                        b.phone,
                        b.secondary_email,
                        b.secondary_phone,
                        b.matrix_user_id,
                        b.web_url,
                        b.avatar_url,
                        b.social_urls,
                        b.address_primary,
                        b.address_unit,
                        b.city,
                        b.state,
                        b.zip_code,
                        b.country,
                    ),
                )
            } else {
                Save::Update(b)
            }
        },
    }
}

/// Why a client's invoice list cannot be shown.
#[derive(Clone, Copy, Debug, PartialEq, Eq, Structural)]
pub enum InvoiceError {
    /// The client's accounting id is not an integer.
    BadExternalId,
    /// An invoice names no contact.
    MissingContactId,
}

/// Whether `v` lists every position at which `ids` holds `want`.
pub open spec fn lists_all(v: Seq<usize>, ids: Seq<Option<i64>>, want: Option<i64>) -> bool {
    forall|j: int| #![trigger ids[j]] 0 <= j < ids.len() && ids[j] == want ==> exists|k: int|
        0 <= k < v.len() && v[k] == j
}

/// Positions of the invoices of one client, given each invoice's contact id
/// and the client's accounting id as text: those whose contact id is that
/// id, in order. Refused when the id is not an integer or an invoice names
/// no contact.
pub fn get_invoices(contact_ids: &Vec<Option<i64>>, external_id: &str) -> (r: Result<Vec<usize>, InvoiceError>)
    ensures
        parsed_i64(external_id@) is None <==> r == Err::<Vec<usize>, InvoiceError>(InvoiceError::BadExternalId),
        parsed_i64(external_id@) is Some && (forall|j: int| 0 <= j < contact_ids.len() ==> #[trigger] contact_ids[j] is Some)
            ==> r is Ok,
        parsed_i64(external_id@) is Some ==> (r == Err::<Vec<usize>, InvoiceError>(InvoiceError::MissingContactId)
            <==> exists|j: int| 0 <= j < contact_ids.len() && #[trigger] contact_ids[j] is None),
        r matches Ok(v) ==> forall|k: int| #![trigger v[k]] 0 <= k < v.len() ==> v[k] < contact_ids.len()
            && contact_ids[v[k] as int] == parsed_i64(external_id@),
        r matches Ok(v) ==> forall|k: int, l: int| 0 <= k < l < v.len() ==> v[k] < v[l],
        r matches Ok(v) ==> lists_all(v@, contact_ids@, parsed_i64(external_id@)),
{
    let id = match parse_int(external_id) {
        Some(v) => v,
        None => return Err(InvoiceError::BadExternalId),
    };
    let mut out: Vec<usize> = Vec::new();
    let mut i: usize = 0;
    while i < contact_ids.len()
        invariant
            i <= contact_ids.len(),
            parsed_i64(external_id@) == Some(id),
            forall|j: int| 0 <= j < i ==> #[trigger] contact_ids[j] is Some,
            forall|k: int| #![trigger out[k]] 0 <= k < out.len() ==> out[k] < i && contact_ids[out[k] as int] == Some(id),
            forall|k: int, l: int| 0 <= k < l < out.len() ==> out[k] < out[l],
            forall|j: int| #![trigger contact_ids[j]] 0 <= j < i && contact_ids[j] == Some(id) ==> exists|k: int|
                0 <= k < out.len() && out[k] == j,
        decreases contact_ids.len() - i,
    {
        match contact_ids[i] {
            None => return Err(InvoiceError::MissingContactId),
            Some(c) => {
                if c == id {
                    let ghost before = out@;
                    out.push(i);
                    assert(forall|k: int| 0 <= k < before.len() ==> out[k] == before[k]);
                    assert(out[out.len() - 1] == i);
                }
            },
        }
        i = i + 1;
    }
    assert(lists_all(out@, contact_ids@, parsed_i64(external_id@)));
    Ok(out)
}

} // verus!
