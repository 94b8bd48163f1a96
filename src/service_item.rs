//! Service items: records and their rows.

use crate::kinds::{ServiceItemType, ServiceValueType};
use crate::rows::{take_big, take_key, take_keys, take_small, take_text, SqlValue};
use crate::save::Save;
use crate::text::{fresh_key, now_seconds};
use crate::user::{AuthError, User};
use vstd::prelude::*;

verus! {

/// A service or good an organization sells.
#[derive(Clone, Debug)]
pub struct ServiceItem {
    pub key: u128,
    pub organization_key: u128,
    pub external_accounting_id: String,
    pub owner_key: u128,
    pub name: String,
    pub description: String,
    pub value: i64,
    pub currency: String,
    pub service_item_type: ServiceItemType,
    pub service_value_type: ServiceValueType,
    pub expenses: Vec<u128>,
    pub created: i64,
    pub updated: i64,
}

impl ServiceItem {
    /// The row stored for this record, in the column order of the `service_items` table.
    pub open spec fn row_spec(self) -> Seq<SqlValue> {
        seq![
            SqlValue::Key(self.key),
            SqlValue::Key(self.organization_key),
            SqlValue::Key(self.owner_key),
            SqlValue::Text(self.name),
            SqlValue::Text(self.description),
            SqlValue::BigInt(self.value),
            SqlValue::Text(self.currency),
            SqlValue::SmallInt(self.service_item_type.spec_code()),
            SqlValue::SmallInt(self.service_value_type.spec_code()),
            SqlValue::Keys(self.expenses),
            SqlValue::Text(self.external_accounting_id),
            SqlValue::BigInt(self.created),
            SqlValue::BigInt(self.updated),
        ]
    }

    /// The record a stored row reads as, if every column holds a value of its type.
    pub open spec fn spec_from_row(row: Seq<SqlValue>) -> Option<ServiceItem> {
        if row.len() == 13
            && row[0] is Key
            && row[1] is Key
            && row[2] is Key
            && row[3] is Text
            && row[4] is Text
            && row[5] is BigInt
            && row[6] is Text
            && row[7] is SmallInt
            && ServiceItemType::spec_from_code(row[7]->SmallInt_0) is Some
            && row[8] is SmallInt
            && ServiceValueType::spec_from_code(row[8]->SmallInt_0) is Some
            && row[9] is Keys
            && row[10] is Text
            && row[11] is BigInt
            && row[12] is BigInt {
            Some(ServiceItem {
                key: row[0]->Key_0,
                organization_key: row[1]->Key_0,
                external_accounting_id: row[10]->Text_0,
                owner_key: row[2]->Key_0,
                name: row[3]->Text_0,
                description: row[4]->Text_0,
                value: row[5]->BigInt_0,
                currency: row[6]->Text_0,
                service_item_type: ServiceItemType::spec_from_code(row[7]->SmallInt_0)->0,
                service_value_type: ServiceValueType::spec_from_code(row[8]->SmallInt_0)->0,
                expenses: row[9]->Keys_0,
                created: row[11]->BigInt_0,
                updated: row[12]->BigInt_0,
            })
        } else {
            None
        }
    }

    /// The row stored for this record, in the column order of the `service_items` table.
    pub fn to_row(self) -> (r: Vec<SqlValue>)
        ensures
            r@ == self.row_spec(),
    {
        let mut row: Vec<SqlValue> = Vec::new();
        row.push(SqlValue::Key(self.key));
        row.push(SqlValue::Key(self.organization_key));
        row.push(SqlValue::Key(self.owner_key));
        row.push(SqlValue::Text(self.name));
        row.push(SqlValue::Text(self.description));
        row.push(SqlValue::BigInt(self.value));
        row.push(SqlValue::Text(self.currency));
        row.push(SqlValue::SmallInt(self.service_item_type.code()));
        row.push(SqlValue::SmallInt(self.service_value_type.code()));
        row.push(SqlValue::Keys(self.expenses));
        row.push(SqlValue::Text(self.external_accounting_id));
        row.push(SqlValue::BigInt(self.created));
        row.push(SqlValue::BigInt(self.updated));
        proof {
            assert(row@ =~= self.row_spec());
        }
        row
    }

    /// Reads a stored row back; `None` when a column is missing or of another type.
    pub fn from_row(row: Vec<SqlValue>) -> (r: Option<ServiceItem>)
        ensures
            r == ServiceItem::spec_from_row(row@),
    {
        let mut row = row;
        if row.len() != 13 {
            return None;
        }
        let updated = match take_big(&mut row) {
            Some(v) => v,
            None => return None,
        };
        let created = match take_big(&mut row) {
            Some(v) => v,
            None => return None,
        };
        let external_accounting_id = match take_text(&mut row) {
            Some(v) => v,
            None => return None,
        };
        let expenses = match take_keys(&mut row) {
            Some(v) => v,
            None => return None,
        };
        let service_value_type = match take_small(&mut row) {
            Some(v) => v,
            None => return None,
        };
        let service_item_type = match take_small(&mut row) {
            Some(v) => v,
            None => return None,
        };
        let currency = match take_text(&mut row) {
            Some(v) => v,
            None => return None,
        };
        let value = match take_big(&mut row) {
            Some(v) => v,
            None => return None,
        };
        let description = match take_text(&mut row) {
            Some(v) => v,
            None => return None,
        };
        let name = match take_text(&mut row) {
            Some(v) => v,
            None => return None,
        };
        let owner_key = match take_key(&mut row) {
            Some(v) => v,
            None => return None,
        };
        let organization_key = match take_key(&mut row) {
            Some(v) => v,
            None => return None,
        };
        let key = match take_key(&mut row) {
            Some(v) => v,
            None => return None,
        };
        let service_value_type = match ServiceValueType::from_code(service_value_type) {
            Some(v) => v,
            None => return None,
        };
        let service_item_type = match ServiceItemType::from_code(service_item_type) {
            Some(v) => v,
            None => return None,
        };
        Some(ServiceItem {
            key,
            organization_key,
            external_accounting_id,
            owner_key,
            name,
            description,
            value,
            currency,
            service_item_type,
            service_value_type,
            expenses,
            created,
            updated,
        })
    }

    /// A new record: a fresh key, created now, never updated.
    pub fn new(
        organization_key: u128,
        external_accounting_id: String,
        owner_key: u128,
        name: String,
        description: String,
        value: i64,
        currency: String,
        service_item_type: ServiceItemType,
        service_value_type: ServiceValueType,
        expenses: Vec<u128>,
    ) -> (r: ServiceItem)
        ensures
            r.key != 0,
            r.organization_key == organization_key,
            r.external_accounting_id == external_accounting_id,
            r.owner_key == owner_key,
            r.name == name,
            r.description == description,
            r.value == value,
            r.currency == currency,
            r.service_item_type == service_item_type,
            r.service_value_type == service_value_type,
            r.expenses == expenses,
            r.updated == 0,
    {
        let key = fresh_key();
        let created = now_seconds();
        ServiceItem {
            key,
            organization_key,
            external_accounting_id,
            owner_key,
            name,
            description,
            value,
            currency,
            service_item_type,
            service_value_type,
            expenses,
            created,
            updated: 0,
        }
    }
}

/// A ServiceItem written as a row reads back as the same ServiceItem, field for field.
pub proof fn lemma_service_item_row_round_trip(x: ServiceItem)
    ensures
        ServiceItem::spec_from_row(x.row_spec()) == Some(x),
{
    crate::kinds::lemma_service_item_type_code_round_trip(x.service_item_type);
    crate::kinds::lemma_service_value_type_code_round_trip(x.service_value_type);
}

impl ServiceItem {
    /// Whether this record was created from a client's body: a fresh key,
    /// never updated, and the body's content.
    pub open spec fn created_from(self, body: ServiceItem) -> bool {
        &&& self.key != 0
        &&& self.updated == 0
        &&& self.organization_key == body.organization_key
        &&& self.external_accounting_id == body.external_accounting_id
        &&& self.owner_key == body.owner_key
        &&& self.name == body.name
        &&& self.description == body.description
        &&& self.value == body.value
        &&& self.currency == body.currency
        &&& self.service_item_type == body.service_item_type
        &&& self.service_value_type == body.service_value_type
        &&& self.expenses == body.expenses
    }
}

/// Saves a service item sent by a client. Without a signed-in user nothing is
/// stored; a body that could not be read is a bad request; a body with the
/// nil key is stored as a new record; any other body
/// replaces the stored record with its key.
pub fn insert(session: &Result<User, AuthError>, body: Option<ServiceItem>) -> (r: Save<ServiceItem>)
    ensures
        session is Err ==> r is Unauthenticated,
        session is Ok && body is None ==> r is BadRequest,
        session is Ok && body is Some && body->0.key != 0 ==> r == Save::Update(body->0),
        session is Ok && body is Some && body->0.key == 0 ==> (r matches Save::Insert(n) && n.created_from(body->0)),
{
    if let Err(_) = session {
        return Save::Unauthenticated;
    }
    match body {
        None => Save::BadRequest,
        Some(b) => {
            if b.key == 0 {
                Save::Insert(
                    ServiceItem::new(
                        b.organization_key,
                        b.external_accounting_id,
                        b.owner_key,
                        b.name,
                        b.description,
                        b.value,
                        b.currency,
                        b.service_item_type,
                        b.service_value_type,
                        b.expenses,
                    ),
                )
            } else {
                Save::Update(b)
            }
        },
    }
}

} // verus!
