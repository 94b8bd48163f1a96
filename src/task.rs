//! Tasks: records, their rows, and saving a task.

use crate::kinds::TaskStatus;
use crate::rows::{take_big, take_int, take_key, take_small, take_text, SqlValue};
use crate::save::Save;
use crate::text::{fresh_key, now_seconds};
use crate::user::{AuthError, User};
use vstd::prelude::*;

verus! {

/// A unit of work inside a project.
#[derive(Clone, Debug)]
pub struct Task {
    pub key: u128,
    pub organization_key: u128,
    pub project_key: u128,
    pub owner_key: u128,
    pub assignee_key: u128,
    pub name: String,
    pub description: String,
    pub tags: String,
    pub status: TaskStatus,
    pub estimated_quarter_days: i32,
    pub start: i64,
    pub due: i64,
    pub created: i64,
    pub updated: i64,
}

impl Task {
    /// The row stored for this record, in the column order of the `tasks` table.
    pub open spec fn row_spec(self) -> Seq<SqlValue> {
        seq![
            SqlValue::Key(self.key),
            SqlValue::Key(self.owner_key),
            SqlValue::Key(self.organization_key),
            SqlValue::Key(self.project_key),
            SqlValue::Key(self.assignee_key),
            SqlValue::Text(self.name),
            SqlValue::Text(self.description),
            SqlValue::Text(self.tags),
            SqlValue::SmallInt(self.status.spec_code()),
            SqlValue::Int(self.estimated_quarter_days),
            SqlValue::BigInt(self.start),
            SqlValue::BigInt(self.due),
            SqlValue::BigInt(self.created),
            SqlValue::BigInt(self.updated),
        ]
    }

    /// The record a stored row reads as, if every column holds a value of its type.
    pub open spec fn spec_from_row(row: Seq<SqlValue>) -> Option<Task> {
        if row.len() == 14
            && row[0] is Key
            && row[1] is Key
            && row[2] is Key
            && row[3] is Key
            && row[4] is Key
            && row[5] is Text
            && row[6] is Text
            && row[7] is Text
            && row[8] is SmallInt
            && TaskStatus::spec_from_code(row[8]->SmallInt_0) is Some
            && row[9] is Int
            && row[10] is BigInt
            && row[11] is BigInt
            && row[12] is BigInt
            && row[13] is BigInt {
            Some(Task {
                key: row[0]->Key_0,
                organization_key: row[2]->Key_0,
                project_key: row[3]->Key_0,
                owner_key: row[1]->Key_0,
                assignee_key: row[4]->Key_0,
                name: row[5]->Text_0,
                description: row[6]->Text_0,
                tags: row[7]->Text_0,
                status: TaskStatus::spec_from_code(row[8]->SmallInt_0)->0,
                estimated_quarter_days: row[9]->Int_0,
                start: row[10]->BigInt_0,
                due: row[11]->BigInt_0,
                created: row[12]->BigInt_0,
                updated: row[13]->BigInt_0,
            })
        } else {
            None
        }
    }

    /// The row stored for this record, in the column order of the `tasks` table.
    pub fn to_row(self) -> (r: Vec<SqlValue>)
        ensures
            r@ == self.row_spec(),
    {
        let mut row: Vec<SqlValue> = Vec::new();
        row.push(SqlValue::Key(self.key));
        row.push(SqlValue::Key(self.owner_key));
        row.push(SqlValue::Key(self.organization_key));
        row.push(SqlValue::Key(self.project_key));
        row.push(SqlValue::Key(self.assignee_key));
        row.push(SqlValue::Text(self.name));
        row.push(SqlValue::Text(self.description));
        row.push(SqlValue::Text(self.tags));
        row.push(SqlValue::SmallInt(self.status.code()));
        row.push(SqlValue::Int(self.estimated_quarter_days));
        row.push(SqlValue::BigInt(self.start));
        row.push(SqlValue::BigInt(self.due));
        row.push(SqlValue::BigInt(self.created));
        row.push(SqlValue::BigInt(self.updated));
        proof {
            assert(row@ =~= self.row_spec());
        }
        row
    }

    /// Reads a stored row back; `None` when a column is missing or of another type.
    pub fn from_row(row: Vec<SqlValue>) -> (r: Option<Task>)
        ensures
            r == Task::spec_from_row(row@),
    {
        let mut row = row;
        if row.len() != 14 {
            return None;
        }
        let updated = match take_big(&mut row) {
            Some(v) => v,
            None => return None,
        };
        let created = match take_big(&mut row) {
            Some(v) => v,
            None => return None,
        };
        let due = match take_big(&mut row) {
            Some(v) => v,
            None => return None,
        };
        let start = match take_big(&mut row) {
            Some(v) => v,
            None => return None,
        };
        let estimated_quarter_days = match take_int(&mut row) {
            Some(v) => v,
            None => return None,
        };
        let status = match take_small(&mut row) {
            Some(v) => v,
            None => return None,
        };
        let tags = match take_text(&mut row) {
            Some(v) => v,
            None => return None,
        };
        let description = match take_text(&mut row) {
            Some(v) => v,
            None => return None,
        };
        let name = match take_text(&mut row) {
            Some(v) => v,
            None => return None,
        };
        let assignee_key = match take_key(&mut row) {
            Some(v) => v,
            None => return None,
        };
        let project_key = match take_key(&mut row) {
            Some(v) => v,
            None => return None,
        };
        let organization_key = match take_key(&mut row) {
            Some(v) => v,
            None => return None,
        };
        let owner_key = match take_key(&mut row) {
            Some(v) => v,
            None => return None,
        };
        let key = match take_key(&mut row) {
            Some(v) => v,
            None => return None,
        };
        let status = match TaskStatus::from_code(status) {
            Some(v) => v,
            None => return None,
        };
        Some(Task {
            key,
            organization_key,
            project_key,
            owner_key,
            assignee_key,
            name,
            description,
            tags,
            status,
            estimated_quarter_days,
            start,
            due,
            created,
            updated,
        })
    }

    /// A new record: a fresh key, created now, never updated.
    pub fn new(
        organization_key: u128,
        project_key: u128,
        owner_key: u128,
        assignee_key: u128,
        name: String,
        description: String,
        tags: String,
        status: TaskStatus,
        estimated_quarter_days: i32,
        start: i64,
        due: i64,
    ) -> (r: Task)
        ensures
            r.key != 0,
            r.organization_key == organization_key,
            r.project_key == project_key,
            r.owner_key == owner_key,
            r.assignee_key == assignee_key,
            r.name == name,
            r.description == description,
            r.tags == tags,
            r.status == status,
            r.estimated_quarter_days == estimated_quarter_days,
            r.start == start,
            r.due == due,
            r.updated == 0,
    {
        let key = fresh_key();
        let created = now_seconds();
        Task {
            key,
            organization_key,
            project_key,
            owner_key,
            assignee_key,
            name,
            description,
            tags,
            status,
            estimated_quarter_days,
            start,
            due,
            created,
            updated: 0,
        }
    }
}

/// A Task written as a row reads back as the same Task, field for field.
pub proof fn lemma_task_row_round_trip(x: Task)
    ensures
        Task::spec_from_row(x.row_spec()) == Some(x),
{
    crate::kinds::lemma_task_status_code_round_trip(x.status);
}

impl Task {
    /// Whether this record was created from a client's body: a fresh key,
    /// never updated, and the body's content, but `status` set to `Todo`.
    pub open spec fn created_from(self, body: Task) -> bool {
        &&& self.key != 0
        &&& self.updated == 0
        &&& self.organization_key == body.organization_key
        &&& self.project_key == body.project_key
        &&& self.owner_key == body.owner_key
        &&& self.assignee_key == body.assignee_key
        &&& self.name == body.name
        &&& self.description == body.description
        &&& self.tags == body.tags
        &&& self.status == TaskStatus::Todo
        &&& self.estimated_quarter_days == body.estimated_quarter_days
        &&& self.start == body.start
        &&& self.due == body.due
    }
}

/// Saves a task sent by a client. Without a signed-in user nothing is
/// stored; a body that could not be read is a bad request; a body with the
/// nil key is stored as a new record, its status `Todo` whatever the body
/// says; any other body replaces the stored record with its key.
pub fn insert(session: &Result<User, AuthError>, body: Option<Task>) -> (r: Save<Task>)
    ensures
        session is Err ==> r is Unauthenticated,
        session is Ok && body is None ==> r is BadRequest,
        session is Ok && body is Some && body->0.key != 0 ==> r == Save::Update(body->0),
        session is Ok && body is Some && body->0.key == 0 ==> (r matches Save::Insert(n) && n.created_from(body->0)),
{
    if let Err(_) = session {
        return Save::Unauthenticated;
    }
    match body {
        None => Save::BadRequest,
        Some(b) => {
            if b.key == 0 {
                Save::Insert(
                    Task::new(
                        b.organization_key,
                        b.project_key,
                        b.owner_key,
                        b.assignee_key,
                        b.name,
                        b.description,
                        b.tags,
                        TaskStatus::Todo,
                        b.estimated_quarter_days,
                        b.start,
                        b.due,
                    ),
                )
            } else {
                Save::Update(b)
            }
        },
    }
}

} // verus!
