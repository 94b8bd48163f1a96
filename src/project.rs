//! Projects: records and their rows.

use crate::entity::{Contact, Entity};
use crate::file::File;
use crate::kinds::TaskStatus;
use crate::milestone::Milestone;
use crate::note::Note;
use crate::rows::{take_big, take_int, take_key, take_text, SqlValue};
use crate::save::Save;
use crate::task::Task;
use crate::text::{decimal_text, fresh_key, int_text, now_seconds};
use crate::user::{AuthError, User};
use chrono::Datelike;
use vstd::prelude::*;
use vstd::string::*;

verus! {

/// A project of an organization.
#[derive(Clone, Debug)]
pub struct Project {
    pub key: u128,
    pub organization_key: u128,
    pub owner_key: u128,
    pub name: String,
    pub description: String,
    pub tags: String,
    pub estimated_quarter_days: i32,
    pub start: i64,
    pub due: i64,
    pub created: i64,
    pub updated: i64,
}

impl Project {
    /// The row stored for this record, in the column order of the `projects` table.
    pub open spec fn row_spec(self) -> Seq<SqlValue> {
        seq![
            SqlValue::Key(self.key),
            SqlValue::Key(self.organization_key),
            SqlValue::Key(self.owner_key),
            SqlValue::Text(self.name),
            SqlValue::Text(self.description),
            SqlValue::Text(self.tags),
            SqlValue::Int(self.estimated_quarter_days),
            SqlValue::BigInt(self.start),
            SqlValue::BigInt(self.due),
            SqlValue::BigInt(self.created),
            SqlValue::BigInt(self.updated),
        ]
    }

    /// The record a stored row reads as, if every column holds a value of its type.
    pub open spec fn spec_from_row(row: Seq<SqlValue>) -> Option<Project> {
        if row.len() == 11
            && row[0] is Key
            && row[1] is Key
            && row[2] is Key
            && row[3] is Text
            && row[4] is Text
            && row[5] is Text
            && row[6] is Int
            && row[7] is BigInt
            && row[8] is BigInt
            && row[9] is BigInt
            && row[10] is BigInt {
            Some(Project {
                key: row[0]->Key_0,
                organization_key: row[1]->Key_0,
                owner_key: row[2]->Key_0,
                name: row[3]->Text_0,
                description: row[4]->Text_0,
                tags: row[5]->Text_0,
                estimated_quarter_days: row[6]->Int_0,
                start: row[7]->BigInt_0,
                due: row[8]->BigInt_0,
                created: row[9]->BigInt_0,
                updated: row[10]->BigInt_0,
            })
        } else {
            None
        }
    }

    /// The row stored for this record, in the column order of the `projects` table.
    pub fn to_row(self) -> (r: Vec<SqlValue>)
        ensures
            r@ == self.row_spec(),
    {
        let mut row: Vec<SqlValue> = Vec::new();
        row.push(SqlValue::Key(self.key));
        row.push(SqlValue::Key(self.organization_key));
        row.push(SqlValue::Key(self.owner_key));
        row.push(SqlValue::Text(self.name));
        row.push(SqlValue::Text(self.description));
        row.push(SqlValue::Text(self.tags));
        row.push(SqlValue::Int(self.estimated_quarter_days));
        row.push(SqlValue::BigInt(self.start));
        row.push(SqlValue::BigInt(self.due));
        row.push(SqlValue::BigInt(self.created));
        row.push(SqlValue::BigInt(self.updated));
        proof {
            assert(row@ =~= self.row_spec());
        }
        row
    }

    /// Reads a stored row back; `None` when a column is missing or of another type.
    pub fn from_row(row: Vec<SqlValue>) -> (r: Option<Project>)
        ensures
            r == Project::spec_from_row(row@),
    {
        let mut row = row;
        if row.len() != 11 {
            return None;
        }
        let updated = match take_big(&mut row) {
            Some(v) => v,
            None => return None,
        };
        let created = match take_big(&mut row) {
            Some(v) => v,
            None => return None,
        };
        let due = match take_big(&mut row) {
            Some(v) => v,
            None => return None,
        };
        let start = match take_big(&mut row) {
            Some(v) => v,
            None => return None,
        };
        let estimated_quarter_days = match take_int(&mut row) {
            Some(v) => v,
            None => return None,
        };
        let tags = match take_text(&mut row) {
            Some(v) => v,
            None => return None,
        };
        let description = match take_text(&mut row) {
            Some(v) => v,
            None => return None,
        };
        let name = match take_text(&mut row) {
            Some(v) => v,
            None => return None,
        };
        let owner_key = match take_key(&mut row) {
            Some(v) => v,
            None => return None,
        };
        let organization_key = match take_key(&mut row) {
            Some(v) => v,
            None => return None,
        };
        let key = match take_key(&mut row) {
            Some(v) => v,
            None => return None,
        };
        Some(Project {
            key,
            organization_key,
            owner_key,
            name,
            description,
            tags,
            estimated_quarter_days,
            start,
            due,
            created,
            updated,
        })
    }

    /// A new record: a fresh key, created now, never updated.
    pub fn new(
        organization_key: u128,
        owner_key: u128,
        name: String,
        description: String,
        tags: String,
        estimated_quarter_days: i32,
        start: i64,
        due: i64,
    ) -> (r: Project)
        ensures
            r.key != 0,
            r.organization_key == organization_key,
            r.owner_key == owner_key,
            r.name == name,
            r.description == description,
            r.tags == tags,
            r.estimated_quarter_days == estimated_quarter_days,
            r.start == start,
            r.due == due,
            r.updated == 0,
    {
        let key = fresh_key();
        let created = now_seconds();
        Project {
            key,
            organization_key,
            owner_key,
            name,
            description,
            tags,
            estimated_quarter_days,
            start,
            due,
            created,
            updated: 0,
        }
    }
}

/// A Project written as a row reads back as the same Project, field for field.
pub proof fn lemma_project_row_round_trip(x: Project)
    ensures
        Project::spec_from_row(x.row_spec()) == Some(x),
{
}

impl Project {
    /// Whether this record was created from a client's body: a fresh key,
    /// never updated, and the body's content.
    pub open spec fn created_from(self, body: Project) -> bool {
        &&& self.key != 0
        &&& self.updated == 0
        &&& self.organization_key == body.organization_key
        &&& self.owner_key == body.owner_key
        &&& self.name == body.name
        &&& self.description == body.description
        &&& self.tags == body.tags
        &&& self.estimated_quarter_days == body.estimated_quarter_days
        &&& self.start == body.start
        &&& self.due == body.due
    }
}

/// Saves a project sent by a client. Without a signed-in user nothing is
/// stored; a body that could not be read is a bad request; a body with the
/// nil key is stored as a new record; any other body
/// replaces the stored record with its key.
pub fn insert(session: &Result<User, AuthError>, body: Option<Project>) -> (r: Save<Project>)
    ensures
        session is Err ==> r is Unauthenticated,
        session is Ok && body is None ==> r is BadRequest,
        session is Ok && body is Some && body->0.key != 0 ==> r == Save::Update(body->0),
        session is Ok && body is Some && body->0.key == 0 ==> (r matches Save::Insert(n) && n.created_from(body->0)),
{
    if let Err(_) = session {
        return Save::Unauthenticated;
    }
    match body {
        None => Save::BadRequest,
        Some(b) => {
            if b.key == 0 {
                Save::Insert(
                    Project::new(
                        b.organization_key,
                        b.owner_key,
                        b.name,
                        b.description,
                        b.tags,
                        b.estimated_quarter_days,
                        b.start,
                        b.due,
                    ),
                )
            } else {
                Save::Update(b)
            }
        },
    }
}

/// What the page of a project shows.
#[derive(Clone, Debug)]
pub struct ProjectTemplate {
    pub project: Project,
    pub tasks: Vec<Task>,
    pub milestones: Vec<Milestone>,
    pub user: User,
    pub entitys: Vec<Entity>,
    pub contacts: Vec<Contact>,
    pub notes: Vec<Note>,
    pub files: Vec<File>,
}

impl ProjectTemplate {
    /// The page of a project.
    pub fn new(
        project: Project,
        tasks: Vec<Task>,
        milestones: Vec<Milestone>,
        user: User,
        entitys: Vec<Entity>,
        contacts: Vec<Contact>,
        notes: Vec<Note>,
        files: Vec<File>,
    ) -> (r: ProjectTemplate)
        ensures
            r == (ProjectTemplate { project, tasks, milestones, user, entitys, contacts, notes, files }),
    {
        ProjectTemplate { project, tasks, milestones, user, entitys, contacts, notes, files }
    }

    /// The background colour a task of a status is drawn with.
    pub fn get_task_background_color(&self, status: &TaskStatus) -> (r: String)
        ensures
            r@ == task_color(*status),
    {
        get_task_background_color(status)
    }

    /// The place of a dated item in the week grid.
    pub fn get_grid_column(&self, start: &i64, due: &i64) -> (r: Option<String>)
        ensures
            r is Some <==> in_calendar(*start) && in_calendar(*due),
            r matches Some(t) ==> t@ == decimal_text((*start / 86400 + 3) % 7 + 1) + " / span "@
                + decimal_text(*due / 86400 - *start / 86400),
    {
        get_grid_column(*start, *due)
    }
}

/// The background colour a task of a status is drawn with.
pub open spec fn task_color(status: TaskStatus) -> Seq<char> {
    match status {
        TaskStatus::Wishlist => "#cc66ff85"@,
        TaskStatus::Todo => "#ff6a4a85"@,
        TaskStatus::PlanningAndEstimating => "#ffb26085"@,
        TaskStatus::InQueue => "#f9ff5b85"@,
        TaskStatus::InProgress => "#61d1d085"@,
        TaskStatus::ToReview => "#658cff85"@,
        TaskStatus::InReviewal => "#D2CAFF85"@,
        TaskStatus::Complete => "#64ff6385"@,
    }
}

/// The background colour a task of a status is drawn with.
pub fn get_task_background_color(status: &TaskStatus) -> (r: String)
    ensures
        r@ == task_color(*status),
{
    match status {
        TaskStatus::Wishlist => "#cc66ff85".to_owned(),
        TaskStatus::Todo => "#ff6a4a85".to_owned(),
        TaskStatus::PlanningAndEstimating => "#ffb26085".to_owned(),
        TaskStatus::InQueue => "#f9ff5b85".to_owned(),
        TaskStatus::InProgress => "#61d1d085".to_owned(),
        TaskStatus::ToReview => "#658cff85".to_owned(),
        TaskStatus::InReviewal => "#D2CAFF85".to_owned(),
        TaskStatus::Complete => "#64ff6385".to_owned(),
    }
}

/// The first day of chrono's calendar (1 January of year -262143), counted
/// from 1 January of year 1 as day 1.
pub const FIRST_CALENDAR_DAY: i64 = -95746129;

/// The last day of chrono's calendar (31 December of year 262142), counted
/// from 1 January of year 1 as day 1.
pub const LAST_CALENDAR_DAY: i64 = 95745399;

/// Whether chrono's calendar reaches the day a timestamp falls on.
pub open spec fn in_calendar(ts: i64) -> bool {
    FIRST_CALENDAR_DAY <= ts / 86400 + 719163 <= LAST_CALENDAR_DAY
}

/// Relies on chrono's `DateTime::from_timestamp(secs, 0)`,
/// `Datelike::num_days_from_ce` and `Weekday::num_days_from_monday`: the
/// day a timestamp falls on, counted from 1 January of year 1 (1 January
/// 1970 is day 719163), and its weekday counted from Monday, when chrono's
/// calendar reaches that day (`from_num_days_from_ce_opt` refuses the others).
#[verifier::external_body]
fn calendar_day(ts: i64) -> (r: Option<(i32, u32)>)
    ensures
        r is Some <==> in_calendar(ts),
        r matches Some((d, w)) ==> d == ts / 86400 + 719163 && w == (ts / 86400 + 3) % 7,
{
    chrono::DateTime::from_timestamp(ts, 0).map(
        |t| (t.date_naive().num_days_from_ce(), t.weekday().num_days_from_monday()),
    )
}

/// The place of a dated item in a week grid, as a grid-column value: the
/// weekday its start falls on (Monday is column 1), spanning the days from
/// start to due. `None` when a time lies beyond the calendar's range.
pub fn get_grid_column(start: i64, due: i64) -> (r: Option<String>)
    ensures
        r is Some <==> in_calendar(start) && in_calendar(due),
        r matches Some(t) ==> t@ == decimal_text((start / 86400 + 3) % 7 + 1) + " / span "@
            + decimal_text(due / 86400 - start / 86400),
{
    let (start_day, weekday) = match calendar_day(start) {
        Some(v) => v,
        None => return None,
    };
    let (due_day, _) = match calendar_day(due) {
        Some(v) => v,
        None => return None,
    };
    let column = int_text(weekday as i64 + 1);
    let span = int_text(due_day as i64 - start_day as i64);
    let mut t = column;
    t.append(" / span ");
    t.append(span.as_str());
    Some(t)
}

} // verus!
