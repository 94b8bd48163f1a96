//! Task boards: records, their rows, and lanes.

use crate::kinds::TaskStatus;
use crate::rows::{take_big, take_key, take_text, take_texts, SqlValue};
use crate::save::Save;
use crate::task::Task;
use crate::text::{fresh_key, now_seconds};
use crate::user::{AuthError, User};
use vstd::prelude::*;

verus! {

/// A task board: its columns, lanes and filter.
#[derive(Clone, Debug)]
pub struct Board {
    pub key: u128,
    pub organization_key: u128,
    pub owner_key: u128,
    pub name: String,
    pub description: String,
    pub columns: Vec<String>,
    pub lanes: Vec<String>,
    pub filter: String,
    pub created: i64,
    pub updated: i64,
}

impl Board {
    /// The row stored for this record, in the column order of the `boards` table.
    pub open spec fn row_spec(self) -> Seq<SqlValue> {
        seq![
            SqlValue::Key(self.key),
            SqlValue::Key(self.organization_key),
            SqlValue::Key(self.owner_key),
            SqlValue::Text(self.name),
            SqlValue::Text(self.description),
            SqlValue::Texts(self.columns),
            SqlValue::Texts(self.lanes),
            SqlValue::Text(self.filter),
            SqlValue::BigInt(self.created),
            SqlValue::BigInt(self.updated),
        ]
    }

    /// The record a stored row reads as, if every column holds a value of its type.
    pub open spec fn spec_from_row(row: Seq<SqlValue>) -> Option<Board> {
        if row.len() == 10
            && row[0] is Key
            && row[1] is Key
            && row[2] is Key
            && row[3] is Text
            && row[4] is Text
            && row[5] is Texts
            && row[6] is Texts
            && row[7] is Text
            && row[8] is BigInt
            && row[9] is BigInt {
            Some(Board {
                key: row[0]->Key_0,
                organization_key: row[1]->Key_0,
                owner_key: row[2]->Key_0,
                name: row[3]->Text_0,
                description: row[4]->Text_0,
                columns: row[5]->Texts_0,
                lanes: row[6]->Texts_0,
                filter: row[7]->Text_0,
                created: row[8]->BigInt_0,
                updated: row[9]->BigInt_0,
            })
        } else {
            None
        }
    }

    /// The row stored for this record, in the column order of the `boards` table.
    pub fn to_row(self) -> (r: Vec<SqlValue>)
        ensures
            r@ == self.row_spec(),
    {
        let mut row: Vec<SqlValue> = Vec::new();
        row.push(SqlValue::Key(self.key));
        row.push(SqlValue::Key(self.organization_key));
        row.push(SqlValue::Key(self.owner_key));
        row.push(SqlValue::Text(self.name));
        row.push(SqlValue::Text(self.description));
        row.push(SqlValue::Texts(self.columns));
        row.push(SqlValue::Texts(self.lanes));
        row.push(SqlValue::Text(self.filter));
        row.push(SqlValue::BigInt(self.created));
        row.push(SqlValue::BigInt(self.updated));
        proof {
            assert(row@ =~= self.row_spec());
        }
        row
    }

    /// Reads a stored row back; `None` when a column is missing or of another type.
    pub fn from_row(row: Vec<SqlValue>) -> (r: Option<Board>)
        ensures
            r == Board::spec_from_row(row@),
    {
        let mut row = row;
        if row.len() != 10 {
            return None;
        }
        let updated = match take_big(&mut row) {
            Some(v) => v,
            None => return None,
        };
        let created = match take_big(&mut row) {
            Some(v) => v,
            None => return None,
        };
        let filter = match take_text(&mut row) {
            Some(v) => v,
            None => return None,
        };
        let lanes = match take_texts(&mut row) {
            Some(v) => v,
            None => return None,
        };
        let columns = match take_texts(&mut row) {
            Some(v) => v,
            None => return None,
        };
        let description = match take_text(&mut row) {
            Some(v) => v,
            None => return None,
        };
        let name = match take_text(&mut row) {
            Some(v) => v,
            None => return None,
        };
        let owner_key = match take_key(&mut row) {
            Some(v) => v,
            None => return None,
        };
        let organization_key = match take_key(&mut row) {
            Some(v) => v,
            None => return None,
        };
        let key = match take_key(&mut row) {
            Some(v) => v,
            None => return None,
        };
        Some(Board {
            key,
            organization_key,
            owner_key,
            name,
            description,
            columns,
            lanes,
            filter,
            created,
            updated,
        })
    }

    /// A new record: a fresh key, created now, never updated.
    pub fn new(
        organization_key: u128,
        owner_key: u128,
        name: String,
        description: String,
        columns: Vec<String>,
        lanes: Vec<String>,
        filter: String,
    ) -> (r: Board)
        ensures
            r.key != 0,
            r.organization_key == organization_key,
            r.owner_key == owner_key,
            r.name == name,
            r.description == description,
            r.columns == columns,
            r.lanes == lanes,
            r.filter == filter,
            r.updated == 0,
    {
        let key = fresh_key();
        let created = now_seconds();
        Board {
            key,
            organization_key,
            owner_key,
            name,
            description,
            columns,
            lanes,
            filter,
            created,
            updated: 0,
        }
    }
}

/// A Board written as a row reads back as the same Board, field for field.
pub proof fn lemma_board_row_round_trip(x: Board)
    ensures
        Board::spec_from_row(x.row_spec()) == Some(x),
{
}

impl Board {
    /// Whether this record was created from a client's body: a fresh key,
    /// never updated, and the body's content.
    pub open spec fn created_from(self, body: Board) -> bool {
        &&& self.key != 0
        &&& self.updated == 0
        &&& self.organization_key == body.organization_key
        &&& self.owner_key == body.owner_key
        &&& self.name == body.name
        &&& self.description == body.description
        &&& self.columns == body.columns
        &&& self.lanes == body.lanes
        &&& self.filter == body.filter
    }
}

/// Saves a board sent by a client. Without a signed-in user nothing is
/// stored; a body that could not be read is a bad request; a body with the
/// nil key is stored as a new record; any other body
/// replaces the stored record with its key.
pub fn insert(session: &Result<User, AuthError>, body: Option<Board>) -> (r: Save<Board>)
    ensures
        session is Err ==> r is Unauthenticated,
        session is Ok && body is None ==> r is BadRequest,
        session is Ok && body is Some && body->0.key != 0 ==> r == Save::Update(body->0),
        session is Ok && body is Some && body->0.key == 0 ==> (r matches Save::Insert(n) && n.created_from(body->0)),
{
    if let Err(_) = session {
        return Save::Unauthenticated;
    }
    match body {
        None => Save::BadRequest,
        Some(b) => {
            if b.key == 0 {
                Save::Insert(
                    Board::new(
                        b.organization_key,
                        b.owner_key,
                        b.name,
                        b.description,
                        b.columns,
                        b.lanes,
                        b.filter,
                    ),
                )
            } else {
                Save::Update(b)
            }
        },
    }
}

/// A text with its spaces taken out.
pub open spec fn no_spaces(s: Seq<char>) -> Seq<char>
    decreases s.len(),
{
    if s.len() == 0 {
        s
    } else if s.last() == ' ' {
        no_spaces(s.drop_last())
    } else {
        no_spaces(s.drop_last()).push(s.last())
    }
}

/// A text with its spaces taken out.
pub fn without_spaces(s: &str) -> (r: String)
    ensures
        r@ == no_spaces(s@),
{
    let n = s.unicode_len();
    let mut out = String::new();
    let mut i: usize = 0;
    while i < n
        invariant
            n == s@.len(),
            i <= n,
            out@ == no_spaces(s@.take(i as int)),
        decreases n - i,
    {
        let c = s.get_char(i);
        proof {
            assert(s@.take(i + 1).drop_last() =~= s@.take(i as int));
        }
        if c != ' ' {
            let one = char_text(c);
            out.append(one.as_str());
        }
        i = i + 1;
    }
    proof {
        assert(s@.take(n as int) =~= s@);
    }
    out
}

/// A text of one character.
fn char_text(c: char) -> (r: String)
    ensures
        r@ == seq![c],
{
    let mut v: Vec<char> = Vec::new();
    v.push(c);
    crate::text::chars_text(&v)
}

/// What the page of a board shows: the board, the signed-in user, the
/// organization's tasks and its users.
#[derive(Clone, Debug)]
pub struct BoardTemplate {
    pub board: Board,
    pub user: User,
    pub tasks: Vec<Task>,
    pub users: Vec<User>,
}

impl BoardTemplate {
    /// The page of a board.
    pub fn new(board: Board, user: User, tasks: Vec<Task>, users: Vec<User>) -> (r: BoardTemplate)
        ensures
            r == (BoardTemplate { board, user, tasks, users }),
    {
        BoardTemplate { board, user, tasks, users }
    }

    /// The title of a lane of the board; `None` for a lane no status names.
    pub fn lane_name(&self, lane: &str) -> (r: Option<String>)
        ensures
            r is Some <==> TaskStatus::spec_from_label(lane@) is Some,
            r matches Some(t) ==> t@ == TaskStatus::spec_from_label(lane@)->0.label(),
    {
        lane_name(lane)
    }

    /// Positions of the tasks in a lane of the board, in order; none for a
    /// lane no status names.
    pub fn get_tasks(&self, lane: &str) -> (r: Vec<usize>)
        ensures
            forall|k: int| #![trigger r[k]] 0 <= k < r.len() ==> r[k] < self.tasks.len()
                && Some(self.tasks[r[k] as int].status) == TaskStatus::spec_from_label(lane@),
            forall|k: int, l: int| 0 <= k < l < r.len() ==> r[k] < r[l],
            forall|j: int| 0 <= j < self.tasks.len() && Some(#[trigger] self.tasks[j].status) == TaskStatus::spec_from_label(lane@)
                ==> exists|k: int| 0 <= k < r.len() && r[k] == j,
    {
        get_tasks(lane, &self.tasks)
    }

    /// Whether the board shows the lane of a status.
    pub fn lane_contained(&self, lane: &TaskStatus) -> (r: bool)
        ensures
            r == exists|j: int| 0 <= j < self.board.lanes.len() && #[trigger] self.board.lanes[j]@ == no_spaces(lane.label()),
    {
        lane_contained(lane, &self.board.lanes)
    }
}

/// The title of a lane of a board: the shown text of the status it is named
/// after; `None` for a lane no status names.
pub fn lane_name(lane: &str) -> (r: Option<String>)
    ensures
        r is Some <==> TaskStatus::spec_from_label(lane@) is Some,
        r matches Some(t) ==> t@ == TaskStatus::spec_from_label(lane@)->0.label(),
{
    match TaskStatus::from_str(lane) {
        Ok(status) => Some(status.to_string()),
        Err(_) => None,
    }
}

/// Positions of the tasks in the lane named after a status, in order; none
/// for a lane no status names.
pub fn get_tasks(lane: &str, tasks: &Vec<Task>) -> (r: Vec<usize>)
    ensures
        forall|k: int| #![trigger r[k]] 0 <= k < r.len() ==> r[k] < tasks.len()
            && Some(tasks[r[k] as int].status) == TaskStatus::spec_from_label(lane@),
        forall|k: int, l: int| 0 <= k < l < r.len() ==> r[k] < r[l],
        forall|j: int| 0 <= j < tasks.len() && Some(#[trigger] tasks[j].status) == TaskStatus::spec_from_label(lane@)
            ==> exists|k: int| 0 <= k < r.len() && r[k] == j,
{
    let status = match TaskStatus::from_str(lane) {
        Ok(s) => s,
        Err(_) => return Vec::new(),
    };
    let mut out: Vec<usize> = Vec::new();
    let mut i: usize = 0;
    while i < tasks.len()
        invariant
            i <= tasks.len(),
            Some(status) == TaskStatus::spec_from_label(lane@),
            forall|k: int| #![trigger out[k]] 0 <= k < out.len() ==> out[k] < i && tasks[out[k] as int].status == status,
            forall|k: int, l: int| 0 <= k < l < out.len() ==> out[k] < out[l],
            forall|j: int| 0 <= j < i && #[trigger] tasks[j].status == status ==> exists|k: int|
                0 <= k < out.len() && out[k] == j,
        decreases tasks.len() - i,
    {
        if tasks[i].status == status {
            let ghost before = out@;
            out.push(i);
            assert(forall|k: int| 0 <= k < before.len() ==> out[k] == before[k]);
            assert(out[out.len() - 1] == i);
        }
        i = i + 1;
    }
    out
}

/// Whether a board shows the lane of a status: one of its lanes is the
/// status's shown text without spaces.
pub fn lane_contained(lane: &TaskStatus, lanes: &Vec<String>) -> (r: bool)
    ensures
        r == exists|j: int| 0 <= j < lanes.len() && #[trigger] lanes[j]@ == no_spaces(lane.label()),
{
    let label = lane.to_string();
    let compact = without_spaces(label.as_str());
    let mut i: usize = 0;
    while i < lanes.len()
        invariant
            i <= lanes.len(),
            compact@ == no_spaces(lane.label()),
            forall|j: int| 0 <= j < i ==> #[trigger] lanes[j]@ != no_spaces(lane.label()),
        decreases lanes.len() - i,
    {
        if lanes[i] == compact {
            return true;
        }
        i = i + 1;
    }
    false
}

} // verus!
