//! Chat rooms and the notifications sent to them.

use crate::board::Board;
use crate::entity::{Contact, Entity};
use crate::file::File;
use crate::kinds::MessageDataType;
use crate::milestone::Milestone;
use crate::note::Note;
use crate::project::Project;
use crate::rows::{take_big, take_key, take_small, take_text, SqlValue};
use crate::task::Task;
use crate::text::{decimal_text, int_text, key_text, key_text_of, replace_all, replaced};
use vstd::prelude::*;
use vstd::string::*;

verus! {

/// A chat room that subscribes to notifications of one kind for an organization.
#[derive(Clone, Debug)]
pub struct Room {
    pub key: u128,
    pub owner_key: u128,
    pub organization_key: u128,
    pub name: String,
    pub description: String,
    pub matrix_room_url: String,
    pub matrix_room_id: String,
    pub message_types: MessageDataType,
    pub alert_level: i16,
    pub created: i64,
    pub updated: i64,
}

impl Room {
    /// The row stored for this record, in the column order of the `rooms` table.
    pub open spec fn row_spec(self) -> Seq<SqlValue> {
        seq![
            SqlValue::Key(self.key),
            SqlValue::Key(self.owner_key),
            SqlValue::Key(self.organization_key),
            SqlValue::Text(self.name),
            SqlValue::Text(self.description),
            SqlValue::Text(self.matrix_room_url),
            SqlValue::Text(self.matrix_room_id),
            SqlValue::SmallInt(self.message_types.spec_code()),
            SqlValue::SmallInt(self.alert_level),
            SqlValue::BigInt(self.created),
            SqlValue::BigInt(self.updated),
        ]
    }

    /// The record a stored row reads as, if every column holds a value of its type.
    pub open spec fn spec_from_row(row: Seq<SqlValue>) -> Option<Room> {
        if row.len() == 11
            && row[0] is Key
            && row[1] is Key
            && row[2] is Key
            && row[3] is Text
            && row[4] is Text
            && row[5] is Text
            && row[6] is Text
            && row[7] is SmallInt
            && MessageDataType::spec_from_code(row[7]->SmallInt_0) is Some
            && row[8] is SmallInt
            && row[9] is BigInt
            && row[10] is BigInt {
            Some(Room {
                key: row[0]->Key_0,
                owner_key: row[1]->Key_0,
                organization_key: row[2]->Key_0,
                name: row[3]->Text_0,
                description: row[4]->Text_0,
                matrix_room_url: row[5]->Text_0,
                matrix_room_id: row[6]->Text_0,
                message_types: MessageDataType::spec_from_code(row[7]->SmallInt_0)->0,
                alert_level: row[8]->SmallInt_0,
                created: row[9]->BigInt_0,
                updated: row[10]->BigInt_0,
            })
        } else {
            None
        }
    }

    /// The row stored for this record, in the column order of the `rooms` table.
    pub fn to_row(self) -> (r: Vec<SqlValue>)
        ensures
            r@ == self.row_spec(),
    {
        let mut row: Vec<SqlValue> = Vec::new();
        row.push(SqlValue::Key(self.key));
        row.push(SqlValue::Key(self.owner_key));
        row.push(SqlValue::Key(self.organization_key));
        row.push(SqlValue::Text(self.name));
        row.push(SqlValue::Text(self.description));
        row.push(SqlValue::Text(self.matrix_room_url));
        row.push(SqlValue::Text(self.matrix_room_id));
        row.push(SqlValue::SmallInt(self.message_types.code()));
        row.push(SqlValue::SmallInt(self.alert_level));
        row.push(SqlValue::BigInt(self.created));
        row.push(SqlValue::BigInt(self.updated));
        proof {
            assert(row@ =~= self.row_spec());
        }
        row
    }

    /// Reads a stored row back; `None` when a column is missing or of another type.
    pub fn from_row(row: Vec<SqlValue>) -> (r: Option<Room>)
        ensures
            r == Room::spec_from_row(row@),
    {
        let mut row = row;
        if row.len() != 11 {
            return None;
        }
        let updated = match take_big(&mut row) {
            Some(v) => v,
            None => return None,
        };
        let created = match take_big(&mut row) {
            Some(v) => v,
            None => return None,
        };
        let alert_level = match take_small(&mut row) {
            Some(v) => v,
            None => return None,
        };
        let message_types = match take_small(&mut row) {
            Some(v) => v,
            None => return None,
        };
        let matrix_room_id = match take_text(&mut row) {
            Some(v) => v,
            None => return None,
        };
        let matrix_room_url = match take_text(&mut row) {
            Some(v) => v,
            None => return None,
        };
        let description = match take_text(&mut row) {
            Some(v) => v,
            None => return None,
        };
        let name = match take_text(&mut row) {
            Some(v) => v,
            None => return None,
        };
        let organization_key = match take_key(&mut row) {
            Some(v) => v,
            None => return None,
        };
        let owner_key = match take_key(&mut row) {
            Some(v) => v,
            None => return None,
        };
        let key = match take_key(&mut row) {
            Some(v) => v,
            None => return None,
        };
        let message_types = match MessageDataType::from_code(message_types) {
            Some(v) => v,
            None => return None,
        };
        Some(Room {
            key,
            owner_key,
            organization_key,
            name,
            description,
            matrix_room_url,
            matrix_room_id,
            message_types,
            alert_level,
            created,
            updated,
        })
    }
}

/// A Room written as a row reads back as the same Room, field for field.
pub proof fn lemma_room_row_round_trip(x: Room)
    ensures
        Room::spec_from_row(x.row_spec()) == Some(x),
{
    crate::kinds::lemma_message_data_type_code_round_trip(x.message_types);
}

/// A way to sign in, as offered on the sign-in page.
#[derive(Clone, Debug)]
pub struct Choice {
    pub url: String,
    pub display: String,
    pub logo: String,
}

/// An identity provider a chat server offers for single sign-on.
#[derive(Clone, Debug)]
pub struct IdentityProvider {
    pub id: String,
    pub name: String,
    /// Its icon, as an `mxc://` address.
    pub icon: Option<String>,
}

/// A way of signing in that a chat server announces.
#[derive(Clone, Debug)]
pub enum LoginFlow {
    Password,
    Sso(Vec<IdentityProvider>),
    /// Any other way, which this site does not offer.
    Other,
}

/// A way of signing in offered on the sign-in page.
#[derive(Clone, Debug)]
pub enum LoginChoice {
    Password,
    /// Single sign-on, with no provider named.
    Sso,
    /// Single sign-on through one provider.
    SsoIdp(IdentityProvider),
}

/// The sign-in page of this site, where a password sign-in starts.
pub open spec fn password_login_path() -> Seq<char> {
    "/login_by_username"@
}

/// The icon shown for a password sign-in.
pub open spec fn password_icon() -> Seq<char> {
    "/fs/images/sso/user_password.svg"@
}

/// The scheme of a chat server's media addresses.
pub open spec fn mxc_scheme() -> Seq<char> {
    "mxc://"@
}

/// Where the public chat server serves media.
pub open spec fn media_download() -> Seq<char> {
    "https://matrix.org/_matrix/media/r0/download/"@
}

/// The choices offered for single-sign-on providers, in order.
pub open spec fn provider_choices(ps: Seq<IdentityProvider>) -> Seq<LoginChoice> {
    ps.map_values(|p: IdentityProvider| LoginChoice::SsoIdp(p))
}

/// The choices offered for the ways a server announces, in order: a password
/// sign-in for a password flow, one choice per provider of a single-sign-on
/// flow (plain single sign-on when it names none), nothing for other flows.
pub open spec fn choices_of(flows: Seq<LoginFlow>) -> Seq<LoginChoice>
    decreases flows.len(),
{
    if flows.len() == 0 {
        Seq::empty()
    } else {
        choices_of(flows.drop_last()) + match flows.last() {
            LoginFlow::Password => seq![LoginChoice::Password],
            LoginFlow::Sso(ps) => if ps@.len() == 0 {
                seq![LoginChoice::Sso]
            } else {
                provider_choices(ps@)
            },
            LoginFlow::Other => Seq::empty(),
        }
    }
}

/// A copy of a provider.
fn copy_provider(p: &IdentityProvider) -> (r: IdentityProvider)
    ensures
        r == *p,
{
    let icon = match &p.icon {
        Some(t) => Some(t.clone()),
        None => None,
    };
    IdentityProvider { id: p.id.clone(), name: p.name.clone(), icon }
}

/// The choices offered for the ways a server announces.
pub fn login_choices(flows: &Vec<LoginFlow>) -> (r: Vec<LoginChoice>)
    ensures
        r@ == choices_of(flows@),
{
    let mut out: Vec<LoginChoice> = Vec::new();
    let mut i: usize = 0;
    while i < flows.len()
        invariant
            i <= flows.len(),
            out@ == choices_of(flows@.take(i as int)),
        decreases flows.len() - i,
    {
        proof {
            assert(flows@.take(i + 1).drop_last() =~= flows@.take(i as int));
        }
        match &flows[i] {
            LoginFlow::Password => {
                out.push(LoginChoice::Password);
            },
            LoginFlow::Sso(ps) => {
                if ps.len() == 0 {
                    out.push(LoginChoice::Sso);
                } else {
                    let ghost before = out@;
                    let mut j: usize = 0;
                    while j < ps.len()
                        invariant
                            j <= ps.len(),
                            out@ == before + provider_choices(ps@.take(j as int)),
                        decreases ps.len() - j,
                    {
                        out.push(LoginChoice::SsoIdp(copy_provider(&ps[j])));
                        proof {
                            assert(provider_choices(ps@.take(j + 1)) =~= provider_choices(
                                ps@.take(j as int),
                            ).push(LoginChoice::SsoIdp(ps@[j as int])));
                        }
                        j = j + 1;
                    }
                    proof {
                        assert(ps@.take(ps.len() as int) =~= ps@);
                    }
                }
            },
            LoginFlow::Other => {},
        }
        proof {
            assert(out@ =~= choices_of(flows@.take(i + 1)));
        }
        i = i + 1;
    }
    proof {
        assert(flows@.take(flows.len() as int) =~= flows@);
    }
    out
}

impl LoginChoice {
    /// The name a choice is shown with.
    pub open spec fn spec_label(&self) -> Seq<char> {
        match self {
            LoginChoice::Password => "Username and password"@,
            LoginChoice::Sso => "SSO"@,
            LoginChoice::SsoIdp(p) => p.name@,
        }
    }

    /// The name a choice is shown with.
    pub fn to_string(&self) -> (r: String)
        ensures
            r@ == self.spec_label(),
    {
        match self {
            LoginChoice::Password => "Username and password".to_owned(),
            LoginChoice::Sso => "SSO".to_owned(),
            LoginChoice::SsoIdp(p) => p.name.clone(),
        }
    }

    /// The icon address a choice is shown with, as the chat server gives it;
    /// `None` for a provider without an icon.
    pub fn get_icon_mxc(&self) -> (r: Option<String>)
        ensures
            self is Password ==> (r matches Some(t) && t@ == password_icon()),
            self is Sso ==> (r matches Some(t) && t@ == "hmm"@),
            self matches LoginChoice::SsoIdp(p) ==> r == p.icon,
    {
        match self {
            LoginChoice::Password => Some("/fs/images/sso/user_password.svg".to_owned()),
            LoginChoice::Sso => Some("hmm".to_owned()),
            LoginChoice::SsoIdp(p) => match &p.icon {
                Some(t) => Some(t.clone()),
                None => None,
            },
        }
    }

    /// The icon a choice is shown with, a provider's `mxc://` address turned
    /// into one the public chat server's media service downloads from; `None`
    /// for a provider without an icon.
    pub fn get_icon(&self) -> (r: Option<String>)
        ensures
            self is Password ==> (r matches Some(t) && t@ == password_icon()),
            self is Sso ==> (r matches Some(t) && t@ == "hmm"@),
            self matches LoginChoice::SsoIdp(p) ==> (r is Some <==> p.icon is Some),
            self is SsoIdp && self->0.icon is Some ==> (r matches Some(t) && t@ == replaced(
                self->0.icon->0@,
                mxc_scheme(),
                media_download(),
            )),
    {
        match self {
            LoginChoice::Password => Some("/fs/images/sso/user_password.svg".to_owned()),
            LoginChoice::Sso => Some("hmm".to_owned()),
            LoginChoice::SsoIdp(p) => match &p.icon {
                Some(t) => {
                    proof {
                        reveal_strlit("mxc://");
                    }
                    Some(
                        replace_all(
                            t.as_str(),
                            "mxc://",
                            "https://matrix.org/_matrix/media/r0/download/",
                        ),
                    )
                },
                None => None,
            },
        }
    }
}

/// The entry a sign-in choice makes on the sign-in page, given the sign-on
/// address the chat server gave for a provider. `None` where the choice
/// cannot be offered: plain single sign-on names no provider to ask, and a
/// provider needs both a sign-on address and an icon.
pub fn login_entry(choice: &LoginChoice, sso_url: Option<String>) -> (r: Option<Choice>)
    ensures
        choice is Password ==> (r matches Some(c) && c.url@ == password_login_path() && c.display@
            == choice.spec_label() && c.logo@ == password_icon()),
        choice is Sso ==> r is None,
        choice matches LoginChoice::SsoIdp(p) ==> (r is Some <==> (sso_url is Some && p.icon is Some)),
        choice is SsoIdp && sso_url is Some && choice->0.icon is Some ==> (r matches Some(c)
            && c.url == sso_url->0 && c.display == choice->0.name && c.logo@ == replaced(
            choice->0.icon->0@,
            mxc_scheme(),
            media_download(),
        )),
{
    match choice {
        LoginChoice::Password => {
            let logo = match choice.get_icon() {
                Some(l) => l,
                None => return None,
            };
            Some(Choice { url: "/login_by_username".to_owned(), display: choice.to_string(), logo })
        },
        LoginChoice::Sso => None,
        LoginChoice::SsoIdp(p) => {
            let url = match sso_url {
                Some(u) => u,
                None => return None,
            };
            let logo = match choice.get_icon() {
                Some(l) => l,
                None => return None,
            };
            Some(Choice { url, display: p.name.clone(), logo })
        },
    }
}

/// Whether a room wants notifications of a kind. The match is exact: a room
/// subscribed to `All` matches only notifications of kind `All`.
pub open spec fn wants(room: Room, kind: MessageDataType) -> bool {
    room.message_types == kind
}

/// Positions of the rooms a notification of `kind` goes to: each room that
/// subscribes to exactly that kind, once, in order, and no other room.
pub fn notify_targets(rooms: &Vec<Room>, kind: MessageDataType) -> (r: Vec<usize>)
    ensures
        forall|k: int| #![trigger r[k]] 0 <= k < r.len() ==> r[k] < rooms.len() && wants(rooms[r[k] as int], kind),
        forall|k: int, l: int| 0 <= k < l < r.len() ==> r[k] < r[l],
        forall|j: int|
            0 <= j < rooms.len() && wants(#[trigger] rooms[j], kind) ==> exists|k: int|
                0 <= k < r.len() && r[k] == j,
{
    let mut out: Vec<usize> = Vec::new();
    let mut i: usize = 0;
    while i < rooms.len()
        invariant
            i <= rooms.len(),
            forall|k: int| #![trigger out[k]] 0 <= k < out.len() ==> out[k] < i && wants(rooms[out[k] as int], kind),
            forall|k: int, l: int| 0 <= k < l < out.len() ==> out[k] < out[l],
            forall|j: int|
                0 <= j < i && wants(#[trigger] rooms[j], kind) ==> exists|k: int|
                    0 <= k < out.len() && out[k] == j,
        decreases rooms.len() - i,
    {
        if rooms[i].message_types == kind {
            let ghost before = out@;
            out.push(i);
            assert(forall|k: int| 0 <= k < before.len() ==> out[k] == before[k]);
            assert(out[out.len() - 1] == i);
        }
        i = i + 1;
    }
    out
}

/// A notification: its kind and its text.
#[derive(Clone, Debug)]
pub struct Notice {
    pub kind: MessageDataType,
    pub text: String,
}

/// The rocket that each notification's heading ends with.
pub open spec fn rocket() -> Seq<char> {
    seq!['\u{1F680}']
}

/// Text of a duration in quarter days as days, the way a decimal number
/// prints: `5` is `1.25`, `4` is `1`, `-1` is `-0.25`.
pub open spec fn quarter_days_text(q: i32) -> Seq<char> {
    let a = if q < 0 {
        -(q as int)
    } else {
        q as int
    };
    let sign = if q < 0 {
        seq!['-']
    } else {
        Seq::empty()
    };
    let frac = if a % 4 == 1 {
        seq!['.', '2', '5']
    } else if a % 4 == 2 {
        seq!['.', '5']
    } else if a % 4 == 3 {
        seq!['.', '7', '5']
    } else {
        Seq::empty()
    };
    sign + decimal_text(a / 4) + frac
}

/// Text of a duration in quarter days as days.
pub fn quarter_days(q: i32) -> (r: String)
    ensures
        r@ == quarter_days_text(q),
{
    let a: i64 = if q < 0 {
        -(q as i64)
    } else {
        q as i64
    };
    let mut out = String::new();
    if q < 0 {
        out.append("-");
    }
    let whole = int_text(a / 4);
    out.append(whole.as_str());
    if a % 4 == 1 {
        out.append(".25");
    } else if a % 4 == 2 {
        out.append(".5");
    } else if a % 4 == 3 {
        out.append(".75");
    }
    proof {
        reveal_strlit("-");
        reveal_strlit(".25");
        reveal_strlit(".5");
        reveal_strlit(".75");
        assert(out@ =~= quarter_days_text(q));
    }
    out
}

/// The notice sent when a task is created.
pub fn task_notice(task: &Task) -> (r: Notice)
    ensures
        r.kind == MessageDataType::Task,
        r.text@ == "New Task "@ + rocket() + " \n "@ + quarter_days_text(task.estimated_quarter_days)
            + " day(s) Task: "@ + task.name@ + "\n `"@ + task.description@
            + "`\n  https://kinbrio.com/task/"@ + key_text_of(task.key),
{
    let days = quarter_days(task.estimated_quarter_days);
    let key = key_text(task.key);
    let mut m = String::new();
    m.append("New Task ");
    m.append("\u{1F680}");
    m.append(" \n ");
    m.append(days.as_str());
    m.append(" day(s) Task: ");
    m.append(task.name.as_str());
    m.append("\n `");
    m.append(task.description.as_str());
    m.append("`\n  https://kinbrio.com/task/");
    m.append(key.as_str());
    proof {
        reveal_strlit("\u{1F680}");
    }
    Notice { kind: MessageDataType::Task, text: m }
}

/// The notice sent when a project is created.
pub fn project_notice(project: &Project) -> (r: Notice)
    ensures
        r.kind == MessageDataType::Project,
        r.text@ == "New Project "@ + rocket() + " \n "@ + project.name@ + "\n `"@ + project.description@
            + "`\n  https://kinbrio.com/project/"@ + key_text_of(project.key),
{
    let key = key_text(project.key);
    let mut m = String::new();
    m.append("New Project ");
    m.append("\u{1F680}");
    m.append(" \n ");
    m.append(project.name.as_str());
    m.append("\n `");
    m.append(project.description.as_str());
    m.append("`\n  https://kinbrio.com/project/");
    m.append(key.as_str());
    proof {
        reveal_strlit("\u{1F680}");
    }
    Notice { kind: MessageDataType::Project, text: m }
}

/// The notice sent when a milestone is created.
pub fn milestone_notice(milestone: &Milestone) -> (r: Notice)
    ensures
        r.kind == MessageDataType::Milestone,
        r.text@ == "New Milestone "@ + rocket() + " \n "@ + milestone.name@ + "\n `"@
            + milestone.description@ + "`\n  https://kinbrio.com/milestone/"@ + key_text_of(milestone.key),
{
    let key = key_text(milestone.key);
    let mut m = String::new();
    m.append("New Milestone ");
    m.append("\u{1F680}");
    m.append(" \n ");
    m.append(milestone.name.as_str());
    m.append("\n `");
    m.append(milestone.description.as_str());
    m.append("`\n  https://kinbrio.com/milestone/");
    m.append(key.as_str());
    proof {
        reveal_strlit("\u{1F680}");
    }
    Notice { kind: MessageDataType::Milestone, text: m }
}

/// The notice sent when a file is created.
pub fn file_notice(file: &File) -> (r: Notice)
    ensures
        r.kind == MessageDataType::File,
        r.text@ == "New File "@ + rocket() + " \n "@ + file.name@ + "\n `"@ + file.description@
            + "`\n  https://kinbrio.com/file/"@ + key_text_of(file.key),
{
    let key = key_text(file.key);
    let mut m = String::new();
    m.append("New File ");
    m.append("\u{1F680}");
    m.append(" \n ");
    m.append(file.name.as_str());
    m.append("\n `");
    m.append(file.description.as_str());
    m.append("`\n  https://kinbrio.com/file/");
    m.append(key.as_str());
    proof {
        reveal_strlit("\u{1F680}");
    }
    Notice { kind: MessageDataType::File, text: m }
}

/// The notice sent when a board is created.
pub fn board_notice(board: &Board) -> (r: Notice)
    ensures
        r.kind == MessageDataType::Board,
        r.text@ == "New Board "@ + rocket() + " \n  "@ + board.name@ + "\n `"@ + board.description@
            + "`\n  https://kinbrio.com/board/"@ + key_text_of(board.key),
{
    let key = key_text(board.key);
    let mut m = String::new();
    m.append("New Board ");
    m.append("\u{1F680}");
    m.append(" \n  ");
    m.append(board.name.as_str());
    m.append("\n `");
    m.append(board.description.as_str());
    m.append("`\n  https://kinbrio.com/board/");
    m.append(key.as_str());
    proof {
        reveal_strlit("\u{1F680}");
    }
    Notice { kind: MessageDataType::Board, text: m }
}

/// The notice sent when a client or supplier is created.
pub fn entity_notice(entity: &Entity) -> (r: Notice)
    ensures
        r.kind == MessageDataType::Entity,
        r.text@ == "New Entity Added "@ + rocket() + " \n  "@ + entity.name@ + "\n `"@
            + entity.description@ + "`\n  https://kinbrio.com/entity/"@ + key_text_of(entity.key),
{
    let key = key_text(entity.key);
    let mut m = String::new();
    m.append("New Entity Added ");
    m.append("\u{1F680}");
    m.append(" \n  ");
    m.append(entity.name.as_str());
    m.append("\n `");
    m.append(entity.description.as_str());
    m.append("`\n  https://kinbrio.com/entity/");
    m.append(key.as_str());
    proof {
        reveal_strlit("\u{1F680}");
    }
    Notice { kind: MessageDataType::Entity, text: m }
}

/// The notice sent when a contact is created; it goes to the rooms that
/// follow clients and suppliers.
pub fn contact_notice(contact: &Contact) -> (r: Notice)
    ensures
        r.kind == MessageDataType::Entity,
        r.text@ == "New Contact Added "@ + rocket() + " \n  "@ + contact.first_name@ + " "@
            + contact.last_name@ + "\n  https://kinbrio.com/contact/"@ + key_text_of(contact.key),
{
    let key = key_text(contact.key);
    let mut m = String::new();
    m.append("New Contact Added ");
    m.append("\u{1F680}");
    m.append(" \n  ");
    m.append(contact.first_name.as_str());
    m.append(" ");
    m.append(contact.last_name.as_str());
    m.append("\n  https://kinbrio.com/contact/");
    m.append(key.as_str());
    proof {
        reveal_strlit("\u{1F680}");
    }
    Notice { kind: MessageDataType::Entity, text: m }
}

/// The notice sent when a note is created; it goes to the rooms that follow
/// clients and suppliers.
pub fn note_notice(note: &Note) -> (r: Notice)
    ensures
        r.kind == MessageDataType::Entity,
        r.text@ == "New Note Added "@ + rocket() + " \n  "@ + note.title@
            + " \n  https://kinbrio.com/contact/"@ + key_text_of(note.key),
{
    let key = key_text(note.key);
    let mut m = String::new();
    m.append("New Note Added ");
    m.append("\u{1F680}");
    m.append(" \n  ");
    m.append(note.title.as_str());
    m.append(" \n  https://kinbrio.com/contact/");
    m.append(key.as_str());
    proof {
        reveal_strlit("\u{1F680}");
    }
    Notice { kind: MessageDataType::Entity, text: m }
}

/// The notice sent when a room is created.
pub fn room_notice(room: &Room) -> (r: Notice)
    ensures
        r.kind == MessageDataType::Room,
        r.text@ == "New Room "@ + rocket() + " \n "@ + room.name@ + " \n `"@ + room.description@
            + "`\n  https://kinbrio.com/room/"@ + key_text_of(room.key),
{
    let key = key_text(room.key);
    let mut m = String::new();
    m.append("New Room ");
    m.append("\u{1F680}");
    m.append(" \n ");
    m.append(room.name.as_str());
    m.append(" \n `");
    m.append(room.description.as_str());
    m.append("`\n  https://kinbrio.com/room/");
    m.append(key.as_str());
    proof {
        reveal_strlit("\u{1F680}");
    }
    Notice { kind: MessageDataType::Room, text: m }
}

} // verus!
