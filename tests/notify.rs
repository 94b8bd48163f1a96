use kinbrio::entity::Contact;
use kinbrio::kinds::{MessageDataType, TaskStatus};
use kinbrio::matrix::{contact_notice, notify_targets, quarter_days, room_notice, task_notice, Room};
use kinbrio::task::Task;

fn s(x: &str) -> String {
    x.to_string()
}

const ALL: [MessageDataType; 11] = [
    MessageDataType::All,
    MessageDataType::Board,
    MessageDataType::Entity,
    MessageDataType::File,
    MessageDataType::Milestone,
    MessageDataType::Organization,
    MessageDataType::Project,
    MessageDataType::Task,
    MessageDataType::User,
    MessageDataType::Report,
    MessageDataType::Room,
];

fn room(i: usize, kind: MessageDataType) -> Room {
    Room {
        key: i as u128 + 1,
        owner_key: 1,
        organization_key: 2,
        name: format!("room {i}"),
        description: s(""),
        matrix_room_url: s(""),
        matrix_room_id: format!("!{i}:m"),
        message_types: kind,
        alert_level: 0,
        created: 0,
        updated: 0,
    }
}

#[test]
fn notices_go_exactly_to_rooms_of_their_kind() {
    // two rooms of every kind, interleaved
    let mut rooms = vec![];
    for (i, k) in ALL.iter().chain(ALL.iter()).enumerate() {
        rooms.push(room(i, *k));
    }
    for (n, kind) in ALL.iter().enumerate() {
        let targets = notify_targets(&rooms, *kind);
        assert_eq!(targets, vec![n, n + ALL.len()]);
    }
}

#[test]
fn rooms_of_all_get_only_notices_of_kind_all() {
    let rooms = vec![room(0, MessageDataType::All), room(1, MessageDataType::Task)];
    assert_eq!(notify_targets(&rooms, MessageDataType::Task), vec![1]);
    assert_eq!(notify_targets(&rooms, MessageDataType::All), vec![0]);
    assert_eq!(notify_targets(&rooms, MessageDataType::Board), Vec::<usize>::new());
    assert_eq!(notify_targets(&vec![], MessageDataType::Board), Vec::<usize>::new());
}

#[test]
fn quarter_days_print_as_days() {
    assert_eq!(quarter_days(5), "1.25");
    assert_eq!(quarter_days(4), "1");
    assert_eq!(quarter_days(2), "0.5");
    assert_eq!(quarter_days(3), "0.75");
    assert_eq!(quarter_days(0), "0");
    assert_eq!(quarter_days(-1), "-0.25");
    assert_eq!(quarter_days(-8), "-2");
    assert_eq!(quarter_days(i32::MIN), "-536870912");
    assert_eq!(quarter_days(6), format!("{}", 6f64 * 0.25));
}

#[test]
fn task_notice_text() {
    let t = Task {
        key: 0x67e5504410b1426f9247bb680e5fe0c8,
        organization_key: 1,
        project_key: 2,
        owner_key: 3,
        assignee_key: 4,
        name: s("Ship"),
        description: s("now"),
        tags: s(""),
        status: TaskStatus::Todo,
        estimated_quarter_days: 6,
        start: 0,
        due: 0,
        created: 0,
        updated: 0,
    };
    let n = task_notice(&t);
    assert_eq!(n.kind, MessageDataType::Task);
    assert_eq!(
        n.text,
        "New Task \u{1F680} \n 1.5 day(s) Task: Ship\n `now`\n  https://kinbrio.com/task/67e55044-10b1-426f-9247-bb680e5fe0c8"
    );
}

#[test]
fn room_and_contact_notice_texts() {
    let r = room(0, MessageDataType::All);
    let n = room_notice(&r);
    assert_eq!(n.kind, MessageDataType::Room);
    assert_eq!(
        n.text,
        "New Room \u{1F680} \n room 0 \n ``\n  https://kinbrio.com/room/00000000-0000-0000-0000-000000000001"
    );
    let c = Contact::new(
        1, s(""), s("Ada"), s(""), s("Lovelace"), s(""), s(""), s(""), s(""), s(""), s(""), s(""),
        s(""), s(""), vec![], s(""), s(""), s(""), s(""), s(""), s(""),
    );
    let n = contact_notice(&c);
    assert_eq!(n.kind, MessageDataType::Entity);
    assert!(n.text.starts_with("New Contact Added \u{1F680} \n  Ada Lovelace\n  https://kinbrio.com/contact/"));
    assert!(n.text.ends_with(&kinbrio::text::key_text(c.key)));
}
