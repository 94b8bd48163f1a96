use kinbrio::akaunting::AkauntingSyncOption;
use kinbrio::board::Board;
use kinbrio::entity::{Contact, Entity};
use kinbrio::file::File;
use kinbrio::kinds::{
    AssociationType, EntityType, MessageDataType, ServiceItemType, ServiceValueType, TaskStatus,
};
use kinbrio::matrix::Room;
use kinbrio::milestone::Milestone;
use kinbrio::note::Note;
use kinbrio::organization::Organization;
use kinbrio::project::Project;
use kinbrio::rows::SqlValue;
use kinbrio::service_item::ServiceItem;
use kinbrio::task::Task;
use kinbrio::user::User;

fn s(x: &str) -> String {
    x.to_string()
}

fn sample_task(status: TaskStatus) -> Task {
    Task {
        key: 11,
        organization_key: 12,
        project_key: 13,
        owner_key: 14,
        assignee_key: 15,
        name: s("write spec"),
        description: s("the whole thing"),
        tags: s("docs"),
        status,
        estimated_quarter_days: 6,
        start: 1_700_000_000,
        due: 1_700_086_400,
        created: 1_699_000_000,
        updated: 0,
    }
}

fn same_task(a: &Task, b: &Task) -> bool {
    a.key == b.key
        && a.organization_key == b.organization_key
        && a.project_key == b.project_key
        && a.owner_key == b.owner_key
        && a.assignee_key == b.assignee_key
        && a.name == b.name
        && a.description == b.description
        && a.tags == b.tags
        && a.status == b.status
        && a.estimated_quarter_days == b.estimated_quarter_days
        && a.start == b.start
        && a.due == b.due
        && a.created == b.created
        && a.updated == b.updated
}

#[test]
fn task_row_round_trip_for_every_status() {
    let all = [
        TaskStatus::Wishlist,
        TaskStatus::Todo,
        TaskStatus::PlanningAndEstimating,
        TaskStatus::InQueue,
        TaskStatus::InProgress,
        TaskStatus::ToReview,
        TaskStatus::InReviewal,
        TaskStatus::Complete,
    ];
    for st in all {
        let t = sample_task(st);
        let back = Task::from_row(sample_task(st).to_row()).expect("row reads back");
        assert!(same_task(&t, &back));
    }
}

#[test]
fn task_row_column_order() {
    let row = sample_task(TaskStatus::InQueue).to_row();
    assert_eq!(row.len(), 14);
    assert!(matches!(row[0], SqlValue::Key(11)));
    assert!(matches!(row[1], SqlValue::Key(14)));
    assert!(matches!(row[2], SqlValue::Key(12)));
    assert!(matches!(row[3], SqlValue::Key(13)));
    assert!(matches!(row[8], SqlValue::SmallInt(3)));
    assert!(matches!(row[9], SqlValue::Int(6)));
}

#[test]
fn task_row_with_unknown_status_is_refused() {
    let mut row = sample_task(TaskStatus::Complete).to_row();
    row[8] = SqlValue::SmallInt(42);
    assert!(Task::from_row(row).is_none());
}

#[test]
fn task_row_with_null_or_wrong_column_is_refused() {
    let mut row = sample_task(TaskStatus::Todo).to_row();
    row[5] = SqlValue::Null;
    assert!(Task::from_row(row).is_none());
    let mut row = sample_task(TaskStatus::Todo).to_row();
    row[9] = SqlValue::BigInt(6);
    assert!(Task::from_row(row).is_none());
    let mut row = sample_task(TaskStatus::Todo).to_row();
    row.pop();
    assert!(Task::from_row(row).is_none());
    assert!(Task::from_row(vec![]).is_none());
}

#[test]
fn service_item_row_round_trip() {
    let make = || ServiceItem {
        key: 1,
        organization_key: 2,
        external_accounting_id: s("42"),
        owner_key: 3,
        name: s("Consulting"),
        description: s("per hour"),
        value: 120,
        currency: s("USD"),
        service_item_type: ServiceItemType::Item,
        service_value_type: ServiceValueType::Milestone,
        expenses: vec![7, 8],
        created: 5,
        updated: 6,
    };
    let row = make().to_row();
    assert_eq!(row.len(), 13);
    assert!(matches!(&row[10], SqlValue::Text(t) if t == "42"));
    let back = ServiceItem::from_row(row).expect("row reads back");
    let a = make();
    assert_eq!(back.key, a.key);
    assert_eq!(back.external_accounting_id, a.external_accounting_id);
    assert_eq!(back.value, a.value);
    assert_eq!(back.service_item_type, ServiceItemType::Item);
    assert_eq!(back.service_value_type, ServiceValueType::Milestone);
    assert_eq!(back.expenses, vec![7, 8]);
    assert_eq!(back.created, 5);
    assert_eq!(back.updated, 6);
}

#[test]
fn room_row_keeps_its_category() {
    let make = |m| Room {
        key: 1,
        owner_key: 2,
        organization_key: 3,
        name: s("ops"),
        description: s("alerts"),
        matrix_room_url: s("https://matrix.to/#/!a:b"),
        matrix_room_id: s("!a:b"),
        message_types: m,
        alert_level: 2,
        created: 9,
        updated: 10,
    };
    let back = Room::from_row(make(MessageDataType::Milestone).to_row()).expect("row reads back");
    assert_eq!(back.message_types, MessageDataType::Milestone);
    assert_eq!(back.alert_level, 2);
    assert_eq!(back.matrix_room_id, "!a:b");
}

#[test]
fn contact_entity_note_file_rows_round_trip() {
    let c = Contact {
        key: 1,
        external_accounting_id: s("x"),
        entity_key: 2,
        first_name: s("Ada"),
        middle_initial: s("B"),
        last_name: s("Lovelace"),
        description: s("d"),
        position: s("p"),
        email: s("e"),
        phone: s("ph"),
        secondary_email: s("se"),
        secondary_phone: s("sp"),
        matrix_user_id: s("@ada:m"),
        web_url: s("w"),
        avatar_url: s("a"),
        social_urls: vec![s("u1"), s("u2")],
        address_primary: s("ap"),
        address_unit: s("au"),
        city: s("c"),
        state: s("st"),
        zip_code: s("z"),
        country: s("co"),
        created: 3,
        updated: 4,
    };
    let back = Contact::from_row(c.to_row()).expect("contact reads back");
    assert_eq!(back.social_urls, vec![s("u1"), s("u2")]);
    assert_eq!(back.last_name, "Lovelace");
    assert_eq!(back.entity_key, 2);

    let e = Entity::new(
        5,
        s("ext"),
        6,
        s("ACME"),
        s("supplier of things"),
        s("room"),
        s("web"),
        s("avatar"),
        EntityType::Supplier,
        s("1 Road"),
        s("2"),
        s("City"),
        s("ST"),
        s("00000"),
        s("Land"),
    );
    let key = e.key;
    let back = Entity::from_row(e.to_row()).expect("entity reads back");
    assert_eq!(back.key, key);
    assert_eq!(back.entity_type, EntityType::Supplier);
    assert_eq!(back.name, "ACME");
    assert_eq!(back.web_url, "web");

    let n = Note::new(1, 2, AssociationType::Milestone, 3, s("u"), s("t"), s("c"));
    let back = Note::from_row(n.to_row()).expect("note reads back");
    assert_eq!(back.association_type, AssociationType::Milestone);
    assert_eq!(back.url, "u");
    assert_eq!(back.title, "t");
    assert_eq!(back.content, "c");

    let f = File::new(1, 2, AssociationType::Contact, 3, s("u"), s("h"), s("n"), s("d"), s("t"), s("f"), 99);
    let back = File::from_row(f.to_row()).expect("file reads back");
    assert_eq!(back.association_type, AssociationType::Contact);
    assert_eq!(back.size, 99);
}

#[test]
fn other_rows_round_trip() {
    let b = Board::new(1, 2, s("b"), s("d"), vec![s("c1")], vec![s("Todo"), s("InProgress")], s("f"));
    let back = Board::from_row(b.to_row()).expect("board reads back");
    assert_eq!(back.lanes, vec![s("Todo"), s("InProgress")]);
    let p = Project::new(1, 2, s("p"), s("d"), s("t"), 8, 10, 20);
    let back = Project::from_row(p.to_row()).expect("project reads back");
    assert_eq!(back.estimated_quarter_days, 8);
    let m = Milestone::new(1, 2, 3, s("m"), s("d"), s("t"), 4, 5, 6);
    let row = m.to_row();
    assert!(matches!(row[2], SqlValue::Key(3)));
    let back = Milestone::from_row(row).expect("milestone reads back");
    assert_eq!(back.project_key, 3);
    assert_eq!(back.owner_key, 2);
    let o = Organization::new(9, s("7"), s("url"), 2, s("Org"), s("d"), s("hs"), s("l"), s("g"), s("dom"), s("mail"));
    let back = Organization::from_row(o.to_row()).expect("organization reads back");
    assert_eq!(back.key, 9);
    assert_eq!(back.contact_email, "mail");
    let u = User::new(1, 2, s("a@b.c"), s("@a:b"), s("https://hs"));
    let back = User::from_row(u.to_row()).expect("user reads back");
    assert_eq!(back.email, "a@b.c");
    assert_eq!(back.updated, 0);
    let a = AkauntingSyncOption::new(1, 2, s("u"), s("p"), s("d"), s("c"), true, false, true, false, true, false, true, 77);
    let back = AkauntingSyncOption::from_row(a.to_row()).expect("options read back");
    assert!(back.organization_data && !back.employee_data && back.allow_post);
    assert_eq!(back.last_sync, 77);
}

#[test]
fn new_records_have_fresh_keys_and_are_not_updated() {
    let a = Project::new(1, 2, s("p"), s("d"), s("t"), 0, 0, 0);
    let b = Project::new(1, 2, s("p"), s("d"), s("t"), 0, 0, 0);
    assert_ne!(a.key, 0);
    assert_ne!(a.key, b.key);
    assert_eq!(a.updated, 0);
    assert!(a.created > 1_600_000_000);
}
