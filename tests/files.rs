use kinbrio::board::{get_tasks, lane_contained, lane_name, without_spaces, Board, BoardTemplate};
use kinbrio::entity::{get_invoices, InvoiceError};
use kinbrio::file::{bucket_name, content_kind, get_bucket_name, may_serve, ContentKind, FileForm, FormError};
use kinbrio::kinds::{AssociationType, TaskStatus};
use kinbrio::project::{get_task_background_color, Project, ProjectTemplate};
use kinbrio::task::Task;
use kinbrio::text::{parse_int, parse_key};
use kinbrio::user::User;

fn s(x: &str) -> String {
    x.to_string()
}

fn owner() -> User {
    User {
        key: 3,
        organization_key: 0xa1a2a3a4b1b2c1c2d1d2d3d4d5d6d7d8,
        email: s("o@x"),
        matrix_user_id: s(""),
        matrix_home_server: s(""),
        created: 0,
        updated: 0,
    }
}

#[test]
fn bucket_names_are_lowercased() {
    assert_eq!(get_bucket_name(s("Task"), s("67E55044-10B1-426F-9247-BB680E5FE0C8")), "task-67e55044-10b1-426f-9247-bb680e5fe0c8-fs");
    assert_eq!(get_bucket_name(s(""), s("")), "--fs");
    assert_eq!(bucket_name("A", "B"), "A-B-fs");
}

fn filled_form(key: &str) -> FileForm {
    let mut f = FileForm::empty();
    for (name, text) in [
        ("key", key),
        ("name", "plan.pdf"),
        ("description", "the plan"),
        ("tags", "x"),
        ("organization_key", "a1a2a3a4-b1b2-c1c2-d1d2-d3d4d5d6d7d8"),
        ("association_type", "Project"),
        ("association_key", "00000000-0000-0000-0000-00000000000A"),
        ("hash", "h"),
        ("size", "2048"),
        ("url", "/files/x"),
        ("format", "pdf"),
        ("unknown", "ignored"),
    ] {
        f.set_field(name, s(text)).expect("field read");
    }
    f
}

#[test]
fn upload_with_nil_key_makes_a_new_file() {
    let u = kinbrio::file::insert(&owner(), filled_form("00000000-0000-0000-0000-000000000000")).expect("form is valid");
    assert!(u.is_new);
    assert_ne!(u.file.key, 0);
    assert_eq!(u.bucket, "project-00000000-0000-0000-0000-00000000000a-fs");
    assert_eq!(u.file.association_type, AssociationType::Project);
    assert_eq!(u.file.association_key, 10);
    assert_eq!(u.file.owner_key, 3);
    assert_eq!(u.file.size, 2048);
    assert_eq!(u.file.name, "plan.pdf");
    assert_eq!(u.file.format, "pdf");
}

#[test]
fn upload_with_a_key_names_an_existing_file() {
    let u = kinbrio::file::insert(&owner(), filled_form("00000000-0000-0000-0000-000000000009")).expect("form is valid");
    assert!(!u.is_new);
    assert_eq!(u.file.key, 9);
}

#[test]
fn upload_form_errors() {
    let mut f = FileForm::empty();
    assert_eq!(f.set_field("size", s("12kb")), Err(FormError::BadSize));
    assert_eq!(f.size, 0);
    assert_eq!(f.set_field("size", s("-12")), Ok(()));
    assert_eq!(f.size, -12);
    let form = filled_form("not a key");
    assert_eq!(kinbrio::file::insert(&owner(), form).err().map(|_| ()), Some(()));
    assert!(matches!(kinbrio::file::insert(&owner(), FileForm::empty()), Err(FormError::BadKey)));
    let mut f = filled_form("00000000-0000-0000-0000-000000000000");
    f.set_field("association_type", s("project")).expect("field read");
    assert!(matches!(kinbrio::file::insert(&owner(), f), Err(FormError::BadAssociationType)));
}

#[test]
fn served_files_by_format_and_owner() {
    assert_eq!(content_kind("jpg"), ContentKind::Jpeg);
    assert_eq!(content_kind("jpeg"), ContentKind::Jpeg);
    assert_eq!(content_kind("png"), ContentKind::Png);
    assert_eq!(content_kind("svg"), ContentKind::Svg);
    assert_eq!(content_kind("ico"), ContentKind::Ico);
    assert_eq!(content_kind("PNG"), ContentKind::Bytes);
    assert!(may_serve(&owner(), "a1a2a3a4-b1b2-c1c2-d1d2-d3d4d5d6d7d8"));
    assert!(!may_serve(&owner(), "A1A2A3A4-B1B2-C1C2-D1D2-D3D4D5D6D7D8"));
}

#[test]
fn integer_and_key_parsing() {
    assert_eq!(parse_int("42"), Some(42));
    assert_eq!(parse_int("+7"), Some(7));
    assert_eq!(parse_int("-"), None);
    assert_eq!(parse_int(""), None);
    assert_eq!(parse_int("9223372036854775808"), None);
    assert_eq!(parse_key("00000000-0000-0000-0000-00000000000a"), Some(10));
    assert_eq!(parse_key("nope"), None);
}

#[test]
fn invoices_of_one_client() {
    let ids = vec![Some(4), Some(5), Some(4)];
    assert_eq!(get_invoices(&ids, "4"), Ok(vec![0, 2]));
    assert_eq!(get_invoices(&ids, "6"), Ok(vec![]));
    assert_eq!(get_invoices(&ids, "four"), Err(InvoiceError::BadExternalId));
    assert_eq!(get_invoices(&vec![Some(4), None], "4"), Err(InvoiceError::MissingContactId));
    assert_eq!(get_invoices(&vec![None], "x"), Err(InvoiceError::BadExternalId));
    assert_eq!(get_invoices(&vec![], "4"), Ok(vec![]));
}

fn task(status: TaskStatus) -> Task {
    Task {
        key: 1,
        organization_key: 1,
        project_key: 1,
        owner_key: 1,
        assignee_key: 1,
        name: s(""),
        description: s(""),
        tags: s(""),
        status,
        estimated_quarter_days: 0,
        start: 0,
        due: 0,
        created: 0,
        updated: 0,
    }
}

#[test]
fn board_lanes() {
    assert_eq!(lane_name("PlanningAndEstimating").as_deref(), Some("Planning And Estimating"));
    assert_eq!(lane_name("bogus"), None);
    assert!(get_tasks("bogus", &vec![task(TaskStatus::Wishlist)]).is_empty());
    assert_eq!(without_spaces(" a b  c "), "abc");
    let tasks = vec![task(TaskStatus::Todo), task(TaskStatus::InProgress), task(TaskStatus::Todo)];
    assert_eq!(get_tasks("Todo", &tasks), vec![0, 2]);
    assert_eq!(get_tasks("InProgress", &tasks), vec![1]);
    let lanes = vec![s("Todo"), s("InProgress")];
    assert!(lane_contained(&TaskStatus::InProgress, &lanes));
    assert!(!lane_contained(&TaskStatus::ToReview, &lanes));
    assert_eq!(get_task_background_color(&TaskStatus::Todo), "#ff6a4a85");
}

#[test]
fn board_and_project_pages() {
    let board = Board::new(1, 2, s("b"), s(""), vec![], vec![s("Todo"), s("ToReview")], s(""));
    let page = BoardTemplate::new(board, owner(), vec![task(TaskStatus::ToReview), task(TaskStatus::Todo)], vec![]);
    assert_eq!(page.lane_name("ToReview").as_deref(), Some("To Review"));
    assert_eq!(page.get_tasks("Wishlist"), Vec::<usize>::new());
    assert_eq!(page.get_tasks("ToReview"), vec![0]);
    assert!(page.lane_contained(&TaskStatus::ToReview));
    assert!(!page.lane_contained(&TaskStatus::Complete));
    let project = Project::new(1, 2, s("p"), s(""), s(""), 0, 0, 0);
    let page = ProjectTemplate::new(project, vec![], vec![], owner(), vec![], vec![], vec![], vec![]);
    assert_eq!(page.get_task_background_color(&TaskStatus::Complete), "#64ff6385");
    assert_eq!(page.get_grid_column(&0, &86_400).as_deref(), Some("4 / span 1"));
}
