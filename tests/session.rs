use kinbrio::akaunting::{import, AkauntingSyncOption, ImportPlan};
use kinbrio::task::{self, Task};
use kinbrio::kinds::TaskStatus;
use kinbrio::save::{delete, Removal, Save};
use kinbrio::text::key_text;
use kinbrio::user::{
    issue_claims, jwt_invalid, login_matrix, login_post, signup, user_or_error, AuthError,
    LoginError, User, UserJwtState, SESSION_SECONDS,
};

fn s(x: &str) -> String {
    x.to_string()
}

const KEY: &str = "67e55044-10b1-426f-9247-bb680e5fe0c8";
const ORG: &str = "a1a2a3a4-b1b2-c1c2-d1d2-d3d4d5d6d7d8";

fn claims(exp: i64) -> UserJwtState {
    UserJwtState {
        key: s(KEY),
        organization_key: s(ORG),
        email: s("ada@example.com"),
        created: 100,
        matrix_user_id: s("@ada:matrix.org"),
        matrix_access_token: s("tok"),
        matrix_device_id: s("dev"),
        matrix_refresh_token: s(""),
        matrix_home_server: s("https://matrix-client.matrix.org"),
        updated: 200,
        exp,
    }
}

fn user() -> User {
    User {
        key: 0x67e5504410b1426f9247bb680e5fe0c8,
        organization_key: 0xa1a2a3a4b1b2c1c2d1d2d3d4d5d6d7d8,
        email: s("ada@example.com"),
        matrix_user_id: s("@ada:matrix.org"),
        matrix_home_server: s("https://matrix-client.matrix.org"),
        created: 100,
        updated: 200,
    }
}

fn body(key: u128, status: TaskStatus) -> Task {
    Task {
        key,
        organization_key: 0x0f,
        project_key: 0x0e,
        owner_key: 0x0d,
        assignee_key: 0,
        name: s("ship it"),
        description: s("before friday"),
        tags: s(""),
        status,
        estimated_quarter_days: 3,
        start: 10,
        due: 20,
        created: 1,
        updated: 2,
    }
}

#[test]
fn missing_session_is_unauthenticated_and_saves_nothing() {
    let now = 1_000;
    let session = user_or_error(None, now);
    assert_eq!(session.as_ref().err(), Some(&AuthError::Missing));
    assert!(matches!(task::insert(&session, Some(body(0, TaskStatus::Todo))), Save::Unauthenticated));
    assert!(matches!(task::insert(&session, Some(body(5, TaskStatus::Todo))), Save::Unauthenticated));
    assert!(matches!(task::insert(&session, None), Save::Unauthenticated));
    assert_eq!(jwt_invalid(&None, now), Some(AuthError::Missing));
}

#[test]
fn expired_session_is_refused_everywhere_it_is_checked() {
    let now = 10_000;
    let session = user_or_error(Some(claims(now - 1)), now);
    assert_eq!(session.as_ref().err(), Some(&AuthError::Expired));
    assert!(matches!(task::insert(&session, Some(body(0, TaskStatus::Todo))), Save::Unauthenticated));
    assert_eq!(jwt_invalid(&Some(claims(now - 1)), now), Some(AuthError::Expired));
    assert_eq!(jwt_invalid(&Some(claims(now)), now), None);
}

#[test]
fn current_session_names_its_user() {
    let u = user_or_error(Some(claims(5_000)), 5_000).expect("signed in");
    assert_eq!(u.key, 0x67e5504410b1426f9247bb680e5fe0c8);
    assert_eq!(u.organization_key, 0xa1a2a3a4b1b2c1c2d1d2d3d4d5d6d7d8);
    assert_eq!(u.email, "ada@example.com");
    assert_eq!(u.created, 100);
    assert_eq!(u.updated, 200);
}

#[test]
fn session_with_a_bad_key_is_malformed() {
    let mut c = claims(5_000);
    c.organization_key = s("not-a-key");
    assert_eq!(user_or_error(Some(c), 1).err(), Some(AuthError::Malformed));
}

#[test]
fn issued_claims_expire_two_hours_later_and_read_back() {
    let u = user();
    let c = UserJwtState::for_user(&u, s("at"), s("dev"), s("rt"), 1_000);
    assert_eq!(c.exp, 1_000 + 7_200);
    assert_eq!(SESSION_SECONDS, 7_200);
    assert_eq!(c.key, KEY);
    assert_eq!(c.organization_key, ORG);
    assert_eq!(c.matrix_refresh_token, "rt");
    let back = user_or_error(Some(c), 1_000 + 7_200).expect("still valid");
    assert_eq!(back.key, u.key);
    let later = UserJwtState::for_user(&u, s("at"), s("dev"), s("rt"), 1_000);
    assert_eq!(user_or_error(Some(later), 1_000 + 7_201).err(), Some(AuthError::Expired));
    let now_claims = issue_claims(&u, s(""), s(""), s(""));
    assert!(now_claims.exp > 1_600_000_000 + 7_200);
}

#[test]
fn key_text_is_hyphenated_lowercase() {
    assert_eq!(key_text(0), "00000000-0000-0000-0000-000000000000");
    assert_eq!(key_text(0x67E5504410B1426F9247BB680E5FE0C8), KEY);
}

#[test]
fn new_task_is_always_todo_and_reads_back() {
    let session = user_or_error(Some(claims(5_000)), 5_000);
    let saved = task::insert(&session, Some(body(0, TaskStatus::Complete)));
    let t = match saved {
        Save::Insert(t) => t,
        _ => panic!("a nil key makes a new task"),
    };
    assert_eq!(t.status, TaskStatus::Todo);
    assert_eq!(t.organization_key, 0x0f);
    assert_eq!(t.project_key, 0x0e);
    assert_ne!(t.key, 0);
    assert_eq!(t.updated, 0);
    let key = t.key;
    let back = Task::from_row(t.to_row()).expect("reads back");
    assert_eq!(back.key, key);
    assert_eq!(back.status, TaskStatus::Todo);
    assert_eq!(back.organization_key, 0x0f);
    assert_eq!(back.project_key, 0x0e);
    assert_eq!(back.name, "ship it");
}

#[test]
fn task_with_a_key_is_an_update_kept_as_sent() {
    let session = user_or_error(Some(claims(5_000)), 5_000);
    match task::insert(&session, Some(body(99, TaskStatus::Complete))) {
        Save::Update(t) => {
            assert_eq!(t.key, 99);
            assert_eq!(t.status, TaskStatus::Complete);
            assert_eq!(t.created, 1);
        }
        _ => panic!("a task with a key is an update"),
    }
    assert!(matches!(task::insert(&session, None), Save::BadRequest));
}

#[test]
fn password_login_signs_up_unknown_accounts() {
    assert_eq!(
        login_post("", None, s("e"), s("@a:b"), s("https://hs")).err(),
        Some(LoginError::NoAccessToken)
    );
    let (u, org) = login_post("tok", None, s("e@x"), s("@a:b"), s("https://hs")).expect("signed up");
    let org = org.expect("new organization");
    assert_eq!(u.organization_key, org.key);
    assert_eq!(org.owner_key, u.key);
    assert_eq!(org.name, "Welcome Inc.");
    assert_eq!(org.matrix_home_server, "https://hs");
    assert_eq!(u.email, "e@x");
    let (known, none) = login_post("tok", Some(user()), s("x"), s("y"), s("z")).expect("known");
    assert!(none.is_none());
    assert_eq!(known.key, user().key);
    assert_eq!(known.email, "ada@example.com");
}

#[test]
fn sso_login_needs_a_known_user() {
    assert!(login_matrix(None, s("@a:b"), s("hs")).is_none());
    let u = login_matrix(Some(user()), s("@new:b"), s("https://other")).expect("known");
    assert_eq!(u.matrix_user_id, "@new:b");
    assert_eq!(u.matrix_home_server, "https://other");
    assert_eq!(u.email, "ada@example.com");
    let su = signup(s("m"), s("@m:b"), s("https://a"), s("https://b"));
    assert_eq!(su.user.matrix_home_server, "https://a");
    assert_eq!(su.organization.matrix_home_server, "https://b");
    assert_eq!(su.user.to_string(), "m");
}

#[test]
fn deleting_needs_a_signed_in_user() {
    let none = user_or_error(None, 1);
    assert!(matches!(delete(&none, Some(5)), Removal::Unauthenticated));
    let expired = user_or_error(Some(claims(0)), 1);
    assert!(matches!(delete(&expired, Some(5)), Removal::Unauthenticated));
    let ok = user_or_error(Some(claims(10)), 1);
    assert!(matches!(delete(&ok, None), Removal::NotFound));
    match delete(&ok, Some(5)) {
        Removal::Delete { key, owner_key } => {
            assert_eq!(key, 5);
            assert_eq!(owner_key, user().key);
        }
        _ => panic!("a signed-in user deletes"),
    }
}

#[test]
fn user_changes_need_a_current_session() {
    let expired = user_or_error(Some(claims(0)), 1);
    assert!(matches!(kinbrio::user::update(&expired, Some(user())), Save::Unauthenticated));
    let ok = user_or_error(Some(claims(10)), 1);
    assert!(matches!(kinbrio::user::update(&ok, None), Save::BadRequest));
    match kinbrio::user::update(&ok, Some(user())) {
        Save::Update(u) => assert_eq!(u.email, "ada@example.com"),
        _ => panic!("a signed-in user's changes are stored"),
    }
}

#[test]
fn import_route_refusals_and_fetch() {
    let none = user_or_error(None, 1);
    assert!(matches!(import(&none, None, "42", false), ImportPlan::Unauthenticated));
    let ok = user_or_error(Some(claims(10)), 1);
    match import(&ok, None, "", false) {
        ImportPlan::EmptyImportId { created } => assert!(created.is_some()),
        _ => panic!("an empty id is refused"),
    }
    let stored = AkauntingSyncOption::new(1, 2, s("u"), s("p"), s("https://a"), s("7"), true, true, true, true, true, true, true, 0);
    match import(&ok, Some(stored), "42", true) {
        ImportPlan::Fetch { user: who, options, created, request } => {
            assert_eq!(who.key, user().key);
            assert!(!created);
            assert_eq!(options.akaunting_domain, "https://a");
            let q = request.expect("configured");
            assert_eq!(q.url, "https://a/contacts/42?search=type%3Acustomer");
            assert_eq!(q.company, Some(s("7")));
        }
        _ => panic!("a named record is fetched"),
    }
    match import(&ok, None, "42", false) {
        ImportPlan::Fetch { created, request, .. } => {
            assert!(created);
            assert!(request.is_none());
        }
        _ => panic!("a named record is fetched"),
    }
}
