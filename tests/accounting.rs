use kinbrio::akaunting::{
    company_update, import_customer, import_item, AkauntingCompany, AkauntingCustomer,
    AkauntingItem, AkauntingSyncOption, ImportError, SyncCall,
};
use kinbrio::kinds::{EntityType, ServiceItemType, ServiceValueType};
use kinbrio::organization::Organization;
use kinbrio::service_item::ServiceItem;
use kinbrio::user::User;

fn s(x: &str) -> String {
    x.to_string()
}

fn options(domain: &str, user: &str, pass: &str) -> AkauntingSyncOption {
    AkauntingSyncOption::new(1, 2, s(user), s(pass), s(domain), s("7"), true, true, true, true, true, true, true, 0)
}

fn owner() -> User {
    User {
        key: 21,
        organization_key: 22,
        email: s("o@x"),
        matrix_user_id: s("@o:x"),
        matrix_home_server: s("https://hs"),
        created: 0,
        updated: 0,
    }
}

const CALLS: usize = 7;

fn call(i: usize) -> SyncCall {
    match i {
        0 => SyncCall::ListCompanys,
        1 => SyncCall::GetCustomer(s("5")),
        2 => SyncCall::GetItem(s("5")),
        3 => SyncCall::ListItems,
        4 => SyncCall::ListInvoices,
        5 => SyncCall::ListCustomers,
        _ => SyncCall::ListUsers,
    }
}

#[test]
fn unconfigured_sync_makes_no_request() {
    for o in [options("", "u", "p"), options("https://a", "", "p"), options("https://a", "u", ""), options("", "", "")] {
        assert!(!o.can_sync());
        for i in 0..CALLS {
            assert!(o.sync_request(&call(i)).is_none());
        }
    }
    assert!(!AkauntingSyncOption::unconfigured(1, 2).can_sync());
}

#[test]
fn configured_sync_requests() {
    let o = options("https://acc.example/api", "user", "pass");
    assert!(o.can_sync());
    assert_eq!(o.get_authorization(), "Basic dXNlcjpwYXNz");
    let urls = [
        "https://acc.example/api/companies",
        "https://acc.example/api/contacts/5?search=type%3Acustomer",
        "https://acc.example/api/items/5",
        "https://acc.example/api/items",
        "https://acc.example/api/documents?search=type:invoice&page=1&limit=50",
        "https://acc.example/api/contacts?search=type:customer&page=1&limit=25",
        "https://acc.example/api/users",
    ];
    for i in 0..CALLS {
        let q = o.sync_request(&call(i)).expect("configured");
        assert_eq!(q.url, urls[i]);
        assert_eq!(q.authorization, "Basic dXNlcjpwYXNz");
        assert_eq!(q.company, if i == 1 { Some(s("7")) } else { None });
    }
}

#[test]
fn credentials_use_the_url_safe_alphabet() {
    let o = options("d", "??>", "~~~");
    assert_eq!(o.get_authorization(), "Basic Pz8-On5-fg==");
}

#[test]
fn default_domain_only_when_none_is_set() {
    let mut o = options("", "u", "p");
    o.with_default_domain();
    assert_eq!(o.akaunting_domain, "https://app.akaunting.com/api");
    let mut o = options("https://mine", "u", "p");
    o.with_default_domain();
    assert_eq!(o.akaunting_domain, "https://mine");
}

#[test]
fn import_requests() {
    let o = options("https://a", "u", "p");
    assert_eq!(o.import_request("", false).err(), Some(ImportError::EmptyImportId));
    let q = o.import_request("42", false).expect("id given").expect("configured");
    assert_eq!(q.url, "https://a/items/42");
    let q = o.import_request("42", true).expect("id given").expect("configured");
    assert_eq!(q.url, "https://a/contacts/42?search=type%3Acustomer");
    assert!(options("", "", "").import_request("42", false).expect("id given").is_none());
}

fn remote_item(kind: &str) -> AkauntingItem {
    AkauntingItem { id: 42, type_field: s(kind), name: s("Widget"), description: s("blue"), sale_price: 19 }
}

#[test]
fn importing_an_item_twice_stores_two_rows_with_the_same_accounting_id() {
    let a: ServiceItem = import_item(&owner(), remote_item("Service"));
    let b: ServiceItem = import_item(&owner(), remote_item("Service"));
    assert_eq!(a.external_accounting_id, "42");
    assert_eq!(b.external_accounting_id, "42");
    assert_ne!(a.key, b.key);
    assert_eq!(a.service_item_type, ServiceItemType::Service);
    assert_eq!(a.service_value_type, ServiceValueType::Full);
    assert_eq!(a.currency, "USD");
    assert_eq!(a.value, 19);
    assert_eq!(a.organization_key, 22);
    assert_eq!(a.owner_key, 21);
    assert!(a.expenses.is_empty());
    let c = import_item(&owner(), remote_item("Item"));
    assert_eq!(c.service_item_type, ServiceItemType::Item);
    let d = import_item(&owner(), remote_item("service"));
    assert_eq!(d.service_item_type, ServiceItemType::Item);
}

#[test]
fn importing_a_customer() {
    let e = import_customer(
        &owner(),
        AkauntingCustomer { id: -3, name: s("ACME"), website: s("\"https://acme\""), address: s("null") },
    );
    assert_eq!(e.external_accounting_id, "-3");
    assert_eq!(e.entity_type, EntityType::Client);
    assert_eq!(e.web_url, "\"https://acme\"");
    assert_eq!(e.address_primary, "null");
    assert_eq!(e.name, "ACME");
    assert_eq!(e.description, "");
    assert_ne!(e.key, 0);
}

fn org() -> Organization {
    Organization::new(5, s(""), s(""), 6, s("Welcome Inc."), s(""), s("hs"), s(""), s(""), s(""), s("old@x"))
}

fn companies() -> Vec<AkauntingCompany> {
    vec![
        AkauntingCompany { id: 70, name: s("Seventy"), email: s("70@x") },
        AkauntingCompany { id: 7, name: s("Seven"), email: s("7@x") },
        AkauntingCompany { id: 7, name: s("Second seven"), email: s("77@x") },
    ]
}

#[test]
fn saving_settings_names_the_organization_after_its_company() {
    let o = options("https://a", "u", "p");
    let r = company_update(org(), &companies(), &o, false);
    assert_eq!(r.name, "Seven");
    assert_eq!(r.contact_email, "old@x");
    assert_eq!(r.external_accounting_id, "");
    let r = company_update(org(), &companies(), &o, true);
    assert_eq!(r.name, "Seven");
    assert_eq!(r.contact_email, "7@x");
    assert_eq!(r.external_accounting_url, "https://a");
    assert_eq!(r.external_accounting_id, "7");
    assert!(r.has_external_accounting());
    let r = company_update(org(), &vec![], &o, true);
    assert_eq!(r.name, "Welcome Inc.");
    assert!(!r.has_external_accounting());
}
