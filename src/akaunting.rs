//! Settings and requests of the outside accounting service.

use crate::entity::Entity;
use crate::kinds::{EntityType, ServiceItemType, ServiceValueType};
use crate::organization::Organization;
use crate::rows::{take_big, take_bool, take_key, take_text, SqlValue};
use crate::save::Save;
use crate::service_item::ServiceItem;
use crate::text::{
    base64_url, base64_url_of, decimal_text, fresh_key, int_text, now_seconds, same_text,
};
use crate::user::{AuthError, User};
use vstd::prelude::*;
use vstd::string::*;

verus! {

/// An organization's settings for the outside accounting service.
#[derive(Clone, Debug)]
pub struct AkauntingSyncOption {
    pub key: u128,
    pub organization_key: u128,
    pub owner_key: u128,
    pub user_name: String,
    pub user_pass: String,
    pub akaunting_domain: String,
    pub akaunting_company_id: String,
    pub organization_data: bool,
    pub employee_data: bool,
    pub client_data: bool,
    pub vendor_data: bool,
    pub item_data: bool,
    pub invoice_data: bool,
    pub allow_post: bool,
    pub last_sync: i64,
    pub created: i64,
    pub updated: i64,
}

impl AkauntingSyncOption {
    /// The row stored for this record, in the column order of the `akaunting_options` table.
    pub open spec fn row_spec(self) -> Seq<SqlValue> {
        seq![
            SqlValue::Key(self.key),
            SqlValue::Key(self.organization_key),
            SqlValue::Key(self.owner_key),
            SqlValue::Text(self.user_name),
            SqlValue::Text(self.user_pass),
            SqlValue::Text(self.akaunting_domain),
            SqlValue::Text(self.akaunting_company_id),
            SqlValue::Bool(self.organization_data),
            SqlValue::Bool(self.employee_data),
            SqlValue::Bool(self.client_data),
            SqlValue::Bool(self.vendor_data),
            SqlValue::Bool(self.item_data),
            SqlValue::Bool(self.invoice_data),
            SqlValue::Bool(self.allow_post),
            SqlValue::BigInt(self.last_sync),
            SqlValue::BigInt(self.created),
            SqlValue::BigInt(self.updated),
        ]
    }

    /// The record a stored row reads as, if every column holds a value of its type.
    pub open spec fn spec_from_row(row: Seq<SqlValue>) -> Option<AkauntingSyncOption> {
        if row.len() == 17
            && row[0] is Key
            && row[1] is Key
            && row[2] is Key
            && row[3] is Text
            && row[4] is Text
            && row[5] is Text
            && row[6] is Text
            && row[7] is Bool
            && row[8] is Bool
            && row[9] is Bool
            && row[10] is Bool
            && row[11] is Bool
            && row[12] is Bool
            && row[13] is Bool
            && row[14] is BigInt
            && row[15] is BigInt
            && row[16] is BigInt {
            Some(AkauntingSyncOption {
                key: row[0]->Key_0,
                organization_key: row[1]->Key_0,
                owner_key: row[2]->Key_0,
                user_name: row[3]->Text_0,
                user_pass: row[4]->Text_0,
                akaunting_domain: row[5]->Text_0,
                akaunting_company_id: row[6]->Text_0,
                organization_data: row[7]->Bool_0,
                employee_data: row[8]->Bool_0,
                client_data: row[9]->Bool_0,
                vendor_data: row[10]->Bool_0,
                item_data: row[11]->Bool_0,
                invoice_data: row[12]->Bool_0,
                allow_post: row[13]->Bool_0,
                last_sync: row[14]->BigInt_0,
                created: row[15]->BigInt_0,
                updated: row[16]->BigInt_0,
            })
        } else {
            None
        }
    }

    /// The row stored for this record, in the column order of the `akaunting_options` table.
    pub fn to_row(self) -> (r: Vec<SqlValue>)
        ensures
            r@ == self.row_spec(),
    {
        let mut row: Vec<SqlValue> = Vec::new();
        row.push(SqlValue::Key(self.key));
        row.push(SqlValue::Key(self.organization_key));
        row.push(SqlValue::Key(self.owner_key));
        row.push(SqlValue::Text(self.user_name));
        row.push(SqlValue::Text(self.user_pass));
        row.push(SqlValue::Text(self.akaunting_domain));
        row.push(SqlValue::Text(self.akaunting_company_id));
        row.push(SqlValue::Bool(self.organization_data));
        row.push(SqlValue::Bool(self.employee_data));
        row.push(SqlValue::Bool(self.client_data));
        row.push(SqlValue::Bool(self.vendor_data));
        row.push(SqlValue::Bool(self.item_data));
        row.push(SqlValue::Bool(self.invoice_data));
        row.push(SqlValue::Bool(self.allow_post));
        row.push(SqlValue::BigInt(self.last_sync));
        row.push(SqlValue::BigInt(self.created));
        row.push(SqlValue::BigInt(self.updated));
        proof {
            assert(row@ =~= self.row_spec());
        }
        row
    }

    /// Reads a stored row back; `None` when a column is missing or of another type.
    pub fn from_row(row: Vec<SqlValue>) -> (r: Option<AkauntingSyncOption>)
        ensures
            r == AkauntingSyncOption::spec_from_row(row@),
    {
        let mut row = row;
        if row.len() != 17 {
            return None;
        }
        let updated = match take_big(&mut row) {
            Some(v) => v,
            None => return None,
        };
        let created = match take_big(&mut row) {
            Some(v) => v,
            None => return None,
        };
        let last_sync = match take_big(&mut row) {
            Some(v) => v,
            None => return None,
        };
        let allow_post = match take_bool(&mut row) {
            Some(v) => v,
            None => return None,
        };
        let invoice_data = match take_bool(&mut row) {
            Some(v) => v,
            None => return None,
        };
        let item_data = match take_bool(&mut row) {
            Some(v) => v,
            None => return None,
        };
        let vendor_data = match take_bool(&mut row) {
            Some(v) => v,
            None => return None,
        };
        let client_data = match take_bool(&mut row) {
            Some(v) => v,
            None => return None,
        };
        let employee_data = match take_bool(&mut row) {
            Some(v) => v,
            None => return None,
        };
        let organization_data = match take_bool(&mut row) {
            Some(v) => v,
            None => return None,
        };
        let akaunting_company_id = match take_text(&mut row) {
            Some(v) => v,
            None => return None,
        };
        let akaunting_domain = match take_text(&mut row) {
            Some(v) => v,
            None => return None,
        };
        let user_pass = match take_text(&mut row) {
            Some(v) => v,
            None => return None,
        };
        let user_name = match take_text(&mut row) {
            Some(v) => v,
            None => return None,
        };
        let owner_key = match take_key(&mut row) {
            Some(v) => v,
            None => return None,
        };
        let organization_key = match take_key(&mut row) {
            Some(v) => v,
            None => return None,
        };
        let key = match take_key(&mut row) {
            Some(v) => v,
            None => return None,
        };
        Some(AkauntingSyncOption {
            key,
            organization_key,
            owner_key,
            user_name,
            user_pass,
            akaunting_domain,
            akaunting_company_id,
            organization_data,
            employee_data,
            client_data,
            vendor_data,
            item_data,
            invoice_data,
            allow_post,
            last_sync,
            created,
            updated,
        })
    }

    /// A new record: a fresh key, created now, never updated.
    pub fn new(
        organization_key: u128,
        owner_key: u128,
        user_name: String,
        user_pass: String,
        akaunting_domain: String,
        akaunting_company_id: String,
        organization_data: bool,
        employee_data: bool,
        client_data: bool,
        vendor_data: bool,
        item_data: bool,
        invoice_data: bool,
        allow_post: bool,
        last_sync: i64,
    ) -> (r: AkauntingSyncOption)
        ensures
            r.key != 0,
            r.organization_key == organization_key,
            r.owner_key == owner_key,
            r.user_name == user_name,
            r.user_pass == user_pass,
            r.akaunting_domain == akaunting_domain,
            r.akaunting_company_id == akaunting_company_id,
            r.organization_data == organization_data,
            r.employee_data == employee_data,
            r.client_data == client_data,
            r.vendor_data == vendor_data,
            r.item_data == item_data,
            r.invoice_data == invoice_data,
            r.allow_post == allow_post,
            r.last_sync == last_sync,
            r.updated == 0,
    {
        let key = fresh_key();
        let created = now_seconds();
        AkauntingSyncOption {
            key,
            organization_key,
            owner_key,
            user_name,
            user_pass,
            akaunting_domain,
            akaunting_company_id,
            organization_data,
            employee_data,
            client_data,
            vendor_data,
            item_data,
            invoice_data,
            allow_post,
            last_sync,
            created,
            updated: 0,
        }
    }
}

/// A AkauntingSyncOption written as a row reads back as the same AkauntingSyncOption, field for field.
pub proof fn lemma_akaunting_sync_option_row_round_trip(x: AkauntingSyncOption)
    ensures
        AkauntingSyncOption::spec_from_row(x.row_spec()) == Some(x),
{
}

/// A form naming the remote record to import.
#[derive(Clone, Debug)]
pub struct AkauntingImportByID {
    pub import_id: String,
}

/// The error body the accounting service answers with.
#[derive(Clone, Debug, Default)]
pub struct AkauntingError {
    pub message: String,
    pub status_code: String,
}

/// Paging details of a list answer.
#[derive(Clone, Debug, Default, PartialEq)]
pub struct Meta {
    pub current_page: i64,
    pub from: i64,
    pub last_page: i64,
    pub links: Vec<Link>,
    pub path: String,
    pub per_page: i64,
    pub to: i64,
    pub total: i64,
}

/// A link to one page of a list answer.
#[derive(Clone, Debug, Default, PartialEq)]
pub struct Link {
    pub url: Option<String>,
    pub label: String,
    pub active: bool,
}

/// The history of a document.
#[derive(Clone, Debug, Default, PartialEq)]
pub struct Histories {
    pub data: Vec<HistoryData>,
}

/// One change in the history of a document.
#[derive(Clone, Debug, Default, PartialEq)]
pub struct HistoryData {
    pub id: i64,
    pub company_id: i64,
    pub type_field: Option<String>,
    pub document_id: Option<i64>,
    pub status: Option<String>,
    pub notify: Option<i64>,
    pub description: Option<String>,
    pub created_from: Option<String>,
    pub created_by: Option<i64>,
    pub created_at: Option<String>,
    pub updated_at: Option<String>,
}

/// The accounting service's address used when none is configured.
pub open spec fn default_domain() -> Seq<char> {
    "https://app.akaunting.com/api"@
}

/// One call of the accounting service's REST interface.
#[derive(Clone, Debug)]
pub enum SyncCall {
    ListCompanys,
    GetCustomer(String),
    GetItem(String),
    ListItems,
    ListInvoices,
    ListCustomers,
    ListUsers,
}

/// The path, below the configured address, that a call requests.
pub open spec fn call_path(call: SyncCall) -> Seq<char> {
    match call {
        SyncCall::ListCompanys => "/companies"@,
        SyncCall::GetCustomer(id) => "/contacts/"@ + id@ + "?search=type%3Acustomer"@,
        SyncCall::GetItem(id) => "/items/"@ + id@,
        SyncCall::ListItems => "/items"@,
        SyncCall::ListInvoices => "/documents?search=type:invoice&page=1&limit=50"@,
        SyncCall::ListCustomers => "/contacts?search=type:customer&page=1&limit=25"@,
        SyncCall::ListUsers => "/users"@,
    }
}

/// A GET request to the accounting service.
#[derive(Clone, Debug)]
pub struct SyncRequest {
    pub url: String,
    /// Value of the `Authorization` header.
    pub authorization: String,
    /// Value of the `X-Company` header, when the call is scoped to a company.
    pub company: Option<String>,
}

/// Why an import from the accounting service is refused.
#[derive(Clone, Copy, Debug, PartialEq, Eq, Structural)]
pub enum ImportError {
    /// The form named no remote record.
    EmptyImportId,
}

/// The fields of a company of the accounting service that the settings page reads.
#[derive(Clone, Debug)]
pub struct AkauntingCompany {
    pub id: i64,
    pub name: String,
    pub email: String,
}

/// The fields of a remote item that an import reads; `sale_price` is the
/// remote price with its fraction dropped.
#[derive(Clone, Debug)]
pub struct AkauntingItem {
    pub id: i64,
    pub type_field: String,
    pub name: String,
    pub description: String,
    pub sale_price: i64,
}

/// The fields of a remote customer that an import reads; `website` and
/// `address` are the texts of the remote values as the service sent them.
#[derive(Clone, Debug)]
pub struct AkauntingCustomer {
    pub id: i64,
    pub name: String,
    pub website: String,
    pub address: String,
}

impl AkauntingSyncOption {
    /// Whether sync is configured: address, user name and password all given.
    pub open spec fn spec_can_sync(self) -> bool {
        self.akaunting_domain@.len() > 0 && self.user_name@.len() > 0 && self.user_pass@.len() > 0
    }

    /// Whether sync is configured: address, user name and password all given.
    pub fn can_sync(&self) -> (r: bool)
        ensures
            r == self.spec_can_sync(),
    {
        self.akaunting_domain.as_str().unicode_len() > 0 && self.user_name.as_str().unicode_len() > 0
            && self.user_pass.as_str().unicode_len() > 0
    }

    /// The `Authorization` header: Basic credentials `user:password`.
    pub open spec fn spec_authorization(self) -> Seq<char> {
        "Basic "@ + base64_url_of(self.user_name@ + ":"@ + self.user_pass@)
    }

    /// The `Authorization` header: Basic credentials `user:password`.
    pub fn get_authorization(&self) -> (r: String)
        ensures
            r@ == self.spec_authorization(),
    {
        let mut credentials = self.user_name.clone();
        credentials.append(":");
        credentials.append(self.user_pass.as_str());
        let encoded = base64_url(credentials.as_str());
        let mut r = String::new();
        r.append("Basic ");
        r.append(encoded.as_str());
        r
    }

    /// The request a call makes; `None` when sync is not configured, and
    /// the call then answers with its empty value without any request.
    pub fn sync_request(&self, call: &SyncCall) -> (r: Option<SyncRequest>)
        ensures
            r is None <==> !self.spec_can_sync(),
            r matches Some(q) ==> {
                &&& q.url@ == self.akaunting_domain@ + call_path(*call)
                &&& q.authorization@ == self.spec_authorization()
                &&& q.company == (if call is GetCustomer {
                    Some(self.akaunting_company_id)
                } else {
                    None::<String>
                })
            },
    {
        if !self.can_sync() {
            return None;
        }
        let mut url = self.akaunting_domain.clone();
        let mut company: Option<String> = None;
        match call {
            SyncCall::ListCompanys => {
                url.append("/companies");
            },
            SyncCall::GetCustomer(id) => {
                url.append("/contacts/");
                url.append(id.as_str());
                url.append("?search=type%3Acustomer");
                company = Some(self.akaunting_company_id.clone());
            },
            SyncCall::GetItem(id) => {
                url.append("/items/");
                url.append(id.as_str());
            },
            SyncCall::ListItems => {
                url.append("/items");
            },
            SyncCall::ListInvoices => {
                url.append("/documents?search=type:invoice&page=1&limit=50");
            },
            SyncCall::ListCustomers => {
                url.append("/contacts?search=type:customer&page=1&limit=25");
            },
            SyncCall::ListUsers => {
                url.append("/users");
            },
        }
        Some(SyncRequest { url, authorization: self.get_authorization(), company })
    }

    /// Settings shown or used for calls: the default address when none is set.
    pub fn with_default_domain(&mut self)
        ensures
            final(self).akaunting_domain@ == (if old(self).akaunting_domain@.len() == 0 {
                default_domain()
            } else {
                old(self).akaunting_domain@
            }),
            final(self).key == old(self).key,
            final(self).organization_key == old(self).organization_key,
            final(self).user_name == old(self).user_name,
            final(self).user_pass == old(self).user_pass,
            final(self).akaunting_company_id == old(self).akaunting_company_id,
    {
        if self.akaunting_domain.as_str().unicode_len() == 0 {
            self.akaunting_domain = "https://app.akaunting.com/api".to_owned();
        }
    }

    /// The settings an organization starts with: nothing configured, every
    /// kind of data selected, never synced.
    pub fn unconfigured(organization_key: u128, owner_key: u128) -> (r: AkauntingSyncOption)
        ensures
            r.key != 0,
            r.organization_key == organization_key,
            r.owner_key == owner_key,
            r.user_name@.len() == 0,
            r.user_pass@.len() == 0,
            r.akaunting_domain@.len() == 0,
            r.akaunting_company_id@.len() == 0,
            r.organization_data && r.employee_data && r.client_data && r.vendor_data,
            r.item_data && r.invoice_data && r.allow_post,
            r.last_sync == 0,
            !r.spec_can_sync(),
    {
        AkauntingSyncOption::new(
            organization_key,
            owner_key,
            String::new(),
            String::new(),
            String::new(),
            String::new(),
            true,
            true,
            true,
            true,
            true,
            true,
            true,
            0,
        )
    }

    /// The request that fetches the remote record an import names; refused
    /// when the form named none.
    pub fn import_request(&self, import_id: &str, customer: bool) -> (r: Result<Option<SyncRequest>, ImportError>)
        ensures
            import_id@.len() == 0 <==> r == Err::<Option<SyncRequest>, ImportError>(ImportError::EmptyImportId),
            import_id@.len() > 0 ==> r is Ok,
            r matches Ok(q) ==> (q is None <==> !self.spec_can_sync()),
            r matches Ok(Some(q)) ==> q.authorization@ == self.spec_authorization() && q.company == (if customer {
                Some(self.akaunting_company_id)
            } else {
                None::<String>
            }),
            r matches Ok(Some(q)) ==> q.url@ == self.akaunting_domain@ + (if customer {
                "/contacts/"@ + import_id@ + "?search=type%3Acustomer"@
            } else {
                "/items/"@ + import_id@
            }),
    {
        if import_id.unicode_len() == 0 {
            return Err(ImportError::EmptyImportId);
        }
        let call = if customer {
            SyncCall::GetCustomer(import_id.to_owned())
        } else {
            SyncCall::GetItem(import_id.to_owned())
        };
        Ok(self.sync_request(&call))
    }
}

/// What an import request comes to.
#[derive(Clone, Debug)]
pub enum ImportPlan {
    /// No signed-in user: the caller is sent to sign in; nothing is fetched
    /// or stored.
    Unauthenticated,
    /// The form named no remote record: nothing is fetched or imported. The
    /// settings in `created`, when the organization had none, are stored.
    EmptyImportId { created: Option<AkauntingSyncOption> },
    /// Fetch the remote record with `request` (none when sync is not
    /// configured) for `user`, under `options`; `created` tells whether
    /// those settings are new and are to be stored.
    Fetch { user: User, options: AkauntingSyncOption, created: bool, request: Option<SyncRequest> },
}

/// What a request to import the remote record named `import_id` (a
/// customer when `customer`, else an item) comes to, given the signed-in
/// user and the organization's stored settings, if any. An organization
/// without settings gets unconfigured ones. Refused without a signed-in user,
/// and when the form named no record.
pub fn import(
    session: &Result<User, AuthError>,
    stored: Option<AkauntingSyncOption>,
    import_id: &str,
    customer: bool,
) -> (r: ImportPlan)
    ensures
        session is Err ==> r is Unauthenticated,
        session is Ok && import_id@.len() == 0 ==> (r matches ImportPlan::EmptyImportId { created }
            && (created is Some <==> stored is None)),
        session is Ok && import_id@.len() > 0 ==> r is Fetch,
        r is Fetch ==> r->Fetch_user == session->Ok_0 && r->Fetch_created == (stored is None),
        r is Fetch && stored is Some ==> r->Fetch_options == stored->0,
        r is Fetch && stored is None ==> r->Fetch_options.organization_key == session->Ok_0.organization_key
            && r->Fetch_options.owner_key == session->Ok_0.key && !r->Fetch_options.spec_can_sync(),
        r is Fetch ==> (r->Fetch_request is None <==> !r->Fetch_options.spec_can_sync()),
        r is Fetch && r->Fetch_request is Some ==> r->Fetch_request->0.url@ == r->Fetch_options.akaunting_domain@
            + (if customer {
            "/contacts/"@ + import_id@ + "?search=type%3Acustomer"@
        } else {
            "/items/"@ + import_id@
        }),
        r is Fetch && r->Fetch_request is Some ==> r->Fetch_request->0.authorization@
            == r->Fetch_options.spec_authorization() && r->Fetch_request->0.company == (if customer {
            Some(r->Fetch_options.akaunting_company_id)
        } else {
            None::<String>
        }),
{
    let user = match session {
        Err(_) => return ImportPlan::Unauthenticated,
        Ok(u) => u,
    };
    let (options, created) = match stored {
        Some(o) => (o, false),
        None => (AkauntingSyncOption::unconfigured(user.organization_key, user.key), true),
    };
    let planned = options.import_request(import_id, customer);
    match planned {
        Err(_) => ImportPlan::EmptyImportId {
            created: if created {
                Some(options)
            } else {
                None
            },
        },
        Ok(request) => ImportPlan::Fetch { user: user.copied(), options, created, request },
    }
}

/// Position of the first company whose id, as text, is `company_id`.
pub open spec fn is_first_match(companies: Seq<AkauntingCompany>, company_id: Seq<char>, j: int) -> bool {
    &&& 0 <= j < companies.len()
    &&& decimal_text(companies[j].id as int) == company_id
    &&& forall|k: int| 0 <= k < j ==> decimal_text(#[trigger] companies[k].id as int) != company_id
}

/// The organization after its accounting settings were saved: named after
/// the first company whose id is the configured company id. When `full`, it
/// also takes that company's email and the configured address and company
/// id. Unchanged when no company matches.
pub fn company_update(
    org: Organization,
    companies: &Vec<AkauntingCompany>,
    options: &AkauntingSyncOption,
    full: bool,
) -> (r: Organization)
    ensures
        (forall|k: int| 0 <= k < companies.len() ==> decimal_text(#[trigger] companies[k].id as int)
            != options.akaunting_company_id@) ==> r == org,
        forall|j: int| #[trigger] is_first_match(companies@, options.akaunting_company_id@, j) ==> {
            &&& r.name == companies[j].name
            &&& r.contact_email == (if full {
                companies[j].email
            } else {
                org.contact_email
            })
            &&& r.external_accounting_url == (if full {
                options.akaunting_domain
            } else {
                org.external_accounting_url
            })
            &&& r.external_accounting_id == (if full {
                options.akaunting_company_id
            } else {
                org.external_accounting_id
            })
            &&& r.key == org.key && r.owner_key == org.owner_key && r.description == org.description
        },
{
    let mut i: usize = 0;
    while i < companies.len()
        invariant
            i <= companies.len(),
            forall|k: int| 0 <= k < i ==> decimal_text(#[trigger] companies[k].id as int)
                != options.akaunting_company_id@,
        decreases companies.len() - i,
    {
        let id = int_text(companies[i].id);
        if same_text(id.as_str(), options.akaunting_company_id.as_str()) {
            let c = &companies[i];
            assert(is_first_match(companies@, options.akaunting_company_id@, i as int));
            if full {
                return Organization {
                    name: c.name.clone(),
                    contact_email: c.email.clone(),
                    external_accounting_url: options.akaunting_domain.clone(),
                    external_accounting_id: options.akaunting_company_id.clone(),
                    ..org
                };
            } else {
                return Organization { name: c.name.clone(), ..org };
            }
        }
        i = i + 1;
    }
    org
}

/// Whether a service item is the one an import of `remote` makes for `owner`:
/// the remote id as text for its accounting id, the remote name, description
/// and price in US dollars, billed in full, a service only when the remote
/// type is `Service`; apart from its key and creation time.
pub open spec fn imported_item(r: ServiceItem, owner: User, remote: AkauntingItem) -> bool {
    &&& r.organization_key == owner.organization_key
    &&& r.owner_key == owner.key
    &&& r.external_accounting_id@ == decimal_text(remote.id as int)
    &&& r.name == remote.name
    &&& r.description == remote.description
    &&& r.value == remote.sale_price
    &&& r.currency@ == "USD"@
    &&& r.service_item_type == (if remote.type_field@ == "Service"@ {
        ServiceItemType::Service
    } else {
        ServiceItemType::Item
    })
    &&& r.service_value_type == ServiceValueType::Full
    &&& r.expenses@.len() == 0
    &&& r.updated == 0
}

/// The service item an import of a remote item stores. Nothing is looked up
/// first: importing the same remote item again stores another one.
pub fn import_item(owner: &User, remote: AkauntingItem) -> (r: ServiceItem)
    ensures
        imported_item(r, *owner, remote),
        r.key != 0,
{
    let service_item_type = if same_text(remote.type_field.as_str(), "Service") {
        ServiceItemType::Service
    } else {
        ServiceItemType::Item
    };
    ServiceItem::new(
        owner.organization_key,
        int_text(remote.id),
        owner.key,
        remote.name,
        remote.description,
        remote.sale_price,
        "USD".to_owned(),
        service_item_type,
        ServiceValueType::Full,
        Vec::new(),
    )
}

/// Whether a client record is the one an import of `remote` makes for
/// `owner`, apart from its key and creation time.
pub open spec fn imported_customer(r: Entity, owner: User, remote: AkauntingCustomer) -> bool {
    &&& r.organization_key == owner.organization_key
    &&& r.owner_key == owner.key
    &&& r.external_accounting_id@ == decimal_text(remote.id as int)
    &&& r.name == remote.name
    &&& r.web_url == remote.website
    &&& r.address_primary == remote.address
    &&& r.entity_type == EntityType::Client
    &&& r.description@.len() == 0 && r.matrix_room_url@.len() == 0 && r.avatar_url@.len() == 0
    &&& r.address_unit@.len() == 0 && r.city@.len() == 0 && r.state@.len() == 0
    &&& r.zip_code@.len() == 0 && r.country@.len() == 0
    &&& r.updated == 0
}

/// The client record an import of a remote customer stores. Nothing is
/// looked up first: importing the same customer again stores another one.
pub fn import_customer(owner: &User, remote: AkauntingCustomer) -> (r: Entity)
    ensures
        imported_customer(r, *owner, remote),
        r.key != 0,
{
    Entity::new(
        owner.organization_key,
        int_text(remote.id),
        owner.key,
        remote.name,
        String::new(),
        String::new(),
        remote.website,
        String::new(),
        EntityType::Client,
        remote.address,
        String::new(),
        String::new(),
        String::new(),
        String::new(),
        String::new(),
    )
}

/// Importing the same remote item twice stores two items that carry the same
/// accounting id, the remote id, and agree on all but their keys and creation
/// times: nothing deduplicates them, and with their two keys they are two rows.
pub proof fn lemma_import_item_twice(a: ServiceItem, b: ServiceItem, owner: User, remote: AkauntingItem)
    requires
        imported_item(a, owner, remote),
        imported_item(b, owner, remote),
    ensures
        a.external_accounting_id@ == b.external_accounting_id@,
        a.external_accounting_id@ == decimal_text(remote.id as int),
        a.name == b.name && a.description == b.description && a.value == b.value,
        a.organization_key == b.organization_key && a.owner_key == b.owner_key,
        a.service_item_type == b.service_item_type && a.service_value_type == b.service_value_type,
        a.key != b.key ==> a != b,
{
}

impl AkauntingSyncOption {
    /// Whether this record was created from a client's body: a fresh key,
    /// never updated, and the body's content.
    pub open spec fn created_from(self, body: AkauntingSyncOption) -> bool {
        &&& self.key != 0
        &&& self.updated == 0
        &&& self.organization_key == body.organization_key
        &&& self.owner_key == body.owner_key
        &&& self.user_name == body.user_name
        &&& self.user_pass == body.user_pass
        &&& self.akaunting_domain == body.akaunting_domain
        &&& self.akaunting_company_id == body.akaunting_company_id
        &&& self.organization_data == body.organization_data
        &&& self.employee_data == body.employee_data
        &&& self.client_data == body.client_data
        &&& self.vendor_data == body.vendor_data
        &&& self.item_data == body.item_data
        &&& self.invoice_data == body.invoice_data
        &&& self.allow_post == body.allow_post
        &&& self.last_sync == body.last_sync
    }
}

/// Saves accounting settings sent by a client. Without a signed-in user nothing is
/// stored; a body that could not be read is a bad request; a body with the
/// nil key is stored as a new record; any other body
/// replaces the stored record with its key.
pub fn save_akaunting_options(session: &Result<User, AuthError>, body: Option<AkauntingSyncOption>) -> (r: Save<AkauntingSyncOption>)
    ensures
        session is Err ==> r is Unauthenticated,
        session is Ok && body is None ==> r is BadRequest,
        session is Ok && body is Some && body->0.key != 0 ==> r == Save::Update(body->0),
        session is Ok && body is Some && body->0.key == 0 ==> (r matches Save::Insert(n) && n.created_from(body->0)),
{
    if let Err(_) = session {
        return Save::Unauthenticated;
    }
    match body {
        None => Save::BadRequest,
        Some(b) => {
            if b.key == 0 {
                Save::Insert(
                    AkauntingSyncOption::new(
                        b.organization_key,
                        b.owner_key,
                        b.user_name,
                        b.user_pass,
                        b.akaunting_domain,
                        b.akaunting_company_id,
                        b.organization_data,
                        b.employee_data,
                        b.client_data,
                        b.vendor_data,
                        b.item_data,
                        b.invoice_data,
                        b.allow_post,
                        b.last_sync,
                    ),
                )
            } else {
                Save::Update(b)
            }
        },
    }
}

} // verus!
