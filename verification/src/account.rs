//! Accounts: the billing/provisioning records behind VMs and snapshots.
//!
//! One account row maps to one provisioned virtual machine or to one
//! snapshot, depending on which listing endpoint produced it.  The
//! lifecycle status travels on the account; `Terminated` marks a
//! resource that can no longer be reached.

use vstd::prelude::*;
use vstd::string::StringExecFns;

use crate::error::Error;
use crate::error::shape_error;
use crate::json::JsonValue;
use crate::json::get_field;
use crate::json::jv_get;
use crate::json::jv_field_i32;
use crate::json::jv_field_opt_str;
use crate::json::jv_field_str;
use crate::json::jv_field_u32;
use crate::json::jv_field_u32_lenient;
use crate::json::spec_field_i32;
use crate::json::spec_field_opt_str;
use crate::json::spec_field_str;
use crate::json::spec_field_u32;
use crate::json::spec_field_u32_lenient;
use crate::numstr::spec_dec;
use crate::numstr::u32_to_string;

verus! {

/// The lifecycle status of an account.
#[derive(Debug, Clone, Copy, PartialEq, Eq, Structural)]
pub enum AccountStatus {
    Active,
    Pending,
    Suspended,
    Terminated,
}

impl AccountStatus {
    /// The exact literal the remote API uses for this status.
    pub fn as_str(&self) -> (s: &'static str)
        ensures
            s@ == self.status_name(),
    {
        match self {
            AccountStatus::Active => "Active",
            AccountStatus::Pending => "Pending",
            AccountStatus::Suspended => "Suspended",
            AccountStatus::Terminated => "Terminated",
        }
    }

    /// The wire name of this status.
    pub open spec fn status_name(&self) -> Seq<char> {
        match self {
            AccountStatus::Active => "Active"@,
            AccountStatus::Pending => "Pending"@,
            AccountStatus::Suspended => "Suspended"@,
            AccountStatus::Terminated => "Terminated"@,
        }
    }
}

/// How status text reads as a status: exactly the four wire literals.
pub open spec fn spec_parse_status(s: Seq<char>) -> Option<AccountStatus> {
    if s == "Active"@ {
        Some(AccountStatus::Active)
    } else if s == "Pending"@ {
        Some(AccountStatus::Pending)
    } else if s == "Suspended"@ {
        Some(AccountStatus::Suspended)
    } else if s == "Terminated"@ {
        Some(AccountStatus::Terminated)
    } else {
        None
    }
}

/// Reads status text as a status value.
pub fn parse_status(s: &String) -> (r: Option<AccountStatus>)
    ensures
        r == spec_parse_status(s@),
{
    if *s == "Active".to_owned() {
        Some(AccountStatus::Active)
    } else if *s == "Pending".to_owned() {
        Some(AccountStatus::Pending)
    } else if *s == "Suspended".to_owned() {
        Some(AccountStatus::Suspended)
    } else if *s == "Terminated".to_owned() {
        Some(AccountStatus::Terminated)
    } else {
        None
    }
}

/// The nested provisioning details of a VM account.
#[derive(Debug, Clone)]
pub struct ExtraDetails {
    pub region: String,
    pub region_label: String,
    pub description: String,
    pub name: String,
    pub tenant_id: Option<String>,
    pub ciuser: String,
    pub cipassword: String,
    /// The wire calls this member `neosshkey_id`.
    pub keypair_id: u32,
    pub sshkeys: String,
    pub osname: String,
    pub disk_size: String,
}

pub struct ExtraDetailsView {
    pub region: Seq<char>,
    pub region_label: Seq<char>,
    pub description: Seq<char>,
    pub name: Seq<char>,
    pub tenant_id: Option<Seq<char>>,
    pub ciuser: Seq<char>,
    pub cipassword: Seq<char>,
    pub keypair_id: u32,
    pub sshkeys: Seq<char>,
    pub osname: Seq<char>,
    pub disk_size: Seq<char>,
}

impl View for ExtraDetails {
    type V = ExtraDetailsView;

    open spec fn view(&self) -> ExtraDetailsView {
        ExtraDetailsView {
            region: self.region@,
            region_label: self.region_label@,
            description: self.description@,
            name: self.name@,
            tenant_id: match self.tenant_id {
                Some(t) => Some(t@),
                None => None,
            },
            ciuser: self.ciuser@,
            cipassword: self.cipassword@,
            keypair_id: self.keypair_id,
            sshkeys: self.sshkeys@,
            osname: self.osname@,
            disk_size: self.disk_size@,
        }
    }
}

/// The last invoice attached to an account.
#[derive(Debug, Clone)]
pub struct LastInvoice {
    pub id: u32,
    pub paid_id: u32,
    pub status: String,
    pub date: String,
    pub duedate: String,
    pub paybefore: String,
    pub datepaid: String,
    pub invoice_type: String,
}

pub struct LastInvoiceView {
    pub id: u32,
    pub paid_id: u32,
    pub status: Seq<char>,
    pub date: Seq<char>,
    pub duedate: Seq<char>,
    pub paybefore: Seq<char>,
    pub datepaid: Seq<char>,
    pub invoice_type: Seq<char>,
}

impl View for LastInvoice {
    type V = LastInvoiceView;

    open spec fn view(&self) -> LastInvoiceView {
        LastInvoiceView {
            id: self.id,
            paid_id: self.paid_id,
            status: self.status@,
            date: self.date@,
            duedate: self.duedate@,
            paybefore: self.paybefore@,
            datepaid: self.datepaid@,
            invoice_type: self.invoice_type@,
        }
    }
}

/// One VM account as the listing reports it.
#[derive(Debug, Clone)]
pub struct AccountResource {
    /// The wire calls this member `account_id` and may carry it as a
    /// number or as a decimal string.
    pub id: u32,
    pub domain: String,
    pub status: AccountStatus,
    pub billingcycle: String,
    pub date_created: String,
    pub next_due: String,
    pub recurring_amount: i32,
    pub extra_details: ExtraDetails,
    pub product_id: u32,
    pub product_name: String,
    pub description: String,
    pub category_id: u32,
    pub category_name: String,
    pub last_invoice: LastInvoice,
}

pub struct AccountResourceView {
    pub id: u32,
    pub domain: Seq<char>,
    pub status: AccountStatus,
    pub billingcycle: Seq<char>,
    pub date_created: Seq<char>,
    pub next_due: Seq<char>,
    pub recurring_amount: i32,
    pub extra_details: ExtraDetailsView,
    pub product_id: u32,
    pub product_name: Seq<char>,
    pub description: Seq<char>,
    pub category_id: u32,
    pub category_name: Seq<char>,
    pub last_invoice: LastInvoiceView,
}

impl View for AccountResource {
    type V = AccountResourceView;

    open spec fn view(&self) -> AccountResourceView {
        AccountResourceView {
            id: self.id,
            domain: self.domain@,
            status: self.status,
            billingcycle: self.billingcycle@,
            date_created: self.date_created@,
            next_due: self.next_due@,
            recurring_amount: self.recurring_amount,
            extra_details: self.extra_details@,
            product_id: self.product_id,
            product_name: self.product_name@,
            description: self.description@,
            category_id: self.category_id,
            category_name: self.category_name@,
            last_invoice: self.last_invoice@,
        }
    }
}

/// How one decoded value reads as the nested provisioning details.
pub open spec fn spec_parse_extra_details(v: JsonValue) -> Option<ExtraDetailsView> {
    let region = spec_field_str(v, "region"@);
    let region_label = spec_field_str(v, "region_label"@);
    let description = spec_field_str(v, "description"@);
    let name = spec_field_str(v, "name"@);
    let tenant_id = spec_field_opt_str(v, "tenant_id"@);
    let ciuser = spec_field_str(v, "ciuser"@);
    let cipassword = spec_field_str(v, "cipassword"@);
    let keypair_id = spec_field_u32(v, "neosshkey_id"@);
    let sshkeys = spec_field_str(v, "sshkeys"@);
    let osname = spec_field_str(v, "osname"@);
    let disk_size = spec_field_str(v, "disk_size"@);
    if region is Some && region_label is Some && description is Some && name is Some && tenant_id
        is Some && ciuser is Some && cipassword is Some && keypair_id is Some && sshkeys is Some
        && osname is Some && disk_size is Some {
        Some(
            ExtraDetailsView {
                region: region.unwrap(),
                region_label: region_label.unwrap(),
                description: description.unwrap(),
                name: name.unwrap(),
                tenant_id: tenant_id.unwrap(),
                ciuser: ciuser.unwrap(),
                cipassword: cipassword.unwrap(),
                keypair_id: keypair_id.unwrap(),
                sshkeys: sshkeys.unwrap(),
                osname: osname.unwrap(),
                disk_size: disk_size.unwrap(),
            },
        )
    } else {
        None
    }
}

/// Reads one decoded value as the nested provisioning details.
pub fn parse_extra_details(v: &JsonValue) -> (r: Result<ExtraDetails, Error>)
    ensures
        match r {
            Ok(d) => spec_parse_extra_details(*v) == Some(d@),
            Err(e) => spec_parse_extra_details(*v) is None && e matches Error::InvalidArgument(_),
        },
{
    let region = match jv_field_str(v, "region") {
        Some(x) => x,
        None => {
            return Err(shape_error("account details"));
        },
    };
    let region_label = match jv_field_str(v, "region_label") {
        Some(x) => x,
        None => {
            return Err(shape_error("account details"));
        },
    };
    let description = match jv_field_str(v, "description") {
        Some(x) => x,
        None => {
            return Err(shape_error("account details"));
        },
    };
    let name = match jv_field_str(v, "name") {
        Some(x) => x,
        None => {
            return Err(shape_error("account details"));
        },
    };
    let tenant_id = match jv_field_opt_str(v, "tenant_id") {
        Some(x) => x,
        None => {
            return Err(shape_error("account details"));
        },
    };
    let ciuser = match jv_field_str(v, "ciuser") {
        Some(x) => x,
        None => {
            return Err(shape_error("account details"));
        },
    };
    let cipassword = match jv_field_str(v, "cipassword") {
        Some(x) => x,
        None => {
            return Err(shape_error("account details"));
        },
    };
    let keypair_id = match jv_field_u32(v, "neosshkey_id") {
        Some(x) => x,
        None => {
            return Err(shape_error("account details"));
        },
    };
    let sshkeys = match jv_field_str(v, "sshkeys") {
        Some(x) => x,
        None => {
            return Err(shape_error("account details"));
        },
    };
    let osname = match jv_field_str(v, "osname") {
        Some(x) => x,
        None => {
            return Err(shape_error("account details"));
        },
    };
    let disk_size = match jv_field_str(v, "disk_size") {
        Some(x) => x,
        None => {
            return Err(shape_error("account details"));
        },
    };
    Ok(
        ExtraDetails {
            region,
            region_label,
            description,
            name,
            tenant_id,
            ciuser,
            cipassword,
            keypair_id,
            sshkeys,
            osname,
            disk_size,
        },
    )
}

/// How one decoded value reads as the last invoice.
pub open spec fn spec_parse_last_invoice(v: JsonValue) -> Option<LastInvoiceView> {
    let id = spec_field_u32(v, "id"@);
    let paid_id = spec_field_u32(v, "paid_id"@);
    let status = spec_field_str(v, "status"@);
    let date = spec_field_str(v, "date"@);
    let duedate = spec_field_str(v, "duedate"@);
    let paybefore = spec_field_str(v, "paybefore"@);
    let datepaid = spec_field_str(v, "datepaid"@);
    let invoice_type = spec_field_str(v, "invoice_type"@);
    if id is Some && paid_id is Some && status is Some && date is Some && duedate is Some
        && paybefore is Some && datepaid is Some && invoice_type is Some {
        Some(
            LastInvoiceView {
                id: id.unwrap(),
                paid_id: paid_id.unwrap(),
                status: status.unwrap(),
                date: date.unwrap(),
                duedate: duedate.unwrap(),
                paybefore: paybefore.unwrap(),
                datepaid: datepaid.unwrap(),
                invoice_type: invoice_type.unwrap(),
            },
        )
    } else {
        None
    }
}

/// Reads one decoded value as the last invoice.
pub fn parse_last_invoice(v: &JsonValue) -> (r: Result<LastInvoice, Error>)
    ensures
        match r {
            Ok(inv) => spec_parse_last_invoice(*v) == Some(inv@),
            Err(e) => spec_parse_last_invoice(*v) is None && e matches Error::InvalidArgument(_),
        },
{
    let id = match jv_field_u32(v, "id") {
        Some(x) => x,
        None => {
            return Err(shape_error("invoice"));
        },
    };
    let paid_id = match jv_field_u32(v, "paid_id") {
        Some(x) => x,
        None => {
            return Err(shape_error("invoice"));
        },
    };
    let status = match jv_field_str(v, "status") {
        Some(x) => x,
        None => {
            return Err(shape_error("invoice"));
        },
    };
    let date = match jv_field_str(v, "date") {
        Some(x) => x,
        None => {
            return Err(shape_error("invoice"));
        },
    };
    let duedate = match jv_field_str(v, "duedate") {
        Some(x) => x,
        None => {
            return Err(shape_error("invoice"));
        },
    };
    let paybefore = match jv_field_str(v, "paybefore") {
        Some(x) => x,
        None => {
            return Err(shape_error("invoice"));
        },
    };
    let datepaid = match jv_field_str(v, "datepaid") {
        Some(x) => x,
        None => {
            return Err(shape_error("invoice"));
        },
    };
    let invoice_type = match jv_field_str(v, "invoice_type") {
        Some(x) => x,
        None => {
            return Err(shape_error("invoice"));
        },
    };
    Ok(LastInvoice { id, paid_id, status, date, duedate, paybefore, datepaid, invoice_type })
}

/// The account status member: status text read as a status value.
pub open spec fn spec_status_field(v: JsonValue) -> Option<AccountStatus> {
    match spec_field_str(v, "status"@) {
        Some(s) => spec_parse_status(s),
        None => None,
    }
}

/// How one decoded value reads as a VM account.
pub open spec fn spec_parse_account(v: JsonValue) -> Option<AccountResourceView> {
    let id = spec_field_u32_lenient(v, "account_id"@);
    let domain = spec_field_str(v, "domain"@);
    let status = spec_status_field(v);
    let billingcycle = spec_field_str(v, "billingcycle"@);
    let date_created = spec_field_str(v, "date_created"@);
    let next_due = spec_field_str(v, "next_due"@);
    let recurring_amount = spec_field_i32(v, "recurring_amount"@);
    let extra_details = match get_field(v, "extra_details"@) {
        Some(ev) => spec_parse_extra_details(ev),
        None => None,
    };
    let product_id = spec_field_u32(v, "product_id"@);
    let product_name = spec_field_str(v, "product_name"@);
    let description = spec_field_str(v, "description"@);
    let category_id = spec_field_u32(v, "category_id"@);
    let category_name = spec_field_str(v, "category_name"@);
    let last_invoice = match get_field(v, "last_invoice"@) {
        Some(lv) => spec_parse_last_invoice(lv),
        None => None,
    };
    if id is Some && domain is Some && status is Some && billingcycle is Some && date_created
        is Some && next_due is Some && recurring_amount is Some && extra_details is Some
        && product_id is Some && product_name is Some && description is Some && category_id
        is Some && category_name is Some && last_invoice is Some {
        Some(
            AccountResourceView {
                id: id.unwrap(),
                domain: domain.unwrap(),
                status: status.unwrap(),
                billingcycle: billingcycle.unwrap(),
                date_created: date_created.unwrap(),
                next_due: next_due.unwrap(),
                recurring_amount: recurring_amount.unwrap(),
                extra_details: extra_details.unwrap(),
                product_id: product_id.unwrap(),
                product_name: product_name.unwrap(),
                description: description.unwrap(),
                category_id: category_id.unwrap(),
                category_name: category_name.unwrap(),
                last_invoice: last_invoice.unwrap(),
            },
        )
    } else {
        None
    }
}

/// Reads one decoded value as a VM account.
pub fn parse_account(v: &JsonValue) -> (r: Result<AccountResource, Error>)
    ensures
        match r {
            Ok(a) => spec_parse_account(*v) == Some(a@),
            Err(e) => spec_parse_account(*v) is None && e matches Error::InvalidArgument(_),
        },
{
    let id = match jv_field_u32_lenient(v, "account_id") {
        Some(x) => x,
        None => {
            return Err(shape_error("account"));
        },
    };
    let domain = match jv_field_str(v, "domain") {
        Some(x) => x,
        None => {
            return Err(shape_error("account"));
        },
    };
    let status_text = match jv_field_str(v, "status") {
        Some(x) => x,
        None => {
            return Err(shape_error("account"));
        },
    };
    let status = match parse_status(&status_text) {
        Some(x) => x,
        None => {
            return Err(shape_error("account"));
        },
    };
    let billingcycle = match jv_field_str(v, "billingcycle") {
        Some(x) => x,
        None => {
            return Err(shape_error("account"));
        },
    };
    let date_created = match jv_field_str(v, "date_created") {
        Some(x) => x,
        None => {
            return Err(shape_error("account"));
        },
    };
    let next_due = match jv_field_str(v, "next_due") {
        Some(x) => x,
        None => {
            return Err(shape_error("account"));
        },
    };
    let recurring_amount = match jv_field_i32(v, "recurring_amount") {
        Some(x) => x,
        None => {
            return Err(shape_error("account"));
        },
    };
    let extra_details = match jv_get(v, "extra_details") {
        Some(ev) => match parse_extra_details(ev) {
            Ok(d) => d,
            Err(e) => {
                return Err(e);
            },
        },
        None => {
            return Err(shape_error("account"));
        },
    };
    let product_id = match jv_field_u32(v, "product_id") {
        Some(x) => x,
        None => {
            return Err(shape_error("account"));
        },
    };
    let product_name = match jv_field_str(v, "product_name") {
        Some(x) => x,
        None => {
            return Err(shape_error("account"));
        },
    };
    let description = match jv_field_str(v, "description") {
        Some(x) => x,
        None => {
            return Err(shape_error("account"));
        },
    };
    let category_id = match jv_field_u32(v, "category_id") {
        Some(x) => x,
        None => {
            return Err(shape_error("account"));
        },
    };
    let category_name = match jv_field_str(v, "category_name") {
        Some(x) => x,
        None => {
            return Err(shape_error("account"));
        },
    };
    let last_invoice = match jv_get(v, "last_invoice") {
        Some(lv) => match parse_last_invoice(lv) {
            Ok(inv) => inv,
            Err(e) => {
                return Err(e);
            },
        },
        None => {
            return Err(shape_error("account"));
        },
    };
    Ok(
        AccountResource {
            id,
            domain,
            status,
            billingcycle,
            date_created,
            next_due,
            recurring_amount,
            extra_details,
            product_id,
            product_name,
            description,
            category_id,
            category_name,
            last_invoice,
        },
    )
}

pub open spec fn all_accounts_ok(elems: Seq<JsonValue>) -> bool {
    forall|i: int| 0 <= i < elems.len() ==> spec_parse_account(#[trigger] elems[i]) is Some
}

pub open spec fn spec_account_views(elems: Seq<JsonValue>) -> Seq<AccountResourceView> {
    Seq::new(elems.len(), |i: int| spec_parse_account(elems[i]).unwrap())
}

/// How a decoded `data` value reads as the VM account listing.
pub open spec fn spec_parse_account_list(v: JsonValue) -> Option<Seq<AccountResourceView>> {
    match v {
        JsonValue::Arr(elems) => if all_accounts_ok(elems@) {
            Some(spec_account_views(elems@))
        } else {
            None
        },
        _ => None,
    }
}

/// Reads a decoded `data` value as the VM account listing.
#[verifier::loop_isolation(false)]
pub fn parse_account_list(v: &JsonValue) -> (r: Result<Vec<AccountResource>, Error>)
    ensures
        match r {
            Ok(accounts) => spec_parse_account_list(*v) == Some(
                accounts@.map_values(|a: AccountResource| a@),
            ),
            Err(e) => spec_parse_account_list(*v) is None && e matches Error::InvalidArgument(_),
        },
{
    match v {
        JsonValue::Arr(elems) => {
            let n = elems.len();
            let mut out: Vec<AccountResource> = Vec::new();
            let mut i: usize = 0;
            while i < n
                invariant
                    0 <= i <= n,
                    out@.len() == i,
                    forall|j: int|
                        0 <= j < i ==> spec_parse_account(#[trigger] elems@[j]) == Some(out@[j]@),
                decreases n - i,
            {
                match parse_account(&elems[i]) {
                    Ok(a) => {
                        out.push(a);
                    },
                    Err(e) => {
                        return Err(e);
                    },
                }
                i += 1;
            }
            proof {
                assert(spec_account_views(elems@) =~= out@.map_values(
                    |a: AccountResource| a@,
                ));
            }
            Ok(out)
        },
        _ => Err(shape_error("account listing")),
    }
}

/// The nested details of a snapshot-scoped account.
#[derive(Debug, Clone, PartialEq)]
pub struct SnapshotExtraDetails {
    pub name: String,
    pub description: String,
    pub region: String,
}

pub struct SnapshotExtraDetailsView {
    pub name: Seq<char>,
    pub description: Seq<char>,
    pub region: Seq<char>,
}

impl View for SnapshotExtraDetails {
    type V = SnapshotExtraDetailsView;

    open spec fn view(&self) -> SnapshotExtraDetailsView {
        SnapshotExtraDetailsView {
            name: self.name@,
            description: self.description@,
            region: self.region@,
        }
    }
}

/// One snapshot-scoped account as the listing reports it.
#[derive(Debug, Clone, PartialEq)]
pub struct SnapshotAccountResource {
    /// The wire calls this member `account_id`.
    pub id: u32,
    pub status: AccountStatus,
    pub extra_details: SnapshotExtraDetails,
}

pub struct SnapshotAccountResourceView {
    pub id: u32,
    pub status: AccountStatus,
    pub extra_details: SnapshotExtraDetailsView,
}

impl View for SnapshotAccountResource {
    type V = SnapshotAccountResourceView;

    open spec fn view(&self) -> SnapshotAccountResourceView {
        SnapshotAccountResourceView {
            id: self.id,
            status: self.status,
            extra_details: self.extra_details@,
        }
    }
}

/// How one decoded value reads as the snapshot account details.
pub open spec fn spec_parse_snapshot_details(v: JsonValue) -> Option<SnapshotExtraDetailsView> {
    match (
        spec_field_str(v, "name"@),
        spec_field_str(v, "description"@),
        spec_field_str(v, "region"@),
    ) {
        (Some(name), Some(description), Some(region)) => Some(
            SnapshotExtraDetailsView { name, description, region },
        ),
        _ => None,
    }
}

/// Reads one decoded value as the snapshot account details.
pub fn parse_snapshot_details(v: &JsonValue) -> (r: Result<SnapshotExtraDetails, Error>)
    ensures
        match r {
            Ok(d) => spec_parse_snapshot_details(*v) == Some(d@),
            Err(e) => spec_parse_snapshot_details(*v) is None && e matches Error::InvalidArgument(
                _,
            ),
        },
{
    let name = match jv_field_str(v, "name") {
        Some(x) => x,
        None => {
            return Err(shape_error("snapshot account details"));
        },
    };
    let description = match jv_field_str(v, "description") {
        Some(x) => x,
        None => {
            return Err(shape_error("snapshot account details"));
        },
    };
    let region = match jv_field_str(v, "region") {
        Some(x) => x,
        None => {
            return Err(shape_error("snapshot account details"));
        },
    };
    Ok(SnapshotExtraDetails { name, description, region })
}

/// How one decoded value reads as a snapshot-scoped account.
pub open spec fn spec_parse_snapshot_account(v: JsonValue) -> Option<
    SnapshotAccountResourceView,
> {
    let id = spec_field_u32(v, "account_id"@);
    let status = spec_status_field(v);
    let extra_details = match get_field(v, "extra_details"@) {
        Some(ev) => spec_parse_snapshot_details(ev),
        None => None,
    };
    if id is Some && status is Some && extra_details is Some {
        Some(
            SnapshotAccountResourceView {
                id: id.unwrap(),
                status: status.unwrap(),
                extra_details: extra_details.unwrap(),
            },
        )
    } else {
        None
    }
}

/// Reads one decoded value as a snapshot-scoped account.
pub fn parse_snapshot_account(v: &JsonValue) -> (r: Result<SnapshotAccountResource, Error>)
    ensures
        match r {
            Ok(a) => spec_parse_snapshot_account(*v) == Some(a@),
            Err(e) => spec_parse_snapshot_account(*v) is None && e matches Error::InvalidArgument(
                _,
            ),
        },
{
    let id = match jv_field_u32(v, "account_id") {
        Some(x) => x,
        None => {
            return Err(shape_error("snapshot account"));
        },
    };
    let status_text = match jv_field_str(v, "status") {
        Some(x) => x,
        None => {
            return Err(shape_error("snapshot account"));
        },
    };
    let status = match parse_status(&status_text) {
        Some(x) => x,
        None => {
            return Err(shape_error("snapshot account"));
        },
    };
    let extra_details = match jv_get(v, "extra_details") {
        Some(ev) => match parse_snapshot_details(ev) {
            Ok(d) => d,
            Err(e) => {
                return Err(e);
            },
        },
        None => {
            return Err(shape_error("snapshot account"));
        },
    };
    Ok(SnapshotAccountResource { id, status, extra_details })
}

pub open spec fn all_snapshot_accounts_ok(elems: Seq<JsonValue>) -> bool {
    forall|i: int| 0 <= i < elems.len() ==> spec_parse_snapshot_account(#[trigger] elems[i]) is Some
}

pub open spec fn spec_snapshot_account_views(elems: Seq<JsonValue>) -> Seq<
    SnapshotAccountResourceView,
> {
    Seq::new(elems.len(), |i: int| spec_parse_snapshot_account(elems[i]).unwrap())
}

/// How a decoded `data` value reads as the snapshot account listing.
pub open spec fn spec_parse_snapshot_account_list(v: JsonValue) -> Option<
    Seq<SnapshotAccountResourceView>,
> {
    match v {
        JsonValue::Arr(elems) => if all_snapshot_accounts_ok(elems@) {
            Some(spec_snapshot_account_views(elems@))
        } else {
            None
        },
        _ => None,
    }
}

/// Reads a decoded `data` value as the snapshot account listing.
#[verifier::loop_isolation(false)]
pub fn parse_snapshot_account_list(v: &JsonValue) -> (r: Result<
    Vec<SnapshotAccountResource>,
    Error,
>)
    ensures
        match r {
            Ok(accounts) => spec_parse_snapshot_account_list(*v) == Some(
                accounts@.map_values(|a: SnapshotAccountResource| a@),
            ),
            Err(e) => spec_parse_snapshot_account_list(*v) is None && e
                matches Error::InvalidArgument(_),
        },
{
    match v {
        JsonValue::Arr(elems) => {
            let n = elems.len();
            let mut out: Vec<SnapshotAccountResource> = Vec::new();
            let mut i: usize = 0;
            while i < n
                invariant
                    0 <= i <= n,
                    out@.len() == i,
                    forall|j: int|
                        0 <= j < i ==> spec_parse_snapshot_account(#[trigger] elems@[j]) == Some(
                            out@[j]@,
                        ),
                decreases n - i,
            {
                match parse_snapshot_account(&elems[i]) {
                    Ok(a) => {
                        out.push(a);
                    },
                    Err(e) => {
                        return Err(e);
                    },
                }
                i += 1;
            }
            proof {
                assert(spec_snapshot_account_views(elems@) =~= out@.map_values(
                    |a: SnapshotAccountResource| a@,
                ));
            }
            Ok(out)
        },
        _ => Err(shape_error("snapshot account listing")),
    }
}

/// Reads the outcome of fetching one snapshot-scoped account, mapping
/// a transport `NotFound` to the snapshot-specific message; every
/// other error passes through unchanged.
pub fn interpret_snapshot_account(outcome: Result<JsonValue, Error>) -> (r: Result<
    SnapshotAccountResource,
    Error,
>)
    ensures
        match outcome {
            Ok(v) => (match r {
                Ok(a) => spec_parse_snapshot_account(v) == Some(a@),
                Err(e) => spec_parse_snapshot_account(v) is None && e
                    matches Error::InvalidArgument(_),
            }),
            Err(e0) => r matches Err(e1) && (match e0 {
                Error::NotFound(_) => e1 matches Error::NotFound(m) && m@
                    == "Snapshot not found"@,
                _ => e1 == e0,
            }),
        },
{
    match outcome {
        Ok(v) => parse_snapshot_account(&v),
        Err(e) => match e {
            Error::NotFound(_) => Err(Error::NotFound("Snapshot not found".to_owned())),
            other => Err(other),
        },
    }
}

/// The path of the VM account listing.
pub fn accounts_path() -> (p: String)
    ensures
        p@ == "/accounts"@,
{
    "/accounts".to_owned()
}

/// The path of the VM account listing filtered by status.
pub fn accounts_with_status_path(status: &AccountStatus) -> (p: String)
    ensures
        p@ == "/accounts?status="@ + status.status_name(),
{
    "/accounts?status=".to_owned().concat(status.as_str())
}

/// The path of the snapshot-scoped account listing.
pub fn snapshot_accounts_path() -> (p: String)
    ensures
        p@ == "/snapshots/accounts"@,
{
    "/snapshots/accounts".to_owned()
}

/// The path of the snapshot-scoped account `id`.
pub fn snapshot_account_path(id: u32) -> (p: String)
    ensures
        p@ == "/snapshots/accounts/"@ + spec_dec(id as nat),
{
    let num = u32_to_string(id);
    "/snapshots/accounts/".to_owned().concat(num.as_str())
}

} // verus!
