//! Virtual machines: details, provisioning and state transitions.
//!
//! A virtual machine is addressed by its account id everywhere in the
//! remote API, so the details fetch overrides the hypervisor-native
//! `vmid` of the payload with the requested account id, and listings
//! are driven by the account listing with terminated accounts left
//! out.

use vstd::prelude::*;
use vstd::string::StringExecFns;

use crate::account::AccountResource;
use crate::account::AccountStatus;
use crate::error::Error;
use crate::error::shape_error;
use crate::json::JsonValue;
use crate::json::is_num;
use crate::json::is_opt_text;
use crate::json::is_text;
use crate::json::jv_field_i32;
use crate::json::jv_field_i64;
use crate::json::jv_field_str;
use crate::json::jv_field_u32;
use crate::json::opt_text;
use crate::json::opt_text_view;
use crate::json::yes_no;
use crate::json::spec_field_i32;
use crate::json::spec_field_i64;
use crate::json::spec_field_str;
use crate::json::spec_field_u32;
use crate::keypair::KeypairResource;
use crate::numstr::spec_dec;
use crate::numstr::u32_to_string;
use crate::os::OsResource;
use crate::plan::Billing;
use crate::plan::PlanResource;

verus! {

/// The statuses a reachable virtual machine can have.  `Terminated`
/// is not among them: a terminated machine cannot be accessed and its
/// account never reaches a VM listing.
#[derive(Debug, Clone, Copy, PartialEq, Eq, Structural)]
pub enum VirtualMachineStatus {
    Active,
    Pending,
    Suspended,
}

impl VirtualMachineStatus {
    /// The exact literal the remote API uses for this status.
    pub fn as_str(&self) -> (s: &'static str)
        ensures
            s@ == self.status_name(),
    {
        match self {
            VirtualMachineStatus::Active => "Active",
            VirtualMachineStatus::Pending => "Pending",
            VirtualMachineStatus::Suspended => "Suspended",
        }
    }

    /// The wire name of this status.
    pub open spec fn status_name(&self) -> Seq<char> {
        match self {
            VirtualMachineStatus::Active => "Active"@,
            VirtualMachineStatus::Pending => "Pending"@,
            VirtualMachineStatus::Suspended => "Suspended"@,
        }
    }

    /// The account status a VM status filter queries for.
    pub fn account_status(&self) -> (s: AccountStatus)
        ensures
            self is Active ==> s is Active,
            self is Pending ==> s is Pending,
            self is Suspended ==> s is Suspended,
    {
        match self {
            VirtualMachineStatus::Active => AccountStatus::Active,
            VirtualMachineStatus::Pending => AccountStatus::Pending,
            VirtualMachineStatus::Suspended => AccountStatus::Suspended,
        }
    }
}

/// What a new virtual machine is provisioned from: the plan, the OS
/// image and keypair to install, the billing cycle, and how the order
/// is paid.
pub struct VirtualMachineOptions {
    pub plan: PlanResource,
    pub keypair: KeypairResource,
    pub os: OsResource,
    pub billing: Billing,
    pub use_credit_card: bool,
    pub promocode: Option<String>,
}

/// One virtual machine as the details endpoint reports it, with the
/// id already overridden to the owning account's id.
#[derive(Debug, Clone)]
pub struct VirtualMachineResource {
    pub id: u32,
    pub name: String,
    pub status: String,
    pub uptime: i32,
    pub maxdisk: i64,
    pub maxmem: i64,
    pub mem: i32,
    pub cpus: i32,
}

pub struct VirtualMachineResourceView {
    pub id: u32,
    pub name: Seq<char>,
    pub status: Seq<char>,
    pub uptime: i32,
    pub maxdisk: i64,
    pub maxmem: i64,
    pub mem: i32,
    pub cpus: i32,
}

impl VirtualMachineResourceView {
    /// The same record under another id.
    pub open spec fn with_id(self, id: u32) -> VirtualMachineResourceView {
        VirtualMachineResourceView {
            id,
            name: self.name,
            status: self.status,
            uptime: self.uptime,
            maxdisk: self.maxdisk,
            maxmem: self.maxmem,
            mem: self.mem,
            cpus: self.cpus,
        }
    }
}

impl View for VirtualMachineResource {
    type V = VirtualMachineResourceView;

    open spec fn view(&self) -> VirtualMachineResourceView {
        VirtualMachineResourceView {
            id: self.id,
            name: self.name@,
            status: self.status@,
            uptime: self.uptime,
            maxdisk: self.maxdisk,
            maxmem: self.maxmem,
            mem: self.mem,
            cpus: self.cpus,
        }
    }
}

/// How one decoded value reads as a VM details payload; `vmid` is the
/// hypervisor-native id the payload carries.
pub open spec fn spec_parse_vm(v: JsonValue) -> Option<VirtualMachineResourceView> {
    let id = spec_field_u32(v, "vmid"@);
    let name = spec_field_str(v, "name"@);
    let status = spec_field_str(v, "status"@);
    let uptime = spec_field_i32(v, "uptime"@);
    let maxdisk = spec_field_i64(v, "maxdisk"@);
    let maxmem = spec_field_i64(v, "maxmem"@);
    let mem = spec_field_i32(v, "mem"@);
    let cpus = spec_field_i32(v, "cpus"@);
    if id is Some && name is Some && status is Some && uptime is Some && maxdisk is Some && maxmem
        is Some && mem is Some && cpus is Some {
        Some(
            VirtualMachineResourceView {
                id: id.unwrap(),
                name: name.unwrap(),
                status: status.unwrap(),
                uptime: uptime.unwrap(),
                maxdisk: maxdisk.unwrap(),
                maxmem: maxmem.unwrap(),
                mem: mem.unwrap(),
                cpus: cpus.unwrap(),
            },
        )
    } else {
        None
    }
}

/// Reads a decoded `data` value as the details of the virtual machine
/// owned by the account `account_id`.
///
/// The record keeps the account id, never the `vmid` of the payload:
/// every later per-machine path is keyed on the account id.
pub fn parse_vm_details(v: &JsonValue, account_id: u32) -> (r: Result<
    VirtualMachineResource,
    Error,
>)
    ensures
        match r {
            Ok(m) => spec_parse_vm(*v) matches Some(w) && m@ == w.with_id(account_id) && m.id
                == account_id,
            Err(e) => spec_parse_vm(*v) is None && e matches Error::InvalidArgument(_),
        },
{
    let name = match jv_field_str(v, "name") {
        Some(x) => x,
        None => {
            return Err(shape_error("vm details"));
        },
    };
    let status = match jv_field_str(v, "status") {
        Some(x) => x,
        None => {
            return Err(shape_error("vm details"));
        },
    };
    let uptime = match jv_field_i32(v, "uptime") {
        Some(x) => x,
        None => {
            return Err(shape_error("vm details"));
        },
    };
    let maxdisk = match jv_field_i64(v, "maxdisk") {
        Some(x) => x,
        None => {
            return Err(shape_error("vm details"));
        },
    };
    let maxmem = match jv_field_i64(v, "maxmem") {
        Some(x) => x,
        None => {
            return Err(shape_error("vm details"));
        },
    };
    let mem = match jv_field_i32(v, "mem") {
        Some(x) => x,
        None => {
            return Err(shape_error("vm details"));
        },
    };
    let cpus = match jv_field_i32(v, "cpus") {
        Some(x) => x,
        None => {
            return Err(shape_error("vm details"));
        },
    };
    match jv_field_u32(v, "vmid") {
        Some(_) => {},
        None => {
            return Err(shape_error("vm details"));
        },
    };
    Ok(
        VirtualMachineResource {
            id: account_id,
            name,
            status,
            uptime,
            maxdisk,
            maxmem,
            mem,
            cpus,
        },
    )
}

/// The account ids a VM listing walks: every listed account that is
/// not terminated, in listing order.
pub open spec fn spec_active_ids(accounts: Seq<AccountResource>) -> Seq<u32>
    decreases accounts.len(),
{
    if accounts.len() == 0 {
        Seq::empty()
    } else {
        let prefix = spec_active_ids(accounts.drop_last());
        if accounts.last().status is Terminated {
            prefix
        } else {
            prefix.push(accounts.last().id)
        }
    }
}

/// The ids whose details a VM listing fetches: terminated accounts
/// are skipped, the rest keep their order.
#[verifier::loop_isolation(false)]
pub fn active_vm_ids(accounts: &Vec<AccountResource>) -> (ids: Vec<u32>)
    ensures
        ids@ == spec_active_ids(accounts@),
{
    let n = accounts.len();
    let mut ids: Vec<u32> = Vec::new();
    let mut i: usize = 0;
    proof {
        assert(accounts@.take(0) =~= Seq::<AccountResource>::empty());
    }
    while i < n
        invariant
            0 <= i <= n,
            ids@ == spec_active_ids(accounts@.take(i as int)),
        decreases n - i,
    {
        proof {
            assert(accounts@.take(i + 1).drop_last() =~= accounts@.take(i as int));
            assert(accounts@.take(i + 1).last() == accounts@[i as int]);
        }
        if !(accounts[i].status == AccountStatus::Terminated) {
            ids.push(accounts[i].id);
        }
        i += 1;
    }
    proof {
        assert(accounts@.take(n as int) =~= accounts@);
    }
    ids
}

/// A terminated account never reaches a VM listing: an id is walked
/// exactly when some account that is not terminated carries it.
pub proof fn lemma_active_ids_membership(accounts: Seq<AccountResource>, x: u32)
    ensures
        spec_active_ids(accounts).contains(x) <==> exists|j: int|
            0 <= j < accounts.len() && !((#[trigger] accounts[j]).status is Terminated)
                && accounts[j].id == x,
    decreases accounts.len(),
{
    if accounts.len() > 0 {
        lemma_active_ids_membership(accounts.drop_last(), x);
        let prefix = spec_active_ids(accounts.drop_last());
        let last = accounts.last();
        if !(last.status is Terminated) {
            assert(spec_active_ids(accounts) == prefix.push(last.id));
            assert forall|y: u32| prefix.push(last.id).contains(y) implies prefix.contains(y) || y
                == last.id by {
                let k = choose|k: int| 0 <= k < prefix.push(last.id).len() && prefix.push(last.id)[k]
                    == y;
                if k < prefix.len() {
                    assert(prefix[k] == y);
                }
            }
            if prefix.push(last.id).contains(x) {
                if prefix.contains(x) {
                    let j = choose|j: int|
                        0 <= j < accounts.drop_last().len() && !((#[trigger] accounts.drop_last()[j]).status is Terminated) && accounts.drop_last()[j].id == x;
                    assert(accounts[j] == accounts.drop_last()[j]);
                } else {
                    assert(accounts[accounts.len() - 1].id == x);
                }
            }
            if exists|j: int|
                0 <= j < accounts.len() && !((#[trigger] accounts[j]).status is Terminated)
                    && accounts[j].id == x {
                let j = choose|j: int|
                    0 <= j < accounts.len() && !((#[trigger] accounts[j]).status is Terminated)
                        && accounts[j].id == x;
                if j < accounts.len() - 1 {
                    assert(accounts.drop_last()[j] == accounts[j]);
                    assert(prefix.contains(x));
                    let k = choose|k: int| 0 <= k < prefix.len() && prefix[k] == x;
                    assert(prefix.push(last.id)[k] == x);
                } else {
                    assert(prefix.push(last.id).last() == x);
                }
            }
        } else {
            if exists|j: int|
                0 <= j < accounts.len() && !((#[trigger] accounts[j]).status is Terminated)
                    && accounts[j].id == x {
                let j = choose|j: int|
                    0 <= j < accounts.len() && !((#[trigger] accounts[j]).status is Terminated)
                        && accounts[j].id == x;
                assert(j < accounts.len() - 1);
                assert(accounts.drop_last()[j] == accounts[j]);
            }
            if prefix.contains(x) {
                let j = choose|j: int|
                    0 <= j < accounts.drop_last().len() && !((#[trigger] accounts.drop_last()[j]).status is Terminated) && accounts.drop_last()[j].id == x;
                assert(accounts[j] == accounts.drop_last()[j]);
            }
        }
    }
}

/// The request body that provisions a virtual machine.  The
/// credit-card flag is carried as the exact strings `"yes"` and
/// `"no"`; an absent description or promo code is carried as `null`.
pub fn create_vm_body(
    name: &str,
    description: &Option<String>,
    username: &str,
    password: &str,
    opts: &VirtualMachineOptions,
) -> (b: JsonValue)
    ensures
        b matches JsonValue::Obj(fields) && {
            &&& fields@.len() == 10
            &&& fields@[0].0@ == "ssh_and_console_user"@ && is_text(fields@[0].1, username@)
            &&& fields@[1].0@ == "console_password"@ && is_text(fields@[1].1, password@)
            &&& fields@[2].0@ == "vm_name"@ && is_text(fields@[2].1, name@)
            &&& fields@[3].0@ == "description"@ && is_opt_text(
                fields@[3].1,
                opt_text_view(*description),
            )
            &&& fields@[4].0@ == "product_id"@ && is_num(fields@[4].1, opts.plan.id as i64)
            &&& fields@[5].0@ == "select_os"@ && is_text(fields@[5].1, opts.os.name@)
            &&& fields@[6].0@ == "keypair_id"@ && is_num(fields@[6].1, opts.keypair.id as i64)
            &&& fields@[7].0@ == "cycle"@ && is_text(fields@[7].1, opts.billing.cycle@)
            &&& fields@[8].0@ == "pay_invoice_with_cc"@ && is_text(
                fields@[8].1,
                if opts.use_credit_card {
                    "yes"@
                } else {
                    "no"@
                },
            )
            &&& fields@[9].0@ == "promocode"@ && is_opt_text(
                fields@[9].1,
                opt_text_view(opts.promocode),
            )
        },
{
    let fields: Vec<(String, JsonValue)> = vec![
        ("ssh_and_console_user".to_owned(), JsonValue::Str(username.to_owned())),
        ("console_password".to_owned(), JsonValue::Str(password.to_owned())),
        ("vm_name".to_owned(), JsonValue::Str(name.to_owned())),
        ("description".to_owned(), opt_text(description)),
        ("product_id".to_owned(), JsonValue::Num(opts.plan.id as i64)),
        ("select_os".to_owned(), JsonValue::Str(opts.os.name.clone())),
        ("keypair_id".to_owned(), JsonValue::Num(opts.keypair.id as i64)),
        ("cycle".to_owned(), JsonValue::Str(opts.billing.cycle.clone())),
        ("pay_invoice_with_cc".to_owned(), JsonValue::Str(yes_no(opts.use_credit_card).to_owned())),
        ("promocode".to_owned(), opt_text(&opts.promocode)),
    ];
    JsonValue::Obj(fields)
}

/// The path that fetches the details of the machine owned by the
/// account `id`.
pub fn vm_details_path(id: u32) -> (p: String)
    ensures
        p@ == "/accounts/"@ + spec_dec(id as nat) + "/vm-details"@,
{
    let num = u32_to_string(id);
    "/accounts/".to_owned().concat(num.as_str()).concat("/vm-details")
}

/// The path that deletes the machine owned by the account `id`; the
/// create operation posts to the collection root, whose path is
/// empty.
pub fn vm_delete_path(id: u32) -> (p: String)
    ensures
        p@ == "/"@ + spec_dec(id as nat),
{
    let num = u32_to_string(id);
    "/".to_owned().concat(num.as_str())
}

/// The path that changes the keypair of the machine of account `id`.
pub fn change_keypair_path(id: u32) -> (p: String)
    ensures
        p@ == "/accounts/"@ + spec_dec(id as nat) + "/keypair"@,
{
    let num = u32_to_string(id);
    "/accounts/".to_owned().concat(num.as_str()).concat("/keypair")
}

/// The body that changes the keypair.
pub fn change_keypair_body(keypair_id: u32) -> (b: JsonValue)
    ensures
        b matches JsonValue::Obj(fields) && fields@.len() == 1 && fields@[0].0@ == "keypair_id"@
            && is_num(fields@[0].1, keypair_id as i64),
{
    let fields: Vec<(String, JsonValue)> = vec![
        ("keypair_id".to_owned(), JsonValue::Num(keypair_id as i64)),
    ];
    JsonValue::Obj(fields)
}

/// The path that renames the machine of account `id`.
pub fn change_name_path(id: u32) -> (p: String)
    ensures
        p@ == "/accounts/"@ + spec_dec(id as nat) + "/change-vm-name"@,
{
    let num = u32_to_string(id);
    "/accounts/".to_owned().concat(num.as_str()).concat("/change-vm-name")
}

/// The body that renames a machine.
pub fn change_name_body(name: &str) -> (b: JsonValue)
    ensures
        b matches JsonValue::Obj(fields) && fields@.len() == 1 && fields@[0].0@ == "name"@
            && is_text(fields@[0].1, name@),
{
    let fields: Vec<(String, JsonValue)> = vec![
        ("name".to_owned(), JsonValue::Str(name.to_owned())),
    ];
    JsonValue::Obj(fields)
}

/// The path that moves the machine of account `id` to another plan.
pub fn change_plan_path(id: u32) -> (p: String)
    ensures
        p@ == "/accounts/"@ + spec_dec(id as nat) + "/change-package"@,
{
    let num = u32_to_string(id);
    "/accounts/".to_owned().concat(num.as_str()).concat("/change-package")
}

/// The body that moves a machine to the plan `plan_id`.
pub fn change_plan_body(plan_id: u32) -> (b: JsonValue)
    ensures
        b matches JsonValue::Obj(fields) && fields@.len() == 1 && fields@[0].0@
            == "new_product_id"@ && is_num(fields@[0].1, plan_id as i64),
{
    let fields: Vec<(String, JsonValue)> = vec![
        ("new_product_id".to_owned(), JsonValue::Num(plan_id as i64)),
    ];
    JsonValue::Obj(fields)
}

/// The path that resizes the storage of the machine of account `id`.
pub fn change_storage_path(id: u32) -> (p: String)
    ensures
        p@ == "/accounts/"@ + spec_dec(id as nat) + "/storage"@,
{
    let num = u32_to_string(id);
    "/accounts/".to_owned().concat(num.as_str()).concat("/storage")
}

/// The body that resizes storage to `size`.
pub fn change_storage_body(size: u32) -> (b: JsonValue)
    ensures
        b matches JsonValue::Obj(fields) && fields@.len() == 1 && fields@[0].0@ == "disk_size"@
            && is_num(fields@[0].1, size as i64),
{
    let fields: Vec<(String, JsonValue)> = vec![
        ("disk_size".to_owned(), JsonValue::Num(size as i64)),
    ];
    JsonValue::Obj(fields)
}

/// The path that rebuilds the machine of account `id` onto an OS.
pub fn rebuild_path(id: u32) -> (p: String)
    ensures
        p@ == "/accounts/"@ + spec_dec(id as nat) + "/rebuild"@,
{
    let num = u32_to_string(id);
    "/accounts/".to_owned().concat(num.as_str()).concat("/rebuild")
}

/// The body that rebuilds a machine onto the OS image `os`.
pub fn rebuild_body(os: &OsResource) -> (b: JsonValue)
    ensures
        b matches JsonValue::Obj(fields) && fields@.len() == 1 && fields@[0].0@ == "name"@
            && is_text(fields@[0].1, os.name@),
{
    let fields: Vec<(String, JsonValue)> = vec![
        ("name".to_owned(), JsonValue::Str(os.name.clone())),
    ];
    JsonValue::Obj(fields)
}

/// The power transitions a machine can be put through, each named by
/// the exact literal the remote API expects in the state path.
#[derive(Debug, Clone, Copy, PartialEq, Eq, Structural)]
pub enum VmPowerState {
    Start,
    Suspend,
    Resume,
    Reset,
    Shutdown,
    Stop,
}

impl VmPowerState {
    /// The exact literal the remote API uses for this transition.
    pub fn as_str(&self) -> (s: &'static str)
        ensures
            s@ == self.state_name(),
    {
        match self {
            VmPowerState::Start => "start",
            VmPowerState::Suspend => "suspend",
            VmPowerState::Resume => "resume",
            VmPowerState::Reset => "reset",
            VmPowerState::Shutdown => "shutdown",
            VmPowerState::Stop => "stop",
        }
    }

    /// The wire name of this transition.
    pub open spec fn state_name(&self) -> Seq<char> {
        match self {
            VmPowerState::Start => "start"@,
            VmPowerState::Suspend => "suspend"@,
            VmPowerState::Resume => "resume"@,
            VmPowerState::Reset => "reset"@,
            VmPowerState::Shutdown => "shutdown"@,
            VmPowerState::Stop => "stop"@,
        }
    }
}

/// The bodiless path that puts the machine of account `id` through
/// the power transition `state`.
pub fn vm_state_path(id: u32, state: &VmPowerState) -> (p: String)
    ensures
        p@ == "/accounts/"@ + spec_dec(id as nat) + "/vm-state/"@ + state.state_name(),
{
    let num = u32_to_string(id);
    "/accounts/".to_owned().concat(num.as_str()).concat("/vm-state/").concat(state.as_str())
}

} // verus!
