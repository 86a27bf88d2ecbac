//! Snapshots: point-in-time copies of virtual machines.
//!
//! Snapshots are listed and managed through snapshot-scoped account
//! endpoints.  A listing projects each account that is not terminated
//! to its `{id, name}` pair; restore operations rebuild a machine from
//! a snapshot, in place or as a new machine.

use vstd::prelude::*;
use vstd::string::StringExecFns;

use crate::account::AccountStatus;
use crate::account::SnapshotAccountResource;
use crate::error::Error;
use crate::json::JsonValue;
use crate::json::is_num;
use crate::json::is_opt_text;
use crate::json::is_text;
use crate::json::opt_text;
use crate::json::opt_text_view;
use crate::json::yes_no;
use crate::keypair::KeypairResource;
use crate::numstr::spec_dec;
use crate::numstr::u32_to_string;
use crate::plan::Billing;
use crate::plan::PlanResource;

verus! {

/// What a machine restored from a snapshot is provisioned with.
pub struct RestoreVirtualMachineOptions {
    pub plan: PlanResource,
    pub keypair: KeypairResource,
    pub billing: Billing,
    pub use_credit_card: bool,
    pub promocode: Option<String>,
}

/// How a snapshot order is billed and paid.
pub struct SnapshotOpts {
    pub billing: Billing,
    pub use_credit_card: bool,
    pub promocode: Option<String>,
}

/// One snapshot: the snapshot-scoped account id and the name under
/// its details.
#[derive(Debug, Clone, PartialEq)]
pub struct SnapshotResource {
    pub id: u32,
    pub name: String,
}

pub struct SnapshotResourceView {
    pub id: u32,
    pub name: Seq<char>,
}

impl View for SnapshotResource {
    type V = SnapshotResourceView;

    open spec fn view(&self) -> SnapshotResourceView {
        SnapshotResourceView { id: self.id, name: self.name@ }
    }
}

/// The snapshot a snapshot-scoped account projects to.
pub open spec fn spec_snapshot_of(a: SnapshotAccountResource) -> SnapshotResourceView {
    SnapshotResourceView { id: a.id, name: a.extra_details.name@ }
}

/// Projects one snapshot-scoped account to its snapshot.
pub fn snapshot_from_account(a: &SnapshotAccountResource) -> (s: SnapshotResource)
    ensures
        s@ == spec_snapshot_of(*a),
{
    SnapshotResource { id: a.id, name: a.extra_details.name.clone() }
}

/// The snapshots a listing reports: every account that is not
/// terminated, projected to `{id, name}`, in listing order.
pub open spec fn spec_snapshot_list(accounts: Seq<SnapshotAccountResource>) -> Seq<
    SnapshotResourceView,
>
    decreases accounts.len(),
{
    if accounts.len() == 0 {
        Seq::empty()
    } else {
        let prefix = spec_snapshot_list(accounts.drop_last());
        if accounts.last().status is Terminated {
            prefix
        } else {
            prefix.push(spec_snapshot_of(accounts.last()))
        }
    }
}

/// Builds the snapshot listing: terminated accounts are skipped, the
/// rest keep their order and are projected to `{id, name}`.
#[verifier::loop_isolation(false)]
pub fn snapshots_from_accounts(accounts: &Vec<SnapshotAccountResource>) -> (snapshots: Vec<
    SnapshotResource,
>)
    ensures
        snapshots@.map_values(|s: SnapshotResource| s@) == spec_snapshot_list(accounts@),
{
    let n = accounts.len();
    let mut snapshots: Vec<SnapshotResource> = Vec::new();
    let mut i: usize = 0;
    proof {
        assert(accounts@.take(0) =~= Seq::<SnapshotAccountResource>::empty());
        assert(snapshots@.map_values(|s: SnapshotResource| s@) =~= spec_snapshot_list(
            accounts@.take(0),
        ));
    }
    while i < n
        invariant
            0 <= i <= n,
            snapshots@.map_values(|s: SnapshotResource| s@) == spec_snapshot_list(
                accounts@.take(i as int),
            ),
        decreases n - i,
    {
        proof {
            assert(accounts@.take(i + 1).drop_last() =~= accounts@.take(i as int));
            assert(accounts@.take(i + 1).last() == accounts@[i as int]);
        }
        if !(accounts[i].status == AccountStatus::Terminated) {
            let s = snapshot_from_account(&accounts[i]);
            snapshots.push(s);
            proof {
                assert(snapshots@.map_values(|s: SnapshotResource| s@) =~= spec_snapshot_list(
                    accounts@.take(i + 1),
                ));
            }
        }
        i += 1;
    }
    proof {
        assert(accounts@.take(n as int) =~= accounts@);
    }
    snapshots
}

/// A terminated account never reaches the snapshot listing: a
/// snapshot is listed exactly when some account that is not
/// terminated projects to it.
pub proof fn lemma_snapshot_list_membership(
    accounts: Seq<SnapshotAccountResource>,
    s: SnapshotResourceView,
)
    ensures
        spec_snapshot_list(accounts).contains(s) <==> exists|j: int|
            0 <= j < accounts.len() && !((#[trigger] accounts[j]).status is Terminated)
                && spec_snapshot_of(accounts[j]) == s,
    decreases accounts.len(),
{
    if accounts.len() > 0 {
        lemma_snapshot_list_membership(accounts.drop_last(), s);
        let prefix = spec_snapshot_list(accounts.drop_last());
        let last = accounts.last();
        if !(last.status is Terminated) {
            assert forall|y: SnapshotResourceView| prefix.push(spec_snapshot_of(last)).contains(y)
                implies prefix.contains(y) || y == spec_snapshot_of(last) by {
                let k = choose|k: int|
                    0 <= k < prefix.push(spec_snapshot_of(last)).len() && prefix.push(
                        spec_snapshot_of(last),
                    )[k] == y;
                if k < prefix.len() {
                    assert(prefix[k] == y);
                }
            }
            if prefix.push(spec_snapshot_of(last)).contains(s) {
                if prefix.contains(s) {
                    let j = choose|j: int|
                        0 <= j < accounts.drop_last().len() && !((
                        #[trigger] accounts.drop_last()[j]).status is Terminated)
                            && spec_snapshot_of(accounts.drop_last()[j]) == s;
                    assert(accounts[j] == accounts.drop_last()[j]);
                } else {
                    assert(spec_snapshot_of(accounts[accounts.len() - 1]) == s);
                }
            }
            if exists|j: int|
                0 <= j < accounts.len() && !((#[trigger] accounts[j]).status is Terminated)
                    && spec_snapshot_of(accounts[j]) == s {
                let j = choose|j: int|
                    0 <= j < accounts.len() && !((#[trigger] accounts[j]).status is Terminated)
                        && spec_snapshot_of(accounts[j]) == s;
                if j < accounts.len() - 1 {
                    assert(accounts.drop_last()[j] == accounts[j]);
                    assert(prefix.contains(s));
                    let k = choose|k: int| 0 <= k < prefix.len() && prefix[k] == s;
                    assert(prefix.push(spec_snapshot_of(last))[k] == s);
                } else {
                    assert(prefix.push(spec_snapshot_of(last)).last() == s);
                }
            }
        } else {
            if exists|j: int|
                0 <= j < accounts.len() && !((#[trigger] accounts[j]).status is Terminated)
                    && spec_snapshot_of(accounts[j]) == s {
                let j = choose|j: int|
                    0 <= j < accounts.len() && !((#[trigger] accounts[j]).status is Terminated)
                        && spec_snapshot_of(accounts[j]) == s;
                assert(j < accounts.len() - 1);
                assert(accounts.drop_last()[j] == accounts[j]);
            }
            if prefix.contains(s) {
                let j = choose|j: int|
                    0 <= j < accounts.drop_last().len() && !((
                    #[trigger] accounts.drop_last()[j]).status is Terminated) && spec_snapshot_of(
                        accounts.drop_last()[j],
                    ) == s;
                assert(accounts[j] == accounts.drop_last()[j]);
            }
        }
    }
}

/// The request body that orders a snapshot of a machine.
pub fn create_snapshot_body(name: &str, description: &Option<String>, opts: &SnapshotOpts) -> (b:
    JsonValue)
    ensures
        b matches JsonValue::Obj(fields) && {
            &&& fields@.len() == 5
            &&& fields@[0].0@ == "name"@ && is_text(fields@[0].1, name@)
            &&& fields@[1].0@ == "description"@ && is_opt_text(
                fields@[1].1,
                opt_text_view(*description),
            )
            &&& fields@[2].0@ == "cycle"@ && is_text(fields@[2].1, opts.billing.cycle@)
            &&& fields@[3].0@ == "pay_invoice_with_cc"@ && is_text(
                fields@[3].1,
                if opts.use_credit_card {
                    "yes"@
                } else {
                    "no"@
                },
            )
            &&& fields@[4].0@ == "promocode"@ && is_opt_text(
                fields@[4].1,
                opt_text_view(opts.promocode),
            )
        },
{
    let fields: Vec<(String, JsonValue)> = vec![
        ("name".to_owned(), JsonValue::Str(name.to_owned())),
        ("description".to_owned(), opt_text(description)),
        ("cycle".to_owned(), JsonValue::Str(opts.billing.cycle.clone())),
        ("pay_invoice_with_cc".to_owned(), JsonValue::Str(yes_no(opts.use_credit_card).to_owned())),
        ("promocode".to_owned(), opt_text(&opts.promocode)),
    ];
    JsonValue::Obj(fields)
}

/// The request body that restores a snapshot into a new machine.
pub fn restore_vm_body(
    name: &str,
    description: &Option<String>,
    username: &str,
    password: &str,
    opts: &RestoreVirtualMachineOptions,
) -> (b: JsonValue)
    ensures
        b matches JsonValue::Obj(fields) && {
            &&& fields@.len() == 9
            &&& fields@[0].0@ == "ssh_and_console_user"@ && is_text(fields@[0].1, username@)
            &&& fields@[1].0@ == "console_password"@ && is_text(fields@[1].1, password@)
            &&& fields@[2].0@ == "vm_name"@ && is_text(fields@[2].1, name@)
            &&& fields@[3].0@ == "description"@ && is_opt_text(
                fields@[3].1,
                opt_text_view(*description),
            )
            &&& fields@[4].0@ == "product_id"@ && is_num(fields@[4].1, opts.plan.id as i64)
            &&& fields@[5].0@ == "keypair_id"@ && is_num(fields@[5].1, opts.keypair.id as i64)
            &&& fields@[6].0@ == "cycle"@ && is_text(fields@[6].1, opts.billing.cycle@)
            &&& fields@[7].0@ == "pay_invoice_with_cc"@ && is_text(
                fields@[7].1,
                if opts.use_credit_card {
                    "yes"@
                } else {
                    "no"@
                },
            )
            &&& fields@[8].0@ == "promocode"@ && is_opt_text(
                fields@[8].1,
                opt_text_view(opts.promocode),
            )
        },
{
    let fields: Vec<(String, JsonValue)> = vec![
        ("ssh_and_console_user".to_owned(), JsonValue::Str(username.to_owned())),
        ("console_password".to_owned(), JsonValue::Str(password.to_owned())),
        ("vm_name".to_owned(), JsonValue::Str(name.to_owned())),
        ("description".to_owned(), opt_text(description)),
        ("product_id".to_owned(), JsonValue::Num(opts.plan.id as i64)),
        ("keypair_id".to_owned(), JsonValue::Num(opts.keypair.id as i64)),
        ("cycle".to_owned(), JsonValue::Str(opts.billing.cycle.clone())),
        ("pay_invoice_with_cc".to_owned(), JsonValue::Str(yes_no(opts.use_credit_card).to_owned())),
        ("promocode".to_owned(), opt_text(&opts.promocode)),
    ];
    JsonValue::Obj(fields)
}

/// The path that orders a snapshot of the machine of account `vm_id`.
pub fn snapshot_create_path(vm_id: u32) -> (p: String)
    ensures
        p@ == "/accounts/"@ + spec_dec(vm_id as nat) + "/snapshot"@,
{
    let num = u32_to_string(vm_id);
    "/accounts/".to_owned().concat(num.as_str()).concat("/snapshot")
}

/// The path that deletes the snapshot `id`.
pub fn snapshot_delete_path(id: u32) -> (p: String)
    ensures
        p@ == "/snapshots/"@ + spec_dec(id as nat),
{
    let num = u32_to_string(id);
    "/snapshots/".to_owned().concat(num.as_str())
}

/// The bodiless path that restores the snapshot `id` in place.
pub fn snapshot_restore_path(id: u32) -> (p: String)
    ensures
        p@ == "/snapshots/accounts/"@ + spec_dec(id as nat) + "/restore"@,
{
    let num = u32_to_string(id);
    "/snapshots/accounts/".to_owned().concat(num.as_str()).concat("/restore")
}

/// The path that restores the snapshot `snapshot_id` into a new
/// machine.
pub fn snapshot_restore_with_path(snapshot_id: u32) -> (p: String)
    ensures
        p@ == "/snapshots/accounts/"@ + spec_dec(snapshot_id as nat) + "/create"@,
{
    let num = u32_to_string(snapshot_id);
    "/snapshots/accounts/".to_owned().concat(num.as_str()).concat("/create")
}

} // verus!
