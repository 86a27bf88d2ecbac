//! Resource mapping: parsers, list filters, lookups and the
//! provisioning flows.

use neolite::account::{
    interpret_snapshot_account, parse_account_list, parse_snapshot_account_list, parse_status,
    AccountStatus,
};
use neolite::client::interpret_response;
use neolite::error::Error;
use neolite::ip::parse_ip;
use neolite::json::JsonValue;
use neolite::keypair::{create_keypair_body, find_keypair, parse_keypair, KeypairResource};
use neolite::lite::parse_billing_resource;
use neolite::os::{find_os, os_list_path, parse_os_list, OsResource};
use neolite::plan::{parse_plan, Billing};
use neolite::snapshot::{snapshot_from_account, snapshots_from_accounts, SnapshotResource};
use neolite::vm::{
    active_vm_ids, create_vm_body, parse_vm_details, vm_state_path, VirtualMachineOptions,
    VirtualMachineStatus, VmPowerState,
};

fn s(text: &str) -> String {
    text.to_string()
}

fn field(key: &str, value: JsonValue) -> (String, JsonValue) {
    (s(key), value)
}

fn text(key: &str, value: &str) -> (String, JsonValue) {
    (s(key), JsonValue::Str(s(value)))
}

fn num(key: &str, value: i64) -> (String, JsonValue) {
    (s(key), JsonValue::Num(value))
}

fn keypair_json(id: i64, name: &str) -> JsonValue {
    JsonValue::Obj(vec![
        num("keypair_id", id),
        text("name", name),
        text("public_key", "ssh-rsa AAAA"),
    ])
}

fn os_json(id: i64, name: &str) -> JsonValue {
    JsonValue::Obj(vec![
        num("vmid", id),
        text("node", "node1"),
        text("name", name),
        num("maxmem", 2147483648),
        num("maxcpu", 4),
    ])
}

fn plan_json(id: i64) -> JsonValue {
    let monthly = JsonValue::Obj(vec![
        text("label", "Monthly"),
        text("cycle", "m"),
        num("price", 42),
    ]);
    let yearly = JsonValue::Obj(vec![
        text("label", "Yearly"),
        text("cycle", "a"),
        num("price", 420),
        field("components", JsonValue::Null),
    ]);
    JsonValue::Obj(vec![
        num("product_id", id),
        text("name", "neolite-small"),
        text("description", "2 cores"),
        num("category_id", 3),
        text("category_name", "vps"),
        field(
            "options",
            JsonValue::Obj(vec![
                text("type", "kvm"),
                num("cores", 2),
                num("memory", 2048),
                num("allow_downgrade", 0),
            ]),
        ),
        field("billing", JsonValue::Arr(vec![monthly, yearly])),
    ])
}

fn account_json(id: i64, status: &str, name: &str) -> JsonValue {
    JsonValue::Obj(vec![
        num("account_id", id),
        text("domain", "example.org"),
        text("status", status),
        text("billingcycle", "Monthly"),
        text("date_created", "2024-01-01"),
        text("next_due", "2024-02-01"),
        num("recurring_amount", 42),
        field(
            "extra_details",
            JsonValue::Obj(vec![
                text("region", "eu"),
                text("region_label", "Europe"),
                text("description", "a vm"),
                text("name", name),
                field("tenant_id", JsonValue::Null),
                text("ciuser", "root"),
                text("cipassword", "SECRET-REDACTED"),
                num("neosshkey_id", 9),
                text("sshkeys", "ssh-rsa AAAA"),
                text("osname", "alma9"),
                text("disk_size", "40G"),
            ]),
        ),
        num("product_id", 1538),
        text("product_name", "neolite-small"),
        text("description", "2 cores"),
        num("category_id", 3),
        text("category_name", "vps"),
        field(
            "last_invoice",
            JsonValue::Obj(vec![
                num("id", 100),
                num("paid_id", 99),
                text("status", "Paid"),
                text("date", "2024-01-01"),
                text("duedate", "2024-01-15"),
                text("paybefore", "2024-01-20"),
                text("datepaid", "2024-01-02"),
                text("invoice_type", "invoice"),
            ]),
        ),
    ])
}

fn snapshot_account_json(id: i64, status: &str, name: &str) -> JsonValue {
    JsonValue::Obj(vec![
        num("account_id", id),
        text("status", status),
        field(
            "extra_details",
            JsonValue::Obj(vec![
                text("name", name),
                text("description", "before upgrade"),
                text("region", "eu"),
            ]),
        ),
    ])
}

fn get_member<'a>(v: &'a JsonValue, key: &str) -> &'a JsonValue {
    match v {
        JsonValue::Obj(fields) => {
            for (k, val) in fields {
                if k == key {
                    return val;
                }
            }
            panic!("no member {}", key);
        }
        _ => panic!("not an object"),
    }
}

#[test]
fn account_id_accepted_as_string_or_number() {
    let mut as_string = account_json(0, "Active", "vm-a");
    if let JsonValue::Obj(fields) = &mut as_string {
        fields[0].1 = JsonValue::Str(s("1793"));
    }
    let listing = JsonValue::Arr(vec![as_string, account_json(1794, "Active", "vm-b")]);
    let accounts = parse_account_list(&listing).unwrap();
    assert_eq!(accounts[0].id, 1793);
    assert_eq!(accounts[1].id, 1794);
    assert_eq!(accounts[0].status, AccountStatus::Active);
    assert_eq!(accounts[0].extra_details.keypair_id, 9);
    assert_eq!(accounts[0].last_invoice.paid_id, 99);
}

#[test]
fn keypair_id_accepted_as_string_or_number() {
    let as_number = parse_keypair(&keypair_json(5, "gandalf0")).unwrap();
    assert_eq!(as_number.id, 5);
    let json = JsonValue::Obj(vec![
        text("keypair_id", "17"),
        text("name", "gandalf1"),
        text("public_key", "ssh-rsa AAAA"),
    ]);
    let as_string = parse_keypair(&json).unwrap();
    assert_eq!(as_string.id, 17);
    let json = JsonValue::Obj(vec![
        text("keypair_id", "17x"),
        text("name", "gandalf1"),
        text("public_key", "ssh-rsa AAAA"),
    ]);
    match parse_keypair(&json) {
        Err(Error::InvalidArgument(_)) => {}
        _ => panic!("expected InvalidArgument"),
    }
}

#[test]
fn malformed_account_is_invalid_argument() {
    let listing = JsonValue::Arr(vec![JsonValue::Obj(vec![num("account_id", 1)])]);
    match parse_account_list(&listing) {
        Err(Error::InvalidArgument(_)) => {}
        _ => panic!("expected InvalidArgument"),
    }
}

#[test]
fn status_parses_exact_literals_only() {
    assert_eq!(parse_status(&s("Active")), Some(AccountStatus::Active));
    assert_eq!(parse_status(&s("Pending")), Some(AccountStatus::Pending));
    assert_eq!(parse_status(&s("Suspended")), Some(AccountStatus::Suspended));
    assert_eq!(parse_status(&s("Terminated")), Some(AccountStatus::Terminated));
    assert_eq!(parse_status(&s("active")), None);
    assert_eq!(AccountStatus::Terminated.as_str(), "Terminated");
    assert_eq!(VirtualMachineStatus::Suspended.as_str(), "Suspended");
}

#[test]
fn terminated_accounts_never_reach_vm_listing() {
    let listing = JsonValue::Arr(vec![
        account_json(1, "Active", "vm-a"),
        account_json(2, "Terminated", "vm-b"),
        account_json(3, "Pending", "vm-c"),
        account_json(4, "Terminated", "vm-d"),
    ]);
    let accounts = parse_account_list(&listing).unwrap();
    let ids = active_vm_ids(&accounts);
    assert_eq!(ids, vec![1, 3]);
}

#[test]
fn vm_id_is_the_account_id_never_the_vmid() {
    let payload = JsonValue::Obj(vec![
        num("vmid", 999),
        text("name", "thorin-os2"),
        text("status", "running"),
        num("uptime", 3600),
        num("maxdisk", 42949672960),
        num("maxmem", 2147483648),
        num("mem", 1024),
        num("cpus", 2),
    ]);
    let vm = parse_vm_details(&payload, 42).unwrap();
    assert_eq!(vm.id, 42);
    assert_eq!(vm.name, "thorin-os2");
    assert_eq!(vm.cpus, 2);
}

#[test]
fn keypair_lookup_is_list_plus_filter() {
    let keys = vec![
        KeypairResource { id: 1, name: s("a"), public_key: s("ka") },
        KeypairResource { id: 2, name: s("b"), public_key: s("kb") },
    ];
    let hit = find_keypair(keys, 2).unwrap();
    assert_eq!(hit.name, "b");

    let keys = vec![KeypairResource { id: 1, name: s("a"), public_key: s("ka") }];
    match find_keypair(keys, 7) {
        Err(Error::NotFound(m)) => assert_eq!(m, "Keypair is not found"),
        _ => panic!("expected NotFound"),
    }
}

#[test]
fn os_lookup_is_list_plus_filter() {
    let listing = JsonValue::Arr(vec![os_json(1001, "alma9"), os_json(1002, "debian12")]);
    let images = parse_os_list(&listing).unwrap();
    let hit = find_os(images, 1001).unwrap();
    assert_eq!(hit.name, "alma9");

    let images = parse_os_list(&JsonValue::Arr(vec![os_json(1002, "debian12")])).unwrap();
    match find_os(images, 1001) {
        Err(Error::NotFound(m)) => assert_eq!(m, "OS is not found"),
        _ => panic!("expected NotFound"),
    }
}

#[test]
fn billing_label_match_is_case_sensitive() {
    let plan = parse_plan(&plan_json(1538)).unwrap();
    match plan.get_billing("monthly") {
        Err(Error::NotFound(m)) => assert_eq!(m, "Billing is not found"),
        _ => panic!("expected NotFound"),
    }
    let billing = plan.get_billing("Monthly").unwrap();
    assert_eq!(billing.cycle, "m");
    assert_eq!(billing.price, 42);
}

#[test]
fn credit_card_flag_serializes_as_yes_or_no() {
    let plan = parse_plan(&plan_json(1538)).unwrap();
    let billing: Billing = plan.get_billing("Monthly").unwrap().clone();
    let keypair = KeypairResource { id: 5, name: s("gandalf0"), public_key: s("k") };
    let os = OsResource {
        id: 1001,
        node: s("node1"),
        name: s("alma9"),
        maxmem: 2147483648,
        maxcpu: 4,
    };
    let mut opts = VirtualMachineOptions {
        plan: plan.clone(),
        keypair,
        os,
        billing,
        use_credit_card: false,
        promocode: None,
    };
    let body = create_vm_body("thorin-os2", &None, "root", "SECRET-REDACTED", &opts);
    assert_eq!(*get_member(&body, "pay_invoice_with_cc"), JsonValue::Str(s("no")));
    assert_eq!(*get_member(&body, "description"), JsonValue::Null);
    assert_eq!(*get_member(&body, "promocode"), JsonValue::Null);

    opts.use_credit_card = true;
    opts.promocode = Some(s("WINTER"));
    let body = create_vm_body("thorin-os2", &Some(s("a vm")), "root", "SECRET-REDACTED", &opts);
    assert_eq!(*get_member(&body, "pay_invoice_with_cc"), JsonValue::Str(s("yes")));
    assert_eq!(*get_member(&body, "promocode"), JsonValue::Str(s("WINTER")));
    assert_eq!(*get_member(&body, "description"), JsonValue::Str(s("a vm")));
}

#[test]
fn provisioning_flow_end_to_end() {
    // Create the keypair "gandalf0" through a simulated 200 envelope.
    let created = JsonValue::Obj(vec![
        (s("success"), JsonValue::Bool(true)),
        (s("code"), JsonValue::Num(200)),
        (s("data"), keypair_json(5, "gandalf0")),
    ]);
    let data = interpret_response(200, "{}", Ok(created)).unwrap();
    let keypair = parse_keypair(&data).unwrap();
    assert_eq!(keypair.name, "gandalf0");
    let body = create_keypair_body("gandalf0");
    assert_eq!(*get_member(&body, "name"), JsonValue::Str(s("gandalf0")));

    // Fetch plan 1538 and its Monthly billing cycle.
    let plan = parse_plan(&plan_json(1538)).unwrap();
    assert_eq!(plan.id, 1538);
    let billing = plan.get_billing("Monthly").unwrap().clone();

    // Pick OS 1001 from the plan's listing.
    assert_eq!(os_list_path(1538), "/products/1538/oss");
    let images = parse_os_list(&JsonValue::Arr(vec![
        os_json(1001, "alma9"),
        os_json(1002, "debian12"),
    ]))
    .unwrap();
    let os = find_os(images, 1001).unwrap();

    // The IP check answers true.
    let ip = parse_ip(&JsonValue::Obj(vec![field("available", JsonValue::Bool(true))])).unwrap();
    assert!(ip.available);

    // Create the machine and read the billing result.
    let opts = VirtualMachineOptions {
        plan,
        keypair,
        os,
        billing,
        use_credit_card: false,
        promocode: None,
    };
    let body = create_vm_body("thorin-os2", &None, "root", "SECRET-REDACTED", &opts);
    assert_eq!(*get_member(&body, "vm_name"), JsonValue::Str(s("thorin-os2")));
    assert_eq!(*get_member(&body, "product_id"), JsonValue::Num(1538));
    assert_eq!(*get_member(&body, "select_os"), JsonValue::Str(s("alma9")));
    assert_eq!(*get_member(&body, "keypair_id"), JsonValue::Num(5));

    let answer = JsonValue::Obj(vec![
        (s("success"), JsonValue::Bool(true)),
        (s("code"), JsonValue::Num(200)),
        (
            s("data"),
            JsonValue::Obj(vec![text("order_id", "ord-771"), text("account_id", "1793")]),
        ),
    ]);
    let data = interpret_response(201, "{}", Ok(answer)).unwrap();
    let billing_result = parse_billing_resource(&data).unwrap();
    assert!(!billing_result.order_id.is_empty());
    assert!(!billing_result.account_id.is_empty());
}

#[test]
fn snapshot_listing_drops_terminated_and_projects() {
    let listing = JsonValue::Arr(vec![
        snapshot_account_json(11, "Terminated", "old-snap"),
        snapshot_account_json(12, "Active", "fresh-snap"),
    ]);
    let accounts = parse_snapshot_account_list(&listing).unwrap();
    let snapshots = snapshots_from_accounts(&accounts);
    assert_eq!(
        snapshots,
        vec![SnapshotResource { id: 12, name: s("fresh-snap") }]
    );
}

#[test]
fn snapshot_get_remaps_not_found_only() {
    let account = snapshot_account_json(12, "Active", "fresh-snap");
    let got = interpret_snapshot_account(Ok(account)).unwrap();
    assert_eq!(snapshot_from_account(&got).name, "fresh-snap");

    match interpret_snapshot_account(Err(Error::NotFound(s("Resource not found")))) {
        Err(Error::NotFound(m)) => assert_eq!(m, "Snapshot not found"),
        _ => panic!("expected NotFound"),
    }
    match interpret_snapshot_account(Err(Error::InvalidArgument(s("boom")))) {
        Err(Error::InvalidArgument(m)) => assert_eq!(m, "boom"),
        _ => panic!("expected InvalidArgument"),
    }
}

#[test]
fn every_path_builder_is_exact() {
    assert_eq!(neolite::keypair::keypairs_path(), "/keypairs");
    assert_eq!(neolite::keypair::keypair_delete_path(9), "/keypairs/9");
    assert_eq!(neolite::plan::products_path(), "/products");
    assert_eq!(neolite::plan::product_path(1538), "/products/1538");
    assert_eq!(neolite::plan::snapshot_products_path(), "/snapshots/products");
    assert_eq!(neolite::plan::snapshot_product_path(2), "/snapshots/products/2");
    assert_eq!(neolite::ip::ip_availability_path(1538), "/products/1538/ip-availability");
    assert_eq!(neolite::account::accounts_path(), "/accounts");
    assert_eq!(
        neolite::account::accounts_with_status_path(&AccountStatus::Suspended),
        "/accounts?status=Suspended"
    );
    assert_eq!(neolite::account::snapshot_accounts_path(), "/snapshots/accounts");
    assert_eq!(neolite::account::snapshot_account_path(12), "/snapshots/accounts/12");
    assert_eq!(neolite::vm::vm_details_path(42), "/accounts/42/vm-details");
    assert_eq!(neolite::vm::vm_delete_path(42), "/42");
    assert_eq!(neolite::vm::change_keypair_path(42), "/accounts/42/keypair");
    assert_eq!(neolite::vm::change_name_path(42), "/accounts/42/change-vm-name");
    assert_eq!(neolite::vm::change_plan_path(42), "/accounts/42/change-package");
    assert_eq!(neolite::vm::change_storage_path(42), "/accounts/42/storage");
    assert_eq!(neolite::vm::rebuild_path(42), "/accounts/42/rebuild");
    assert_eq!(neolite::snapshot::snapshot_create_path(42), "/accounts/42/snapshot");
    assert_eq!(neolite::snapshot::snapshot_delete_path(12), "/snapshots/12");
    assert_eq!(
        neolite::snapshot::snapshot_restore_path(12),
        "/snapshots/accounts/12/restore"
    );
    assert_eq!(
        neolite::snapshot::snapshot_restore_with_path(12),
        "/snapshots/accounts/12/create"
    );
}

#[test]
fn state_paths_use_exact_literals() {
    assert_eq!(vm_state_path(7, &VmPowerState::Start), "/accounts/7/vm-state/start");
    assert_eq!(vm_state_path(7, &VmPowerState::Stop), "/accounts/7/vm-state/stop");
    assert_eq!(vm_state_path(7, &VmPowerState::Shutdown), "/accounts/7/vm-state/shutdown");
    assert_eq!(VmPowerState::Resume.as_str(), "resume");
}
