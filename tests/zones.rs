use hickory_dns::keys::{key_plan, KeyOp, ProvisionStatus, Provisioning};
use hickory_dns::zone::{
    is_signable, resolve_zone, resolve_zones, Backend, KeySpec, ResolvedStore, StoreSpec,
    ZoneError, ZoneSpec, ZoneType, ZoneWarning,
};

fn zone(file: Option<&str>, stores: Vec<StoreSpec>, allow_update: bool) -> ZoneSpec {
    ZoneSpec {
        name: "example.com.".to_string(),
        zone_type: ZoneType::Primary,
        file: file.map(|f| f.to_string()),
        stores,
        allow_axfr: false,
        allow_update,
        enable_dnssec: false,
        keys: vec![],
    }
}

fn file_store(path: &str) -> StoreSpec {
    StoreSpec::File { zone_file_path: path.to_string() }
}

#[test]
fn declared_stores_keep_their_order() {
    let stores = vec![
        StoreSpec::Forward { name_servers: vec!["8.8.8.8".to_string()] },
        file_store("a.zone"),
        StoreSpec::Blocklist { lists: vec![] },
    ];
    let plan = resolve_zone(&zone(None, stores, false), true).unwrap();
    let backends: Vec<Backend> = plan.stores.iter().map(|s| s.backend).collect();
    assert_eq!(backends, vec![Backend::Declared(0), Backend::Declared(1), Backend::Declared(2)]);
    assert!(plan.warnings.is_empty());
    assert_eq!(plan.journal_file_path, None);
}

#[test]
fn legacy_update_flag_makes_journaled_store() {
    let z = zone(Some("zones/example.com.zone"), vec![], true);
    let plan = resolve_zone(&z, true).unwrap();
    assert_eq!(plan.stores, vec![ResolvedStore { backend: Backend::LegacyJournal, sign: false }]);
    assert_eq!(plan.journal_file_path.as_deref(), Some("zones/example.com.jrnl"));
    assert_eq!(plan.warnings, vec![ZoneWarning::LegacyJournalDeprecated]);
}

#[test]
fn journal_path_without_extension_gains_one() {
    let z = zone(Some("example"), vec![], true);
    let plan = resolve_zone(&z, true).unwrap();
    assert_eq!(plan.journal_file_path.as_deref(), Some("example.jrnl"));
}

#[test]
fn update_flag_without_journal_support_uses_plain_file() {
    let z = zone(Some("example.com.zone"), vec![], true);
    let plan = resolve_zone(&z, false).unwrap();
    assert_eq!(plan.stores, vec![ResolvedStore { backend: Backend::LegacyFile, sign: false }]);
    assert_eq!(plan.journal_file_path, None);
    assert_eq!(plan.warnings, vec![ZoneWarning::UpdateFlagMisplaced]);
}

#[test]
fn legacy_update_without_file_is_missing_zone_file() {
    let z = zone(None, vec![], true);
    assert_eq!(resolve_zone(&z, true).unwrap_err(), ZoneError::MissingZoneFile);
}

#[test]
fn no_stores_and_no_file_is_missing_zone_file() {
    let z = zone(None, vec![], false);
    assert_eq!(resolve_zone(&z, true).unwrap_err(), ZoneError::MissingZoneFile);
}

#[test]
fn no_stores_with_file_gives_one_file_store() {
    let z = zone(Some("example.com.zone"), vec![], false);
    let plan = resolve_zone(&z, true).unwrap();
    assert_eq!(plan.stores, vec![ResolvedStore { backend: Backend::LegacyFile, sign: false }]);
    assert!(plan.warnings.is_empty());
}

#[test]
fn explicit_store_wins_over_legacy_file() {
    let z = zone(Some("old.zone"), vec![file_store("new.zone")], false);
    let plan = resolve_zone(&z, true).unwrap();
    assert_eq!(plan.stores, vec![ResolvedStore { backend: Backend::Declared(0), sign: false }]);
    assert_eq!(plan.warnings, vec![ZoneWarning::LegacyFileIgnored(0)]);
}

#[test]
fn update_flag_beside_stores_is_warned() {
    let z = zone(None, vec![file_store("a.zone")], true);
    let plan = resolve_zone(&z, true).unwrap();
    assert_eq!(plan.warnings, vec![ZoneWarning::UpdateFlagMisplaced]);
    assert_eq!(plan.journal_file_path, None);
}

#[test]
fn only_file_backends_are_signed() {
    let mut z = zone(
        None,
        vec![
            file_store("a.zone"),
            StoreSpec::TransactionalFile {
                zone_file_path: "b.zone".to_string(),
                journal_file_path: "b.jrnl".to_string(),
                allow_update: true,
            },
            StoreSpec::Recursive { roots: "root.hints".to_string() },
        ],
        false,
    );
    z.enable_dnssec = true;
    let plan = resolve_zone(&z, true).unwrap();
    let signs: Vec<bool> = plan.stores.iter().map(|s| s.sign).collect();
    assert_eq!(signs, vec![true, true, false]);
    assert!(is_signable(&file_store("x")));
    assert!(!is_signable(&StoreSpec::Forward { name_servers: vec![] }));
}

#[test]
fn first_failing_zone_aborts_resolution() {
    let zones = vec![
        zone(Some("a.zone"), vec![], false),
        zone(None, vec![], false),
        zone(Some("c.zone"), vec![], false),
    ];
    assert_eq!(resolve_zones(&zones, true).unwrap_err(), (1, ZoneError::MissingZoneFile));
    let good = vec![zone(Some("a.zone"), vec![], false), zone(None, vec![file_store("b")], false)];
    let plans = resolve_zones(&good, true).unwrap();
    assert_eq!(plans.len(), 2);
    assert_eq!(plans[1].stores[0].backend, Backend::Declared(0));
}

fn key(zsk: bool, auth: bool) -> KeySpec {
    KeySpec { key_path: "k.pem".to_string(), is_zone_signing_key: zsk, is_zone_update_auth: auth }
}

#[test]
fn keys_are_registered_in_order_then_zone_is_signed_once() {
    let keys = vec![key(true, false), key(true, true), key(false, true), key(false, false)];
    assert_eq!(
        key_plan(&keys, true),
        vec![
            KeyOp::AddZoneSigningKey(0),
            KeyOp::AddZoneSigningKey(1),
            KeyOp::AddUpdateAuthKey(1),
            KeyOp::AddUpdateAuthKey(2),
            KeyOp::SecureZone,
        ]
    );
    assert_eq!(key_plan(&vec![], true), vec![KeyOp::SecureZone]);
}

#[test]
fn key_provisioning_is_a_no_op_when_signing_is_off() {
    let keys = vec![key(true, true)];
    assert!(key_plan(&keys, false).is_empty());
}

#[test]
fn provisioning_signs_after_every_key_step() {
    let keys = vec![key(true, false), key(false, true)];
    let mut p = Provisioning::new(&keys, true);
    assert_eq!(p.current(), Some(KeyOp::AddZoneSigningKey(0)));
    p.record(true);
    assert_eq!(p.current(), Some(KeyOp::AddUpdateAuthKey(1)));
    p.record(true);
    assert_eq!(p.current(), Some(KeyOp::SecureZone));
    p.record(true);
    assert_eq!(p.status, ProvisionStatus::Finished);
    assert_eq!(p.current(), None);
}

#[test]
fn provisioning_stops_at_first_failure() {
    let keys = vec![key(true, false), key(true, false)];
    let mut p = Provisioning::new(&keys, true);
    p.record(true);
    p.record(false);
    assert_eq!(p.status, ProvisionStatus::Aborted(1));
    assert_eq!(p.current(), None);
    p.record(true);
    assert_eq!(p.status, ProvisionStatus::Aborted(1));
}

#[test]
fn provisioning_without_signing_is_finished_at_once() {
    let p = Provisioning::new(&vec![key(true, true)], false);
    assert_eq!(p.status, ProvisionStatus::Finished);
    assert!(p.ops.is_empty());
}
