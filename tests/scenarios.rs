use hickory_dns::catalog::Catalog;
use hickory_dns::listen::{listen_addrs, plan_listeners, IpAddress, ListenSettings, Transport, TransportSetting};
use hickory_dns::privilege::{check_drop_privs, DropAction, DropEvent, ProcessIds};
use hickory_dns::zone::{resolve_zones, Backend, StoreSpec, ZonePlan, ZoneSpec, ZoneType};

#[test]
fn one_file_zone_on_both_stacks() {
    let zones = vec![ZoneSpec {
        name: "example.com.".to_string(),
        zone_type: ZoneType::Primary,
        file: None,
        stores: vec![StoreSpec::File { zone_file_path: "example.com.zone".to_string() }],
        allow_axfr: false,
        allow_update: false,
        enable_dnssec: false,
        keys: vec![],
    }];
    let plans = resolve_zones(&zones, true).unwrap();
    let mut catalog: Catalog<Backend> = Catalog::new();
    for (z, p) in zones.iter().zip(plans.iter()) {
        let p: &ZonePlan = p;
        catalog.upsert(z.name.clone(), p.stores.iter().map(|s| s.backend).collect());
    }
    assert_eq!(catalog.len(), 1);
    assert_eq!(catalog.authorities_at(0), &vec![Backend::Declared(0)]);

    let on = TransportSetting { enabled: true, port: 53 };
    let s = ListenSettings { udp: on, tcp: on, tls: on, https: on, quic: on, tls_material: false };
    let plan = plan_listeners(&listen_addrs(&vec![], &vec![]), &s);
    let got: Vec<(IpAddress, Transport)> = plan.listeners.iter().map(|l| (l.addr, l.transport)).collect();
    assert_eq!(
        got,
        vec![
            (IpAddress::V4(0), Transport::Udp),
            (IpAddress::V6(0), Transport::Udp),
            (IpAddress::V4(0), Transport::Tcp),
            (IpAddress::V6(0), Transport::Tcp),
        ]
    );
    assert!(plan.listeners.iter().all(|l| l.port == 53));

    let (mut d, _) = check_drop_privs("named", "named");
    let user = ProcessIds { uid: 1000, gid: 1000, euid: 1000, egid: 1000 };
    assert_eq!(d.step(DropEvent::Ids(user)), DropAction::Finish(user));
    let (mut d, _) = check_drop_privs("named", "named");
    let root = ProcessIds { uid: 0, gid: 0, euid: 0, egid: 0 };
    assert_eq!(d.step(DropEvent::Ids(root)), DropAction::LookupPrincipals);
}
