use hickory_dns::catalog::{str_eq, Catalog};
use hickory_dns::lifecycle::{Lifecycle, LifecycleAction, Stage};
use LifecycleAction::{
    Abort, BindTransports, DropPrivileges, Exit, PopulateCatalog, ReportValid, ResolveZones,
    RunEngine, StartServing,
};
use hickory_dns::logging::{banner, debug, filter_directive, quiet, LogLevel};
use hickory_dns::privilege::{
    check_drop_privs, has_nul, DropAction, DropError, DropEvent, DropPhase, Principal,
    ProcessIds,
};

fn ids(uid: u32, euid: u32) -> ProcessIds {
    ProcessIds { uid, gid: uid, euid, egid: euid }
}

#[test]
fn unprivileged_process_keeps_its_identity() {
    let (mut d, a) = check_drop_privs("named", "named");
    assert_eq!(a, DropAction::ReadIds);
    let a = d.step(DropEvent::Ids(ids(1000, 1000)));
    assert_eq!(a, DropAction::Finish(ids(1000, 1000)));
    assert_eq!(d.phase, DropPhase::Done(ids(1000, 1000)));
}

#[test]
fn root_drops_group_then_user() {
    let (mut d, _) = check_drop_privs("named", "nogroup");
    assert_eq!(d.step(DropEvent::Ids(ids(0, 0))), DropAction::LookupPrincipals);
    assert_eq!(d.step(DropEvent::Resolved { uid: Some(101), gid: Some(65534) }), DropAction::SetGid(65534));
    assert_eq!(d.step(DropEvent::GidSet(0)), DropAction::SetUid(101));
    assert_eq!(d.step(DropEvent::UidSet(0)), DropAction::ReadIds);
    let after = ProcessIds { uid: 101, gid: 65534, euid: 101, egid: 65534 };
    assert_eq!(d.step(DropEvent::Ids(after)), DropAction::Finish(after));
    assert_eq!(d.step(DropEvent::GidSet(0)), DropAction::Ignore);
}

#[test]
fn failed_group_transition_stops_before_user() {
    let (mut d, _) = check_drop_privs("named", "named");
    d.step(DropEvent::Ids(ids(1000, 0)));
    d.step(DropEvent::Resolved { uid: Some(101), gid: Some(101) });
    let err = DropError::PrivilegeDropFailed(Principal::Group);
    assert_eq!(d.step(DropEvent::GidSet(-1)), DropAction::Fail(err));
    assert_eq!(d.phase, DropPhase::Failed(err));
    assert_eq!(d.step(DropEvent::UidSet(0)), DropAction::Ignore);
}

#[test]
fn failed_user_transition_is_fatal() {
    let (mut d, _) = check_drop_privs("named", "named");
    d.step(DropEvent::Ids(ids(0, 0)));
    d.step(DropEvent::Resolved { uid: Some(101), gid: Some(101) });
    d.step(DropEvent::GidSet(0));
    let err = DropError::PrivilegeDropFailed(Principal::User);
    assert_eq!(d.step(DropEvent::UidSet(-1)), DropAction::Fail(err));
}

#[test]
fn unknown_names_are_refused() {
    let (mut d, _) = check_drop_privs("nobody-here", "named");
    d.step(DropEvent::Ids(ids(0, 0)));
    let a = d.step(DropEvent::Resolved { uid: None, gid: Some(1) });
    assert_eq!(a, DropAction::Fail(DropError::UnknownPrincipal(Principal::User)));
    let (mut d, _) = check_drop_privs("named", "nope");
    d.step(DropEvent::Ids(ids(0, 0)));
    let a = d.step(DropEvent::Resolved { uid: Some(1), gid: None });
    assert_eq!(a, DropAction::Fail(DropError::UnknownPrincipal(Principal::Group)));
}

#[test]
fn names_with_nul_are_refused() {
    assert!(has_nul("na\0med"));
    assert!(!has_nul("named"));
    let (mut d, _) = check_drop_privs("named", "gr\0oup");
    let a = d.step(DropEvent::Ids(ids(0, 0)));
    assert_eq!(a, DropAction::Fail(DropError::InvalidName(Principal::Group)));
}

fn run(validate_only: bool, outcomes: &[bool]) -> Vec<LifecycleAction> {
    let mut l = Lifecycle::new(validate_only);
    let mut taken = vec![];
    for ok in outcomes {
        taken.push(l.action());
        l.advance(*ok);
    }
    taken.push(l.action());
    taken
}

#[test]
fn validate_only_never_binds_or_drops() {
    assert_eq!(run(true, &[true, true, true]), vec![ResolveZones, PopulateCatalog, ReportValid, Exit(0)]);
    assert_eq!(run(true, &[false]), vec![ResolveZones, Exit(1)]);
}

#[test]
fn full_startup_runs_each_stage_once() {
    assert_eq!(
        run(false, &[true; 6]),
        vec![ResolveZones, PopulateCatalog, BindTransports, DropPrivileges, StartServing, RunEngine, Exit(0)]
    );
}

#[test]
fn bind_failure_is_fatal_and_engine_error_aborts() {
    assert_eq!(run(false, &[true, true, false]), vec![ResolveZones, PopulateCatalog, BindTransports, Exit(1)]);
    let mut l = Lifecycle::new(false);
    for _ in 0..5 {
        l.advance(true);
    }
    assert_eq!(l.stage, Stage::Serving);
    l.advance(false);
    assert_eq!(l.stage, Stage::Aborted);
    assert_eq!(l.action(), Abort);
}

#[test]
fn catalog_upserts_by_name_in_order() {
    let mut c: Catalog<u32> = Catalog::new();
    c.upsert("example.com.".to_string(), vec![1]);
    c.upsert("example.net.".to_string(), vec![2, 3]);
    assert_eq!(c.len(), 2);
    c.upsert("example.com.".to_string(), vec![4]);
    assert_eq!(c.len(), 2);
    assert_eq!(c.find("example.com."), Some(0));
    assert_eq!(c.authorities_at(0), &vec![4]);
    assert_eq!(c.find("example.net."), Some(1));
    assert_eq!(c.authorities_at(1), &vec![2, 3]);
    assert_eq!(c.find("example.org."), None);
    assert!(str_eq("a", "a") && !str_eq("a", "b") && !str_eq("a", "ab"));
}

#[test]
fn log_directives_name_the_level() {
    assert_eq!(debug(""), "hickory_=debug,");
    assert_eq!(hickory_dns::logging::default("foo=trace"), "hickory_=info,foo=trace");
    assert_eq!(quiet(""), "hickory_=error,");
    assert_eq!(filter_directive(LogLevel::Info, "x"), "hickory_=info,x");
}

#[test]
fn banner_frames_the_name() {
    assert_eq!(banner(), vec!["".to_string(), " Hickory DNS".to_string(), "".to_string()]);
}
