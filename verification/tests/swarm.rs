use mitch::detector::{self, probe_interval_secs, probe_timeout_millis, update_health, Detector};
use mitch::errors::Error;
use mitch::group::MitchConfig;
use mitch::member_info::{IpAddr, MemberInfo, SocketAddr};
use mitch::membership;
use mitch::observer::SwarmNotification;
use mitch::protomitch_pb::mitch_msg::Value;
use mitch::reactor::{Action, Event, Reactor};

fn member(id: u32, port: u16) -> MemberInfo {
    MemberInfo {
        id,
        nickname: format!("member-{}", id),
        min_proto: 0,
        max_proto: 0,
        target: SocketAddr { ip: IpAddr::V4([10, 0, 0, 1]), port },
        metadata: vec![],
    }
}

fn ids(v: &[MemberInfo]) -> Vec<u32> {
    v.iter().map(|m| m.id).collect()
}

#[test]
fn from_identity_and_getters() {
    let m = MemberInfo::from_identity(42, Some("bold-bear".to_string()));
    assert_eq!(*m.id(), 42);
    assert_eq!(m.nickname(), "bold-bear");
    assert!(m.metadata().is_empty());
    assert_eq!(m.target.port, 0);
    match m.target.ip {
        IpAddr::V4(a) => assert_eq!(a, [127, 0, 0, 1]),
        _ => panic!("expected loopback"),
    }
    let n = MemberInfo::from_identity(1, None);
    assert_eq!(n.nickname(), "not-available");
}

#[test]
fn default_member_has_random_name() {
    let m = MemberInfo::default();
    assert!(!m.nickname().is_empty());
    assert!(m.nickname().contains('-'));
    assert_eq!(m.min_proto, mitch::MIN_PROTO);
    assert_eq!(m.max_proto, mitch::MAX_PROTO);
}

#[test]
fn describe_member() {
    let m = MemberInfo::from_identity(4_000_000_123, Some("quiet-owl".to_string()));
    assert_eq!(m.describe(), "Swarm member \"quiet-owl\" (ID: 4000000123)");
    let z = MemberInfo::from_identity(0, Some("z".to_string()));
    assert_eq!(z.describe(), "Swarm member \"z\" (ID: 0)");
}

#[test]
fn clone_keeps_member() {
    let mut m = member(3, 30);
    m.metadata = vec![1, 2, 3];
    let c = m.clone();
    assert_eq!(c.id, 3);
    assert_eq!(c.nickname, "member-3");
    assert_eq!(c.metadata, vec![1, 2, 3]);
}

#[test]
fn join_adds_and_notifies() {
    let local = member(1, 1);
    let mut members = vec![];
    let n = membership::join(&mut members, &local, member(2, 2));
    assert!(matches!(n, Some(SwarmNotification::Joined(ref m)) if m.id == 2));
    assert_eq!(ids(&members), vec![2]);
}

#[test]
fn join_ignores_known_and_local() {
    let local = member(1, 1);
    let mut members = vec![member(2, 2)];
    assert!(membership::join(&mut members, &local, member(2, 99)).is_none());
    assert!(membership::join(&mut members, &local, member(1, 99)).is_none());
    assert_eq!(ids(&members), vec![2]);
    assert_eq!(members[0].target.port, 2);
}

#[test]
fn failed_swap_removes() {
    let mut members = vec![member(2, 2), member(3, 3), member(4, 4), member(5, 5)];
    let n = membership::failed(&mut members, 3);
    assert!(matches!(n, Some(SwarmNotification::Failed(3))));
    assert_eq!(ids(&members), vec![2, 5, 4]);
    assert!(membership::failed(&mut members, 3).is_none());
    assert_eq!(ids(&members), vec![2, 5, 4]);
}

#[test]
fn join_then_failed_restores_law() {
    let local = member(1, 1);
    let mut members = vec![member(2, 2), member(3, 3)];
    membership::join(&mut members, &local, member(9, 9));
    membership::failed(&mut members, 9);
    assert_eq!(ids(&members), vec![2, 3]);
}

#[test]
fn peers_snapshot_shutdown_probe() {
    let local = member(1, 1);
    let members = vec![member(2, 20), member(3, 30)];
    assert_eq!(ids(&membership::peers(&members)), vec![2, 3]);
    assert_eq!(ids(&membership::snapshot(&members, &local)), vec![2, 3, 1]);
    let plan = membership::shutdown(&members, &local);
    assert_eq!(plan.targets.iter().map(|t| t.port).collect::<Vec<_>>(), vec![20, 30]);
    assert!(matches!(plan.message.value, Some(Value::Failed(ref f)) if f.id == 1));
    let p = membership::probe(&members, 1500, 5).unwrap();
    assert_eq!(p.target.port, 30);
    assert_eq!(p.timeout_millis, 1500);
    assert!(matches!(p.message.value, Some(Value::Ping(_))));
    assert!(membership::probe(&[], 1500, 5).is_none());
}

#[test]
fn pull_subset_takes_prefix() {
    let members = vec![member(2, 2), member(3, 3), member(4, 4)];
    assert_eq!(ids(&membership::pull_subset(&members, 0)), vec![2, 3, 4]);
    assert_eq!(ids(&membership::pull_subset(&members, 2)), vec![2, 3]);
    assert_eq!(ids(&membership::pull_subset(&members, 3)), vec![2, 3, 4]);
    assert_eq!(ids(&membership::pull_subset(&members, 9)), vec![2, 3, 4]);
    assert!(membership::pull_subset(&[], 4).is_empty());
}

#[test]
fn reactor_run_law_example() {
    let mut r = Reactor::new(member(1, 1));
    r.step(Event::Join(member(5, 5)));
    r.step(Event::Failed(5));
    r.step(Event::Join(member(5, 50)));
    r.step(Event::Join(member(6, 6)));
    r.step(Event::Failed(6));
    assert_eq!(ids(r.peers()), vec![5]);
    assert_eq!(r.peers()[0].target.port, 50);
}

#[test]
fn reactor_serves_events() {
    let mut r = Reactor::new(member(1, 1));
    assert!(matches!(r.step(Event::Join(member(2, 2))), Action::Notify(SwarmNotification::Joined(_))));
    assert!(matches!(r.step(Event::Join(member(2, 2))), Action::Nothing));
    assert!(matches!(r.step(Event::Join(member(1, 1))), Action::Nothing));
    assert!(matches!(r.step(Event::Join(member(3, 3))), Action::Notify(_)));
    match r.step(Event::Peers) {
        Action::Reply(v) => assert_eq!(ids(&v), vec![2, 3]),
        _ => panic!("expected reply"),
    }
    match r.step(Event::Snapshot) {
        Action::Reply(v) => assert_eq!(ids(&v), vec![2, 3, 1]),
        _ => panic!("expected reply"),
    }
    assert!(matches!(r.step(Event::Failed(2)), Action::Notify(SwarmNotification::Failed(2))));
    assert!(matches!(r.step(Event::Failed(2)), Action::Nothing));
    match r.step(Event::Probe(500)) {
        Action::Probe(p) => {
            assert_eq!(p.target.port, 3);
            assert_eq!(p.timeout_millis, 500);
        }
        _ => panic!("expected probe"),
    }
    match r.step(Event::Shutdown) {
        Action::Shutdown(p) => assert_eq!(p.targets.len(), 1),
        _ => panic!("expected shutdown"),
    }
    assert_eq!(ids(r.peers()), vec![3]);
    assert_eq!(r.local_member().id, 1);
}

#[test]
fn reactor_probe_without_peers() {
    let mut r = Reactor::new(member(1, 1));
    assert!(matches!(r.step(Event::Probe(500)), Action::Nothing));
}

#[test]
fn health_updates() {
    let mut h = 0u64;
    update_health(&mut h, false);
    assert_eq!(h, 0);
    update_health(&mut h, true);
    assert_eq!(h, 1);
    let mut h = 6u64;
    update_health(&mut h, true);
    assert_eq!(h, 7);
    update_health(&mut h, true);
    assert_eq!(h, 7);
    let mut h = u64::MAX;
    update_health(&mut h, true);
    assert_eq!(h, 7);
    let mut h = 5u64;
    update_health(&mut h, true);
    update_health(&mut h, false);
    assert_eq!(h, 5);
}

#[test]
fn probe_scaling() {
    assert_eq!(probe_timeout_millis(0), 500);
    assert_eq!(probe_timeout_millis(7), 4000);
    assert_eq!(probe_timeout_millis(u64::MAX), u64::MAX);
    assert_eq!(probe_timeout_millis(u64::MAX / 100), u64::MAX);
    assert_eq!(probe_interval_secs(0), 1);
    assert_eq!(probe_interval_secs(3), 4);
    assert!(matches!(detector::tick(&2), Event::Probe(1500)));
}

#[test]
fn detector_steps() {
    let mut d = Detector::new();
    assert_eq!(d.local_health(), 0);
    assert!(matches!(d.step(detector::Event::Tick), Some(Event::Probe(500))));
    assert!(d.step(detector::Event::ProbeFailed).is_none());
    assert!(d.step(detector::Event::ProbeMissed).is_none());
    assert_eq!(d.local_health(), 2);
    assert!(matches!(d.step(detector::Event::Tick), Some(Event::Probe(1500))));
    d.step(detector::Event::ProbeOk);
    assert_eq!(d.local_health(), 1);
    for _ in 0..10 {
        d.step(detector::Event::SuspectSelf);
    }
    assert_eq!(d.local_health(), 7);
    assert!(matches!(d.step(detector::Event::Tick), Some(Event::Probe(4000))));
}

#[test]
fn config_metadata_limit() {
    let cfg = MitchConfig::default();
    let big = vec![0u8; MemberInfo::MAX_METADATA + 1];
    assert!(matches!(cfg.local_metadata(big), Err(Error::MetadataTooLarge)));
    let cfg = MitchConfig::default();
    let exact = vec![1u8; MemberInfo::MAX_METADATA];
    let cfg = cfg.local_metadata(exact).ok().unwrap();
    let setup = cfg
        .tls_connector(Some(native_tls::TlsConnector::new().unwrap()))
        .tls_acceptor(None)
        .build();
    assert!(matches!(setup, Err(Error::ServerTlsMissing)));
}

#[test]
fn config_requires_client_tls_first() {
    let cfg = MitchConfig::default().listener(None).notifications_channel(None);
    assert!(matches!(cfg.build(), Err(Error::ClientTlsMissing)));
}
