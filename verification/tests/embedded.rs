use i2p_client::embedded::{
    awaits_build, build_begin, build_step, embedded_config, BuildAction, BuildEvent, BuildPhase,
};

fn finish(a: BuildAction) -> Result<(String, String), String> {
    match a {
        BuildAction::Finish(r) => r,
        other => panic!("expected the bootstrap to finish, got {:?}", other),
    }
}

#[test]
fn the_embedded_router_runs_with_the_documented_configuration() {
    let c = embedded_config();
    assert_eq!((c.ntcp2_port, c.ssu2_port), (0, 0));
    assert!(c.publish && c.ipv4 && c.ipv6 && !c.disable_pq);
    assert_eq!(c.ml_kem, 4);
    assert_eq!(c.sam_host, "127.0.0.1");
    assert_eq!((c.sam_tcp_port, c.sam_udp_port), (0, 0));
    assert_eq!(c.transit_max_tunnels, 1000);
}

#[test]
fn a_first_run_reseeds_then_builds() {
    let (mut phase, a) = build_begin();
    assert!(matches!(a, BuildAction::LoadStorage));
    assert!(awaits_build(&phase, &BuildEvent::Loaded(Ok(0))));
    assert!(!awaits_build(&phase, &BuildEvent::InfoStored(Ok(()))));
    assert!(matches!(build_step(&mut phase, BuildEvent::Loaded(Ok(0))), BuildAction::Reseed));
    match build_step(&mut phase, BuildEvent::Reseeded(Ok(12))) {
        BuildAction::BuildRouter(c) => assert_eq!(c.transit_max_tunnels, 1000),
        other => panic!("expected to build the router, got {:?}", other),
    }
    assert!(matches!(build_step(&mut phase, BuildEvent::RouterBuilt(Ok(()))), BuildAction::StoreLocalInfo));
    assert!(matches!(build_step(&mut phase, BuildEvent::InfoStored(Ok(()))), BuildAction::ReadSamAddresses));
    let r = finish(build_step(
        &mut phase,
        BuildEvent::SamBound { tcp: Some("127.0.0.1:4001".to_string()), udp: Some("127.0.0.1:4002".to_string()) },
    ));
    assert_eq!(r, Ok(("127.0.0.1:4001".to_string(), "127.0.0.1:4002".to_string())));
    assert_eq!(phase, BuildPhase::Done);
}

#[test]
fn a_later_run_with_known_routers_starts_offline() {
    let (mut phase, _) = build_begin();
    assert!(matches!(build_step(&mut phase, BuildEvent::Loaded(Ok(250))), BuildAction::BuildRouter(_)));
}

#[test]
fn a_failed_first_reseed_cannot_start() {
    let (mut phase, _) = build_begin();
    build_step(&mut phase, BuildEvent::Loaded(Ok(0)));
    let r = finish(build_step(&mut phase, BuildEvent::Reseeded(Err("no network".to_string()))));
    assert_eq!(r, Err("reseed failed, cannot start: no network".to_string()));
}

#[test]
fn each_failure_names_its_step() {
    let (mut phase, _) = build_begin();
    assert_eq!(
        finish(build_step(&mut phase, BuildEvent::Loaded(Err("denied".to_string())))),
        Err("emissary storage: denied".to_string())
    );
    let (mut phase, _) = build_begin();
    build_step(&mut phase, BuildEvent::Loaded(Ok(3)));
    assert_eq!(
        finish(build_step(&mut phase, BuildEvent::RouterBuilt(Err("bad key".to_string())))),
        Err("emissary router: bad key".to_string())
    );
    let (mut phase, _) = build_begin();
    build_step(&mut phase, BuildEvent::Loaded(Ok(3)));
    build_step(&mut phase, BuildEvent::RouterBuilt(Ok(())));
    assert_eq!(
        finish(build_step(&mut phase, BuildEvent::InfoStored(Err("disk full".to_string())))),
        Err("store router info: disk full".to_string())
    );
    let (mut phase, _) = build_begin();
    build_step(&mut phase, BuildEvent::Loaded(Ok(3)));
    build_step(&mut phase, BuildEvent::RouterBuilt(Ok(())));
    build_step(&mut phase, BuildEvent::InfoStored(Ok(())));
    let mut p2 = phase;
    assert_eq!(
        finish(build_step(&mut phase, BuildEvent::SamBound { tcp: None, udp: Some("u".to_string()) })),
        Err("emissary SAM TCP not bound".to_string())
    );
    assert_eq!(
        finish(build_step(&mut p2, BuildEvent::SamBound { tcp: Some("t".to_string()), udp: None })),
        Err("emissary SAM UDP not bound".to_string())
    );
}
