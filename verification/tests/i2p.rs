use i2p_client::client::{join_path, reuse_or_transient, TRANSIENT};
use i2p_client::{
    status_from_u8, status_to_u8, Envelope, I2pClient, Mode, SendAction, StartAction, StartEvent,
    Status, StringMap, DEFAULT_SAM_UDP, LOCAL_REPROBE_INTERVAL_MS,
};

fn config(pairs: &[(&str, &str)]) -> StringMap {
    let mut m = StringMap::new();
    for (k, v) in pairs {
        m.insert(k.to_string(), v.to_string());
    }
    m
}

fn finished(a: StartAction) -> (bool, Option<(String, String)>) {
    match a {
        StartAction::Finish { started, persist } => (started, persist),
        other => panic!("expected the start to finish, got {:?}", other),
    }
}

/// Drives a local-mode start against a bridge that answers, up to the open
/// session, and returns the action that asks to open it.
fn start_local_until_open(client: &mut I2pClient) -> StartAction {
    let a = client.start_begin();
    assert!(matches!(a, StartAction::ProbeLocalRouter));
    client.start_step(StartEvent::RouterProbed(true))
}

#[test]
fn mode_parses() {
    assert_eq!(Mode::parse("local"), Mode::Local);
    assert_eq!(Mode::parse("EMBEDDED"), Mode::Embedded);
    assert_eq!(Mode::parse("whatever"), Mode::Auto);
}

#[test]
fn status_round_trips() {
    for s in [
        Status::Disconnected,
        Status::Connecting,
        Status::Connected,
        Status::Blocked,
        Status::PortConflict,
        Status::Error,
    ] {
        assert_eq!(status_from_u8(status_to_u8(s)), s);
    }
}

#[test]
fn auto_mode_without_a_router_resolves_to_embedded_and_start_is_clean() {
    let cfg = config(&[("ra.i2p.samPort", "7699")]); // nothing there
    let mut client = I2pClient::from_config(&cfg);
    assert_eq!(client.mode(), Mode::Auto);
    // The probe finds no bridge, so the embedded router is asked for; it
    // cannot start here, and the start ends cleanly.
    let a = client.start_begin();
    assert!(matches!(a, StartAction::ProbeLocalRouter));
    let a = client.start_step(StartEvent::RouterProbed(false));
    assert!(matches!(a, StartAction::StartEmbeddedRouter { .. }));
    let a = client.start_step(StartEvent::EmbeddedStarted(Err(
        "embedded I2P router unavailable".to_string(),
    )));
    let (started, persist) = finished(a);
    assert!(!started);
    assert!(persist.is_none());
    assert!(matches!(client.status(), Status::Error | Status::Disconnected));
}

#[test]
fn local_mode_speaks_sam_to_a_fake_bridge() {
    let cfg = config(&[("ra.i2p.mode", "local"), ("ra.i2p.samPort", "40123")]);
    let mut client = I2pClient::from_config(&cfg);
    assert_eq!(client.mode(), Mode::Local);
    let a = start_local_until_open(&mut client);
    match &a {
        StartAction::OpenSession { sam_tcp, sam_udp, nickname, destination, timeout_secs } => {
            assert_eq!(sam_tcp, "127.0.0.1:40123");
            assert_eq!(sam_udp, DEFAULT_SAM_UDP);
            assert_eq!(nickname, "1m5");
            assert_eq!(destination, "TRANSIENT");
            assert_eq!(*timeout_secs, 180);
        }
        other => panic!("expected to open a session, got {:?}", other),
    }
    // What the fake bridge answers to SESSION CREATE and NAMING LOOKUP ME.
    let created =
        i2p_client::sam::interpret_reply("SESSION STATUS RESULT=OK DESTINATION=abcdEF~full-priv-dest-AAAA")
            .unwrap();
    let full = i2p_client::sam::session_destination(&created, "TRANSIENT");
    let named =
        i2p_client::sam::interpret_reply("NAMING REPLY RESULT=OK NAME=ME VALUE=shortDestAAAA").unwrap();
    let short = i2p_client::sam::naming_lookup_value(&named).unwrap();
    let (started, persist) = finished(client.start_step(StartEvent::SessionOpened(Ok((full, short)))));
    assert!(started, "start() should succeed against the fake bridge");
    assert!(persist.is_none());
    assert_eq!(client.status(), Status::Connected);
    assert_eq!(client.local_destination(), "shortDestAAAA");

    let mut env = Envelope::new("shortDestAAAA", b"ping".to_vec());
    let packet = client.outbound_datagram(&mut env).unwrap();
    assert_eq!(packet, b"3.3 1m5 shortDestAAAA\nping".to_vec());
    assert!(I2pClient::send_outcome(&mut env, Ok(())));
    assert!(!env.headers.contains_key("error"));

    let mut env2 = Envelope::new("", Vec::new());
    assert!(client.outbound_datagram(&mut env2).is_none()); // no destination
    assert!(env2.headers.contains_key("error"));
}

#[test]
fn new_client_has_the_documented_defaults() {
    let client = I2pClient::new();
    assert_eq!(client.mode(), Mode::Auto);
    assert_eq!(client.status(), Status::Disconnected);
    assert_eq!(client.local_destination(), "");
    assert_eq!(client.detector().host, "127.0.0.1");
    assert_eq!(client.detector().sam_port, 7656);
    assert_eq!(client.detector().timeout_ms, 750);
    assert_eq!(client.detector().sam_tcp_addr(), "127.0.0.1:7656");
    assert!(client.dest_file().is_none());
    assert_eq!(client.embedded_dir(), "./emissary");
    let d = I2pClient::default();
    assert_eq!(d.mode(), Mode::Auto);
}

#[test]
fn config_keys_are_read() {
    let cfg = config(&[
        ("ra.i2p.mode", "  Embedded \n"),
        ("ra.i2p.samHost", "10.0.0.2"),
        ("ra.i2p.samPort", "+7699"),
        ("ra.i2p.nickname", "node7"),
        ("ra.i2p.dataDir", "/var/lib/1m5"),
        ("ra.i2p.sessionTimeoutSecs", "600"),
    ]);
    let mut client = I2pClient::from_config(&cfg);
    assert_eq!(client.mode(), Mode::Embedded);
    assert_eq!(client.detector().host, "10.0.0.2");
    assert_eq!(client.detector().sam_port, 7699);
    assert_eq!(client.detector().sam_tcp_addr(), "10.0.0.2:7699");
    assert_eq!(client.dest_file().unwrap(), "/var/lib/1m5/i2p/dest.b64");
    assert_eq!(client.embedded_dir(), "/var/lib/1m5/emissary");
    match client.start_begin() {
        StartAction::StartEmbeddedRouter { base_dir } => assert_eq!(base_dir, "/var/lib/1m5/emissary"),
        other => panic!("expected the embedded router, got {:?}", other),
    }
    let a = client.start_step(StartEvent::EmbeddedStarted(Ok((
        "127.0.0.1:1111".to_string(),
        "127.0.0.1:2222".to_string(),
    ))));
    match a {
        StartAction::ReadDestination { path } => assert_eq!(path, "/var/lib/1m5/i2p/dest.b64"),
        other => panic!("expected to read the destination, got {:?}", other),
    }
    match client.start_step(StartEvent::DestinationRead(None)) {
        StartAction::OpenSession { sam_tcp, sam_udp, nickname, destination, timeout_secs } => {
            assert_eq!(sam_tcp, "127.0.0.1:1111");
            assert_eq!(sam_udp, "127.0.0.1:2222");
            assert_eq!(nickname, "node7");
            assert_eq!(destination, TRANSIENT);
            assert_eq!(timeout_secs, 600);
        }
        other => panic!("expected to open a session, got {:?}", other),
    }
}

#[test]
fn numbers_that_do_not_parse_leave_the_defaults() {
    for bad in ["", "+", "-1", "70000", "76 56", "0x1f", "++1"] {
        let cfg = config(&[("ra.i2p.samPort", bad), ("ra.i2p.sessionTimeoutSecs", bad)]);
        let client = I2pClient::from_config(&cfg);
        assert_eq!(client.detector().sam_port, 7656, "port {:?}", bad);
    }
    let cfg = config(&[("ra.i2p.samPort", "65535"), ("ra.i2p.sessionTimeoutSecs", "18446744073709551615")]);
    assert_eq!(I2pClient::from_config(&cfg).detector().sam_port, 65535);
    let cfg = config(&[("ra.i2p.samPort", "0007656")]);
    assert_eq!(I2pClient::from_config(&cfg).detector().sam_port, 7656);
    let cfg = config(&[("ra.i2p.samPort", "65536")]);
    assert_eq!(I2pClient::from_config(&cfg).detector().sam_port, 7656);
}

#[test]
fn a_later_config_entry_replaces_an_earlier_one() {
    let cfg = config(&[("ra.i2p.mode", "embedded"), ("ra.i2p.mode", "LOCAL")]);
    assert_eq!(I2pClient::from_config(&cfg).mode(), Mode::Local);
}

#[test]
fn mode_names_ignore_case_and_padding() {
    assert_eq!(Mode::parse("  Local\t"), Mode::Local);
    assert_eq!(Mode::parse("\u{a0}eMbEdDeD\u{3000}"), Mode::Embedded);
    assert_eq!(Mode::parse("AUTO"), Mode::Auto);
    assert_eq!(Mode::parse("lo cal"), Mode::Auto);
    assert_eq!(Mode::parse(""), Mode::Auto);
}

#[test]
fn status_bytes_outside_the_codes_read_as_disconnected() {
    for v in 0u8..=5 {
        assert_eq!(status_to_u8(status_from_u8(v)), v);
    }
    assert_eq!(status_from_u8(6), Status::Disconnected);
    assert_eq!(status_from_u8(255), Status::Disconnected);
    assert_eq!(status_to_u8(Status::Error), 5);
}

#[test]
fn local_mode_without_a_bridge_ends_disconnected() {
    let cfg = config(&[("ra.i2p.mode", "local")]);
    let mut client = I2pClient::from_config(&cfg);
    client.start_begin();
    assert_eq!(client.status(), Status::Connecting);
    let (started, _) = finished(client.start_step(StartEvent::RouterProbed(false)));
    assert!(!started);
    assert_eq!(client.status(), Status::Disconnected);
    assert_eq!(client.local_destination(), "");
}

#[test]
fn auto_mode_with_a_bridge_probes_twice_then_attaches() {
    let mut client = I2pClient::new();
    assert!(matches!(client.start_begin(), StartAction::ProbeLocalRouter));
    assert!(client.awaits(&StartEvent::RouterProbed(true)));
    assert!(!client.awaits(&StartEvent::DestinationRead(None)));
    assert!(matches!(
        client.start_step(StartEvent::RouterProbed(true)),
        StartAction::ProbeLocalRouter
    ));
    match client.start_step(StartEvent::RouterProbed(true)) {
        StartAction::OpenSession { sam_tcp, sam_udp, .. } => {
            assert_eq!(sam_tcp, "127.0.0.1:7656");
            assert_eq!(sam_udp, "127.0.0.1:7655");
        }
        other => panic!("expected to open a session, got {:?}", other),
    }
    let (started, _) = finished(client.start_step(StartEvent::SessionOpened(Err(
        "connection refused".to_string(),
    ))));
    assert!(!started);
    assert_eq!(client.status(), Status::Error);
}

#[test]
fn persisted_destination_is_written_then_reused() {
    let cfg = config(&[("ra.i2p.mode", "local"), ("ra.i2p.dataDir", "/data/")]);
    let mut client = I2pClient::from_config(&cfg);
    start_local_until_open(&mut client);
    let a = client.start_step(StartEvent::SessionOpened(Ok((
        "FULLdest~AAAA".to_string(),
        "shortAAAA".to_string(),
    ))));
    let (started, persist) = finished(a);
    assert!(started);
    let (path, dest) = persist.unwrap();
    assert_eq!(path, "/data/i2p/dest.b64");
    assert_eq!(dest, "FULLdest~AAAA");

    // The next start reads the same file and reuses what was written.
    let mut next = I2pClient::from_config(&cfg);
    match start_local_until_open(&mut next) {
        StartAction::ReadDestination { path: read } => assert_eq!(read, path),
        other => panic!("expected to read the destination, got {:?}", other),
    }
    match next.start_step(StartEvent::DestinationRead(Some(format!("{}\n", dest)))) {
        StartAction::OpenSession { destination, .. } => assert_eq!(destination, dest),
        other => panic!("expected to open a session, got {:?}", other),
    }
}

#[test]
fn transient_and_empty_destinations_are_not_persisted() {
    let cfg = config(&[("ra.i2p.dataDir", "d")]);
    let client = I2pClient::from_config(&cfg);
    assert!(client.persist_dest("TRANSIENT").is_none());
    assert!(client.persist_dest("").is_none());
    assert_eq!(client.persist_dest("xyz").unwrap(), "d/i2p/dest.b64");
    assert!(I2pClient::new().persist_dest("xyz").is_none());
}

#[test]
fn reuse_or_transient_trims_and_falls_back() {
    assert_eq!(reuse_or_transient(Some("  abc~DEF \n")), "abc~DEF");
    assert_eq!(reuse_or_transient(Some(" \t\n")), "TRANSIENT");
    assert_eq!(reuse_or_transient(Some("")), "TRANSIENT");
    assert_eq!(reuse_or_transient(None), "TRANSIENT");
}

#[test]
fn paths_join_as_pathbuf_does() {
    assert_eq!(join_path("a", "b"), "a/b");
    assert_eq!(join_path("a/", "b"), "a/b");
    assert_eq!(join_path("", "b"), "b");
    assert_eq!(join_path(".", "emissary"), "./emissary");
}

#[test]
fn send_prefers_the_destination_header_over_to() {
    let cfg = config(&[("ra.i2p.mode", "local"), ("ra.i2p.nickname", "nick")]);
    let mut client = I2pClient::from_config(&cfg);
    start_local_until_open(&mut client);
    client.start_step(StartEvent::SessionOpened(Ok(("F".to_string(), "S".to_string()))));

    let mut env = Envelope::new("toDest", vec![1, 2, 3]);
    env.headers.insert("destination".to_string(), "hdrDest".to_string());
    let packet = client.outbound_datagram(&mut env).unwrap();
    let mut expected = b"3.3 nick hdrDest\n".to_vec();
    expected.extend_from_slice(&[1, 2, 3]);
    assert_eq!(packet, expected);

    let mut env = Envelope::new("toDest", vec![]);
    env.headers.insert("destination".to_string(), "".to_string());
    let packet = client.outbound_datagram(&mut env).unwrap();
    assert_eq!(packet, b"3.3 nick toDest\n".to_vec());

    let mut env = Envelope::new("", vec![9]);
    assert!(client.outbound_datagram(&mut env).is_none());
    assert_eq!(env.headers.get("error").unwrap(), "no I2P destination");

    let mut env = Envelope::new("x", vec![9]);
    assert!(!I2pClient::send_outcome(&mut env, Err("network unreachable".to_string())));
    assert_eq!(env.headers.get("error").unwrap(), "network unreachable");
    assert_eq!(env.payload, vec![9]);
}

#[test]
fn send_without_a_session_records_why() {
    let client = I2pClient::new();
    let mut env = Envelope::new("someDest", b"hi".to_vec());
    assert!(client.outbound_datagram(&mut env).is_none());
    assert_eq!(env.headers.get("error").unwrap(), "I2P session not started");
    assert_eq!(env.to, "someDest");
}

#[test]
fn stop_drops_the_session() {
    let cfg = config(&[("ra.i2p.mode", "local")]);
    let mut client = I2pClient::from_config(&cfg);
    start_local_until_open(&mut client);
    client.start_step(StartEvent::SessionOpened(Ok(("F".to_string(), "S".to_string()))));
    assert_eq!(client.local_destination(), "S");
    assert!(client.stop());
    assert_eq!(client.status(), Status::Disconnected);
    assert_eq!(client.local_destination(), "");
}

#[test]
fn a_failed_restart_keeps_the_open_session() {
    let cfg = config(&[("ra.i2p.mode", "local")]);
    let mut client = I2pClient::from_config(&cfg);
    start_local_until_open(&mut client);
    client.start_step(StartEvent::SessionOpened(Ok(("F".to_string(), "S".to_string()))));
    start_local_until_open(&mut client);
    let (started, _) = finished(client.start_step(StartEvent::SessionOpened(Err("x".to_string()))));
    assert!(!started);
    assert_eq!(client.status(), Status::Error);
    assert_eq!(client.local_destination(), "S");
}

#[test]
fn effective_mode_resolves_auto_only() {
    let client = I2pClient::new();
    assert_eq!(client.effective_mode(true), Mode::Local);
    assert_eq!(client.effective_mode(false), Mode::Embedded);
    let local = I2pClient::from_config(&config(&[("ra.i2p.mode", "local")]));
    assert_eq!(local.effective_mode(false), Mode::Local);
}

/// An `auto` client with a session open on the local router.
fn auto_client_on_local() -> I2pClient {
    let mut client = I2pClient::new();
    client.start_begin();
    client.start_step(StartEvent::RouterProbed(true));
    client.start_step(StartEvent::RouterProbed(true));
    let (started, _) = finished(client.start_step(StartEvent::SessionOpened(Ok((
        "FULL~dest".to_string(),
        "shortL".to_string(),
    )))));
    assert!(started);
    client
}

fn open_session(a: SendAction) -> (String, String, String) {
    match a {
        SendAction::OpenSession { sam_tcp, sam_udp, destination, .. } => (sam_tcp, sam_udp, destination),
        other => panic!("expected to open a session, got {:?}", other),
    }
}

#[test]
fn auto_mode_moves_to_the_embedded_router_when_the_local_bridge_goes() {
    let mut client = auto_client_on_local();
    assert!(matches!(client.send_begin(1_000_000), SendAction::ProbeLocalRouter));
    match client.send_step(StartEvent::RouterProbed(false)) {
        SendAction::StartEmbeddedRouter { base_dir } => assert_eq!(base_dir, "./emissary"),
        other => panic!("expected the embedded router, got {:?}", other),
    }
    let a = client.send_step(StartEvent::EmbeddedStarted(Ok((
        "127.0.0.1:5001".to_string(),
        "127.0.0.1:5002".to_string(),
    ))));
    let (tcp, udp, dest) = open_session(a);
    assert_eq!(tcp, "127.0.0.1:5001");
    assert_eq!(udp, "127.0.0.1:5002");
    assert_eq!(dest, "FULL~dest");
    let a = client.send_step(StartEvent::SessionOpened(Ok((
        "FULL~dest".to_string(),
        "shortE".to_string(),
    ))));
    assert!(matches!(a, SendAction::Proceed { replaced: true }));
    assert_eq!(client.status(), Status::Connected);
    assert_eq!(client.local_destination(), "shortE");
}

#[test]
fn auto_mode_reprobes_at_most_once_per_interval() {
    let mut client = auto_client_on_local();
    let t0 = 5_000_000u64;
    assert!(matches!(client.send_begin(t0), SendAction::ProbeLocalRouter));
    // The local bridge is still there: nothing to switch.
    assert!(matches!(
        client.send_step(StartEvent::RouterProbed(true)),
        SendAction::Proceed { replaced: false }
    ));
    assert!(matches!(client.send_begin(t0 + 1), SendAction::Proceed { replaced: false }));
    assert!(matches!(
        client.send_begin(t0 + LOCAL_REPROBE_INTERVAL_MS - 1),
        SendAction::Proceed { replaced: false }
    ));
    assert!(matches!(client.send_begin(t0 + LOCAL_REPROBE_INTERVAL_MS), SendAction::ProbeLocalRouter));
}

#[test]
fn auto_mode_moves_back_and_keeps_the_session_when_that_fails() {
    let mut client = auto_client_on_local();
    client.send_begin(0);
    client.send_step(StartEvent::RouterProbed(false));
    client.send_step(StartEvent::EmbeddedStarted(Ok(("e:1".to_string(), "e:2".to_string()))));
    client.send_step(StartEvent::SessionOpened(Ok(("FULL~dest".to_string(), "shortE".to_string()))));

    // The local bridge is back: the session moves to it, and the move fails.
    assert!(matches!(client.send_begin(LOCAL_REPROBE_INTERVAL_MS), SendAction::ProbeLocalRouter));
    let (tcp, udp, dest) = open_session(client.send_step(StartEvent::RouterProbed(true)));
    assert_eq!(tcp, "127.0.0.1:7656");
    assert_eq!(udp, DEFAULT_SAM_UDP);
    assert_eq!(dest, "FULL~dest");
    let a = client.send_step(StartEvent::SessionOpened(Err("refused".to_string())));
    assert!(matches!(a, SendAction::Proceed { replaced: false }));
    assert_eq!(client.status(), Status::Connected);
    assert_eq!(client.local_destination(), "shortE");

    // Still on the embedded router; the next move back succeeds.
    assert!(matches!(client.send_begin(2 * LOCAL_REPROBE_INTERVAL_MS), SendAction::ProbeLocalRouter));
    open_session(client.send_step(StartEvent::RouterProbed(true)));
    let a = client.send_step(StartEvent::SessionOpened(Ok(("FULL~dest".to_string(), "shortL2".to_string()))));
    assert!(matches!(a, SendAction::Proceed { replaced: true }));
    assert_eq!(client.local_destination(), "shortL2");

    // Losing the local bridge again reuses the embedded router that runs.
    client.send_begin(3 * LOCAL_REPROBE_INTERVAL_MS);
    let (tcp, udp, _) = open_session(client.send_step(StartEvent::RouterProbed(false)));
    assert_eq!(tcp, "e:1");
    assert_eq!(udp, "e:2");
}

#[test]
fn an_embedded_start_reuses_the_running_router() {
    let cfg = config(&[("ra.i2p.mode", "embedded")]);
    let mut client = I2pClient::from_config(&cfg);
    assert!(matches!(client.start_begin(), StartAction::StartEmbeddedRouter { .. }));
    client.start_step(StartEvent::EmbeddedStarted(Ok(("e:1".to_string(), "e:2".to_string()))));
    client.start_step(StartEvent::SessionOpened(Ok(("F".to_string(), "S".to_string()))));
    // A second start asks for no second router.
    match client.start_begin() {
        StartAction::OpenSession { sam_tcp, sam_udp, .. } => {
            assert_eq!(sam_tcp, "e:1");
            assert_eq!(sam_udp, "e:2");
        }
        other => panic!("expected to open a session, got {:?}", other),
    }
    // Stopping drops the router; the next start starts one again.
    client.stop();
    assert!(matches!(client.start_begin(), StartAction::StartEmbeddedRouter { .. }));
}

#[test]
fn only_auto_mode_with_a_session_reprobes() {
    let cfg = config(&[("ra.i2p.mode", "local")]);
    let mut client = I2pClient::from_config(&cfg);
    start_local_until_open(&mut client);
    client.start_step(StartEvent::SessionOpened(Ok(("F".to_string(), "S".to_string()))));
    assert!(matches!(client.send_begin(0), SendAction::Proceed { replaced: false }));
    let mut fresh = I2pClient::new();
    assert!(matches!(fresh.send_begin(0), SendAction::Proceed { replaced: false }));
    assert!(!fresh.switch_awaits(&StartEvent::RouterProbed(true)));
}
