use vor_router::config::VORAppStatus;
use vor_router::config::VORConfig;
use vor_router::config::VORConfigWrapper;
use vor_router::config::AppConfigState;
use vor_router::pf::PacketFilter;
use vor_router::routing::IngressEvent;
use vor_router::routing::RouteAction;
use vor_router::routing::RouteEvent;
use vor_router::routing::RouteWorker;
use vor_router::routing::RouterMsg;
use vor_router::routing::StartPlan;
use vor_router::routing::Supervisor;
use vor_router::routing::enabled_routes;
use vor_router::routing::ingress_step;
use vor_router::routing::parse_vor_buffer_size;
use vor_router::routing::plan_start;

fn wrapper(name: &str, status: VORAppStatus) -> (VORConfigWrapper, VORAppStatus, AppConfigState) {
    (
        VORConfigWrapper {
            config_data: VORConfig {
                app_port: "9100".to_string(),
                app_host: "127.0.0.1".to_string(),
                app_name: name.to_string(),
            },
            config_path: format!("/tmp/{}.json", name),
        },
        status,
        AppConfigState::SAVED,
    )
}

fn open_filter() -> PacketFilter {
    PacketFilter {
        enabled: false,
        filter_bad_packets: false,
        wl_enabled: false,
        address_wl: vec![],
        bl_enabled: false,
        address_bl: vec![],
    }
}

#[test]
fn route_lifecycle_runs_and_stops() {
    let mut w = RouteWorker::new(0);
    let (st, act) = w.step(RouteEvent::BindOk);
    let st = st.expect("bind must report Running");
    assert_eq!(st.index, 0);
    assert!(matches!(st.status, VORAppStatus::Running));
    assert!(matches!(act, RouteAction::Continue));

    let payload = vec![1u8, 2, 3];
    let (st, act) = w.step(RouteEvent::BusMessage(payload.clone()));
    assert!(st.is_none());
    match act {
        RouteAction::Send(b) => assert_eq!(b, payload),
        _ => panic!("a received buffer must be sent"),
    }

    let (st, act) = w.step(RouteEvent::SendFailed("unreachable".to_string()));
    let st = st.expect("send failure must report an error");
    assert_eq!(st.index, 0);
    match st.status {
        VORAppStatus::AppError(e) => {
            assert_eq!(e.id, -3);
            assert_eq!(e.msg, "unreachable");
        }
        _ => panic!("expected an error status"),
    }
    assert!(matches!(act, RouteAction::Continue));

    let (st, act) = w.step(RouteEvent::ShutdownSignal(true));
    let st = st.expect("shutdown must report Stopped");
    assert!(matches!(st.status, VORAppStatus::Stopped));
    assert!(matches!(act, RouteAction::Exit));
}

#[test]
fn route_ignores_false_shutdown_signal() {
    let mut w = RouteWorker::new(2);
    let _ = w.step(RouteEvent::BindOk);
    let (st, act) = w.step(RouteEvent::ShutdownSignal(false));
    assert!(st.is_none());
    assert!(matches!(act, RouteAction::Continue));
}

#[test]
fn route_stops_when_bus_closes() {
    let mut w = RouteWorker::new(1);
    let _ = w.step(RouteEvent::BindOk);
    let (st, act) = w.step(RouteEvent::BusClosed);
    let st = st.expect("closed bus must report Stopped");
    assert_eq!(st.index, 1);
    assert!(matches!(st.status, VORAppStatus::Stopped));
    assert!(matches!(act, RouteAction::Exit));
}

#[test]
fn route_bind_failure_exits_with_error() {
    let mut w = RouteWorker::new(3);
    let (st, act) = w.step(RouteEvent::BindFailed("in use".to_string()));
    let st = st.expect("bind failure must report an error");
    assert_eq!(st.index, 3);
    match st.status {
        VORAppStatus::AppError(e) => assert_eq!(e.id, -2),
        _ => panic!("expected an error status"),
    }
    assert!(matches!(act, RouteAction::Exit));
}

#[test]
fn route_skips_lag_gap_without_status_change() {
    let mut w = RouteWorker::new(0);
    let _ = w.step(RouteEvent::BindOk);
    let (st, act) = w.step(RouteEvent::BusLagged(5));
    assert!(st.is_none());
    assert!(matches!(act, RouteAction::Continue));
    let (st, act) = w.step(RouteEvent::BusEmpty);
    assert!(st.is_none());
    assert!(matches!(act, RouteAction::Continue));
}

#[test]
fn shutdown_all_is_idempotent() {
    let mut s = Supervisor::new(4, true);
    let first = s.handle(RouterMsg::ShutdownAll);
    assert!(first.signal_ingress);
    assert_eq!(first.signal_routes, 4);
    assert!(first.abort_tasks);
    assert!(s.shut_down);

    let second = s.handle(RouterMsg::ShutdownAll);
    assert!(!second.signal_ingress);
    assert_eq!(second.signal_routes, 0);
    assert!(!second.abort_tasks);
    assert!(s.shut_down);
}

#[test]
fn dedicated_mode_shutdown_does_not_abort_tasks() {
    let mut s = Supervisor::new(2, false);
    let plan = s.handle(RouterMsg::ShutdownAll);
    assert!(plan.signal_ingress);
    assert_eq!(plan.signal_routes, 2);
    assert!(!plan.abort_tasks);
}

#[test]
fn enabled_routes_index_by_enabled_position() {
    let configs = vec![
        wrapper("a", VORAppStatus::Stopped),
        wrapper("b", VORAppStatus::Disabled),
        wrapper("c", VORAppStatus::Stopped),
    ];
    let routes = enabled_routes(configs);
    assert_eq!(routes.len(), 2);
    assert_eq!(routes[0].0.app_name, "a");
    assert_eq!(routes[0].1, 0);
    assert_eq!(routes[1].0.app_name, "c");
    assert_eq!(routes[1].1, 1);
}

#[test]
fn zero_enabled_routes_spawn_nothing() {
    let configs = vec![
        wrapper("a", VORAppStatus::Disabled),
        wrapper("b", VORAppStatus::Disabled),
    ];
    match plan_start(true, configs) {
        StartPlan::Spawn(routes) => assert!(routes.is_empty()),
        StartPlan::BindFailed(_) => panic!("bind succeeded"),
    }
}

#[test]
fn bind_conflict_reports_sentinel_and_spawns_nothing() {
    let configs = vec![wrapper("a", VORAppStatus::Stopped)];
    match plan_start(false, configs) {
        StartPlan::BindFailed(id) => {
            assert_eq!(id.index, -1);
            match id.status {
                VORAppStatus::AppError(e) => assert_eq!(e.id, -1),
                _ => panic!("expected an engine-level error"),
            }
        }
        StartPlan::Spawn(_) => panic!("a failed bind must not spawn workers"),
    }
}

#[test]
fn buffer_size_rejects_zero_and_junk() {
    assert_eq!(parse_vor_buffer_size(&"4096".to_string()), Some(4096));
    assert_eq!(parse_vor_buffer_size(&"1".to_string()), Some(1));
    assert_eq!(parse_vor_buffer_size(&"0".to_string()), None);
    assert_eq!(parse_vor_buffer_size(&"".to_string()), None);
    assert_eq!(parse_vor_buffer_size(&"many".to_string()), None);
}

#[test]
fn ingress_publishes_filtered_datagram_and_honors_shutdown() {
    let pf = open_filter();
    let buf = vec![9u8; 12];
    let step = ingress_step(&pf, IngressEvent::Datagram(buf.clone()), None);
    assert_eq!(step.publish, Some(buf));
    assert!(!step.exit);

    let step = ingress_step(&pf, IngressEvent::RecvFailed, Some(true));
    assert!(step.publish.is_none());
    assert!(step.exit);

    let step = ingress_step(&pf, IngressEvent::Datagram(vec![]), Some(false));
    assert!(step.publish.is_none());
    assert!(!step.exit);
}

#[test]
fn capacity_one_bus_lags_slow_subscriber() {
    // A queue of capacity 1 with an outstanding packet reports a lag when a
    // second is published; the route skips the gap and keeps running.
    let (tx, mut rx) = tokio::sync::broadcast::channel::<Vec<u8>>(1);
    tx.send(vec![1u8]).unwrap();
    tx.send(vec![2u8]).unwrap();
    let missed = match rx.try_recv() {
        Err(tokio::sync::broadcast::error::TryRecvError::Lagged(n)) => n,
        other => panic!("expected a lag, got {:?}", other),
    };
    assert!(missed >= 1);

    let mut w = RouteWorker::new(0);
    let _ = w.step(RouteEvent::BindOk);
    let (st, act) = w.step(RouteEvent::BusLagged(missed));
    assert!(st.is_none());
    assert!(matches!(act, RouteAction::Continue));
}

#[test]
fn one_publish_fans_out_to_every_subscriber() {
    // Two routes subscribed before the publish each observe the datagram.
    let (tx, mut rx_a) = tokio::sync::broadcast::channel::<Vec<u8>>(64);
    let mut rx_b = tx.subscribe();

    let pf = open_filter();
    let packet = rosc::encoder::encode(&rosc::OscPacket::Message(rosc::OscMessage {
        addr: "/test/ping".to_string(),
        args: vec![],
    }))
    .unwrap();
    let step = ingress_step(&pf, IngressEvent::Datagram(packet.clone()), None);
    let payload = step.publish.expect("an open filter publishes everything");
    tx.send(payload).unwrap();

    for rx in [&mut rx_a, &mut rx_b] {
        let got = rx.try_recv().expect("subscriber must see the packet");
        match rosc::decoder::decode_udp(&got).unwrap().1 {
            rosc::OscPacket::Message(m) => assert_eq!(m.addr, "/test/ping"),
            _ => panic!("expected a message"),
        }
    }
}

#[test]
fn graceful_shutdown_after_traffic() {
    // A route forwards a burst of packets and then stops cleanly on
    // ShutdownAll: it reports Stopped and leaves its loop.
    let (tx, mut rx) = tokio::sync::broadcast::channel::<Vec<u8>>(128);
    let pf = open_filter();
    for i in 0..100u8 {
        let step = ingress_step(&pf, IngressEvent::Datagram(vec![i]), None);
        tx.send(step.publish.expect("open filter publishes")).unwrap();
    }

    let mut w = RouteWorker::new(0);
    let _ = w.step(RouteEvent::BindOk);
    let mut sent = 0;
    loop {
        let event = match rx.try_recv() {
            Ok(b) => RouteEvent::BusMessage(b),
            Err(tokio::sync::broadcast::error::TryRecvError::Empty) => break,
            Err(e) => panic!("unexpected bus state: {:?}", e),
        };
        let (st, act) = w.step(event);
        assert!(st.is_none());
        match act {
            RouteAction::Send(_) => sent += 1,
            _ => panic!("each buffer must be sent"),
        }
        let (st, _act) = w.step(RouteEvent::SendOk);
        assert!(st.is_none());
    }
    assert_eq!(sent, 100);

    let mut sup = Supervisor::new(1, false);
    let plan = sup.handle(RouterMsg::ShutdownAll);
    assert_eq!(plan.signal_routes, 1);
    let (st, act) = w.step(RouteEvent::ShutdownSignal(true));
    assert!(matches!(st.unwrap().status, VORAppStatus::Stopped));
    assert!(matches!(act, RouteAction::Exit));
}

#[test]
fn subscriber_after_publish_misses_earlier_packet() {
    let (tx, _rx) = tokio::sync::broadcast::channel::<Vec<u8>>(8);
    tx.send(vec![1u8]).unwrap();
    let mut late = tx.subscribe();
    assert!(matches!(
        late.try_recv(),
        Err(tokio::sync::broadcast::error::TryRecvError::Empty)
    ));
}
