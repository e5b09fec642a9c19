use vor_router::routedbg::DEBUG_RING_CAPACITY;
use vor_router::routedbg::DebugPacket;
use vor_router::routedbg::IPacket;
use vor_router::routedbg::IncomingDebugMode;
use vor_router::routedbg::OPacket;
use vor_router::routedbg::VORDebug;

fn incoming(tag: u8, mode: IncomingDebugMode) -> DebugPacket {
    DebugPacket::INCOMING(IPacket {
        packet_buffer: vec![tag],
        osc_packet: None,
        mode,
        from_address: "127.0.0.1:9000".to_string(),
    })
}

fn outgoing(tag: u8) -> DebugPacket {
    DebugPacket::OUTGOING(OPacket {
        packet_buffer: vec![tag],
        osc_packet: None,
        route: "app".to_string(),
        to_address: "127.0.0.1:9100".to_string(),
    })
}

fn first_byte(p: &DebugPacket) -> u8 {
    match p {
        DebugPacket::INCOMING(i) => i.packet_buffer[0],
        DebugPacket::OUTGOING(o) => o.packet_buffer[0],
    }
}

#[test]
fn fresh_observer_is_empty_and_disabled() {
    let dbg = VORDebug::new();
    assert!(!dbg.debug_enabled);
    assert!(dbg.vor_dbg_packets.is_empty());
    assert!(matches!(dbg.options.inc_dbg_mode, IncomingDebugMode::ALLOWED));
    assert!(dbg.ui_opts.show_incoming && dbg.ui_opts.show_outgoing);
    assert!(dbg.ui_opts.show_dropped && dbg.ui_opts.show_allowed);
    assert!(dbg.ui_opts.search_query.is_empty());
}

#[test]
fn records_are_kept_newest_first() {
    let mut dbg = VORDebug::new();
    dbg.insert_record(incoming(1, IncomingDebugMode::ALLOWED));
    dbg.insert_record(outgoing(2));
    dbg.insert_record(incoming(3, IncomingDebugMode::DROPPED));
    assert_eq!(dbg.vor_dbg_packets.len(), 3);
    assert_eq!(first_byte(&dbg.vor_dbg_packets[0]), 3);
    assert_eq!(first_byte(&dbg.vor_dbg_packets[1]), 2);
    assert_eq!(first_byte(&dbg.vor_dbg_packets[2]), 1);
}

#[test]
fn ring_truncates_to_capacity() {
    let mut dbg = VORDebug::new();
    for i in 0..(DEBUG_RING_CAPACITY + 5) {
        dbg.insert_record(outgoing((i % 251) as u8));
    }
    assert_eq!(dbg.vor_dbg_packets.len(), DEBUG_RING_CAPACITY);
    // The newest record is at the front; the oldest five fell off the end.
    assert_eq!(
        first_byte(&dbg.vor_dbg_packets[0]),
        ((DEBUG_RING_CAPACITY + 4) % 251) as u8
    );
    assert_eq!(first_byte(&dbg.vor_dbg_packets[DEBUG_RING_CAPACITY - 1]), (5 % 251) as u8);
}

#[test]
fn incoming_mode_tags() {
    assert!(IncomingDebugMode::ALLOWED.is_allowed());
    assert!(!IncomingDebugMode::ALLOWED.is_dropped());
    assert!(IncomingDebugMode::DROPPED.is_dropped());
    assert!(!IncomingDebugMode::DROPPED.is_allowed());
}
