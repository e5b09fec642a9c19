//! The debug tap: a bounded, newest-first trace of inbound filter decisions
//! and outbound sends, kept for an observer. Producers must never block on
//! it; the observer drains its channel in batches and maintains the ring.

use vstd::prelude::*;

use crate::osc::OscDecoded;

verus! {

/// The most records the observer's ring keeps.
pub const DEBUG_RING_CAPACITY: usize = 8192;

/// The most records the observer drains from the channel per poll.
pub const DEBUG_DRAIN_BATCH: usize = 256;

/// The decision recorded for an inbound datagram.
#[derive(Debug, Clone)]
pub enum IncomingDebugMode {
    ALLOWED,
    DROPPED,
}

impl IncomingDebugMode {
    /// Whether this record's datagram passed the filter.
    pub fn is_allowed(&self) -> (r: bool)
        ensures
            r == (self is ALLOWED),
    {
        if let Self::ALLOWED = self {
            true
        } else {
            false
        }
    }

    /// Whether this record's datagram was dropped by the filter.
    pub fn is_dropped(&self) -> (r: bool)
        ensures
            r == (self is DROPPED),
    {
        if let Self::DROPPED = self {
            true
        } else {
            false
        }
    }
}

/// How outbound sends are recorded (all of them).
#[derive(Debug, Clone)]
pub enum OutgoingDebugMode {
    ALL,
}

/// What the observer records of each kind of traffic.
#[derive(Debug, Clone)]
pub struct VORDebugOptions {
    pub inc_dbg_mode: IncomingDebugMode,
    pub route_dbg_mode: OutgoingDebugMode,
}

/// What the observer's surface shows of the ring.
pub struct VORUIOptions {
    pub show_incoming: bool,
    pub show_outgoing: bool,
    pub show_dropped: bool,
    pub show_allowed: bool,
    pub search_query: String,
}

impl Default for VORUIOptions {
    /// Everything shown, nothing searched for.
    fn default() -> (r: Self)
        ensures
            r.show_incoming,
            r.show_outgoing,
            r.show_dropped,
            r.show_allowed,
            r.search_query@ == Seq::<char>::empty(),
    {
        VORUIOptions {
            show_incoming: true,
            show_outgoing: true,
            show_dropped: true,
            show_allowed: true,
            search_query: String::new(),
        }
    }
}

/// One inbound datagram as the filter saw it: the raw bytes, the decode
/// outcome when decoding succeeded, the decision, and where it came from.
#[derive(Debug)]
pub struct IPacket {
    pub packet_buffer: Vec<u8>,
    pub osc_packet: Option<OscDecoded>,
    pub mode: IncomingDebugMode,
    pub from_address: String,
}

/// One outbound send: the bytes, the decode outcome when one was available,
/// the route's name and its destination.
#[derive(Debug)]
pub struct OPacket {
    pub packet_buffer: Vec<u8>,
    pub osc_packet: Option<OscDecoded>,
    pub route: String,
    pub to_address: String,
}

/// One record of the debug trace.
#[derive(Debug)]
pub enum DebugPacket {
    INCOMING(IPacket),
    OUTGOING(OPacket),
}

/// The observer's state: the ring of records (newest first) and the
/// observer's settings.
pub struct VORDebug {
    pub debug_enabled: bool,
    pub vor_dbg_packets: Vec<DebugPacket>,
    pub options: VORDebugOptions,
    pub ui_opts: VORUIOptions,
}

impl VORDebug {
    /// A fresh observer: empty ring, debugging off, defaults everywhere.
    pub fn new() -> (r: Self)
        ensures
            !r.debug_enabled,
            r.vor_dbg_packets@ == Seq::<DebugPacket>::empty(),
            r.options.inc_dbg_mode is ALLOWED,
            r.options.route_dbg_mode is ALL,
            r.ui_opts.show_incoming,
            r.ui_opts.show_outgoing,
            r.ui_opts.show_dropped,
            r.ui_opts.show_allowed,
    {
        VORDebug {
            debug_enabled: false,
            vor_dbg_packets: Vec::new(),
            options: VORDebugOptions {
                inc_dbg_mode: IncomingDebugMode::ALLOWED,
                route_dbg_mode: OutgoingDebugMode::ALL,
            },
            ui_opts: VORUIOptions::default(),
        }
    }

    /// Puts one drained record at the front of the ring and drops the
    /// oldest records beyond the ring's capacity.
    pub fn insert_record(&mut self, pkt: DebugPacket)
        ensures
            final(self).vor_dbg_packets@ == (seq![pkt] + old(self).vor_dbg_packets@).take(
                if old(self).vor_dbg_packets@.len() + 1 <= DEBUG_RING_CAPACITY {
                    old(self).vor_dbg_packets@.len() as int + 1
                } else {
                    DEBUG_RING_CAPACITY as int
                },
            ),
            final(self).debug_enabled == old(self).debug_enabled,
            final(self).options == old(self).options,
            final(self).ui_opts == old(self).ui_opts,
    {
        let ghost full = seq![pkt] + self.vor_dbg_packets@;
        self.vor_dbg_packets.insert(0, pkt);
        proof {
            assert(self.vor_dbg_packets@ =~= full);
        }
        self.vor_dbg_packets.truncate(DEBUG_RING_CAPACITY);
        proof {
            if full.len() <= DEBUG_RING_CAPACITY {
                assert(self.vor_dbg_packets@ =~= full.take(full.len() as int));
            } else {
                assert(self.vor_dbg_packets@ =~= full.take(DEBUG_RING_CAPACITY as int));
            }
        }
    }
}

} // verus!
