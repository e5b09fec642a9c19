//! The packet filter: decides, for each incoming datagram, whether it is
//! published to the routes and in what byte form.
//!
//! The decision table, evaluated against the decoded form of the datagram:
//! with the filter disabled everything passes as raw bytes. With a
//! whitelist, a message passes only if its address is listed; with a
//! blacklist, only if its address is not; bundles count as "no address
//! match" (a whitelist drops them, a blacklist lets them pass). Datagrams
//! that do not decode pass as raw bytes unless `filter_bad_packets` is
//! set. Whatever passes in decoded form is re-published canonically
//! re-encoded.

use vstd::prelude::*;

use crate::osc::OscDecoded;
use crate::osc::OscModel;
use crate::osc::decode_datagram;
use crate::osc::decoded_model;
use crate::osc::osc_model;

verus! {

/// Filter configuration. `address_wl` and `address_bl` are ordered lists of
/// OSC addresses; only the string of each pair is significant (the boolean
/// is an editing flag of the configuration surface). At most one of
/// `wl_enabled` and `bl_enabled` is set by the configuration surface.
#[derive(Clone)]
pub struct PacketFilter {
    pub enabled: bool,
    pub filter_bad_packets: bool,
    pub wl_enabled: bool,
    pub address_wl: Vec<(String, bool)>,
    pub bl_enabled: bool,
    pub address_bl: Vec<(String, bool)>,
}

/// The filter's verdict on one datagram: publish these bytes, or drop it.
pub enum FilterVerdict {
    Allowed(Vec<u8>),
    Dropped,
}

/// Whether the address `a` occurs in the list `l`.
pub open spec fn spec_list_contains(l: Seq<(String, bool)>, a: Seq<char>) -> bool {
    exists|i: int| 0 <= i < l.len() && l[i].0@ == a
}

/// Whether a datagram that decodes to `m` passes the filter `pf`.
pub open spec fn spec_filter_allows(pf: PacketFilter, m: OscModel) -> bool {
    if !pf.enabled {
        true
    } else if pf.wl_enabled {
        match m {
            OscModel::Invalid => !pf.filter_bad_packets,
            OscModel::Message { addr, .. } => spec_list_contains(pf.address_wl@, addr),
            OscModel::Bundle { .. } => false,
        }
    } else if pf.bl_enabled {
        match m {
            OscModel::Invalid => !pf.filter_bad_packets,
            OscModel::Message { addr, .. } => !spec_list_contains(pf.address_bl@, addr),
            OscModel::Bundle { .. } => true,
        }
    } else {
        match m {
            OscModel::Invalid => !pf.filter_bad_packets,
            _ => true,
        }
    }
}

/// The bytes published for an allowed datagram: its canonical form when it
/// decoded, and the raw bytes `raw` when it did not (or when the filter is
/// disabled and never looked).
pub open spec fn spec_filter_payload(pf: PacketFilter, m: OscModel, raw: Seq<u8>) -> Seq<u8> {
    if !pf.enabled {
        raw
    } else {
        match m {
            OscModel::Invalid => raw,
            OscModel::Message { canonical, .. } => canonical,
            OscModel::Bundle { canonical } => canonical,
        }
    }
}

/// A byte-for-byte copy of `v`.
fn clone_bytes(v: &Vec<u8>) -> (r: Vec<u8>)
    ensures
        r@ == v@,
{
    let r = v.clone();
    proof {
        assert(r@ =~= v@);
    }
    r
}

/// Whether the address `a` occurs in the list `l`.
pub fn list_contains(l: &Vec<(String, bool)>, a: &String) -> (r: bool)
    ensures
        r == spec_list_contains(l@, a@),
{
    let mut i: usize = 0;
    while i < l.len()
        invariant
            i <= l@.len(),
            forall|j: int| 0 <= j < i ==> l@[j].0@ != a@,
        decreases l@.len() - i,
    {
        if l[i].0 == *a {
            return true;
        }
        i = i + 1;
    }
    false
}

/// Applies the decision table to an already-decoded datagram. `raw` is the
/// datagram as received, used when the raw bytes are what passes.
pub fn filter_decision(pf: &PacketFilter, decoded: &OscDecoded, raw: &Vec<u8>) -> (r: FilterVerdict)
    ensures
        r is Allowed <==> spec_filter_allows(*pf, decoded_model(*decoded)),
        r matches FilterVerdict::Allowed(p) ==> p@ == spec_filter_payload(
            *pf,
            decoded_model(*decoded),
            raw@,
        ),
{
    if !pf.enabled {
        return FilterVerdict::Allowed(clone_bytes(raw));
    }
    match decoded {
        OscDecoded::Invalid => {
            if pf.filter_bad_packets {
                FilterVerdict::Dropped
            } else {
                FilterVerdict::Allowed(clone_bytes(raw))
            }
        },
        OscDecoded::Message { addr, canonical } => {
            if pf.wl_enabled {
                if list_contains(&pf.address_wl, addr) {
                    FilterVerdict::Allowed(clone_bytes(canonical))
                } else {
                    FilterVerdict::Dropped
                }
            } else if pf.bl_enabled {
                if list_contains(&pf.address_bl, addr) {
                    FilterVerdict::Dropped
                } else {
                    FilterVerdict::Allowed(clone_bytes(canonical))
                }
            } else {
                FilterVerdict::Allowed(clone_bytes(canonical))
            }
        },
        OscDecoded::Bundle { canonical } => {
            if pf.wl_enabled {
                FilterVerdict::Dropped
            } else {
                FilterVerdict::Allowed(clone_bytes(canonical))
            }
        },
    }
}

/// One evaluated datagram: the verdict, and the decode outcome (what a
/// debug record carries).
pub struct FilterOutcome {
    pub verdict: FilterVerdict,
    pub decoded: OscDecoded,
}

/// Evaluates one datagram: decodes it and applies the decision table.
pub fn packet_filter(pf: &PacketFilter, buf: &Vec<u8>) -> (r: FilterOutcome)
    ensures
        decoded_model(r.decoded) == osc_model(buf@),
        r.verdict is Allowed <==> spec_filter_allows(*pf, osc_model(buf@)),
        r.verdict matches FilterVerdict::Allowed(p) ==> p@ == spec_filter_payload(
            *pf,
            osc_model(buf@),
            buf@,
        ),
{
    let decoded = decode_datagram(buf.as_slice());
    let verdict = filter_decision(pf, &decoded, buf);
    FilterOutcome { verdict, decoded }
}

/// With the filter enabled, no list mode selected and malformed traffic
/// admitted, the filter is the identity over packets: everything passes,
/// decoded packets in canonical form and undecodable bytes unchanged.
pub proof fn lemma_filter_none_mode_identity(pf: PacketFilter, m: OscModel, raw: Seq<u8>)
    requires
        pf.enabled,
        !pf.wl_enabled,
        !pf.bl_enabled,
        !pf.filter_bad_packets,
    ensures
        spec_filter_allows(pf, m),
        (m matches OscModel::Message { canonical, .. } ==> spec_filter_payload(pf, m, raw)
            == canonical),
        (m matches OscModel::Bundle { canonical } ==> spec_filter_payload(pf, m, raw) == canonical),
        m is Invalid ==> spec_filter_payload(pf, m, raw) == raw,
{
}

/// Under a whitelist, a message is forwarded exactly when its address is
/// listed; bundles and unlisted messages are dropped.
pub proof fn lemma_filter_whitelist(pf: PacketFilter, addr: Seq<char>, canonical: Seq<u8>)
    requires
        pf.enabled,
        pf.wl_enabled,
    ensures
        spec_filter_allows(pf, OscModel::Message { addr, canonical }) <==> spec_list_contains(
            pf.address_wl@,
            addr,
        ),
        !spec_filter_allows(pf, OscModel::Bundle { canonical }),
{
}

/// Under a blacklist, a message is dropped exactly when its address is
/// listed; bundles pass.
pub proof fn lemma_filter_blacklist(pf: PacketFilter, addr: Seq<char>, canonical: Seq<u8>)
    requires
        pf.enabled,
        !pf.wl_enabled,
        pf.bl_enabled,
    ensures
        !spec_filter_allows(pf, OscModel::Message { addr, canonical }) <==> spec_list_contains(
            pf.address_bl@,
            addr,
        ),
        spec_filter_allows(pf, OscModel::Bundle { canonical }),
{
}

} // verus!
