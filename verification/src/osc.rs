//! Decoding and canonical re-encoding of OSC datagrams.
//!
//! The engine never interprets a packet's arguments: all it reads of a
//! datagram is whether it decodes, whether it is a single message or a
//! bundle, the message's address, and the packet's canonical byte form
//! (the re-encoding that strips transport-layer NUL padding some
//! downstream OSC libraries mis-handle).

use vstd::prelude::*;

verus! {

/// What one datagram decodes to, reduced to the facts the engine reads.
#[derive(Debug)]
pub enum OscDecoded {
    /// The bytes are not a valid OSC packet.
    Invalid,
    /// A single message: its address, and the packet's canonical byte form.
    Message { addr: String, canonical: Vec<u8> },
    /// A bundle. Address matching does not apply to bundles.
    Bundle { canonical: Vec<u8> },
}

/// The mathematical image of a decode outcome.
pub enum OscModel {
    Invalid,
    Message { addr: Seq<char>, canonical: Seq<u8> },
    Bundle { canonical: Seq<u8> },
}

/// Whether the bytes decode as an OSC packet.
pub uninterp spec fn osc_decode_ok(b: Seq<u8>) -> bool;

/// The decoded packet's message address, or `None` when it is a bundle.
/// Meaningful only when the bytes decode.
pub uninterp spec fn osc_message_addr(b: Seq<u8>) -> Option<Seq<char>>;

/// The canonical byte form of the decoded packet: what re-encoding it
/// produces. Meaningful only when the bytes decode.
pub uninterp spec fn osc_canonical(b: Seq<u8>) -> Seq<u8>;

/// What decoding the bytes `b` yields.
pub open spec fn osc_model(b: Seq<u8>) -> OscModel {
    if !osc_decode_ok(b) {
        OscModel::Invalid
    } else {
        match osc_message_addr(b) {
            Some(a) => OscModel::Message { addr: a, canonical: osc_canonical(b) },
            None => OscModel::Bundle { canonical: osc_canonical(b) },
        }
    }
}

/// The image of a concrete decode value.
pub open spec fn decoded_model(d: OscDecoded) -> OscModel {
    match d {
        OscDecoded::Invalid => OscModel::Invalid,
        OscDecoded::Message { addr, canonical } => OscModel::Message {
            addr: addr@,
            canonical: canonical@,
        },
        OscDecoded::Bundle { canonical } => OscModel::Bundle { canonical: canonical@ },
    }
}

/// Relies on `rosc::decoder::decode_udp` and `rosc::encoder::encode`:
/// decoding depends on the bytes alone; re-encoding the decoded packet
/// yields its canonical byte form, and encoding into a `Vec` cannot fail.
#[verifier::external_body]
pub fn decode_datagram(buf: &[u8]) -> (r: OscDecoded)
    ensures
        decoded_model(r) == osc_model(buf@),
        r is Invalid <==> !osc_decode_ok(buf@),
        r matches OscDecoded::Message { addr, canonical } ==> osc_message_addr(buf@) == Some(addr@)
            && canonical@ == osc_canonical(buf@),
        r matches OscDecoded::Bundle { canonical } ==> osc_message_addr(buf@) is None
            && canonical@ == osc_canonical(buf@),
{
    match rosc::decoder::decode_udp(buf) {
        Err(_) => OscDecoded::Invalid,
        Ok((_rest, pkt)) => {
            let canonical = rosc::encoder::encode(&pkt).unwrap_or_default();
            match pkt {
                rosc::OscPacket::Message(msg) => OscDecoded::Message { addr: msg.addr, canonical },
                rosc::OscPacket::Bundle(_) => OscDecoded::Bundle { canonical },
            }
        },
    }
}

} // verus!
