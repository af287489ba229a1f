//! The receiving side of the bridge: from a datagram to a command on the delivery queue, or to
//! the rejection that says why none was queued.

use crate::command::CommandView;
use crate::decoder::{decode, decode_message, Rejection, RejectionView};
use crate::message::{Arg, Message, Packet, PacketView};
use crate::queue::DeliveryQueue;
use rosc::decoder::decode_udp;
use rosc::{OscPacket, OscType};
use vstd::prelude::*;

verus! {

/// The size of the buffer that datagrams are read into. No datagram handed to the bridge is
/// longer.
pub const MAX_DATAGRAM: usize = 1536;

/// What the OSC wire decoder makes of the bytes of a datagram.
pub uninterp spec fn wire_decoding(datagram: Seq<u8>) -> PacketView;

/// Decodes a datagram with `rosc::decoder::decode_udp`.
///
/// Trusted: the packet returned is the one that `rosc` decodes from these bytes, and the same
/// bytes always give the same packet. Bytes after the packet are left aside. Integer, real and
/// text arguments are handed over as they are, a real one by its bit pattern; an argument of
/// any other kind is handed over as its `Debug` text. A decoding error is handed over as its
/// `Display` text. The bound on the length keeps the decoder's descent into nested bundles
/// shallow.
#[verifier::external_body]
fn decode_wire(datagram: &[u8]) -> (packet: Packet)
    requires
        datagram@.len() <= MAX_DATAGRAM,
    ensures
        packet@ == wire_decoding(datagram@),
{
    match decode_udp(datagram) {
        Ok((_, OscPacket::Message(m))) => Packet::Message(Message {
            addr: m.addr,
            args: m.args.into_iter().map(|arg| match arg {
                OscType::Int(n) => Arg::Int(n),
                OscType::Float(x) => Arg::Float(x.to_bits()),
                OscType::String(text) => Arg::Str(text),
                other => Arg::Other(format!("{:?}", other)),
            }).collect(),
        }),
        Ok((_, OscPacket::Bundle(_))) => Packet::Bundle,
        Err(e) => Packet::Malformed(format!("{}", e)),
    }
}

/// What a packet gives: the command of its message, or the rejection that says why there is
/// none. A bundle is never taken apart into commands.
pub open spec fn reception(packet: PacketView) -> Result<CommandView, RejectionView> {
    match packet {
        PacketView::Message(m) => decode(m),
        PacketView::Bundle => Err(RejectionView::Bundle),
        PacketView::Malformed(reason) => Err(RejectionView::Malformed { reason }),
    }
}

/// The delivery queue after a packet: one command longer where the packet gave one, and
/// unchanged where it was rejected.
pub open spec fn queue_after(
    queue: Seq<CommandView>,
    outcome: Result<CommandView, RejectionView>,
) -> Seq<CommandView> {
    match outcome {
        Ok(command) => queue.push(command),
        Err(_) => queue,
    }
}

/// Whether `r` reports `outcome`: success for a command, and for a rejection that rejection.
pub open spec fn reports(
    r: Result<(), Rejection>,
    outcome: Result<CommandView, RejectionView>,
) -> bool {
    match r {
        Ok(_) => outcome is Ok,
        Err(rejection) => outcome == Err::<CommandView, RejectionView>(rejection@),
    }
}

/// Handles one packet: queues the command that it gives, or returns the rejection and leaves
/// the queue as it was.
pub fn handle_packet(packet: Packet, queue: &mut DeliveryQueue) -> (r: Result<(), Rejection>)
    ensures
        reports(r, reception(packet@)),
        final(queue)@ == queue_after(old(queue)@, reception(packet@)),
{
    match packet {
        Packet::Message(msg) => match decode_message(msg) {
            Ok(command) => {
                queue.enqueue(command);
                Ok(())
            },
            Err(rejection) => Err(rejection),
        },
        Packet::Bundle => Err(Rejection::Bundle),
        Packet::Malformed(reason) => Err(Rejection::Malformed { reason }),
    }
}

/// Receives one datagram: decodes it and handles the packet.
pub fn receive(datagram: &[u8], queue: &mut DeliveryQueue) -> (r: Result<(), Rejection>)
    requires
        datagram@.len() <= MAX_DATAGRAM,
    ensures
        reports(r, reception(wire_decoding(datagram@))),
        final(queue)@ == queue_after(old(queue)@, reception(wire_decoding(datagram@))),
{
    handle_packet(decode_wire(datagram), queue)
}

} // verus!
