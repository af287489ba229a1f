//! What arrives from the control surface: addressed messages with typed arguments.

use vstd::prelude::*;

verus! {

/// One argument of a message.
#[derive(Debug, PartialEq, Eq)]
pub enum Arg {
    /// A 32-bit integer.
    Int(i32),
    /// A real number, held as the bit pattern of its IEEE 754 binary32 form.
    Float(u32),
    /// A text.
    Str(String),
    /// A value of any other kind, held as the text that describes it.
    Other(String),
}

/// An argument as a mathematical value.
pub enum ArgView {
    Int(int),
    Float(u32),
    Str(Seq<char>),
    Other(Seq<char>),
}

impl View for Arg {
    type V = ArgView;

    open spec fn view(&self) -> ArgView {
        match self {
            Arg::Int(n) => ArgView::Int(*n as int),
            Arg::Float(bits) => ArgView::Float(*bits),
            Arg::Str(text) => ArgView::Str(text@),
            Arg::Other(text) => ArgView::Other(text@),
        }
    }
}

/// An addressed message: a path-like address and its arguments in order.
#[derive(Debug, PartialEq, Eq)]
pub struct Message {
    pub addr: String,
    pub args: Vec<Arg>,
}

/// A message as a mathematical value.
pub struct MessageView {
    pub addr: Seq<char>,
    pub args: Seq<ArgView>,
}

impl View for Message {
    type V = MessageView;

    open spec fn view(&self) -> MessageView {
        MessageView { addr: self.addr@, args: self.args@.map_values(|a: Arg| a@) }
    }
}

/// What one datagram holds.
#[derive(Debug, PartialEq, Eq)]
pub enum Packet {
    /// A single message.
    Message(Message),
    /// A bundle of several messages, which the bridge does not take apart.
    Bundle,
    /// No OSC packet at all; the text says what the wire decoder found wrong.
    Malformed(String),
}

/// A packet as a mathematical value.
pub enum PacketView {
    Message(MessageView),
    Bundle,
    Malformed(Seq<char>),
}

impl View for Packet {
    type V = PacketView;

    open spec fn view(&self) -> PacketView {
        match self {
            Packet::Message(message) => PacketView::Message(message@),
            Packet::Bundle => PacketView::Bundle,
            Packet::Malformed(reason) => PacketView::Malformed(reason@),
        }
    }
}

} // verus!
