//! A bridge from OSC control messages to the HTTP control API of a vMix video mixer.
//!
//! A datagram from the control surface is decoded into an addressed message (`receiver`), the
//! message is held against the vocabulary of mixer actions (`decoder`), and the command that it
//! gives (`command`) waits on the delivery queue (`queue`) until the delivery worker (`client`)
//! takes it and asks for its request to be sent. `pipeline` states what holds of the parts at
//! work together. `binary32`, `decimal` and `text` are the arithmetic and the text handling
//! that the decoder and the command model stand on.
//!
//! The library decides and computes; it neither reads from a socket nor sends a request. Its
//! caller hands it the bytes of each datagram and the outcome of each request, and does what
//! the worker asks for.

pub mod binary32;
pub mod client;
pub mod command;
pub mod decimal;
pub mod decoder;
pub mod message;
pub mod pipeline;
pub mod queue;
pub mod receiver;
pub mod text;
