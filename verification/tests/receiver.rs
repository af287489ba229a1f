use rosc::{OscBundle, OscMessage, OscPacket, OscTime, OscType};
use vmix_bridge::command::Command;
use vmix_bridge::decoder::{Expected, Rejection};
use vmix_bridge::message::{Arg, Message, Packet};
use vmix_bridge::queue::DeliveryQueue;
use vmix_bridge::receiver::{handle_packet, receive, MAX_DATAGRAM};

fn datagram(addr: &str, args: Vec<OscType>) -> Vec<u8> {
    rosc::encoder::encode(&OscPacket::Message(OscMessage { addr: addr.to_string(), args }))
        .unwrap()
}

fn drain(queue: &mut DeliveryQueue) -> Vec<Command> {
    let mut commands = Vec::new();
    while let Some(command) = queue.dequeue() {
        commands.push(command);
    }
    commands
}

#[test]
fn the_buffer_is_as_large_as_the_wire_decoder_expects() {
    assert_eq!(MAX_DATAGRAM, rosc::decoder::MTU);
}

#[test]
fn a_datagram_with_an_integer_argument_is_queued() {
    let mut queue = DeliveryQueue::new();
    let bytes = datagram("/vmix/preview", vec![OscType::Int(4)]);
    assert_eq!(receive(&bytes, &mut queue), Ok(()));
    assert_eq!(drain(&mut queue), vec![Command::Preview("4".to_string())]);
}

#[test]
fn a_datagram_with_a_real_argument_is_queued() {
    let mut queue = DeliveryQueue::new();
    let bytes = datagram("/vmix/fader", vec![OscType::Float(12.9)]);
    assert_eq!(receive(&bytes, &mut queue), Ok(()));
    assert_eq!(drain(&mut queue), vec![Command::SetFader(12)]);
}

#[test]
fn a_datagram_with_a_text_argument_is_queued() {
    let mut queue = DeliveryQueue::new();
    let bytes = datagram("/vmix/raw", vec![OscType::String("Function=Cut&Input=2".to_string())]);
    assert_eq!(receive(&bytes, &mut queue), Ok(()));
    assert_eq!(drain(&mut queue), vec![Command::Raw("Function=Cut&Input=2".to_string())]);
}

#[test]
fn a_datagram_without_arguments_is_queued() {
    let mut queue = DeliveryQueue::new();
    assert_eq!(receive(&datagram("/vmix/quickplay", vec![]), &mut queue), Ok(()));
    assert_eq!(receive(&datagram("/vmix/ftb", vec![]), &mut queue), Ok(()));
    assert_eq!(drain(&mut queue), vec![Command::QuickPlay, Command::FadeToBlack]);
}

#[test]
fn datagrams_are_queued_in_the_order_of_arrival() {
    let mut queue = DeliveryQueue::new();
    for level in 0..50 {
        let bytes = datagram("/vmix/fader", vec![OscType::Int(level)]);
        assert_eq!(receive(&bytes, &mut queue), Ok(()));
    }
    let expected: Vec<Command> = (0..50).map(Command::SetFader).collect();
    assert_eq!(drain(&mut queue), expected);
}

#[test]
fn a_datagram_with_too_many_arguments_queues_nothing() {
    let mut queue = DeliveryQueue::new();
    let bytes = datagram("/vmix/quickplay", vec![OscType::Int(1)]);
    assert_eq!(
        receive(&bytes, &mut queue),
        Err(Rejection::WrongArity { addr: "/vmix/quickplay".to_string(), expected: 0, actual: 1 })
    );
    assert!(queue.is_empty());
}

#[test]
fn a_datagram_to_an_unknown_address_queues_nothing_and_the_next_is_handled() {
    let mut queue = DeliveryQueue::new();
    let unknown = datagram("/vmix/unknown", vec![OscType::Int(1), OscType::Float(2.5)]);
    assert_eq!(
        receive(&unknown, &mut queue),
        Err(Rejection::UnknownAddress { addr: "/vmix/unknown".to_string() })
    );
    assert!(queue.is_empty());
    assert_eq!(receive(&datagram("/vmix/cut", vec![OscType::Int(3)]), &mut queue), Ok(()));
    assert_eq!(drain(&mut queue), vec![Command::Cut("3".to_string())]);
}

#[test]
fn a_real_argument_is_handed_over_by_its_bit_pattern() {
    let mut queue = DeliveryQueue::new();
    let bytes = datagram("/vmix/preview", vec![OscType::Float(1.5)]);
    assert_eq!(
        receive(&bytes, &mut queue),
        Err(Rejection::WrongType {
            addr: "/vmix/preview".to_string(),
            received: Arg::Float(0x3fc0_0000),
            kinds: Expected::IntegerOrString,
        })
    );
    assert!(queue.is_empty());
}

#[test]
fn an_argument_of_another_kind_is_handed_over_as_its_text() {
    let mut queue = DeliveryQueue::new();
    let bytes = datagram("/vmix/fader", vec![OscType::Bool(true)]);
    assert_eq!(
        receive(&bytes, &mut queue),
        Err(Rejection::WrongType {
            addr: "/vmix/fader".to_string(),
            received: Arg::Other("Bool(true)".to_string()),
            kinds: Expected::IntegerOrFloat,
        })
    );
    let bytes = datagram("/vmix/fader", vec![OscType::Long(5)]);
    assert_eq!(
        receive(&bytes, &mut queue),
        Err(Rejection::WrongType {
            addr: "/vmix/fader".to_string(),
            received: Arg::Other("Long(5)".to_string()),
            kinds: Expected::IntegerOrFloat,
        })
    );
    let bytes = datagram("/vmix/fader", vec![OscType::Double(5.5)]);
    assert_eq!(
        receive(&bytes, &mut queue),
        Err(Rejection::WrongType {
            addr: "/vmix/fader".to_string(),
            received: Arg::Other("Double(5.5)".to_string()),
            kinds: Expected::IntegerOrFloat,
        })
    );
    assert!(queue.is_empty());
}

#[test]
fn a_bundle_is_rejected_and_never_taken_apart() {
    let mut queue = DeliveryQueue::new();
    let bundle = OscPacket::Bundle(OscBundle {
        timetag: OscTime { seconds: 0, fractional: 1 },
        content: vec![
            OscPacket::Message(OscMessage { addr: "/vmix/quickplay".to_string(), args: vec![] }),
            OscPacket::Message(OscMessage { addr: "/vmix/ftb".to_string(), args: vec![] }),
        ],
    });
    let bytes = rosc::encoder::encode(&bundle).unwrap();
    assert_eq!(receive(&bytes, &mut queue), Err(Rejection::Bundle));
    assert!(queue.is_empty());
}

#[test]
fn bytes_that_are_no_packet_are_rejected_and_the_next_datagram_is_handled() {
    let mut queue = DeliveryQueue::new();
    for bytes in [&b""[..], &b"garbage"[..], &b"/vmix/fader"[..], &[0xff, 0xfe, 0x00, 0x00][..]] {
        match receive(bytes, &mut queue) {
            Err(Rejection::Malformed { reason }) => assert!(!reason.is_empty()),
            other => panic!("{:?}", other),
        }
        assert!(queue.is_empty());
    }
    assert_eq!(receive(&datagram("/vmix/ftb", vec![]), &mut queue), Ok(()));
    assert_eq!(drain(&mut queue), vec![Command::FadeToBlack]);
}

#[test]
fn an_empty_datagram_is_rejected_with_the_decoders_complaint() {
    let mut queue = DeliveryQueue::new();
    assert_eq!(
        receive(b"", &mut queue),
        Err(Rejection::Malformed { reason: "bad OSC packet: Empty packet.".to_string() })
    );
}

#[test]
fn a_datagram_that_fills_the_buffer_is_handled() {
    let mut queue = DeliveryQueue::new();
    let long = "x".repeat(MAX_DATAGRAM - 20);
    let bytes = datagram("/vmix/raw", vec![OscType::String(long.clone())]);
    assert_eq!(bytes.len(), MAX_DATAGRAM);
    assert_eq!(receive(&bytes, &mut queue), Ok(()));
    assert_eq!(drain(&mut queue), vec![Command::Raw(long)]);
}

#[test]
fn handling_a_message_packet_queues_its_command() {
    let mut queue = DeliveryQueue::new();
    queue.enqueue(Command::QuickPlay);
    let packet = Packet::Message(Message {
        addr: "/vmix/restart".to_string(),
        args: vec![Arg::Str("Intro".to_string())],
    });
    assert_eq!(handle_packet(packet, &mut queue), Ok(()));
    assert_eq!(drain(&mut queue), vec![Command::QuickPlay, Command::Restart("Intro".to_string())]);
}

#[test]
fn handling_a_rejected_packet_leaves_the_queue_as_it_was() {
    let mut queue = DeliveryQueue::new();
    queue.enqueue(Command::QuickPlay);
    assert_eq!(handle_packet(Packet::Bundle, &mut queue), Err(Rejection::Bundle));
    assert_eq!(
        handle_packet(Packet::Malformed("short".to_string()), &mut queue),
        Err(Rejection::Malformed { reason: "short".to_string() })
    );
    let packet = Packet::Message(Message { addr: "/vmix/restart".to_string(), args: vec![] });
    assert_eq!(
        handle_packet(packet, &mut queue),
        Err(Rejection::WrongArity { addr: "/vmix/restart".to_string(), expected: 1, actual: 0 })
    );
    assert_eq!(drain(&mut queue), vec![Command::QuickPlay]);
}
