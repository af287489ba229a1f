use rosc::{OscMessage, OscPacket, OscType};
use vmix_bridge::client::{Effect, ApiClient, Outcome};
use vmix_bridge::decoder::Rejection;
use vmix_bridge::queue::DeliveryQueue;
use vmix_bridge::receiver::receive;

const DEVICE: &str = "192.168.0.10:8088";

fn osc(addr: &str, args: Vec<OscType>) -> Vec<u8> {
    rosc::encoder::encode(&OscPacket::Message(OscMessage { addr: addr.to_string(), args }))
        .unwrap()
}

fn first_request(queue: &mut DeliveryQueue) -> (ApiClient, Option<String>) {
    let (client, effect) = ApiClient::new(DEVICE.to_string()).begin(queue);
    match effect {
        Some(Effect::Send { url, delay_ms: 0, timeout_ms: 1000 }) => (client, Some(url)),
        None => (client, None),
        other => panic!("{:?}", other),
    }
}

#[test]
fn preview_with_an_integer_goes_out_as_a_preview_request() {
    let mut queue = DeliveryQueue::new();
    assert_eq!(receive(&osc("/vmix/preview", vec![OscType::Int(4)]), &mut queue), Ok(()));
    let (_, url) = first_request(&mut queue);
    assert_eq!(
        url,
        Some("http://192.168.0.10:8088/api?Function=PreviewInput&Input=4".to_string())
    );
}

#[test]
fn fader_with_a_real_number_goes_out_truncated() {
    let mut queue = DeliveryQueue::new();
    assert_eq!(receive(&osc("/vmix/fader", vec![OscType::Float(12.9)]), &mut queue), Ok(()));
    let (_, url) = first_request(&mut queue);
    assert_eq!(url, Some("http://192.168.0.10:8088/api?Function=SetFader&Value=12".to_string()));
}

#[test]
fn quickplay_without_arguments_goes_out() {
    let mut queue = DeliveryQueue::new();
    assert_eq!(receive(&osc("/vmix/quickplay", vec![]), &mut queue), Ok(()));
    let (_, url) = first_request(&mut queue);
    assert_eq!(url, Some("http://192.168.0.10:8088/api?Function=QuickPlay".to_string()));
}

#[test]
fn quickplay_with_an_argument_sends_nothing() {
    let mut queue = DeliveryQueue::new();
    assert_eq!(
        receive(&osc("/vmix/quickplay", vec![OscType::Int(1)]), &mut queue),
        Err(Rejection::WrongArity { addr: "/vmix/quickplay".to_string(), expected: 0, actual: 1 })
    );
    let (client, url) = first_request(&mut queue);
    assert_eq!(url, None);
    assert!(client.is_idle());
}

#[test]
fn an_unknown_address_sends_nothing_and_the_next_datagram_goes_out() {
    let mut queue = DeliveryQueue::new();
    assert_eq!(
        receive(&osc("/vmix/unknown", vec![OscType::String("x".to_string())]), &mut queue),
        Err(Rejection::UnknownAddress { addr: "/vmix/unknown".to_string() })
    );
    assert!(queue.is_empty());
    assert_eq!(receive(&osc("/vmix/ftb", vec![]), &mut queue), Ok(()));
    let (_, url) = first_request(&mut queue);
    assert_eq!(url, Some("http://192.168.0.10:8088/api?Function=FadeToBlack".to_string()));
}

#[test]
fn an_unreachable_mixer_costs_three_attempts_and_the_next_command_goes_out() {
    let mut queue = DeliveryQueue::new();
    assert_eq!(receive(&osc("/vmix/cut", vec![OscType::Int(2)]), &mut queue), Ok(()));
    assert_eq!(receive(&osc("/vmix/preview", vec![OscType::Int(3)]), &mut queue), Ok(()));
    let cut = "http://192.168.0.10:8088/api?Function=CutDirect&Input=2".to_string();
    let mut log: Vec<Effect> = Vec::new();
    let (mut client, mut effect) = ApiClient::new(DEVICE.to_string()).begin(&mut queue);
    while let Some(Effect::Send { .. }) = effect {
        log.push(effect.unwrap());
        let next = client.resolve(Outcome::Failed("connection refused".to_string()));
        client = next.0;
        effect = next.1;
    }
    log.push(effect.unwrap());
    assert_eq!(
        log,
        vec![
            Effect::Send { url: cut.clone(), delay_ms: 0, timeout_ms: 1000 },
            Effect::Send { url: cut.clone(), delay_ms: 100, timeout_ms: 1000 },
            Effect::Send { url: cut.clone(), delay_ms: 100, timeout_ms: 1000 },
            Effect::ReportFailure {
                url: cut,
                error: "connection refused".to_string(),
                attempts: 3,
            },
        ]
    );
    assert!(client.is_idle());
    let (client, effect) = client.begin(&mut queue);
    assert_eq!(
        effect,
        Some(Effect::Send {
            url: "http://192.168.0.10:8088/api?Function=PreviewInput&Input=3".to_string(),
            delay_ms: 0,
            timeout_ms: 1000,
        })
    );
    let (client, effect) = client.resolve(Outcome::Responded("200 OK".to_string()));
    assert!(matches!(effect, Some(Effect::ReportSuccess { .. })));
    assert!(client.is_idle());
    assert!(queue.is_empty());
}
