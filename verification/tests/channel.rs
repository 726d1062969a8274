use oak_launcher::channel::{BaremetalCommunicationChannel, ChannelAction, ChannelEvent};
use oak_launcher::status::{Status, StatusCode};

type Event = ChannelEvent<u8, Vec<u8>>;
type Action = ChannelAction<u8, Vec<u8>>;

fn step(channel: &mut BaremetalCommunicationChannel, event: Event) -> Action {
    assert!(channel.admits(&event));
    channel.invoke(event)
}

fn request() -> Event {
    ChannelEvent::Requested { request: 9 }
}

fn encoded(invocation_id: u64) -> Event {
    ChannelEvent::RequestEncoded { invocation_id, message: vec![invocation_id as u8] }
}

fn writing(invocation_id: u64) -> BaremetalCommunicationChannel {
    let mut channel = BaremetalCommunicationChannel::new();
    step(&mut channel, request());
    step(&mut channel, encoded(invocation_id));
    channel
}

fn reading(invocation_id: u64) -> BaremetalCommunicationChannel {
    let mut channel = writing(invocation_id);
    step(&mut channel, ChannelEvent::RequestWritten);
    channel
}

fn internal() -> Action {
    ChannelAction::Complete {
        response: Err(Status { code: StatusCode::Internal, message: None }),
    }
}

#[test]
fn response_is_returned() {
    let mut channel = BaremetalCommunicationChannel::new();
    for invocation_id in [0, 1, u64::MAX] {
        let request = invocation_id as u8;
        let action = step(&mut channel, ChannelEvent::Requested { request });
        assert_eq!(action, ChannelAction::EncodeRequest { request });
        let message = vec![7, request];
        let action = step(&mut channel, ChannelEvent::RequestEncoded { invocation_id, message });
        assert_eq!(action, ChannelAction::WriteRequest { message: vec![7, request] });
        let action = step(&mut channel, ChannelEvent::RequestWritten);
        assert_eq!(action, ChannelAction::ReadResponse);
        let response = Ok(vec![1, 2, request]);
        let action = step(&mut channel, ChannelEvent::ResponseRead { invocation_id, response });
        assert_eq!(action, ChannelAction::Complete { response: Ok(vec![1, 2, request]) });
    }
}

#[test]
fn status_of_the_runtime_is_returned() {
    let mut channel = reading(5);
    let response = Err(Status::new_with_message(StatusCode::NotFound, "method".to_string()));
    let action = step(&mut channel, ChannelEvent::ResponseRead { invocation_id: 5, response });
    let response = Err(Status { code: StatusCode::NotFound, message: Some("method".to_string()) });
    assert_eq!(action, ChannelAction::Complete { response });
}

#[test]
fn write_failure_is_an_internal_error() {
    let mut channel = writing(5);
    assert_eq!(step(&mut channel, ChannelEvent::WriteFailed), internal());
    assert!(channel.admits(&request()));
}

#[test]
fn read_failure_is_an_internal_error() {
    let mut channel = reading(5);
    assert_eq!(step(&mut channel, ChannelEvent::ReadFailed), internal());
    assert!(channel.admits(&request()));
}

#[test]
fn foreign_response_ends_the_channel() {
    let mut channel = reading(5);
    let response = Ok(vec![1]);
    let action = step(&mut channel, ChannelEvent::ResponseRead { invocation_id: 6, response });
    assert_eq!(action, ChannelAction::Abort { expected: 5, received: 6 });
    assert!(!channel.admits(&request()));
    assert!(!channel.admits(&encoded(6)));
    assert!(!channel.admits(&Event::ReadFailed));
}

#[test]
fn one_invocation_at_a_time() {
    let mut channel = BaremetalCommunicationChannel::new();
    assert!(!channel.admits(&encoded(1)));
    assert!(!channel.admits(&Event::RequestWritten));
    assert!(!channel.admits(&Event::ReadFailed));
    step(&mut channel, request());
    assert!(!channel.admits(&request()));
    assert!(!channel.admits(&Event::RequestWritten));
    step(&mut channel, encoded(1));
    assert!(!channel.admits(&request()));
    assert!(!channel.admits(&encoded(2)));
    assert!(!channel.admits(&Event::ReadFailed));
    step(&mut channel, ChannelEvent::RequestWritten);
    assert!(!channel.admits(&request()));
    assert!(!channel.admits(&Event::WriteFailed));
}

#[test]
fn one_encoder_makes_all_messages() {
    let mut channel = BaremetalCommunicationChannel::new();
    let mut next_id: u64 = 40;
    let mut encoder_input = vec![];
    let mut written = vec![];
    for request in [3u8, 1, 2] {
        let mut event: Event = ChannelEvent::Requested { request };
        loop {
            event = match step(&mut channel, event) {
                ChannelAction::EncodeRequest { request } => {
                    encoder_input.push(request);
                    let invocation_id = next_id;
                    next_id += 1;
                    let message = vec![invocation_id as u8, request];
                    ChannelEvent::RequestEncoded { invocation_id, message }
                }
                ChannelAction::WriteRequest { message } => {
                    written.push(message);
                    if request == 1 { ChannelEvent::WriteFailed } else { ChannelEvent::RequestWritten }
                }
                ChannelAction::ReadResponse => ChannelEvent::ReadFailed,
                action => {
                    assert_eq!(action, internal());
                    break;
                }
            };
        }
    }
    assert_eq!(encoder_input, [3, 1, 2]);
    assert_eq!(written, [vec![40, 3], vec![41, 1], vec![42, 2]]);
}

#[test]
fn responses_are_returned_in_order() {
    let mut channel = BaremetalCommunicationChannel::new();
    let mut exchanges = vec![];
    let mut returned = vec![];
    for invocation_id in 0..4u64 {
        let mut event = request();
        loop {
            event = match step(&mut channel, event) {
                ChannelAction::EncodeRequest { .. } => encoded(invocation_id),
                ChannelAction::WriteRequest { .. } => {
                    exchanges.push("write");
                    ChannelEvent::RequestWritten
                }
                ChannelAction::ReadResponse => {
                    exchanges.push("read");
                    let response = Ok(vec![10 + invocation_id as u8]);
                    ChannelEvent::ResponseRead { invocation_id, response }
                }
                ChannelAction::Complete { response } => {
                    returned.push(response);
                    break;
                }
                ChannelAction::Abort { .. } => unreachable!(),
            };
        }
    }
    assert_eq!(returned, [Ok(vec![10]), Ok(vec![11]), Ok(vec![12]), Ok(vec![13])]);
    let round = ["write", "read"];
    assert_eq!(exchanges, [round, round, round, round].concat());
}
