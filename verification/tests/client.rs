use oak_launcher::client::{Client, DispatchError};
use oak_launcher::status::{Status, StatusCode};

fn message_for(err: DispatchError) -> String {
    let client = Client { request_dispatcher: () };
    let status = client.invoke(Err(err)).unwrap_err();
    assert_eq!(status.code, StatusCode::Internal);
    status.message.unwrap()
}

#[test]
fn replies_are_passed_on() {
    let client = Client { request_dispatcher: () };
    assert_eq!(client.invoke(Ok(Ok(vec![1, 2, 3]))), Ok(vec![1, 2, 3]));
    let status = Err(Status::new(StatusCode::Unimplemented));
    assert_eq!(
        client.invoke(Ok(status)),
        Err(Status { code: StatusCode::Unimplemented, message: None })
    );
}

#[test]
fn dropped_request_is_an_internal_error() {
    assert_eq!(
        message_for(DispatchError::RecvError),
        "failed when invoking the request_dispatcher: request channel closed"
    );
}

#[test]
fn late_reply_is_an_internal_error() {
    assert_eq!(
        message_for(DispatchError::RecvTimeoutError),
        "failed when invoking the request_dispatcher: request timed out"
    );
}

#[test]
fn closed_queue_is_an_internal_error() {
    assert_eq!(
        message_for(DispatchError::SendError),
        "failed when invoking the request_dispatcher: channel closed"
    );
}

#[test]
fn error_texts_are_those_of_the_queue() {
    let prefix = "failed when invoking the request_dispatcher: ";
    let err: bmrng::error::RequestError<u8> = bmrng::error::RequestError::SendError(3);
    assert_eq!(message_for(DispatchError::SendError), format!("{}{}", prefix, err));
    let err: bmrng::error::RequestError<u8> = bmrng::error::RequestError::RecvError;
    assert_eq!(message_for(DispatchError::RecvError), format!("{}{}", prefix, err));
    let err: bmrng::error::RequestError<u8> = bmrng::error::RequestError::RecvTimeoutError;
    assert_eq!(message_for(DispatchError::RecvTimeoutError), format!("{}{}", prefix, err));
}
