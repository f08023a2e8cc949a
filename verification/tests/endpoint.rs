use rmp_rpc::endpoint::{
    dispatch, next_step, response_message, response_outcome, ClientBook, Dispatch, Incoming, Role,
    Step,
};
use rmp_rpc::errors::{DecodeErrorKind, IoErrorClass};
use rmp_rpc::{DecodeError, Message, Notification, Request, Response, Value};

#[test]
fn requests_get_increasing_ids_and_responses_find_them() {
    let mut book: ClientBook<&'static str, u8> = ClientBook::new();
    assert!(book.can_send_request());
    let first = book.register_request(Request::new("a", &[]), "first");
    let second = book.register_request(Request::new("b", &[Value::Nil]), "second");
    match (&first, &second) {
        (Message::Request(a), Message::Request(b)) => {
            assert_eq!(a.id, 1);
            assert_eq!(a.method, "a");
            assert_eq!(b.id, 2);
            assert_eq!(b.params, vec![Value::Nil]);
        }
        _ => panic!("expected requests"),
    }
    let got = book.process_response(Response { id: 2, result: Ok(Value::Boolean(true)) });
    assert_eq!(got, Some(("second", Ok(Value::Boolean(true)))));
    // the same id again: nothing pending any more
    assert_eq!(book.process_response(Response { id: 2, result: Ok(Value::Nil) }), None);
    // an id never given out
    assert_eq!(book.process_response(Response { id: 9, result: Ok(Value::Nil) }), None);
    let got = book.process_response(Response { id: 1, result: Err(Value::Nil) });
    assert_eq!(got, Some(("first", Err(Value::Nil))));
}

#[test]
fn finished_only_when_closed_and_nothing_pending() {
    let mut book: ClientBook<u8, u8> = ClientBook::new();
    assert!(!book.is_finished());
    let note = book.register_notification(Notification::new("n", &[]), 7);
    assert_eq!(note, Message::Notification(Notification::new("n", &[])));
    book.close();
    assert!(book.is_closed());
    assert!(!book.is_finished());
    assert_eq!(book.settle_flush(false), Vec::<u8>::new());
    assert!(!book.is_finished());
    assert_eq!(book.settle_flush(true), vec![7]);
    assert!(book.is_finished());
    assert_eq!(book.settle_flush(true), Vec::<u8>::new());
    let note = book.register_notification(Notification::new("m", &[]), 8);
    assert_eq!(note, Message::Notification(Notification::new("m", &[])));
    assert_eq!(book.acknowledge_notifications(), vec![8]);
    assert!(book.is_finished());
    let _ = book.register_request(Request::new("x", &[]), 1);
    assert!(!book.is_finished());
    assert!(book.process_response(Response { id: 1, result: Ok(Value::Nil) }).is_some());
    assert!(book.is_finished());
}

#[test]
fn roles_dispatch_messages() {
    let req = || Message::Request(Request { id: 4, method: "m".into(), params: vec![Value::Nil] });
    let resp = || Message::Response(Response { id: 4, result: Ok(Value::Nil) });
    let note = || Message::Notification(Notification { method: "n".into(), params: vec![] });

    assert!(matches!(dispatch(Role::Client, req()), Dispatch::Ignore));
    assert!(matches!(dispatch(Role::Client, note()), Dispatch::Ignore));
    assert!(matches!(dispatch(Role::Client, resp()), Dispatch::DeliverResponse(Response { id: 4, .. })));
    assert!(matches!(dispatch(Role::Server, resp()), Dispatch::Ignore));
    match dispatch(Role::Server, req()) {
        Dispatch::HandleRequest { id, method, params } => {
            assert_eq!((id, method.as_str(), params), (4, "m", vec![Value::Nil]));
        }
        _ => panic!("expected a request to handle"),
    }
    assert!(matches!(dispatch(Role::ClientAndServer, note()), Dispatch::HandleNotification { .. }));
    assert!(matches!(dispatch(Role::ClientAndServer, resp()), Dispatch::DeliverResponse(_)));
    assert!(matches!(dispatch(Role::ClientAndServer, req()), Dispatch::HandleRequest { id: 4, .. }));
}

#[test]
fn response_outcomes() {
    assert_eq!(response_outcome(Some(Ok(Value::Boolean(true)))), Ok(Value::Boolean(true)));
    assert_eq!(response_outcome(Some(Err(Value::Boolean(false)))), Err(Value::Boolean(false)));
    assert_eq!(response_outcome(None), Err(Value::Nil));
    assert_eq!(
        response_message(3, Ok(Value::Nil)),
        Message::Response(Response { id: 3, result: Ok(Value::Nil) })
    );
}

#[test]
fn io_errors_are_classified() {
    let eof = std::io::Error::new(std::io::ErrorKind::UnexpectedEof, "eof");
    assert!(matches!(DecodeError::from_io_error(eof), DecodeError::Truncated));
    let other = std::io::Error::new(std::io::ErrorKind::Other, "x");
    assert!(matches!(DecodeError::from_io_error(other), DecodeError::UnknownIo(_)));
    let broken = std::io::Error::new(std::io::ErrorKind::BrokenPipe, "x");
    assert!(matches!(DecodeError::from_io_error(broken), DecodeError::UnknownIo(_)));
    let bare = std::io::Error::from(std::io::ErrorKind::Other);
    assert!(matches!(DecodeError::from_io_error(bare), DecodeError::UnknownIo(_)));

    let e = || std::io::Error::new(std::io::ErrorKind::Other, "x");
    let mismatch = DecodeError::from_io_parts(IoErrorClass::Other, Some(Some("type mismatch".into())), e());
    assert_eq!(mismatch.error_kind(), DecodeErrorKind::Invalid);
    let other = DecodeError::from_io_parts(IoErrorClass::Other, Some(None), e());
    assert_eq!(other.error_kind(), DecodeErrorKind::UnknownIo);
    let eof = DecodeError::from_io_parts(IoErrorClass::UnexpectedEof, None, e());
    assert_eq!(eof.error_kind(), DecodeErrorKind::Truncated);
}

#[test]
fn endpoint_steps_follow_the_stream() {
    let msg = Message::Notification(Notification::new("n", &[]));
    match next_step::<&str>(Incoming::Received(msg.clone()), false) {
        Step::Handle(m) => assert_eq!(m, msg),
        _ => panic!("a message is handled"),
    }
    assert!(matches!(next_step::<&str>(Incoming::Failed("broken"), false), Step::Fail("broken")));
    assert!(matches!(next_step::<&str>(Incoming::Closed, false), Step::Finish));
    assert!(matches!(next_step::<&str>(Incoming::Pending, true), Step::Finish));
    assert!(matches!(next_step::<&str>(Incoming::Pending, false), Step::Wait));
}
