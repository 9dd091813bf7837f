use black_hole::dispatch::Action;
use black_hole::dispatch::Collaborator;
use black_hole::dispatch::DispatchState;
use black_hole::dispatch::Dispatcher;
use black_hole::dispatch::Frame;
use black_hole::dispatch::SessionEvent;
use black_hole::dispatch::reply_for_outcome;
use black_hole::reply::IncomingImageReply;

fn text_event(s: &str) -> SessionEvent {
    SessionEvent::Frame(Frame::Text(String::from(s)))
}

#[test]
fn image_envelope_invokes_the_image_collaborator() {
    let mut d = Dispatcher::new();
    let a = d.step(text_event(
        "{\"type\":\"png\",\"mime\":\"image/png\",\"data\":\"data:image/png;base64,QUJD\"}",
    ));
    match a {
        Action::Invoke { which, file_type, mime, payload } => {
            assert_eq!(which, Collaborator::Image);
            assert_eq!(file_type, "png");
            assert_eq!(mime, "image/png");
            assert_eq!(payload, "QUJD");
        },
        _ => panic!("expected an invocation of the image collaborator"),
    }
    assert_eq!(d.state, DispatchState::Running);
}

#[test]
fn successful_persistence_replies_ok() {
    let outcome = Ok(IncomingImageReply::ok("png", 3, "abc"));
    let t = reply_for_outcome(outcome);
    assert_eq!(
        t,
        "{\"status\":\"OK\",\"file_type\":\"png\",\"len\":3,\"name\":\"abc\",\"uri\":\"black_hole/abc\"}"
    );
}

#[test]
fn failed_persistence_replies_with_an_error() {
    let t = reply_for_outcome(Err(String::from("Failed to decode base64 data")));
    assert_eq!(
        t,
        "{\"status\":\"Error: Failed to decode base64 data\",\"file_type\":\"\",\"len\":0,\"name\":\"\",\"uri\":\"\"}"
    );
    assert!(t.starts_with("{\"status\":\"Error"));
}

#[test]
fn text_envelope_invokes_the_text_collaborator() {
    let mut d = Dispatcher::new();
    let a = d.step(text_event("{\"type\":\"txt\",\"mime\":\"text/plain\",\"data\":\"aGk=\"}"));
    match a {
        Action::Invoke { which, file_type, mime, payload } => {
            assert_eq!(which, Collaborator::Text);
            assert_eq!(file_type, "txt");
            assert_eq!(mime, "text/plain");
            assert_eq!(payload, "aGk=");
        },
        _ => panic!("expected an invocation of the text collaborator"),
    }
    assert_eq!(d.state, DispatchState::Running);
}

#[test]
fn unknown_mime_invokes_nothing_and_replies_error() {
    let mut d = Dispatcher::new();
    let a = d.step(text_event(
        "{\"type\":\"bin\",\"mime\":\"application/octet-stream\",\"data\":\"QUJD\"}",
    ));
    match a {
        Action::SendReply(t) => {
            assert_eq!(
                t,
                "{\"status\":\"Error, Received unknown data\",\"file_type\":\"bin\",\"len\":0,\"name\":\"\",\"uri\":\"\"}"
            );
            assert!(t.starts_with("{\"status\":\"Error"));
        },
        _ => panic!("expected an error reply and no collaborator"),
    }
    assert_eq!(d.state, DispatchState::Running);
}

#[test]
fn ping_is_answered_with_an_identical_pong() {
    let mut d = Dispatcher::new();
    let a = d.step(SessionEvent::Frame(Frame::Ping(vec![1, 2, 3])));
    match a {
        Action::SendPong(p) => assert_eq!(p, vec![1, 2, 3]),
        _ => panic!("expected exactly one pong"),
    }
    assert_eq!(d.state, DispatchState::Running);
}

#[test]
fn envelope_fields_are_read_and_extra_fields_ignored() {
    let mut d = Dispatcher::new();
    let a = d.step(text_event(
        "{\"type\":\"txt\",\"mime\":\"text/plain\",\"data\":\"aGk=\",\"note\":7}",
    ));
    match a {
        Action::Invoke { which, file_type, mime, payload } => {
            assert_eq!(which, Collaborator::Text);
            assert_eq!(file_type, "txt");
            assert_eq!(mime, "text/plain");
            assert_eq!(payload, "aGk=");
        },
        _ => panic!("expected an invocation of the text collaborator"),
    }
}

#[test]
fn missing_field_is_a_parse_failure() {
    let mut d = Dispatcher::new();
    let a = d.step(text_event("{\"type\":\"png\",\"mime\":\"image/png\"}"));
    assert!(matches!(a, Action::Ignore));
    assert_eq!(d.state, DispatchState::Running);
}

#[test]
fn non_string_field_is_a_parse_failure() {
    let mut d = Dispatcher::new();
    let a = d.step(text_event("{\"type\":\"png\",\"mime\":5,\"data\":\"QUJD\"}"));
    assert!(matches!(a, Action::Ignore));
    assert_eq!(d.state, DispatchState::Running);
}

#[test]
fn non_object_is_a_parse_failure() {
    let mut d = Dispatcher::new();
    let a = d.step(text_event("[1,2,3]"));
    assert!(matches!(a, Action::Ignore));
    assert_eq!(d.state, DispatchState::Running);
}

#[test]
fn malformed_text_is_skipped_and_the_session_survives() {
    let mut d = Dispatcher::new();
    let a = d.step(text_event("{not valid json"));
    assert!(matches!(a, Action::Ignore));
    assert_eq!(d.state, DispatchState::Running);
    // A later well-formed envelope on the same session is still processed.
    let a = d.step(text_event("{\"type\":\"png\",\"mime\":\"image/png\",\"data\":\"QUJD\"}"));
    assert!(matches!(a, Action::Invoke { which: Collaborator::Image, .. }));
    assert_eq!(d.state, DispatchState::Running);
}

#[test]
fn binary_pong_and_other_frames_are_ignored() {
    let mut d = Dispatcher::new();
    assert!(matches!(d.step(SessionEvent::Frame(Frame::Binary(vec![9]))), Action::Ignore));
    assert!(matches!(d.step(SessionEvent::Frame(Frame::Pong(vec![1]))), Action::Ignore));
    assert!(matches!(d.step(SessionEvent::Frame(Frame::Other)), Action::Ignore));
    assert_eq!(d.state, DispatchState::Running);
}

#[test]
fn peer_close_terminates_and_a_fresh_connection_is_independent() {
    let mut d = Dispatcher::new();
    assert!(matches!(d.step(SessionEvent::Frame(Frame::Close)), Action::Ignore));
    assert_eq!(d.state, DispatchState::Terminated);
    // Once terminated, further events do nothing.
    assert!(matches!(d.step(SessionEvent::Frame(Frame::Ping(vec![1]))), Action::Ignore));
    assert_eq!(d.state, DispatchState::Terminated);
    // A fresh connection gets its own dispatcher and is handled normally.
    let mut d2 = Dispatcher::new();
    assert_eq!(d2.state, DispatchState::Running);
    assert!(matches!(d2.step(SessionEvent::Frame(Frame::Ping(vec![2]))), Action::SendPong(_)));
}

#[test]
fn end_of_session_and_transport_errors_terminate() {
    let mut d = Dispatcher::new();
    d.step(SessionEvent::Closed);
    assert_eq!(d.state, DispatchState::Terminated);

    let mut d = Dispatcher::new();
    d.step(SessionEvent::TransportError);
    assert_eq!(d.state, DispatchState::Terminated);
}
