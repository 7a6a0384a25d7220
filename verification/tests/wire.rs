use bytes::BytesMut;
use ghidradbg_backend::command::DebuggerCommandRequest;
use ghidradbg_backend::event::DebuggerEvent;
use ghidradbg_backend::session::{session_step, SessionAction, SessionInput};
use ghidradbg_backend::wire::{WireResponse, WireResponseEncoder};
use ghidradbg_backend::DebuggerError;

#[test]
fn encoder_appends_json_and_newline() {
    let mut enc = WireResponseEncoder;
    let mut buf = BytesMut::new();
    enc.encode_json("{\"a\":1}", &mut buf);
    assert_eq!(&buf[..], b"{\"a\":1}\n");
    enc.encode_json("{}", &mut buf);
    assert_eq!(&buf[..], b"{\"a\":1}\n{}\n");
}

#[test]
fn try_encoder_appends_when_room() {
    let mut enc = WireResponseEncoder;
    let mut buf = BytesMut::from(&b"x"[..]);
    assert!(enc.try_encode_json("é", &mut buf));
    assert_eq!(&buf[..], "xé\n".as_bytes());
}

#[test]
fn session_decisions() {
    assert!(matches!(
        session_step(SessionInput::Event(Ok(DebuggerEvent::DebuggeeContinued))),
        SessionAction::Send(WireResponse::Notification { event: DebuggerEvent::DebuggeeContinued })
    ));
    assert!(matches!(
        session_step(SessionInput::Event(Err(DebuggerError::TargetExited))),
        SessionAction::Fail(DebuggerError::TargetExited)
    ));
    let req = DebuggerCommandRequest::new(9, "single_step".to_string(), serde_json::Value::Null);
    match session_step(SessionInput::Request(Some(Ok(req)))) {
        SessionAction::Handle(r) => assert_eq!(r.id, 9),
        _ => panic!("expected the request to be handled"),
    }
    assert!(matches!(session_step(SessionInput::Request(None)), SessionAction::Stop));
    let failed = std::io::Error::new(std::io::ErrorKind::Other, "broken pipe");
    assert!(matches!(session_step(SessionInput::Request(Some(Err(failed)))), SessionAction::Stop));
}
