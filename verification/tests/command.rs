use ghidradbg_backend::command::{
    DebuggerCommand, DebuggerCommandDispatcher, DebuggerCommandRequest, SingleStep,
};
use ghidradbg_backend::{received_or_exited, DebuggerError};

#[test]
fn single_step_type_name() {
    assert_eq!(SingleStep::TYPE, "single_step");
}

#[test]
fn request_reports_its_type() {
    let r = DebuggerCommandRequest::new(1, "single_step".to_string(), serde_json::Value::Null);
    assert_eq!(r.ty(), "single_step");
    assert_eq!(r.id, 1);
}

#[test]
fn dispatcher_answers_with_first_matching_handler() {
    let mut context = 0u32;
    let request = DebuggerCommandRequest::new(17, "single_step".to_string(), serde_json::Value::Null);
    let mut d = DebuggerCommandDispatcher::new(&mut context, request);
    assert!(!d.accepts("continue"));
    assert!(d.accepts(SingleStep::TYPE));
    d.respond(serde_json::Value::from(5));
    assert!(!d.accepts(SingleStep::TYPE));
    let answer = d.finish().unwrap();
    assert_eq!(answer.request_id, 17);
    assert_eq!(answer.request_ty, "single_step");
    assert_eq!(answer.response, serde_json::Value::from(5));
}

#[test]
fn dispatcher_without_matching_handler_gives_no_answer() {
    let mut context = ();
    let request = DebuggerCommandRequest::new(2, "unknown".to_string(), serde_json::Value::Null);
    let d = DebuggerCommandDispatcher::new(&mut context, request);
    assert!(!d.accepts(SingleStep::TYPE));
    assert!(d.finish().is_none());
}

#[test]
fn closed_channel_means_target_exited() {
    assert_eq!(received_or_exited(Some(3)).ok(), Some(3));
    assert!(matches!(received_or_exited::<u8>(None), Err(DebuggerError::TargetExited)));
}
