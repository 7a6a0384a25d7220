use ghidradbg_backend::state::registers::Register;
use ghidradbg_backend::state::stack::StackTrace;
use ghidradbg_backend::state::value::{RelativeAddress, Value};
use ghidradbg_backend::event::DebuggerEvent;
use ghidradbg_backend::command::DebuggerCommandRequest;
use ghidradbg_backend::windbg::control::{
    execution_status_from_raw, stack_trace_from_raw, DebuggerExecutionStatus, RawStackFrame,
};
use ghidradbg_backend::windbg::engine_loop::{engine_loop_step, translates, EngineLoopAction, EngineLoopInput};
use ghidradbg_backend::windbg::error::{
    check_dispatched, check_ok, check_succeeded, os_error_message, wide_text_len, WinDbgError,
    S_FALSE, S_OK,
};
use ghidradbg_backend::windbg::events::{
    debuggee_state_event, DebugEventInterestFlags, DebugeeStateChange, WinDbgEvent,
};
use ghidradbg_backend::windbg::registers::{
    is_name_text_valid, register_from_raw, register_is_reported, register_name, RegisterListing,
};
use ghidradbg_backend::windbg::state_change::{continued_event, nonzero_registers, stopped_event};
use ghidradbg_backend::windbg::symbols::relative_address;

const E_FAIL: i32 = 0x8000_4005u32 as i32;

fn is_ffi(e: &WinDbgError, context: &str, res: i32) -> bool {
    matches!(e, WinDbgError::FfiError(c, r) if *c == context && *r == res)
}

#[test]
fn result_code_checks() {
    assert!(check_succeeded(S_OK, "x").is_ok());
    assert!(check_succeeded(S_FALSE, "x").is_ok());
    assert!(is_ffi(&check_succeeded(E_FAIL, "ctx").unwrap_err(), "ctx", E_FAIL));
    assert!(check_ok(S_OK, "x").is_ok());
    assert!(is_ffi(&check_ok(S_FALSE, "q").unwrap_err(), "q", S_FALSE));
    assert!(check_dispatched(S_OK).is_ok());
    assert!(check_dispatched(S_FALSE).is_ok());
    assert!(is_ffi(
        &check_dispatched(2).unwrap_err(),
        "Error occurred while dispatching callbacks",
        2
    ));
}

#[test]
fn wide_text_len_stops_at_first_zero() {
    assert_eq!(wide_text_len(&[65, 66, 0, 67, 0]), 2);
    assert_eq!(wide_text_len(&[65, 66]), 2);
    assert_eq!(wide_text_len(&[0]), 0);
    assert_eq!(wide_text_len(&[]), 0);
}

#[test]
fn execution_status_codes() {
    assert_eq!(DebuggerExecutionStatus::Continue.to_raw(), 1);
    assert_eq!(DebuggerExecutionStatus::StepOver.to_raw(), 4);
    assert_eq!(DebuggerExecutionStatus::StepInto.to_raw(), 5);
    assert_eq!(DebuggerExecutionStatus::Break.to_raw(), 6);
    assert_eq!(DebuggerExecutionStatus::StepToBranch.to_raw(), 8);
    for s in [
        DebuggerExecutionStatus::Break,
        DebuggerExecutionStatus::StepInto,
        DebuggerExecutionStatus::StepToBranch,
        DebuggerExecutionStatus::StepOver,
        DebuggerExecutionStatus::Continue,
    ] {
        assert!(DebuggerExecutionStatus::from_raw(s.to_raw()) == Some(s));
    }
    assert!(DebuggerExecutionStatus::from_raw(7).is_none());
    assert!(DebuggerExecutionStatus::from_raw(0).is_none());
}

#[test]
fn execution_status_from_engine_answer() {
    assert!(execution_status_from_raw(S_OK, 6).ok() == Some(DebuggerExecutionStatus::Break));
    assert!(matches!(execution_status_from_raw(S_OK, 3), Err(WinDbgError::UnknownError)));
    assert!(is_ffi(
        &execution_status_from_raw(E_FAIL, 6).err().unwrap(),
        "Unable to get current execution status",
        E_FAIL
    ));
}

fn raw(n: u32, p0: u64) -> RawStackFrame {
    RawStackFrame { instruction_offset: 0x100 + n as u64, return_offset: 0x200 + n as u64, params: [p0, 0, 0, 1], frame_number: n }
}

#[test]
fn stack_trace_keeps_filled_frames() {
    let frames = [raw(0, 0), raw(1, 7), raw(2, 9)];
    let t: StackTrace = stack_trace_from_raw(S_OK, &frames, 2).ok().unwrap();
    assert_eq!(t.len(), 2);
    assert_eq!(t.frame(1).index(), 1);
    assert_eq!(t.frame(1).instruction_offset(), 0x101);
    assert_eq!(t.frame(1).return_offset(), 0x201);
    assert_eq!(t.frame(1).params().len(), 4);
    assert_eq!(t.frame(1).params()[0].data(), &[7u8, 0, 0, 0, 0, 0, 0, 0][..]);
    assert!(t.frame(0).params()[0].is_zeroed());
    assert!(!t.frame(0).params()[3].is_zeroed());
}

#[test]
fn stack_trace_failure() {
    let e = stack_trace_from_raw(E_FAIL, &[], 0).err().unwrap();
    assert!(is_ffi(&e, "Unable to get stack frames", E_FAIL));
}

#[test]
fn state_change_flags() {
    let c = DebugeeStateChange::from_bits(0xffff_ffff).unwrap();
    assert!(c.is_complete_change());
    assert!(!DebugeeStateChange::registers().is_complete_change());
    assert!(!DebugeeStateChange::from_bits(7).unwrap().is_complete_change());
    assert_eq!(DebugeeStateChange::from_bits(0x123).unwrap().bits(), 0x123);
    assert!(DebugeeStateChange::all().contains(DebugeeStateChange::data()));
    assert!(!DebugeeStateChange::refresh().contains(DebugeeStateChange::data()));
    let WinDbgEvent::DebugeeStateChange(e) = debuggee_state_event(5);
    assert_eq!(e.bits(), 5);
}

#[test]
fn interest_flags() {
    let f = DebugEventInterestFlags::change_debuggee_state();
    assert_eq!(f.bits(), 0x400);
    assert!(DebugEventInterestFlags::from_bits(0x2000).is_none());
    let g = DebugEventInterestFlags::from_bits(0x1).unwrap();
    let u = f.union(g);
    assert_eq!(u.bits(), 0x401);
    assert!(u.contains(f));
    assert!(!g.contains(f));
}

#[test]
fn register_names() {
    assert_eq!(register_name(b"rax\0....", 4).ok().unwrap(), "rax");
    assert!(matches!(register_name(b"rax.", 4), Err(WinDbgError::UnknownError)));
    assert!(matches!(register_name(b"r\0x\0", 4), Err(WinDbgError::UnknownError)));
    assert!(matches!(register_name(b"\0", 0), Err(WinDbgError::UnknownError)));
    assert_eq!(register_name(b"\0", 1).ok().unwrap(), "");
    assert_eq!(register_name("é\0".as_bytes(), 3).ok().unwrap(), "é");
}

#[test]
fn name_text_validity() {
    assert!(is_name_text_valid(b"rax\0", 4));
    assert!(!is_name_text_valid(&[0xff, 0xfe, 0], 3));
    assert!(is_name_text_valid(&[0xff, 0xfe], 2));
    assert!(is_name_text_valid(&[0xff, 0, 0], 3));
}

#[test]
fn register_reporting() {
    assert!(register_is_reported(S_OK, 0).ok() == Some(true));
    assert!(register_is_reported(S_OK, 3).ok() == Some(false));
    assert!(is_ffi(
        &register_is_reported(S_FALSE, 0).err().unwrap(),
        "Unable to get register information",
        S_FALSE
    ));
    let r = register_from_raw(S_OK, b"rip\0", 4, 16, &[1, 2]).ok().unwrap();
    assert_eq!(r.name, "rip");
    assert_eq!(r.index, 16);
    assert_eq!(r.value.data(), &[1u8, 2][..]);
    assert!(is_ffi(
        &register_from_raw(E_FAIL, b"rip\0", 4, 16, &[1]).err().unwrap(),
        "Unable to get register value",
        E_FAIL
    ));
    assert!(matches!(register_from_raw(S_FALSE, b"rip", 3, 16, &[1]), Err(WinDbgError::UnknownError)));
}

#[test]
fn relative_addresses() {
    let a = relative_address(S_OK, 0x40_1234, 0x40_0000).ok().unwrap();
    assert_eq!(a.base, 0x40_0000);
    assert_eq!(a.displacement, 0x1234);
    let far = relative_address(S_OK, 0x1_0000_0005, 0).ok().unwrap();
    assert_eq!(far.displacement, 5);
    assert!(is_ffi(
        &relative_address(E_FAIL, 1, 0).err().unwrap(),
        "Unable to get module by offset",
        E_FAIL
    ));
}

fn reg(name: &str, v: u64) -> Register {
    Register { name: name.to_string(), index: 0, value: Value::from(v) }
}

#[test]
fn only_nonzero_registers_are_reported() {
    let kept = nonzero_registers(vec![reg("a", 0), reg("b", 2), reg("c", 0), reg("d", 9)]);
    let names: Vec<&str> = kept.iter().map(|r| r.name.as_str()).collect();
    assert_eq!(names, vec!["b", "d"]);
    assert!(nonzero_registers(Vec::new()).is_empty());
}

#[test]
fn state_change_events() {
    assert!(matches!(
        continued_event(DebuggerExecutionStatus::Continue),
        Some(DebuggerEvent::DebuggeeContinued)
    ));
    assert!(continued_event(DebuggerExecutionStatus::Break).is_none());
    let ev = stopped_event(
        RelativeAddress { base: 1, displacement: 2 },
        vec![reg("a", 0), reg("b", 1)],
        StackTrace::new(Vec::new()),
    );
    match ev {
        DebuggerEvent::DebuggeeStateChange { instruction_offset, registers, stack_trace } => {
            assert_eq!(instruction_offset.base, 1);
            assert_eq!(instruction_offset.displacement, 2);
            assert_eq!(registers.len(), 1);
            assert_eq!(registers[0].name, "b");
            assert_eq!(stack_trace.len(), 0);
        }
        DebuggerEvent::DebuggeeContinued => panic!("expected a state change"),
    }
}

#[test]
fn engine_loop_decisions() {
    let complete = WinDbgEvent::DebugeeStateChange(DebugeeStateChange::all());
    assert!(translates(&complete));
    assert!(matches!(
        engine_loop_step(EngineLoopInput::Event(Some(complete))),
        EngineLoopAction::TranslateStateChange(c) if c.bits() == 0xffff_ffff
    ));
    let partial = WinDbgEvent::DebugeeStateChange(DebugeeStateChange::registers());
    assert!(!translates(&partial));
    assert!(matches!(engine_loop_step(EngineLoopInput::Event(Some(partial))), EngineLoopAction::Wait));
    assert!(matches!(engine_loop_step(EngineLoopInput::Event(None)), EngineLoopAction::Stop));
    assert!(matches!(engine_loop_step(EngineLoopInput::Command(None)), EngineLoopAction::Stop));
    assert!(matches!(engine_loop_step(EngineLoopInput::TimedOut), EngineLoopAction::Wait));
    let req = DebuggerCommandRequest::new(4, "single_step".to_string(), serde_json::Value::Null);
    match engine_loop_step(EngineLoopInput::Command(Some(req))) {
        EngineLoopAction::Dispatch(r) => assert_eq!(r.id, 4),
        _ => panic!("expected a dispatch"),
    }
}

#[test]
fn failed_value_read_is_reported_before_the_name() {
    assert!(is_ffi(
        &register_from_raw(E_FAIL, &[0xff, 0], 2, 1, &[]).err().unwrap(),
        "Unable to get register value",
        E_FAIL
    ));
    assert!(is_ffi(
        &register_from_raw(E_FAIL, &[], 9, 1, &[]).err().unwrap(),
        "Unable to get register value",
        E_FAIL
    ));
}

#[test]
fn register_listing_skips_sub_registers_in_order() {
    let mut l = RegisterListing::start(S_OK, 3).ok().unwrap();
    assert_eq!(l.next_register(), Some(0));
    assert!(l.describe(S_OK, 0).ok().unwrap());
    assert!(l.add_value(S_OK, b"rax\0", 4, &[1]).is_ok());
    assert_eq!(l.next_register(), Some(1));
    assert!(!l.describe(S_OK, 7).ok().unwrap());
    assert_eq!(l.next_register(), Some(2));
    assert!(l.describe(S_OK, 0).ok().unwrap());
    assert!(l.add_value(S_OK, b"rip\0", 4, &[0, 2]).is_ok());
    assert_eq!(l.next_register(), None);
    let regs = l.finish();
    let listed: Vec<(u32, &str)> = regs.iter().map(|r| (r.index, r.name.as_str())).collect();
    assert_eq!(listed, vec![(0, "rax"), (2, "rip")]);
    assert_eq!(regs[1].value.data(), &[0u8, 2][..]);
}

#[test]
fn register_listing_errors() {
    assert!(is_ffi(
        &RegisterListing::start(E_FAIL, 3).err().unwrap(),
        "Unable to determine nmber of registers",
        E_FAIL
    ));
    let mut l = RegisterListing::start(S_OK, 1).ok().unwrap();
    assert!(is_ffi(
        &l.describe(S_FALSE, 0).err().unwrap(),
        "Unable to get register information",
        S_FALSE
    ));
    assert!(l.describe(S_OK, 0).ok().unwrap());
    assert!(is_ffi(
        &l.add_value(E_FAIL, &[], 0, &[]).err().unwrap(),
        "Unable to get register value",
        E_FAIL
    ));
    assert!(matches!(l.add_value(S_OK, b"ab", 2, &[]), Err(WinDbgError::UnknownError)));
}

#[test]
fn empty_register_listing() {
    let l = RegisterListing::start(S_OK, 0).ok().unwrap();
    assert_eq!(l.next_register(), None);
    assert!(l.finish().is_empty());
}

fn wide(s: &str) -> Vec<u16> {
    s.encode_utf16().collect()
}

#[test]
fn os_error_message_from_system_text() {
    let mut buf = wide("The parameter is incorrect.\r\n");
    buf.push(0);
    buf.extend(wide("junk"));
    assert_eq!(os_error_message(87, 29, &buf), "The parameter is incorrect.");
    let no_zero = wide("Access denied \u{3000}\u{a0}");
    assert_eq!(os_error_message(5, 16, &no_zero), "Access denied");
    let astral = wide("\u{1F600} x ");
    assert_eq!(os_error_message(1, 4, &astral), "\u{1F600} x");
}

#[test]
fn os_error_message_fallbacks() {
    assert_eq!(
        os_error_message(E_FAIL, 0, &[65, 0]),
        "OS Error -2147467259 (FormatMessageW() returned error)"
    );
    assert_eq!(
        os_error_message(42, 3, &[0xD800, 65, 0]),
        "OS Error 42 (FormatMessageW() returned invalid UTF-16)"
    );
    assert_eq!(
        os_error_message(i32::MIN, 0, &[]),
        "OS Error -2147483648 (FormatMessageW() returned error)"
    );
}
