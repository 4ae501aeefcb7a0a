use x86_instructions::backend::{dispatch, Action, Backend, SelectError};
use x86_instructions::operation::{Operation, Segment};

fn shared_operations() -> Vec<Operation> {
    vec![
        Operation::Halt,
        Operation::NoOp,
        Operation::ReadInstructionPointer,
        Operation::WriteSegmentBase(Segment::Fs),
        Operation::WriteSegmentBase(Segment::Gs),
        Operation::ReadSegmentBase(Segment::Fs),
        Operation::ReadSegmentBase(Segment::Gs),
    ]
}

#[test]
fn inline_emission_is_selected_where_assembly_can_be_emitted() {
    assert_eq!(Backend::select(Backend::InlineEmission, true), Ok(Backend::InlineEmission));
}

#[test]
fn inline_emission_without_assembly_is_an_error() {
    assert_eq!(
        Backend::select(Backend::InlineEmission, false),
        Err(SelectError::EmissionUnavailable)
    );
}

#[test]
fn stub_call_is_selected_whatever_the_toolchain_emits() {
    assert_eq!(Backend::select(Backend::StubCall, true), Ok(Backend::StubCall));
    assert_eq!(Backend::select(Backend::StubCall, false), Ok(Backend::StubCall));
}

#[test]
fn selection_never_falls_back_to_the_other_backend() {
    for requested in [Backend::InlineEmission, Backend::StubCall] {
        for emission_available in [false, true] {
            if let Ok(selected) = Backend::select(requested, emission_available) {
                assert_eq!(selected, requested);
            }
        }
    }
}

#[test]
fn inline_emission_offers_every_operation() {
    for operation in shared_operations() {
        assert!(Backend::InlineEmission.supports(operation));
    }
    assert!(Backend::InlineEmission.supports(Operation::DebuggerBreakpoint));
}

#[test]
fn stub_call_offers_everything_but_the_breakpoint() {
    for operation in shared_operations() {
        assert!(Backend::StubCall.supports(operation));
    }
    assert!(!Backend::StubCall.supports(Operation::DebuggerBreakpoint));
}

#[test]
fn dispatch_to_inline_emission_emits() {
    assert_eq!(
        dispatch(Backend::InlineEmission, Operation::Halt),
        Some(Action::Emit(Operation::Halt))
    );
    assert_eq!(
        dispatch(Backend::InlineEmission, Operation::DebuggerBreakpoint),
        Some(Action::Emit(Operation::DebuggerBreakpoint))
    );
    assert_eq!(
        dispatch(Backend::InlineEmission, Operation::WriteSegmentBase(Segment::Gs)),
        Some(Action::Emit(Operation::WriteSegmentBase(Segment::Gs)))
    );
}

#[test]
fn dispatch_to_stub_call_calls() {
    assert_eq!(
        dispatch(Backend::StubCall, Operation::NoOp),
        Some(Action::CallStub(Operation::NoOp))
    );
    assert_eq!(
        dispatch(Backend::StubCall, Operation::ReadSegmentBase(Segment::Fs)),
        Some(Action::CallStub(Operation::ReadSegmentBase(Segment::Fs)))
    );
}

#[test]
fn dispatch_of_the_breakpoint_to_stub_call_is_refused() {
    assert_eq!(dispatch(Backend::StubCall, Operation::DebuggerBreakpoint), None);
}

#[test]
fn an_action_knows_its_operation_and_backend() {
    let emit = Action::Emit(Operation::ReadInstructionPointer);
    assert_eq!(emit.operation(), Operation::ReadInstructionPointer);
    assert_eq!(emit.backend(), Backend::InlineEmission);
    let call = Action::CallStub(Operation::WriteSegmentBase(Segment::Fs));
    assert_eq!(call.operation(), Operation::WriteSegmentBase(Segment::Fs));
    assert_eq!(call.backend(), Backend::StubCall);
}

#[test]
fn both_backends_execute_the_same_instruction() {
    for operation in shared_operations() {
        let inline = dispatch(Backend::InlineEmission, operation).unwrap();
        let stub = dispatch(Backend::StubCall, operation).unwrap();
        assert_eq!(inline.backend(), Backend::InlineEmission);
        assert_eq!(stub.backend(), Backend::StubCall);
        assert_eq!(inline.operation(), operation);
        assert_eq!(stub.operation(), operation);
        assert_eq!(inline.operation().mnemonic(), stub.operation().mnemonic());
    }
}
