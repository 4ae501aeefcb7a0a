//! The two ways of carrying out an operation, and the choice between them.
//!
//! A build has exactly one backend, and every operation of that build goes
//! through it. Inline emission places the instruction at the call site. A stub
//! call enters a routine, assembled apart, whose whole body is that same
//! instruction. Either way the instruction has to be executed once, where the
//! call stands. The two backends owe that by different means: an emitted
//! instruction is marked volatile, and a call into a routine that the compiler
//! cannot see into is not the compiler's to remove or to move.

use vstd::prelude::*;
use crate::operation::Operation;

verus! {

/// The mechanism that a build uses to execute instructions.
#[derive(Clone, Copy, Debug, PartialEq, Eq, Structural)]
pub enum Backend {
    /// The instruction is emitted at the call site.
    InlineEmission,
    /// A routine that holds the instruction is called.
    StubCall,
}

/// Why no backend could be selected.
#[derive(Clone, Copy, Debug, PartialEq, Eq, Structural)]
pub enum SelectError {
    /// Inline emission was asked for, and the toolchain cannot emit assembly.
    EmissionUnavailable,
}

/// What has to be done to carry out an operation.
#[derive(Clone, Copy, Debug, PartialEq, Eq, Structural)]
pub enum Action {
    /// Emit the instruction of this operation at the call site.
    Emit(Operation),
    /// Call the routine that holds the instruction of this operation.
    CallStub(Operation),
}

impl Backend {
    /// The backend of a build that asks for `requested`: that backend, unless
    /// it is inline emission and assembly cannot be emitted.
    pub open spec fn spec_select(requested: Backend, emission_available: bool) -> Result<
        Backend,
        SelectError,
    > {
        if requested is InlineEmission && !emission_available {
            Err(SelectError::EmissionUnavailable)
        } else {
            Ok(requested)
        }
    }

    /// Whether the backend offers the operation. The emulator breakpoint has
    /// no routine to call; everything else is offered by both.
    pub open spec fn spec_supports(self, operation: Operation) -> bool {
        self is InlineEmission || operation != Operation::DebuggerBreakpoint
    }

    /// Settles the backend of a build.
    ///
    /// The build gets the backend that it asks for or none at all: asking for
    /// inline emission where assembly cannot be emitted is an error, and never
    /// answered with the stub backend, whose guarantee of volatility rests on
    /// another mechanism.
    pub fn select(requested: Backend, emission_available: bool) -> (selected: Result<
        Backend,
        SelectError,
    >)
        ensures
            selected == Self::spec_select(requested, emission_available),
            selected is Ok ==> selected == Ok::<Backend, SelectError>(requested),
            selected is Err <==> requested is InlineEmission && !emission_available,
    {
        match requested {
            Backend::InlineEmission => {
                if emission_available {
                    Ok(Backend::InlineEmission)
                } else {
                    Err(SelectError::EmissionUnavailable)
                }
            },
            Backend::StubCall => Ok(Backend::StubCall),
        }
    }

    /// Whether the backend offers the operation.
    pub fn supports(self, operation: Operation) -> (yes: bool)
        ensures
            yes == self.spec_supports(operation),
    {
        match self {
            Backend::InlineEmission => true,
            Backend::StubCall => match operation {
                Operation::DebuggerBreakpoint => false,
                _ => true,
            },
        }
    }
}

impl Action {
    /// The operation that the action carries out.
    pub open spec fn spec_operation(self) -> Operation {
        match self {
            Action::Emit(operation) => operation,
            Action::CallStub(operation) => operation,
        }
    }

    /// The backend that the action belongs to.
    pub open spec fn spec_backend(self) -> Backend {
        match self {
            Action::Emit(_) => Backend::InlineEmission,
            Action::CallStub(_) => Backend::StubCall,
        }
    }

    /// The operation that the action carries out.
    pub fn operation(self) -> (operation: Operation)
        ensures
            operation == self.spec_operation(),
    {
        match self {
            Action::Emit(operation) => operation,
            Action::CallStub(operation) => operation,
        }
    }

    /// The backend that the action belongs to.
    pub fn backend(self) -> (backend: Backend)
        ensures
            backend == self.spec_backend(),
    {
        match self {
            Action::Emit(_) => Backend::InlineEmission,
            Action::CallStub(_) => Backend::StubCall,
        }
    }
}

/// The action by which `backend` carries out `operation`, or `None` where it
/// does not offer the operation.
pub open spec fn spec_dispatch(backend: Backend, operation: Operation) -> Option<Action> {
    if !backend.spec_supports(operation) {
        None
    } else if backend is InlineEmission {
        Some(Action::Emit(operation))
    } else {
        Some(Action::CallStub(operation))
    }
}

/// Hands an operation to the backend of the build.
///
/// The result is the one action that executes the instruction of `operation`
/// by the mechanism of `backend`, and `None` exactly where the backend does
/// not offer the operation. Nothing else enters the decision.
pub fn dispatch(backend: Backend, operation: Operation) -> (action: Option<Action>)
    ensures
        action == spec_dispatch(backend, operation),
        action is Some <==> backend.spec_supports(operation),
        action matches Some(a) ==> a.spec_operation() == operation && a.spec_backend() == backend,
{
    if !backend.supports(operation) {
        return None;
    }
    match backend {
        Backend::InlineEmission => Some(Action::Emit(operation)),
        Backend::StubCall => Some(Action::CallStub(operation)),
    }
}

/// Where both backends offer an operation, they execute the same instruction
/// for it: each has an action, and the two actions carry out operations with
/// one and the same mnemonic.
pub proof fn lemma_backends_agree(operation: Operation)
    requires
        Backend::InlineEmission.spec_supports(operation),
        Backend::StubCall.spec_supports(operation),
    ensures
        ({
            &&& spec_dispatch(Backend::InlineEmission, operation) matches Some(emit)
            &&& spec_dispatch(Backend::StubCall, operation) matches Some(call)
            &&& emit.spec_operation().spec_mnemonic() == call.spec_operation().spec_mnemonic()
        }),
{
}

/// The two backends offer the same operations, but for the emulator
/// breakpoint, which only inline emission has; so every operation is offered
/// by at least one backend.
pub proof fn lemma_backends_offer(operation: Operation)
    ensures
        Backend::InlineEmission.spec_supports(operation),
        Backend::StubCall.spec_supports(operation) <==> operation != Operation::DebuggerBreakpoint,
{
}

} // verus!
