use vstd::prelude::*;
use vstd::std_specs::convert::FromSpec;
use wasmi::{Error as WasmiError, TrapKind};

verus! {

/// Reason a module could not be made ready for execution.
#[derive(Debug, PartialEq, Eq, Structural)]
pub enum PrepareError {
    /// Error happened while serializing the module.
    Serialization,
    /// Error happened while deserializing the module.
    Deserialization,
    /// Internal memory declaration has been found in the module.
    InternalMemoryDeclared,
    /// Gas instrumentation failed; most likely the module is not valid.
    GasInstrumentation,
    /// Stack instrumentation failed; most likely the module is not valid.
    StackHeightInstrumentation,
    /// Error happened during invocation of the contract's entrypoint.
    Invoke,
    /// The module could not be instantiated or linked, or its `start` function trapped.
    Instantiate,
    /// The memory import has an invalid descriptor or asks for too much.
    Memory,
}


/// Abnormal termination of a contract while it runs.
#[derive(Debug, Clone, PartialEq)]
pub enum RuntimeError {
    /// Storage read error
    StorageReadError,
    /// Storage update error
    StorageUpdateError,
    /// Memory access violation
    MemoryAccessViolation,
    /// Native code returned incorrect value
    InvalidReturn,
    /// Invalid gas state inside interpreter
    InvalidGasState,
    /// Query of the balance resulted in an error
    BalanceQueryError,
    /// Failed allocation
    AllocationFailed,
    /// Gas limit reached
    GasLimit,
    /// Unknown runtime function
    Unknown,
    /// Passed string had invalid utf-8 encoding
    BadUtf8,
    /// Log event error
    Log,
    /// Other error in native code
    Other,
    /// Syscall signature mismatch
    InvalidSyscall,
    /// Unreachable instruction encountered
    Unreachable,
    /// Invalid virtual call
    InvalidVirtualCall,
    /// Division by zero
    DivisionByZero,
    /// Invalid conversion to integer
    InvalidConversionToInt,
    /// Stack overflow
    StackOverflow,
    /// Panic with message
    Panic(String),
}

/// The text shown for a runtime error.
pub open spec fn runtime_error_text(e: RuntimeError) -> Seq<char> {
    match e {
        RuntimeError::StorageReadError => "Storage read error"@,
        RuntimeError::StorageUpdateError => "Storage update error"@,
        RuntimeError::MemoryAccessViolation => "Memory access violation"@,
        RuntimeError::InvalidGasState => "Invalid gas state"@,
        RuntimeError::BalanceQueryError => "Balance query resulted in an error"@,
        RuntimeError::InvalidReturn => "Invalid return value"@,
        RuntimeError::Unknown => "Unknown runtime function invoked"@,
        RuntimeError::AllocationFailed => "Memory allocation failed (OOM)"@,
        RuntimeError::BadUtf8 => "String encoding is bad utf-8 sequence"@,
        RuntimeError::GasLimit => "Invocation resulted in gas limit violated"@,
        RuntimeError::Log => "Error occured while logging an event"@,
        RuntimeError::InvalidSyscall => "Invalid syscall signature encountered at runtime"@,
        RuntimeError::Other => "Other unspecified error"@,
        RuntimeError::Unreachable => "Unreachable instruction encountered"@,
        RuntimeError::InvalidVirtualCall => "Invalid virtual call"@,
        RuntimeError::DivisionByZero => "Division by zero"@,
        RuntimeError::StackOverflow => "Stack overflow"@,
        RuntimeError::InvalidConversionToInt => "Invalid conversion to integer"@,
        RuntimeError::Panic(msg) => "Panic: "@ + msg@,
    }
}

impl RuntimeError {
    /// Human-readable description of the error, for diagnostics.
    pub fn message(&self) -> (r: String)
        ensures
            r@ == runtime_error_text(*self),
    {
        match self {
            RuntimeError::StorageReadError => String::from_str("Storage read error"),
            RuntimeError::StorageUpdateError => String::from_str("Storage update error"),
            RuntimeError::MemoryAccessViolation => String::from_str("Memory access violation"),
            RuntimeError::InvalidGasState => String::from_str("Invalid gas state"),
            RuntimeError::BalanceQueryError => String::from_str(
                "Balance query resulted in an error",
            ),
            RuntimeError::InvalidReturn => String::from_str("Invalid return value"),
            RuntimeError::Unknown => String::from_str("Unknown runtime function invoked"),
            RuntimeError::AllocationFailed => String::from_str("Memory allocation failed (OOM)"),
            RuntimeError::BadUtf8 => String::from_str("String encoding is bad utf-8 sequence"),
            RuntimeError::GasLimit => String::from_str(
                "Invocation resulted in gas limit violated",
            ),
            RuntimeError::Log => String::from_str("Error occured while logging an event"),
            RuntimeError::InvalidSyscall => String::from_str(
                "Invalid syscall signature encountered at runtime",
            ),
            RuntimeError::Other => String::from_str("Other unspecified error"),
            RuntimeError::Unreachable => String::from_str("Unreachable instruction encountered"),
            RuntimeError::InvalidVirtualCall => String::from_str("Invalid virtual call"),
            RuntimeError::DivisionByZero => String::from_str("Division by zero"),
            RuntimeError::StackOverflow => String::from_str("Stack overflow"),
            RuntimeError::InvalidConversionToInt => String::from_str(
                "Invalid conversion to integer",
            ),
            RuntimeError::Panic(msg) => String::from_str("Panic: ").concat(msg.as_str()),
        }
    }
}

/// The kind of a wasmi trap, with the host's payload left out.
#[derive(Clone, Copy, Debug, PartialEq, Eq, Structural)]
pub enum TrapCode {
    /// The `unreachable` instruction was executed.
    Unreachable,
    /// A load or store outside the bounds of linear memory.
    MemoryAccessOutOfBounds,
    /// A table index outside the bounds of the table.
    TableAccessOutOfBounds,
    /// A table element that was never initialized.
    ElemUninitialized,
    /// Integer division or remainder by zero.
    DivisionByZero,
    /// A conversion to an integer that cannot be represented.
    InvalidConversionToInt,
    /// The call stack grew too deep.
    StackOverflow,
    /// A function was invoked with a mismatching signature.
    UnexpectedSignature,
    /// A fault raised by a host function.
    Host,
}

/// The runtime error that a trap of kind `k` is reported as.
pub open spec fn trap_error(k: TrapCode) -> RuntimeError {
    match k {
        TrapCode::Unreachable => RuntimeError::Unreachable,
        TrapCode::MemoryAccessOutOfBounds => RuntimeError::MemoryAccessViolation,
        TrapCode::TableAccessOutOfBounds => RuntimeError::InvalidVirtualCall,
        TrapCode::ElemUninitialized => RuntimeError::InvalidVirtualCall,
        TrapCode::DivisionByZero => RuntimeError::DivisionByZero,
        TrapCode::InvalidConversionToInt => RuntimeError::InvalidConversionToInt,
        TrapCode::UnexpectedSignature => RuntimeError::InvalidVirtualCall,
        TrapCode::StackOverflow => RuntimeError::StackOverflow,
        TrapCode::Host => RuntimeError::Other,
    }
}

impl From<TrapCode> for RuntimeError {
    fn from(k: TrapCode) -> (r: RuntimeError)
        ensures
            r == trap_error(k),
    {
        match k {
            TrapCode::Unreachable => RuntimeError::Unreachable,
            TrapCode::MemoryAccessOutOfBounds => RuntimeError::MemoryAccessViolation,
            TrapCode::TableAccessOutOfBounds | TrapCode::ElemUninitialized => {
                RuntimeError::InvalidVirtualCall
            },
            TrapCode::DivisionByZero => RuntimeError::DivisionByZero,
            TrapCode::InvalidConversionToInt => RuntimeError::InvalidConversionToInt,
            TrapCode::UnexpectedSignature => RuntimeError::InvalidVirtualCall,
            TrapCode::StackOverflow => RuntimeError::StackOverflow,
            TrapCode::Host => RuntimeError::Other,
        }
    }
}

impl vstd::std_specs::convert::FromSpecImpl<TrapCode> for RuntimeError {
    open spec fn obeys_from_spec() -> bool {
        true
    }

    open spec fn from_spec(k: TrapCode) -> RuntimeError {
        trap_error(k)
    }
}


/// The class of a wasmi interpreter error, with its payload left out.
#[derive(Clone, Copy, Debug, PartialEq, Eq, Structural)]
pub enum InterpreterErrorKind {
    /// Module validation error.
    Validation,
    /// Instantiation or linkage error.
    Instantiation,
    /// Function-level error.
    Function,
    /// Table-level error.
    Table,
    /// Memory-level error.
    Memory,
    /// Global-level error.
    Global,
    /// Value-level error.
    Value,
    /// A trap.
    Trap,
    /// An error raised by the embedder.
    Host,
}

/// The runtime error that an interpreter error of class `k` is reported as.
pub open spec fn interpreter_error(k: InterpreterErrorKind) -> RuntimeError {
    match k {
        InterpreterErrorKind::Value => RuntimeError::InvalidSyscall,
        InterpreterErrorKind::Memory => RuntimeError::MemoryAccessViolation,
        _ => RuntimeError::Other,
    }
}

impl From<InterpreterErrorKind> for RuntimeError {
    fn from(k: InterpreterErrorKind) -> (r: RuntimeError)
        ensures
            r == interpreter_error(k),
    {
        match k {
            InterpreterErrorKind::Value => RuntimeError::InvalidSyscall,
            InterpreterErrorKind::Memory => RuntimeError::MemoryAccessViolation,
            _ => RuntimeError::Other,
        }
    }
}

impl vstd::std_specs::convert::FromSpecImpl<InterpreterErrorKind> for RuntimeError {
    open spec fn obeys_from_spec() -> bool {
        true
    }

    open spec fn from_spec(k: InterpreterErrorKind) -> RuntimeError {
        interpreter_error(k)
    }
}

#[verifier::external_type_specification]
#[verifier::external_body]
pub struct ExTrap(wasmi::Trap);

#[verifier::external_type_specification]
#[verifier::external_body]
pub struct ExInterpreterError(WasmiError);

/// The kind that a wasmi trap carries.
pub uninterp spec fn trap_code_of(t: wasmi::Trap) -> TrapCode;

/// The variant of a wasmi interpreter error.
pub uninterp spec fn interpreter_error_kind_of(e: WasmiError) -> InterpreterErrorKind;

/// Relies on wasmi's `Trap::kind`, which hands back the kind the trap was made with.
#[verifier::external_body]
fn trap_code(trap: &wasmi::Trap) -> (r: TrapCode)
    ensures
        r == trap_code_of(*trap),
{
    match trap.kind() {
        TrapKind::Unreachable => TrapCode::Unreachable,
        TrapKind::MemoryAccessOutOfBounds => TrapCode::MemoryAccessOutOfBounds,
        TrapKind::TableAccessOutOfBounds => TrapCode::TableAccessOutOfBounds,
        TrapKind::ElemUninitialized => TrapCode::ElemUninitialized,
        TrapKind::DivisionByZero => TrapCode::DivisionByZero,
        TrapKind::InvalidConversionToInt => TrapCode::InvalidConversionToInt,
        TrapKind::StackOverflow => TrapCode::StackOverflow,
        TrapKind::UnexpectedSignature => TrapCode::UnexpectedSignature,
        TrapKind::Host(_) => TrapCode::Host,
    }
}

/// Relies on the variants of wasmi's `Error` enum: tells which one `err` is.
#[verifier::external_body]
fn interpreter_error_kind(err: &WasmiError) -> (r: InterpreterErrorKind)
    ensures
        r == interpreter_error_kind_of(*err),
{
    match err {
        WasmiError::Validation(_) => InterpreterErrorKind::Validation,
        WasmiError::Instantiation(_) => InterpreterErrorKind::Instantiation,
        WasmiError::Function(_) => InterpreterErrorKind::Function,
        WasmiError::Table(_) => InterpreterErrorKind::Table,
        WasmiError::Memory(_) => InterpreterErrorKind::Memory,
        WasmiError::Global(_) => InterpreterErrorKind::Global,
        WasmiError::Value(_) => InterpreterErrorKind::Value,
        WasmiError::Trap(_) => InterpreterErrorKind::Trap,
        WasmiError::Host(_) => InterpreterErrorKind::Host,
    }
}

impl From<wasmi::Trap> for RuntimeError {
    fn from(trap: wasmi::Trap) -> (r: RuntimeError)
        ensures
            r == trap_error(trap_code_of(trap)),
    {
        RuntimeError::from(trap_code(&trap))
    }
}

impl vstd::std_specs::convert::FromSpecImpl<wasmi::Trap> for RuntimeError {
    open spec fn obeys_from_spec() -> bool {
        true
    }

    open spec fn from_spec(t: wasmi::Trap) -> RuntimeError {
        trap_error(trap_code_of(t))
    }
}

impl From<WasmiError> for RuntimeError {
    fn from(err: WasmiError) -> (r: RuntimeError)
        ensures
            r == interpreter_error(interpreter_error_kind_of(err)),
    {
        RuntimeError::from(interpreter_error_kind(&err))
    }
}

impl vstd::std_specs::convert::FromSpecImpl<WasmiError> for RuntimeError {
    open spec fn obeys_from_spec() -> bool {
        true
    }

    open spec fn from_spec(e: WasmiError) -> RuntimeError {
        interpreter_error(interpreter_error_kind_of(e))
    }
}

/// Failure of one contract invocation, as reported to the host.
#[derive(Debug)]
pub enum Error {
    /// Method name can't be decoded to UTF8.
    BadUtf8,
    /// Method name is empty.
    EmptyMethodName,
    /// Method is private, because it starts with '_'.
    PrivateMethod,
    /// The contract failed while it ran.
    Runtime(RuntimeError),
    /// The module could not be made ready for execution.
    Prepare(PrepareError),
    /// An interpreter error that is not classified further.
    Interpreter(WasmiError),
    /// A trap that is not classified further.
    Trap(wasmi::Trap),
}

impl From<WasmiError> for Error {
    fn from(e: WasmiError) -> (r: Error)
        ensures
            r == Error::Interpreter(e),
    {
        Error::Interpreter(e)
    }
}

impl vstd::std_specs::convert::FromSpecImpl<WasmiError> for Error {
    open spec fn obeys_from_spec() -> bool {
        true
    }

    open spec fn from_spec(e: WasmiError) -> Error {
        Error::Interpreter(e)
    }
}

impl From<wasmi::Trap> for Error {
    fn from(e: wasmi::Trap) -> (r: Error)
        ensures
            r == Error::Trap(e),
    {
        Error::Trap(e)
    }
}

impl vstd::std_specs::convert::FromSpecImpl<wasmi::Trap> for Error {
    open spec fn obeys_from_spec() -> bool {
        true
    }

    open spec fn from_spec(e: wasmi::Trap) -> Error {
        Error::Trap(e)
    }
}

impl From<RuntimeError> for Error {
    fn from(e: RuntimeError) -> (r: Error)
        ensures
            r == Error::Runtime(e),
    {
        Error::Runtime(e)
    }
}

impl vstd::std_specs::convert::FromSpecImpl<RuntimeError> for Error {
    open spec fn obeys_from_spec() -> bool {
        true
    }

    open spec fn from_spec(e: RuntimeError) -> Error {
        Error::Runtime(e)
    }
}

/// Every trap kind is reported as exactly one of the runtime errors that
/// stand for interpreter faults, and never as a panic.
pub proof fn lemma_trap_translation_total(k: TrapCode)
    ensures
        trap_error(k) is Unreachable || trap_error(k) is MemoryAccessViolation || trap_error(
            k,
        ) is InvalidVirtualCall || trap_error(k) is DivisionByZero || trap_error(
            k,
        ) is InvalidConversionToInt || trap_error(k) is StackOverflow || trap_error(k) is Other,
        !(trap_error(k) is Panic),
{
}

/// Translating a trap depends on its kind alone: two traps of one kind are
/// reported as equal runtime errors.
pub proof fn lemma_trap_translation_deterministic(t1: wasmi::Trap, t2: wasmi::Trap)
    requires
        trap_code_of(t1) == trap_code_of(t2),
    ensures
        <RuntimeError as FromSpec<wasmi::Trap>>::from_spec(t1) == <RuntimeError as FromSpec<
            wasmi::Trap,
        >>::from_spec(t2),
{
}

/// Translating an interpreter error depends on its class alone: two errors of
/// one class are reported as equal runtime errors.
pub proof fn lemma_interpreter_translation_deterministic(e1: WasmiError, e2: WasmiError)
    requires
        interpreter_error_kind_of(e1) == interpreter_error_kind_of(e2),
    ensures
        <RuntimeError as FromSpec<WasmiError>>::from_spec(e1) == <RuntimeError as FromSpec<
            WasmiError,
        >>::from_spec(e2),
{
}

/// Wrapping a runtime or preparation error into the top-level error keeps it:
/// matching on the wrapper gives back the value that went in.
pub proof fn lemma_wrapping_preserves_inner(r: RuntimeError, p: PrepareError)
    ensures
        (<Error as FromSpec<RuntimeError>>::from_spec(r) matches Error::Runtime(x) && x == r),
        (Error::Prepare(p) matches Error::Prepare(y) && y == p),
{
}

} // verus!
