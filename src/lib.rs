//! Error taxonomy and resource budget for running untrusted contract code
//! on the wasmi interpreter.

pub mod config;
pub mod dispatch;
pub mod error;

pub use config::{Config, ExecutionParams, GasCounter};
pub use error::{Error, InterpreterErrorKind, PrepareError, RuntimeError, TrapCode};
