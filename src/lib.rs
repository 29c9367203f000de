//! The base library of a small scripting-language runtime: the host functions
//! `print`, `error` and `pcall`, the callback and continuation machinery they
//! run on, and the error-as-value channel that `pcall` uses to turn failures
//! back into ordinary data.
//!
//! Calls run on a stepper (`machine`) that the host drives: it performs the
//! output that `print` asks for and runs script functions, and reports back.
//! A script function may not suspend while a protected call waits on it: the
//! attempt fails with a runtime error inside that call, which the protected
//! call then catches like any other failure.

pub mod value;
pub mod error;
pub mod sequence;
pub mod base;
pub mod laws;
pub mod machine;
pub mod globals;
