//! The library's error type.
use vstd::prelude::*;

verus! {

#[derive(Debug)]
pub enum BlastError {
    /// The input breaks a rule of the generator; the message says which.
    Invalid(String),
    /// A built-in search pattern failed to compile.
    Pattern,
    /// A looked-up name does not exist; the payload is the name.
    NotFound(String),
    /// An external command failed: the command line and what went wrong.
    Subprocess { cmd: String, detail: String },
}

} // verus!
