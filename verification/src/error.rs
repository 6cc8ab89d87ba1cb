//! The errors of the stack's commands.

use vstd::prelude::*;

verus! {

/// Why a command failed.
pub enum LekStackError {
    /// A file-system operation failed; the text says how.
    IoError(String),
    /// The command cannot be carried out; the text says why.
    RuntimeError(String),
}

impl LekStackError {
    /// The text of the error.
    pub fn message(&self) -> (r: String)
        ensures
            r@ == match self {
                LekStackError::IoError(m) => m@,
                LekStackError::RuntimeError(m) => m@,
            },
    {
        match self {
            LekStackError::IoError(m) => m.clone(),
            LekStackError::RuntimeError(m) => m.clone(),
        }
    }
}

} // verus!
