use vstd::prelude::*;

verus! {

/// The engine's answer to a parse request.
#[derive(PartialEq, Eq, Structural, Clone, Copy, Debug)]
pub enum ErrorCode {
    Success,
    Failure,
    Crashed,
    InvalidArguments,
    ASTReadError,
}

/// The engine's native code for each answer; no other code is defined.
pub open spec fn error_code_of(code: i32) -> Option<ErrorCode> {
    if code == 0 {
        Some(ErrorCode::Success)
    } else if code == 1 {
        Some(ErrorCode::Failure)
    } else if code == 2 {
        Some(ErrorCode::Crashed)
    } else if code == 3 {
        Some(ErrorCode::InvalidArguments)
    } else if code == 4 {
        Some(ErrorCode::ASTReadError)
    } else {
        None
    }
}

impl ErrorCode {
    /// Maps the engine's native code onto its answer; `None` for a code the
    /// engine does not define, which means the engine and this library
    /// disagree on the interface.
    pub fn from_code(code: i32) -> (r: Option<ErrorCode>)
        ensures
            r == error_code_of(code),
    {
        match code {
            0 => Some(ErrorCode::Success),
            1 => Some(ErrorCode::Failure),
            2 => Some(ErrorCode::Crashed),
            3 => Some(ErrorCode::InvalidArguments),
            4 => Some(ErrorCode::ASTReadError),
            _ => None,
        }
    }
}

} // verus!
