//! Errors of the application.

use vstd::prelude::*;

verus! {

/// Errors of the application.
pub enum AppError {
    HaltError,
}

impl AppError {
    /// The error's message.
    pub fn message(&self) -> (r: String)
        ensures
            r@ == "halt"@,
    {
        match self {
            AppError::HaltError => "halt".to_owned(),
        }
    }
}

} // verus!
