//! The kernel-side error type.

use vstd::prelude::*;
use crate::text::owned;

verus! {

/// Errors raised by kernel components.
#[derive(Debug)]
pub enum AvixError {
    ConfigParse(String),
    NotFound(String),
    Io(String),
    IpcTimeout,
    CapabilityDenied(String),
    InvalidInput(String),
}

/// The text an error is reported with: its message, or a fixed sentence
/// for a timed-out IPC call.
pub open spec fn error_text_spec(e: AvixError) -> Seq<char> {
    match e {
        AvixError::ConfigParse(m) => m@,
        AvixError::NotFound(m) => m@,
        AvixError::Io(m) => m@,
        AvixError::IpcTimeout => "IPC call timed out"@,
        AvixError::CapabilityDenied(m) => m@,
        AvixError::InvalidInput(m) => m@,
    }
}

/// The text `e` is reported with.
pub fn error_text(e: &AvixError) -> (t: String)
    ensures
        t@ == error_text_spec(*e),
{
    match e {
        AvixError::ConfigParse(m) => m.clone(),
        AvixError::NotFound(m) => m.clone(),
        AvixError::Io(m) => m.clone(),
        AvixError::IpcTimeout => owned("IPC call timed out"),
        AvixError::CapabilityDenied(m) => m.clone(),
        AvixError::InvalidInput(m) => m.clone(),
    }
}

} // verus!
