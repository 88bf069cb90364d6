//! Failures that the native side reports, as host values: a bare
//! success flag that becomes a `Result`, and a structured error that keeps
//! its domain, code and message.

use crate::translate::{c_text, from_c_string, host_flag};
use vstd::prelude::*;
use vstd::string::*;

verus! {

/// The failure of a native call that reports nothing but a flag.
#[derive(Clone, Debug, PartialEq, Eq)]
pub struct BoolError {
    /// What the binding says the failure means.
    pub message: String,
}

/// Turns the success flag of a native call into a `Result`: zero is the
/// failure, which carries `message`; anything else is success.
pub fn result_from_gboolean(native: i32, message: &str) -> (result: Result<(), BoolError>)
    ensures
        result is Ok <==> host_flag(native as int),
        result matches Err(e) ==> e.message@ == message@,
{
    if native == 0 {
        Err(BoolError { message: String::from_str(message) })
    } else {
        Ok(())
    }
}

/// An error object of the native side: the domain it belongs to, its code
/// within the domain, and the bytes of its message.
#[derive(Clone, Debug, PartialEq, Eq)]
pub struct NativeError {
    pub domain: u32,
    pub code: i32,
    pub message: Vec<u8>,
}

impl NativeError {
    /// Takes a native error over. `message` is the native buffer: the
    /// message is what it holds before its first NUL.
    pub fn from_raw(domain: u32, code: i32, message: &[u8]) -> (error: NativeError)
        ensures
            error.domain == domain,
            error.code == code,
            error.message@ == c_text(message@),
    {
        NativeError { domain, code, message: from_c_string(message) }
    }

    /// Whether the error is the one that `domain` numbers `code`.
    pub fn matches(&self, domain: u32, code: i32) -> (same: bool)
        ensures
            same == (self.domain == domain && self.code == code),
    {
        self.domain == domain && self.code == code
    }
}

} // verus!
