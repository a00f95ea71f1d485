//! Success-or-error results returned across the C boundary.

use vstd::prelude::*;
use crate::cstr::{c_string_content, spec_c_string_content};

verus! {

/// Outcome of a fallible call: `success`, and on failure the error text
/// (as the C string that the caller receives and later frees).
#[derive(Debug, PartialEq, Eq)]
pub struct HelioResult {
    pub success: bool,
    pub error_message: Option<String>,
}

impl HelioResult {
    /// Whether this result is a success that carries no message.
    pub open spec fn is_ok_result(self) -> bool {
        self.success && self.error_message is None
    }

    /// Whether this result is a failure whose message reads `text`.
    pub open spec fn is_err_result(self, text: Seq<char>) -> bool {
        !self.success && self.error_message is Some && self.error_message->0@
            == spec_c_string_content(text)
    }

    /// A success.
    pub fn ok() -> (r: HelioResult)
        ensures
            r.is_ok_result(),
            r.success,
            r.error_message is None,
    {
        HelioResult { success: true, error_message: None }
    }

    /// A failure carrying `msg` (empty if `msg` holds a NUL byte).
    pub fn err(msg: &str) -> (r: HelioResult)
        ensures
            r.is_err_result(msg@),
            !r.success,
            !msg@.contains('\0') ==> (r.error_message matches Some(m) && m@ == msg@),
            msg@.contains('\0') ==> (r.error_message matches Some(m) && m@.len() == 0),
    {
        HelioResult { success: false, error_message: Some(c_string_content(msg)) }
    }

    /// The result of an engine call: success for `Ok`, and for `Err` a
    /// failure carrying the error's text.
    pub fn from_outcome<T>(outcome: Result<T, String>) -> (r: HelioResult)
        ensures
            match outcome {
                Ok(_) => r.is_ok_result(),
                Err(e) => r.is_err_result(e@),
            },
            r.success <==> outcome is Ok,
            outcome is Ok ==> r.error_message is None,
            outcome matches Err(e) ==> (!e@.contains('\0') ==> (r.error_message matches Some(m) && m@
                == e@)),
    {
        match outcome {
            Ok(_) => HelioResult::ok(),
            Err(e) => HelioResult::err(e.as_str()),
        }
    }
}

} // verus!
