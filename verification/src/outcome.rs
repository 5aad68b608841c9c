//! Per-element callback outcomes and the default-and-continue policy: a
//! failed element resolves to the fallback value `0` and a diagnostic line,
//! never to a batch-level error.

use std::io::Write;
use vstd::prelude::*;

verus! {

/// Why one callback invocation produced no usable integer.
pub enum CallError {
    /// The callback itself raised an error; the message carries its details.
    Invocation(String),
    /// The callback returned a value that could not be converted to an integer.
    Extraction,
}

/// The integer an element resolves to: the returned value on success, the
/// fallback `0` on any per-element failure.
pub open spec fn resolved(outcome: Result<i32, CallError>) -> i32 {
    match outcome {
        Ok(v) => v,
        Err(_) => 0,
    }
}

/// Writes one line to the diagnostic stream.
///
/// Relies on `std::io::stderr`: the returned handle writes to standard error,
/// and the write touches no value of the library.
#[verifier::external_body]
fn emit_diagnostic(prefix: &str, details: &str) {
    let _ = writeln!(std::io::stderr(), "{}{}", prefix, details);
}

/// Collapses one callback outcome to the element's result, emitting a
/// diagnostic on failure: failures are masked per element, never propagated.
pub fn resolve(outcome: &Result<i32, CallError>) -> (result: i32)
    ensures
        result == resolved(*outcome),
{
    match outcome {
        Ok(v) => *v,
        Err(CallError::Invocation(msg)) => {
            emit_diagnostic("Error calling callback function: ", msg.as_str());
            0
        },
        Err(CallError::Extraction) => {
            emit_diagnostic("Warning: could not extract an integer from the callback result", "");
            0
        },
    }
}

} // verus!
