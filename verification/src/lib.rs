//! Interactive screenshot helper core.
//!
//! The library holds the decision logic of a guided screenshot workflow:
//! mapping menu selections to capture modes, resolving the screenshot
//! directory, planning the delayed-capture countdown, naming the output
//! file, and sequencing the capture orchestration around the external
//! collaborators (menu UI, capture provider, notifier, freeze helper).
//! The surrounding binary performs the process and file-system work and
//! feeds the results back in as plain values.

use vstd::prelude::*;

pub mod countdown;
pub mod dirres;
pub mod filename;
pub mod flow;
pub mod options;
pub mod orchestrator;
pub mod prompt;
pub mod tools;

verus! {

/// Relies on `String::from_iter` over `char`: the resulting string holds
/// exactly the characters of the vector, in order.
#[verifier::external_body]
pub fn chars_to_string(v: &Vec<char>) -> (r: String)
    ensures
        r@ == v@,
{
    String::from_iter(v.iter().copied())
}

/// Fatal errors of a single workflow run.
#[derive(Debug)]
pub enum FlowError {
    /// A required external tool is absent from the search path.
    MissingTool { name: String },
    /// The user dismissed a selection menu.
    PromptCancelled,
    /// The capture provider exited with a failure status.
    CaptureError,
    /// Neither the atomic move nor the copy fallback could place the file.
    RelocationError,
}

} // verus!
