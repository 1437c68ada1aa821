//! A plain-value record of a finished subprocess, and the uniform rule that
//! turns an unsuccessful exit into an error carrying the captured standard
//! error text and the exit code.

use vstd::prelude::*;

verus! {

/// What a finished subprocess left behind: whether its exit status counts as
/// success, its exit code (absent when it was terminated abnormally rather
/// than exiting), and its captured output streams.
#[derive(Debug, Clone, PartialEq, Eq)]
pub struct ProcessOutput {
    pub status_success: bool,
    pub status_code: Option<i32>,
    pub stdout: Vec<u8>,
    pub stderr: Vec<u8>,
}

/// A process' output indicates unsuccessful completion.
#[derive(Debug, Clone, PartialEq, Eq)]
pub struct ExitStatusUnsuccessfulError {
    pub code: Option<i32>,
    pub stderr: String,
}

/// The text that decoding `b` as UTF-8 yields, with invalid sequences
/// replaced.
pub uninterp spec fn lossy_utf8(b: Seq<u8>) -> Seq<char>;

/// Relies on `String::from_utf8_lossy`: the decoding is a function of the
/// bytes alone, and bytes that are valid UTF-8 (in particular, plain ASCII)
/// come through unchanged.
#[verifier::external_body]
fn bytes_to_string_lossy(b: &Vec<u8>) -> (r: String)
    ensures
        r@ == lossy_utf8(b@),
        (forall|i: int| 0 <= i < b@.len() ==> b@[i] < 128) ==> r@ == b@.map_values(
            |x: u8| x as char,
        ),
{
    String::from_utf8_lossy(b.as_slice()).into_owned()
}

impl ExitStatusUnsuccessfulError {
    /// Produces the error if the output indicates failure: `Some` exactly
    /// when the exit status was unsuccessful, carrying the exit code and the
    /// captured standard error text.
    pub fn from_output(output: &ProcessOutput) -> (r: Option<ExitStatusUnsuccessfulError>)
        ensures
            output.status_success <==> r is None,
            r matches Some(e) ==> e.code == output.status_code && e.stderr@ == lossy_utf8(
                output.stderr@,
            ),
    {
        if !output.status_success {
            let stderr = bytes_to_string_lossy(&output.stderr);
            Some(ExitStatusUnsuccessfulError { code: output.status_code, stderr })
        } else {
            None
        }
    }
}

} // verus!
