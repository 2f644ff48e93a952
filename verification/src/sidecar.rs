//! Interpretation of the transcription sidecar's outcome.
//!
//! The sidecar is an external executable; spawning it and capturing its
//! streams happens outside this crate. Given the captured exit status,
//! standard output and standard error, the functions here decide what the
//! transcription call returns: the parsed JSON document on success, or an
//! error message built from the captured text.

use vstd::prelude::*;
use vstd::string::StringExecFns;
use crate::jsonio::{json_parse_err, json_parse_ok, parse_json};

verus! {

/// The error reported when the sidecar exits with a non-success status:
/// its captured standard-error text behind a fixed prefix.
pub open spec fn spec_sidecar_failure(stderr: Seq<char>) -> Seq<char> {
    "Sidecar failed: "@ + stderr
}

/// The error reported when the sidecar's standard output is not valid
/// JSON: the parse error, then the raw output verbatim.
pub open spec fn spec_parse_failure(err: Seq<char>, stdout: Seq<char>) -> Seq<char> {
    "Failed to parse sidecar output: "@ + err + ". Output was: "@ + stdout
}

/// Turns the outcome of parsing the sidecar's standard output into the
/// transcription result: a parsed document is handed through, a parse
/// error is wrapped in a message that carries the raw output verbatim.
pub fn sidecar_parse_outcome(
    parsed: Result<serde_json::Value, String>,
    stdout: &str,
) -> (r: Result<serde_json::Value, String>)
    ensures
        parsed is Ok ==> r == parsed,
        parsed is Err ==> r is Err && r->Err_0@ == spec_parse_failure(
            parsed->Err_0@,
            stdout@,
        ),
{
    match parsed {
        Ok(v) => Ok(v),
        Err(e) => {
            let mut s = "Failed to parse sidecar output: ".to_owned();
            s.append(e.as_str());
            s.append(". Output was: ");
            s.append(stdout);
            Err(s)
        },
    }
}

/// Decides the result of a transcription call from the sidecar's captured
/// exit status and streams: on success the standard output is parsed as
/// JSON; on a parse failure the error carries the raw output; on a
/// non-success exit the error carries the captured standard-error text.
pub fn interpret_sidecar_output(
    success: bool,
    stdout: &str,
    stderr: &str,
) -> (r: Result<serde_json::Value, String>)
    ensures
        !success ==> r is Err && r->Err_0@ == spec_sidecar_failure(stderr@),
        success && json_parse_ok(stdout@) ==> r is Ok,
        success && !json_parse_ok(stdout@) ==> r is Err && r->Err_0@ == spec_parse_failure(
            json_parse_err(stdout@),
            stdout@,
        ),
{
    if success {
        let parsed = parse_json(stdout);
        sidecar_parse_outcome(parsed, stdout)
    } else {
        let mut s = "Sidecar failed: ".to_owned();
        s.append(stderr);
        Err(s)
    }
}

} // verus!
