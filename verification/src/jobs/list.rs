use vstd::prelude::*;

use crate::text::string_views;
use crate::error::LmsError;

verus! {

/// Whether `serde_json` reads `text` as one JSON value.
pub uninterp spec fn parses_as_json(text: Seq<char>) -> bool;

/// `serde_json::from_str::<serde_json::Value>`: whether it succeeds is named
/// `parses_as_json`; the parsed value is dropped, the error is handed on.
#[verifier::external_body]
fn parse_json(text: &str) -> (r: Result<(), serde_json::Error>)
    ensures
        r is Ok <==> parses_as_json(text@),
{
    match serde_json::from_str::<serde_json::Value>(text) {
        Ok(_) => Ok(()),
        Err(e) => Err(e),
    }
}

/// The arguments of the job that lists the downloaded models: `lms ls --json`.
pub fn list_models_command() -> (args: Vec<String>)
    ensures
        string_views(args@) == seq!["ls"@, "--json"@],
{
    let mut args = Vec::new();
    args.push(String::from_str("ls"));
    args.push(String::from_str("--json"));
    assert(string_views(args@) =~= seq!["ls"@, "--json"@]);
    args
}

/// The arguments of the job that lists the loaded models: `lms ps --json`.
pub fn list_loaded_models_command() -> (args: Vec<String>)
    ensures
        string_views(args@) == seq!["ps"@, "--json"@],
{
    let mut args = Vec::new();
    args.push(String::from_str("ps"));
    args.push(String::from_str("--json"));
    assert(string_views(args@) =~= seq!["ps"@, "--json"@]);
    args
}

/// What a listing job returns of the output of `lms`: the raw JSON text,
/// unchanged, if it is JSON; otherwise a parse error.
pub fn checked_json_output(output: String) -> (r: Result<String, LmsError>)
    ensures
        parses_as_json(output@) ==> (r matches Ok(text) && text@ == output@),
        !parses_as_json(output@) ==> r matches Err(LmsError::LmsOutputParse(_)),
{
    match parse_json(output.as_str()) {
        Ok(()) => Ok(output),
        Err(e) => Err(LmsError::LmsOutputParse(e)),
    }
}

} // verus!
