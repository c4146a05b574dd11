use vstd::prelude::*;

use crate::text::string_views;

verus! {

/// The arguments of the job that starts the API server: `lms server start`.
pub fn start_api_command() -> (args: Vec<String>)
    ensures
        string_views(args@) == seq!["server"@, "start"@],
{
    let mut args = Vec::new();
    args.push(String::from_str("server"));
    args.push(String::from_str("start"));
    assert(string_views(args@) =~= seq!["server"@, "start"@]);
    args
}

/// The arguments of the job that stops the API server: `lms server stop`.
pub fn stop_api_command() -> (args: Vec<String>)
    ensures
        string_views(args@) == seq!["server"@, "stop"@],
{
    let mut args = Vec::new();
    args.push(String::from_str("server"));
    args.push(String::from_str("stop"));
    assert(string_views(args@) =~= seq!["server"@, "stop"@]);
    args
}

} // verus!
