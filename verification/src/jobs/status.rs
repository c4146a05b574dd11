use vstd::prelude::*;

use crate::text::string_views;

verus! {

/// The arguments of the job that reports the status of LM Studio: `lms status`.
pub fn get_status_command() -> (args: Vec<String>)
    ensures
        string_views(args@) == seq!["status"@],
{
    let mut args = Vec::new();
    args.push(String::from_str("status"));
    assert(string_views(args@) =~= seq!["status"@]);
    args
}

} // verus!
