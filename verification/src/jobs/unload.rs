use vstd::prelude::*;

use crate::text::string_views;
use crate::error::LmsError;

verus! {

/// Whether the job asks to unload every model (`unload_all` absent means no).
pub open spec fn unload_all_requested(unload_all: Option<bool>) -> bool {
    unload_all == Some(true)
}

/// The message when both a model and `unload_all` are given.
pub open spec fn both_targets_message() -> Seq<char> {
    "Cannot specify both a model identifier and unload_all=true."@
}

/// The message when neither a model nor `unload_all` is given.
pub open spec fn no_target_message() -> Seq<char> {
    "Must specify either a model identifier or unload_all=true."@
}

/// The arguments of the job that unloads a model: `lms unload <model>` or
/// `lms unload --all`. Exactly one of `model_identifier` or
/// `unload_all = true` must be given; otherwise the arguments are refused.
pub fn unload_model_command(model_identifier: Option<String>, unload_all: Option<bool>) -> (r: Result<Vec<String>, LmsError>)
    ensures
        r is Ok <==> (model_identifier is Some) != unload_all_requested(unload_all),
        model_identifier is Some && unload_all_requested(unload_all)
            ==> (r matches Err(LmsError::InvalidArgs(m)) && m@ == both_targets_message()),
        model_identifier is None && !unload_all_requested(unload_all)
            ==> (r matches Err(LmsError::InvalidArgs(m)) && m@ == no_target_message()),
        model_identifier matches Some(id) ==> (!unload_all_requested(unload_all)
            ==> (r matches Ok(args) && string_views(args@) == seq!["unload"@, id@])),
        model_identifier is None && unload_all_requested(unload_all)
            ==> (r matches Ok(args) && string_views(args@) == seq!["unload"@, "--all"@]),
{
    let all = match unload_all {
        Some(flag) => flag,
        None => false,
    };
    let mut args = Vec::new();
    args.push(String::from_str("unload"));
    match model_identifier {
        Some(id) => {
            if all {
                return Err(LmsError::InvalidArgs(String::from_str(
                    "Cannot specify both a model identifier and unload_all=true.",
                )));
            }
            proof {
                let ghost id_text = id@;
                assert(string_views(args@.push(id)) =~= seq!["unload"@, id_text]);
            }
            args.push(id);
        },
        None => {
            if !all {
                return Err(LmsError::InvalidArgs(String::from_str(
                    "Must specify either a model identifier or unload_all=true.",
                )));
            }
            args.push(String::from_str("--all"));
            assert(string_views(args@) =~= seq!["unload"@, "--all"@]);
        },
    }
    Ok(args)
}

} // verus!
