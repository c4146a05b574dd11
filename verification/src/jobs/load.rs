use vstd::prelude::*;
use vstd::utf8::is_ascii_chars;

use crate::context::LlmContext;
use crate::error::LmsError;
use crate::text::all_digits;
use crate::text::ascii_lowercase;
use crate::text::decimal;
use crate::text::decimal_string;
use crate::text::lemma_decimal_round_trip;
use crate::text::numeral_value;
use crate::text::option_view;
use crate::text::string_views;

verus! {

/// What `str::to_lowercase` makes of `text`.
pub uninterp spec fn lowercase(text: Seq<char>) -> Seq<char>;

/// `str::to_lowercase`: its result is named `lowercase` (the Unicode
/// lowercase mapping). On ASCII text it turns `A`-`Z` into `a`-`z` and keeps
/// every other character; beyond ASCII nothing more is stated of it.
#[verifier::external_body]
fn to_lowercase(text: &str) -> (lower: String)
    ensures
        lower@ == lowercase(text@),
        is_ascii_chars(text@) ==> lower@ == ascii_lowercase(text@),
{
    text.to_lowercase()
}

/// Whether a GPU setting is one of the keywords `max` or `auto`, whatever its letter case.
pub open spec fn gpu_keyword(gpu: Seq<char>) -> bool {
    lowercase(gpu) == "max"@ || lowercase(gpu) == "auto"@
}

/// Whether a GPU setting is accepted: a keyword, or (as the caller found
/// out) a number between 0.0 and 1.0.
pub open spec fn gpu_accepted(gpu: Seq<char>, gpu_in_unit_range: bool) -> bool {
    gpu_keyword(gpu) || gpu_in_unit_range
}

/// The message when the model is not on the allowlist.
pub open spec fn model_not_allowed_message(model: Seq<char>) -> Seq<char> {
    "Model '"@ + model + "' is not allowed by this service instance."@
}

/// The message when the GPU setting is refused.
pub open spec fn invalid_gpu_message(gpu: Seq<char>) -> Seq<char> {
    "Invalid GPU value '"@ + gpu + "'. Must be 'max', 'auto', or a float between 0.0 and 1.0."@
}

/// An option flag and its value, or nothing when the value is absent.
pub open spec fn flag(name: Seq<char>, value: Option<Seq<char>>) -> Seq<Seq<char>> {
    match value {
        Some(v) => seq![name, v],
        None => Seq::empty(),
    }
}

/// The arguments of `lms load`: the model, then each option that is given
/// (the GPU setting exactly as given, the context length in decimal, the
/// alias as `--identifier`), then `-y` to confirm without asking.
pub open spec fn load_arguments(
    model: Seq<char>,
    gpu: Option<Seq<char>>,
    context_length: Option<u32>,
    alias: Option<Seq<char>>,
) -> Seq<Seq<char>> {
    seq!["load"@, model]
        + flag("--gpu"@, gpu)
        + flag("--context-length"@, match context_length {
            Some(n) => Some(decimal(n as nat)),
            None => None,
        })
        + flag("--identifier"@, alias)
        + seq!["-y"@]
}

/// Where each part of an `lms load` command stands: `load`, the model as one
/// argument of its own, then `--gpu` followed by the GPU setting exactly as
/// given, `--context-length` followed by the decimal numeral of the length
/// itself (digits only, no leading zero), `--identifier` followed by the
/// alias, each present exactly when its value is given and in this order,
/// and `-y` last.
pub open spec fn load_layout(
    args: Seq<Seq<char>>,
    model: Seq<char>,
    gpu: Option<Seq<char>>,
    context_length: Option<u32>,
    alias: Option<Seq<char>>,
) -> bool {
    let g: int = if gpu is Some { 2 } else { 0 };
    let c: int = if context_length is Some { 2 } else { 0 };
    let l: int = if alias is Some { 2 } else { 0 };
    &&& args.len() == 3 + g + c + l
    &&& args[0] == "load"@
    &&& args[1] == model
    &&& (gpu matches Some(v) ==> args[2] == "--gpu"@ && args[3] == v)
    &&& (context_length matches Some(n) ==> {
        &&& args[2 + g] == "--context-length"@
        &&& all_digits(args[3 + g])
        &&& numeral_value(args[3 + g]) == n
        &&& (args[3 + g].len() > 1 ==> args[3 + g][0] != '0')
    })
    &&& (alias matches Some(v) ==> args[2 + g + c] == "--identifier"@ && args[3 + g + c] == v)
    &&& args[args.len() - 1] == "-y"@
}

/// Every `lms load` command has the layout above: the model is never split
/// or moved, the GPU setting is passed as given, the context length is passed
/// as the number requested, the alias always follows `--identifier`, and
/// the command ends with `-y`.
pub proof fn lemma_load_arguments_shape(
    model: Seq<char>,
    gpu: Option<Seq<char>>,
    context_length: Option<u32>,
    alias: Option<Seq<char>>,
)
    ensures
        load_layout(load_arguments(model, gpu, context_length, alias), model, gpu, context_length, alias),
{
    let length = match context_length {
        Some(n) => Some(decimal(n as nat)),
        None => None,
    };
    let head = seq!["load"@, model];
    let a = head + flag("--gpu"@, gpu);
    let b = a + flag("--context-length"@, length);
    let c = b + flag("--identifier"@, alias);
    let d = c + seq!["-y"@];
    assert(d == load_arguments(model, gpu, context_length, alias));
    let g: int = if gpu is Some { 2 } else { 0 };
    let k: int = if context_length is Some { 2 } else { 0 };
    assert(a.len() == 2 + g);
    assert(b.len() == 2 + g + k);
    assert(a[0] == "load"@ && a[1] == model);
    assert(b[0] == "load"@ && b[1] == model);
    assert(c[0] == "load"@ && c[1] == model);
    assert(d[0] == "load"@ && d[1] == model);
    if let Some(v) = gpu {
        assert(a[2] == "--gpu"@ && a[3] == v);
        assert(d[2] == a[2] && d[3] == a[3]);
    }
    if let Some(n) = context_length {
        lemma_decimal_round_trip(n as nat);
        assert(b[2 + g] == "--context-length"@ && b[3 + g] == decimal(n as nat));
        assert(d[2 + g] == b[2 + g] && d[3 + g] == b[3 + g]);
    }
    if let Some(v) = alias {
        assert(c[2 + g + k] == "--identifier"@ && c[3 + g + k] == v);
        assert(d[2 + g + k] == c[2 + g + k] && d[3 + g + k] == c[3 + g + k]);
    }
}

/// A GPU setting is a keyword exactly when its lowercase form is `max` or
/// `auto`.
pub proof fn lemma_gpu_keyword_is_lowercase_max_or_auto(gpu: Seq<char>)
    ensures
        gpu_keyword(gpu) <==> (lowercase(gpu) == "max"@ || lowercase(gpu) == "auto"@),
{
}

/// Appends `name` and `value` to `args`.
fn push_flag(args: &mut Vec<String>, name: &str, value: String)
    ensures
        string_views(final(args)@) == string_views(old(args)@) + seq![name@, value@],
{
    let ghost before = string_views(args@);
    args.push(String::from_str(name));
    args.push(value);
    assert(string_views(args@) =~= before + seq![name@, value@]);
}

/// The arguments of the job that loads a model, checked as the job checks
/// them. A model that the allowlist does not admit is refused whatever the
/// other arguments; then a GPU setting that is neither `max` nor `auto` (in
/// any letter case) nor a number between 0.0 and 1.0 is refused.
/// `gpu_in_unit_range` tells whether `gpu` reads as such a number.
pub fn load_model_command(
    ctx: &LlmContext,
    model_identifier: &str,
    gpu: Option<String>,
    context_length: Option<u32>,
    alias: Option<String>,
    gpu_in_unit_range: bool,
) -> (r: Result<Vec<String>, LmsError>)
    ensures
        ctx.settings().allows(model_identifier@) ==> (gpu matches Some(g) ==> (is_ascii_chars(g@)
            ==> lowercase(g@) == ascii_lowercase(g@))),
        r is Ok ==> ctx.settings().allows(model_identifier@),
        !ctx.settings().allows(model_identifier@) ==> (r matches Err(LmsError::InvalidArgs(m))
            && m@ == model_not_allowed_message(model_identifier@)),
        ctx.settings().allows(model_identifier@) ==> (gpu matches Some(g) ==> (!gpu_accepted(g@, gpu_in_unit_range)
            ==> (r matches Err(LmsError::InvalidArgs(m)) && m@ == invalid_gpu_message(g@)))),
        ctx.settings().allows(model_identifier@) && (gpu matches Some(g) ==> gpu_accepted(g@, gpu_in_unit_range))
            ==> (r matches Ok(args) && string_views(args@)
                == load_arguments(model_identifier@, option_view(gpu), context_length, option_view(alias))),
        r matches Ok(args) ==> load_layout(
            string_views(args@),
            model_identifier@,
            option_view(gpu),
            context_length,
            option_view(alias),
        ),
        ctx.settings().allows(model_identifier@) && gpu is None ==> r is Ok,
        ctx.settings().allows(model_identifier@) ==> (gpu matches Some(g) ==> ((lowercase(g@) != "max"@
            && lowercase(g@) != "auto"@ && !gpu_in_unit_range) ==> (r matches Err(LmsError::InvalidArgs(m))
            && m@ == "Invalid GPU value '"@ + g@ + "'. Must be 'max', 'auto', or a float between 0.0 and 1.0."@))),
        ctx.settings().allows(model_identifier@) ==> (gpu matches Some(g) ==> ((lowercase(g@) == "max"@
            || lowercase(g@) == "auto"@ || gpu_in_unit_range) ==> r is Ok)),
        ctx.settings().allows(model_identifier@) ==> (gpu matches Some(g) ==> ((g@ == "max"@ || g@ == "auto"@)
            ==> r is Ok)),
{
    if !ctx.is_model_allowed(model_identifier) {
        let mut message = String::from_str("Model '");
        message.append(model_identifier);
        message.append("' is not allowed by this service instance.");
        return Err(LmsError::InvalidArgs(message));
    }
    let ghost gpu_text = option_view(gpu);
    let ghost alias_text = option_view(alias);
    let mut args: Vec<String> = Vec::new();
    args.push(String::from_str("load"));
    args.push(String::from_str(model_identifier));
    assert(string_views(args@) =~= seq!["load"@, model_identifier@]);
    match gpu {
        Some(gpu_config) => {
            let lower = to_lowercase(gpu_config.as_str());
            assert(is_ascii_chars(gpu_config@) ==> lowercase(gpu_config@) == ascii_lowercase(gpu_config@));
            proof {
                reveal_strlit("max");
                reveal_strlit("auto");
                if gpu_config@ == "max"@ {
                    assert(is_ascii_chars(gpu_config@));
                    assert(ascii_lowercase(gpu_config@) =~= "max"@);
                }
                if gpu_config@ == "auto"@ {
                    assert(is_ascii_chars(gpu_config@));
                    assert(ascii_lowercase(gpu_config@) =~= "auto"@);
                }
            }
            let keyword = lower == String::from_str("max") || lower == String::from_str("auto");
            if !keyword && !gpu_in_unit_range {
                let mut message = String::from_str("Invalid GPU value '");
                message.append(gpu_config.as_str());
                message.append("'. Must be 'max', 'auto', or a float between 0.0 and 1.0.");
                return Err(LmsError::InvalidArgs(message));
            }
            push_flag(&mut args, "--gpu", gpu_config);
        },
        None => {},
    }
    assert(string_views(args@) =~= seq!["load"@, model_identifier@] + flag("--gpu"@, gpu_text));
    let ghost length_text = match context_length {
        Some(n) => Some(decimal(n as nat)),
        None => None,
    };
    match context_length {
        Some(len) => {
            push_flag(&mut args, "--context-length", decimal_string(len));
        },
        None => {},
    }
    assert(string_views(args@) =~= seq!["load"@, model_identifier@] + flag("--gpu"@, gpu_text) + flag(
        "--context-length"@,
        length_text,
    ));
    match alias {
        Some(model_alias) => {
            push_flag(&mut args, "--identifier", model_alias);
        },
        None => {},
    }
    let ghost before_confirm = string_views(args@);
    args.push(String::from_str("-y"));
    assert(string_views(args@) =~= before_confirm + seq!["-y"@]);
    proof {
        lemma_load_arguments_shape(model_identifier@, gpu_text, context_length, alias_text);
    }
    Ok(args)
}

} // verus!
