use vstd::prelude::*;
use vstd::utf8::decode_utf8;
use vstd::utf8::valid_utf8;

use crate::error::LmsError;
use crate::text::option_view;
use crate::text::string_views;

verus! {

/// Settings of the `lms` integration, as an operator writes them.
#[derive(Clone, Debug)]
pub struct LmsConfig {
    /// Path to the lms executable. If not set, attempts to find it in default locations.
    pub lms_path: Option<String>,
    /// Optional data directory for LM Studio state (if needed beyond default).
    pub data_dir: Option<String>,
    /// Whitelisted models allowed for loading (optional). If empty, all models are allowed.
    pub allowed_models: Vec<String>,
}

impl LmsConfig {
    /// Whether the allowlist admits `model`: an empty allowlist admits every
    /// model, a non-empty one exactly the models that it lists.
    pub open spec fn allows(&self, model: Seq<char>) -> bool {
        ||| self.allowed_models@.len() == 0
        ||| string_views(self.allowed_models@).contains(model)
    }
}

/// With no allowlist configured, every model is allowed.
pub proof fn lemma_empty_allowlist_admits_every_model(config: LmsConfig, model: Seq<char>)
    requires
        config.allowed_models@.len() == 0,
    ensures
        config.allows(model),
{
}

/// With an allowlist configured, a model is allowed only if it is listed,
/// and every listed model is allowed.
pub proof fn lemma_allowlist_admits_exactly_listed(config: LmsConfig, model: Seq<char>)
    requires
        config.allowed_models@.len() > 0,
    ensures
        config.allows(model) <==> exists|i: int|
            0 <= i < config.allowed_models@.len() && #[trigger] config.allowed_models@[i]@ == model,
{
    let names = string_views(config.allowed_models@);
    if config.allows(model) {
        let i = choose|i: int| 0 <= i < names.len() && names[i] == model;
        assert(config.allowed_models@[i]@ == model);
    }
    if exists|i: int| 0 <= i < config.allowed_models@.len() && #[trigger] config.allowed_models@[i]@ == model {
        let i = choose|i: int| 0 <= i < config.allowed_models@.len() && #[trigger] config.allowed_models@[i]@ == model;
        assert(names[i] == model);
    }
}

impl Default for LmsConfig {
    fn default() -> (config: Self)
        ensures
            config.lms_path is None,
            config.data_dir is None,
            config.allowed_models@.len() == 0,
    {
        LmsConfig { lms_path: None, data_dir: None, allowed_models: Vec::new() }
    }
}

/// What the service needs to run `lms`: its settings and the executable.
pub struct LlmContext {
    config: LmsConfig,
    lms_executable: String,
}

/// The message when the `lms` path names something that is not a file.
pub open spec fn not_a_file_message(path: Seq<char>) -> Seq<char> {
    "lms path is not a file: "@ + path
}

/// The message when the configured `lms` path does not exist.
pub open spec fn explicit_path_missing_message(path: Seq<char>) -> Seq<char> {
    "Explicit lms path not found: "@ + path
}

/// The message when no `lms` executable can be found anywhere.
pub open spec fn lms_not_found_message() -> Seq<char> {
    "lms executable not found in default locations or PATH. Please specify 'lms_path' in config."@
}

/// The message when `lms` exits unsuccessfully.
pub open spec fn command_failed_message(status: Seq<char>, stdout: Seq<char>, stderr: Seq<char>) -> Seq<char> {
    "lms command failed with status: "@ + status + "\nStdout: "@ + stdout + "\nStderr: "@ + stderr
}

impl LlmContext {
    /// The path of the `lms` executable that this context runs.
    pub closed spec fn executable(&self) -> Seq<char> {
        self.lms_executable@
    }

    /// The settings that this context was created with.
    pub closed spec fn settings(&self) -> LmsConfig {
        self.config
    }

    /// Creates the context for the `lms` executable at `lms_executable`;
    /// `is_file` tells whether that path names a regular file. A path that
    /// is not a file is a configuration error.
    pub fn new(config: LmsConfig, lms_executable: String, is_file: bool) -> (r: Result<LlmContext, LmsError>)
        ensures
            is_file ==> (r matches Ok(ctx) && ctx.settings() == config && ctx.executable() == lms_executable@),
            !is_file ==> (r matches Err(LmsError::Config(m)) && m@ == not_a_file_message(lms_executable@)),
    {
        if !is_file {
            let mut message = String::from_str("lms path is not a file: ");
            message.append(lms_executable.as_str());
            return Err(LmsError::Config(message));
        }
        Ok(LlmContext { config, lms_executable })
    }

    /// The settings of this context.
    pub fn config(&self) -> (config: &LmsConfig)
        ensures
            *config == self.settings(),
    {
        &self.config
    }

    /// The path of the `lms` executable.
    pub fn lms_executable(&self) -> (path: &str)
        ensures
            path@ == self.executable(),
    {
        self.lms_executable.as_str()
    }

    /// Checks if a model identifier is allowed based on the whitelist.
    pub fn is_model_allowed(&self, model_identifier: &str) -> (allowed: bool)
        ensures
            allowed == self.settings().allows(model_identifier@),
    {
        let allowed_models = &self.config.allowed_models;
        if allowed_models.len() == 0 {
            return true;
        }
        let wanted = String::from_str(model_identifier);
        let ghost names = string_views(allowed_models@);
        let mut i: usize = 0;
        while i < allowed_models.len()
            invariant
                i <= allowed_models.len(),
                names == string_views(allowed_models@),
                allowed_models@ == self.settings().allowed_models@,
                wanted@ == model_identifier@,
                forall|j: int| 0 <= j < i ==> names[j] != model_identifier@,
            decreases allowed_models.len() - i,
        {
            if allowed_models[i] == wanted {
                assert(names[i as int] == allowed_models@[i as int]@);
                assert(names[i as int] == model_identifier@);
                return true;
            }
            i = i + 1;
        }
        assert(!names.contains(model_identifier@));
        false
    }
}

/// The places, relative to the home directory, where LM Studio installs `lms`
/// (macOS and Linux first, then Windows).
pub fn default_lms_locations() -> (locations: Vec<String>)
    ensures
        string_views(locations@) == seq![".lmstudio/bin/lms"@, ".lmstudio/bin/lms.exe"@],
{
    let mut locations = Vec::new();
    locations.push(String::from_str(".lmstudio/bin/lms"));
    locations.push(String::from_str(".lmstudio/bin/lms.exe"));
    assert(string_views(locations@) =~= seq![".lmstudio/bin/lms"@, ".lmstudio/bin/lms.exe"@]);
    locations
}

/// Each candidate path with whether it exists.
pub open spec fn candidate_views(candidates: Seq<(String, bool)>) -> Seq<(Seq<char>, bool)> {
    candidates.map_values(|c: (String, bool)| (c.0@, c.1))
}

/// Where `lms` is found without an explicit path: the first candidate that
/// exists, else what the search of `PATH` found.
pub open spec fn located(candidates: Seq<(Seq<char>, bool)>, path_search: Option<Seq<char>>) -> Option<Seq<char>>
    decreases candidates.len(),
{
    if candidates.len() == 0 {
        path_search
    } else if candidates[0].1 {
        Some(candidates[0].0)
    } else {
        located(candidates.drop_first(), path_search)
    }
}

/// Without an explicit path, the first candidate that exists is where `lms`
/// is found, whatever the search of `PATH` found, even if it found nothing.
pub proof fn lemma_first_existing_candidate_wins(
    candidates: Seq<(Seq<char>, bool)>,
    path_search: Option<Seq<char>>,
    k: int,
)
    requires
        0 <= k < candidates.len(),
        candidates[k].1,
        forall|j: int| 0 <= j < k ==> !(#[trigger] candidates[j]).1,
    ensures
        located(candidates, path_search) == Some(candidates[k].0),
    decreases k,
{
    if k > 0 {
        let rest = candidates.drop_first();
        assert(!candidates[0].1);
        assert forall|j: int| 0 <= j < k - 1 implies !(#[trigger] rest[j]).1 by {
            assert(rest[j] == candidates[j + 1]);
        }
        lemma_first_existing_candidate_wins(rest, path_search, k - 1);
    }
}

/// Without an explicit path and with no candidate that exists, `lms` is
/// where the search of `PATH` found it, or nowhere.
pub proof fn lemma_path_search_when_no_candidate_exists(
    candidates: Seq<(Seq<char>, bool)>,
    path_search: Option<Seq<char>>,
)
    requires
        forall|j: int| 0 <= j < candidates.len() ==> !(#[trigger] candidates[j]).1,
    ensures
        located(candidates, path_search) == path_search,
    decreases candidates.len(),
{
    if candidates.len() > 0 {
        let rest = candidates.drop_first();
        assert(!candidates[0].1);
        assert forall|j: int| 0 <= j < rest.len() implies !(#[trigger] rest[j]).1 by {
            assert(rest[j] == candidates[j + 1]);
        }
        lemma_path_search_when_no_candidate_exists(rest, path_search);
    }
}

/// Decides which `lms` executable to use. An explicit path is used if it
/// exists and is an error if it does not; it is never replaced by another.
/// Without one, the first of `candidates` that exists is used, then the
/// result of searching `PATH`; with none of these it is a configuration error.
pub fn find_lms_executable(
    explicit_path: Option<String>,
    explicit_exists: bool,
    candidates: &Vec<(String, bool)>,
    path_search: Option<String>,
) -> (r: Result<String, LmsError>)
    ensures
        match explicit_path {
            Some(p) => if explicit_exists {
                r matches Ok(found) && found@ == p@
            } else {
                r matches Err(LmsError::Config(m)) && m@ == explicit_path_missing_message(p@)
            },
            None => match located(candidate_views(candidates@), option_view(path_search)) {
                Some(found) => r matches Ok(f) && f@ == found,
                None => r matches Err(LmsError::Config(m)) && m@ == lms_not_found_message(),
            },
        },
        explicit_path is None ==> forall|k: int|
            0 <= k < candidates@.len() && (#[trigger] candidates@[k]).1
                && (forall|j: int| 0 <= j < k ==> !(#[trigger] candidates@[j]).1)
                ==> (r matches Ok(f) && f@ == candidates@[k].0@),
        explicit_path is None && (forall|j: int| 0 <= j < candidates@.len() ==> !(#[trigger] candidates@[j]).1)
            ==> match path_search {
                Some(p) => r matches Ok(f) && f@ == p@,
                None => r matches Err(LmsError::Config(m)) && m@ == lms_not_found_message(),
            },
{
    match explicit_path {
        Some(path) => if explicit_exists {
            Ok(path)
        } else {
            let mut message = String::from_str("Explicit lms path not found: ");
            message.append(path.as_str());
            Err(LmsError::Config(message))
        },
        None => locate_lms_executable(candidates, path_search),
    }
}

/// The search without an explicit path: candidates in order, then `PATH`.
fn locate_lms_executable(candidates: &Vec<(String, bool)>, path_search: Option<String>) -> (r: Result<String, LmsError>)
    ensures
        match located(candidate_views(candidates@), option_view(path_search)) {
            Some(found) => r matches Ok(f) && f@ == found,
            None => r matches Err(LmsError::Config(m)) && m@ == lms_not_found_message(),
        },
        forall|k: int|
            0 <= k < candidates@.len() && (#[trigger] candidates@[k]).1
                && (forall|j: int| 0 <= j < k ==> !(#[trigger] candidates@[j]).1)
                ==> (r matches Ok(f) && f@ == candidates@[k].0@),
        (forall|j: int| 0 <= j < candidates@.len() ==> !(#[trigger] candidates@[j]).1)
            ==> match path_search {
                Some(p) => r matches Ok(f) && f@ == p@,
                None => r matches Err(LmsError::Config(m)) && m@ == lms_not_found_message(),
            },
{
    let r = search_candidates(candidates, path_search);
    let ghost views = candidate_views(candidates@);
    proof {
        assert forall|k: int|
            0 <= k < candidates@.len() && (#[trigger] candidates@[k]).1
                && (forall|j: int| 0 <= j < k ==> !(#[trigger] candidates@[j]).1)
            implies located(views, option_view(path_search)) == Some(candidates@[k].0@) by {
            assert forall|j: int| 0 <= j < k implies !(#[trigger] views[j]).1 by {
                assert(!candidates@[j].1);
            }
            lemma_first_existing_candidate_wins(views, option_view(path_search), k);
        }
        if forall|j: int| 0 <= j < candidates@.len() ==> !(#[trigger] candidates@[j]).1 {
            assert forall|j: int| 0 <= j < views.len() implies !(#[trigger] views[j]).1 by {
                assert(!candidates@[j].1);
            }
            lemma_path_search_when_no_candidate_exists(views, option_view(path_search));
        }
    }
    r
}

/// Walks the candidates in order, then falls back to the search of `PATH`.
fn search_candidates(candidates: &Vec<(String, bool)>, path_search: Option<String>) -> (r: Result<String, LmsError>)
    ensures
        match located(candidate_views(candidates@), option_view(path_search)) {
            Some(found) => r matches Ok(f) && f@ == found,
            None => r matches Err(LmsError::Config(m)) && m@ == lms_not_found_message(),
        },
{
    let ghost all = candidate_views(candidates@);
    assert(all.skip(0) =~= all);
    let mut i: usize = 0;
    while i < candidates.len()
        invariant
            i <= candidates.len(),
            all == candidate_views(candidates@),
            located(all.skip(i as int), option_view(path_search)) == located(all, option_view(path_search)),
        decreases candidates.len() - i,
    {
        assert(all.skip(i as int).drop_first() =~= all.skip(i + 1));
        if candidates[i].1 {
            return Ok(candidates[i].0.clone());
        }
        i = i + 1;
    }
    assert(all.skip(i as int) =~= Seq::<(Seq<char>, bool)>::empty());
    match path_search {
        Some(found) => Ok(found),
        None => Err(LmsError::Config(String::from_str(
            "lms executable not found in default locations or PATH. Please specify 'lms_path' in config.",
        ))),
    }
}

/// The text that `String::from_utf8_lossy` makes of `bytes`.
pub uninterp spec fn lossy_utf8(bytes: Seq<u8>) -> Seq<char>;

/// `String::from_utf8_lossy`: its result is named `lossy_utf8`; on valid
/// UTF-8 it is the decoded text. What replaces an invalid sequence is not
/// stated here.
#[verifier::external_body]
fn utf8_lossy(bytes: &[u8]) -> (text: String)
    ensures
        text@ == lossy_utf8(bytes@),
        valid_utf8(bytes@) ==> text@ == decode_utf8(bytes@),
{
    String::from_utf8_lossy(bytes).into_owned()
}

/// Interprets a finished `lms` process: on success, its standard output
/// followed by its standard error; otherwise an error that reports the exit
/// `status` and both outputs.
pub fn finish_lms_command(success: bool, status: &str, stdout: &[u8], stderr: &[u8]) -> (r: Result<String, LmsError>)
    ensures
        success ==> (r matches Ok(out) && out@ == lossy_utf8(stdout@) + lossy_utf8(stderr@)),
        !success ==> (r matches Err(LmsError::LmsCommandFailed(m))
            && m@ == command_failed_message(status@, lossy_utf8(stdout@), lossy_utf8(stderr@))),
        valid_utf8(stdout@) ==> lossy_utf8(stdout@) == decode_utf8(stdout@),
        valid_utf8(stderr@) ==> lossy_utf8(stderr@) == decode_utf8(stderr@),
        success && valid_utf8(stdout@) && valid_utf8(stderr@)
            ==> (r matches Ok(out) && out@ == decode_utf8(stdout@) + decode_utf8(stderr@)),
        !success && valid_utf8(stdout@) && valid_utf8(stderr@) ==> (r matches Err(LmsError::LmsCommandFailed(m))
            && m@ == command_failed_message(status@, decode_utf8(stdout@), decode_utf8(stderr@))),
{
    let out = utf8_lossy(stdout);
    let err = utf8_lossy(stderr);
    if success {
        let mut combined = out;
        combined.append(err.as_str());
        Ok(combined)
    } else {
        let mut message = String::from_str("lms command failed with status: ");
        message.append(status);
        message.append("\nStdout: ");
        message.append(out.as_str());
        message.append("\nStderr: ");
        message.append(err.as_str());
        Err(LmsError::LmsCommandFailed(message))
    }
}

} // verus!
