use lmstudio_local_llm_blueprint_lib::context::LlmContext;
use lmstudio_local_llm_blueprint_lib::context::LmsConfig;
use lmstudio_local_llm_blueprint_lib::error::LmsError;
use lmstudio_local_llm_blueprint_lib::jobs::list::checked_json_output;
use lmstudio_local_llm_blueprint_lib::jobs::list::list_loaded_models_command;
use lmstudio_local_llm_blueprint_lib::jobs::list::list_models_command;
use lmstudio_local_llm_blueprint_lib::jobs::load::load_model_command;
use lmstudio_local_llm_blueprint_lib::jobs::server::start_api_command;
use lmstudio_local_llm_blueprint_lib::jobs::server::stop_api_command;
use lmstudio_local_llm_blueprint_lib::jobs::status::get_status_command;
use lmstudio_local_llm_blueprint_lib::jobs::unload::unload_model_command;
use lmstudio_local_llm_blueprint_lib::jobs::LIST_LOADED_MODELS_JOB_ID;
use lmstudio_local_llm_blueprint_lib::jobs::LIST_MODELS_JOB_ID;
use lmstudio_local_llm_blueprint_lib::jobs::LOAD_MODEL_JOB_ID;
use lmstudio_local_llm_blueprint_lib::jobs::START_API_JOB_ID;
use lmstudio_local_llm_blueprint_lib::jobs::STATUS_JOB_ID;
use lmstudio_local_llm_blueprint_lib::jobs::STOP_API_JOB_ID;
use lmstudio_local_llm_blueprint_lib::jobs::UNLOAD_MODEL_JOB_ID;
use lmstudio_local_llm_blueprint_lib::text::decimal_string;

fn context_with(models: &[&str]) -> LlmContext {
    let config = LmsConfig {
        lms_path: None,
        data_dir: None,
        allowed_models: models.iter().map(|m| m.to_string()).collect(),
    };
    LlmContext::new(config, "lms".to_string(), true).unwrap()
}

/// How the job reads a numeric GPU setting: a float between 0.0 and 1.0.
fn in_unit_range(gpu: &str) -> bool {
    gpu.parse::<f32>().map_or(false, |v| (0.0..=1.0).contains(&v))
}

fn load(
    ctx: &LlmContext,
    model: &str,
    gpu: Option<&str>,
    context_length: Option<u32>,
    alias: Option<&str>,
) -> Result<Vec<String>, LmsError> {
    let in_range = gpu.map_or(false, in_unit_range);
    load_model_command(
        ctx,
        model,
        gpu.map(|g| g.to_string()),
        context_length,
        alias.map(|a| a.to_string()),
        in_range,
    )
}

fn strings(list: &[&str]) -> Vec<String> {
    list.iter().map(|s| s.to_string()).collect()
}

#[test]
fn job_ids_are_distinct_and_numbered_as_documented() {
    let ids = [
        LOAD_MODEL_JOB_ID,
        UNLOAD_MODEL_JOB_ID,
        LIST_MODELS_JOB_ID,
        LIST_LOADED_MODELS_JOB_ID,
        START_API_JOB_ID,
        STOP_API_JOB_ID,
        STATUS_JOB_ID,
    ];
    assert_eq!(ids, [0, 1, 2, 3, 4, 5, 6]);
}

#[test]
fn fixed_commands() {
    assert_eq!(list_models_command(), strings(&["ls", "--json"]));
    assert_eq!(list_loaded_models_command(), strings(&["ps", "--json"]));
    assert_eq!(start_api_command(), strings(&["server", "start"]));
    assert_eq!(stop_api_command(), strings(&["server", "stop"]));
    assert_eq!(get_status_command(), strings(&["status"]));
}

#[test]
fn load_with_all_options() {
    let ctx = context_with(&[]);
    let args = load(&ctx, "TheBloke/phi-2-GGUF", Some("max"), Some(4096), Some("phi2-service")).unwrap();
    assert_eq!(
        args,
        strings(&[
            "load",
            "TheBloke/phi-2-GGUF",
            "--gpu",
            "max",
            "--context-length",
            "4096",
            "--identifier",
            "phi2-service",
            "-y"
        ])
    );
}

#[test]
fn load_with_no_options() {
    let ctx = context_with(&[]);
    let args = load(&ctx, "placeholder/test-model-gguf", None, None, None).unwrap();
    assert_eq!(args, strings(&["load", "placeholder/test-model-gguf", "-y"]));
}

#[test]
fn load_passes_gpu_keyword_as_given() {
    let ctx = context_with(&[]);
    let args = load(&ctx, "m", Some("AuTo"), None, None).unwrap();
    assert_eq!(args, strings(&["load", "m", "--gpu", "AuTo", "-y"]));
    let args = load(&ctx, "m", Some("MAX"), None, None).unwrap();
    assert_eq!(args, strings(&["load", "m", "--gpu", "MAX", "-y"]));
}

#[test]
fn load_accepts_fractions_between_zero_and_one() {
    let ctx = context_with(&[]);
    for gpu in ["0.0", "1.0", "0.5", "0", "1", ".25"] {
        let args = load(&ctx, "m", Some(gpu), None, None).unwrap();
        assert_eq!(args, strings(&["load", "m", "--gpu", gpu, "-y"]));
    }
}

#[test]
fn load_refuses_other_gpu_values() {
    let ctx = context_with(&[]);
    for gpu in ["1.5", "-0.1", "half", "", "NaN", "maximum"] {
        match load(&ctx, "m", Some(gpu), None, None) {
            Err(LmsError::InvalidArgs(m)) => assert_eq!(
                m,
                format!("Invalid GPU value '{}'. Must be 'max', 'auto', or a float between 0.0 and 1.0.", gpu)
            ),
            other => panic!("expected the GPU value {:?} to be refused, got {:?}", gpu, other),
        }
    }
}

#[test]
fn load_refuses_model_outside_allowlist_before_anything_else() {
    let ctx = context_with(&["TheBloke/phi-2-GGUF"]);
    match load(&ctx, "other/model", Some("not-a-gpu"), Some(1), None) {
        Err(LmsError::InvalidArgs(m)) => {
            assert_eq!(m, "Model 'other/model' is not allowed by this service instance.")
        }
        other => panic!("expected the model to be refused, got {:?}", other),
    }
    let args = load(&ctx, "TheBloke/phi-2-GGUF", None, Some(2048), None).unwrap();
    assert_eq!(args, strings(&["load", "TheBloke/phi-2-GGUF", "--context-length", "2048", "-y"]));
}

#[test]
fn context_length_is_rendered_in_decimal() {
    for n in [0u32, 7, 10, 99, 100, 4096, 1234567, u32::MAX] {
        assert_eq!(decimal_string(n), n.to_string());
    }
}

#[test]
fn unload_a_single_model() {
    assert_eq!(
        unload_model_command(Some("m".to_string()), None).unwrap(),
        strings(&["unload", "m"])
    );
    assert_eq!(
        unload_model_command(Some("m".to_string()), Some(false)).unwrap(),
        strings(&["unload", "m"])
    );
}

#[test]
fn unload_every_model() {
    assert_eq!(unload_model_command(None, Some(true)).unwrap(), strings(&["unload", "--all"]));
}

#[test]
fn unload_refuses_both_targets() {
    match unload_model_command(Some("m".to_string()), Some(true)) {
        Err(LmsError::InvalidArgs(m)) => {
            assert_eq!(m, "Cannot specify both a model identifier and unload_all=true.")
        }
        other => panic!("expected refusal, got {:?}", other),
    }
}

#[test]
fn unload_refuses_no_target() {
    for flag in [None, Some(false)] {
        match unload_model_command(None, flag) {
            Err(LmsError::InvalidArgs(m)) => {
                assert_eq!(m, "Must specify either a model identifier or unload_all=true.")
            }
            other => panic!("expected refusal, got {:?}", other),
        }
    }
}

#[test]
fn listing_returns_json_unchanged() {
    let raw = "[{\"path\": \"TheBloke/phi-2-GGUF\", \"sizeBytes\": 1}]\n";
    assert_eq!(checked_json_output(raw.to_string()).unwrap(), raw);
    assert_eq!(checked_json_output("[]".to_string()).unwrap(), "[]");
}

#[test]
fn listing_refuses_output_that_is_not_json() {
    for text in ["", "No models loaded", "[1, 2", "{} {}"] {
        match checked_json_output(text.to_string()) {
            Err(LmsError::LmsOutputParse(_)) => {}
            other => panic!("expected a parse error for {:?}, got {:?}", text, other),
        }
    }
}
