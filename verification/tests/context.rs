use lmstudio_local_llm_blueprint_lib::context::default_lms_locations;
use lmstudio_local_llm_blueprint_lib::context::find_lms_executable;
use lmstudio_local_llm_blueprint_lib::context::finish_lms_command;
use lmstudio_local_llm_blueprint_lib::context::LlmContext;
use lmstudio_local_llm_blueprint_lib::context::LmsConfig;
use lmstudio_local_llm_blueprint_lib::error::LmsError;

fn config_with(models: &[&str]) -> LmsConfig {
    LmsConfig {
        lms_path: None,
        data_dir: None,
        allowed_models: models.iter().map(|m| m.to_string()).collect(),
    }
}

fn context_with(models: &[&str]) -> LlmContext {
    LlmContext::new(config_with(models), "/usr/bin/lms".to_string(), true).unwrap()
}

#[test]
fn default_config_is_empty() {
    let config = LmsConfig::default();
    assert!(config.lms_path.is_none());
    assert!(config.data_dir.is_none());
    assert!(config.allowed_models.is_empty());
}

#[test]
fn empty_allowlist_allows_every_model() {
    let ctx = context_with(&[]);
    assert!(ctx.is_model_allowed("TheBloke/phi-2-GGUF"));
    assert!(ctx.is_model_allowed(""));
    assert!(ctx.is_model_allowed("anything/at-all"));
}

#[test]
fn allowlist_allows_only_listed_models() {
    let ctx = context_with(&["TheBloke/phi-2-GGUF", "NousResearch/Hermes-2-Pro-Mistral-7B-GGUF"]);
    assert!(ctx.is_model_allowed("TheBloke/phi-2-GGUF"));
    assert!(ctx.is_model_allowed("NousResearch/Hermes-2-Pro-Mistral-7B-GGUF"));
    assert!(!ctx.is_model_allowed("thebloke/phi-2-gguf"));
    assert!(!ctx.is_model_allowed("TheBloke/phi-2"));
    assert!(!ctx.is_model_allowed(""));
}

#[test]
fn context_keeps_executable_and_config() {
    let ctx = context_with(&["a"]);
    assert_eq!(ctx.lms_executable(), "/usr/bin/lms");
    assert_eq!(ctx.config().allowed_models, vec!["a".to_string()]);
}

#[test]
fn context_refuses_path_that_is_not_a_file() {
    match LlmContext::new(config_with(&[]), "/tmp".to_string(), false) {
        Err(LmsError::Config(m)) => assert_eq!(m, "lms path is not a file: /tmp"),
        _ => panic!("expected a configuration error"),
    }
}

#[test]
fn default_locations_are_under_lmstudio_bin() {
    assert_eq!(
        default_lms_locations(),
        vec![".lmstudio/bin/lms".to_string(), ".lmstudio/bin/lms.exe".to_string()]
    );
}

fn candidates(list: &[(&str, bool)]) -> Vec<(String, bool)> {
    list.iter().map(|(p, e)| (p.to_string(), *e)).collect()
}

#[test]
fn explicit_path_is_used_when_it_exists() {
    let found = find_lms_executable(
        Some("/opt/lms".to_string()),
        true,
        &candidates(&[("/home/u/.lmstudio/bin/lms", true)]),
        Some("/usr/bin/lms".to_string()),
    );
    assert_eq!(found.unwrap(), "/opt/lms");
}

#[test]
fn missing_explicit_path_is_an_error_without_fallback() {
    let found = find_lms_executable(
        Some("/opt/lms".to_string()),
        false,
        &candidates(&[("/home/u/.lmstudio/bin/lms", true)]),
        Some("/usr/bin/lms".to_string()),
    );
    match found {
        Err(LmsError::Config(m)) => assert_eq!(m, "Explicit lms path not found: /opt/lms"),
        _ => panic!("expected a configuration error"),
    }
}

#[test]
fn first_existing_default_location_wins() {
    let found = find_lms_executable(
        None,
        false,
        &candidates(&[("/home/u/.lmstudio/bin/lms", false), ("/home/u/.lmstudio/bin/lms.exe", true)]),
        Some("/usr/bin/lms".to_string()),
    );
    assert_eq!(found.unwrap(), "/home/u/.lmstudio/bin/lms.exe");
    let found = find_lms_executable(
        None,
        false,
        &candidates(&[("/a/lms", true), ("/b/lms.exe", true)]),
        None,
    );
    assert_eq!(found.unwrap(), "/a/lms");
}

#[test]
fn path_search_is_the_last_resort() {
    let found = find_lms_executable(
        None,
        false,
        &candidates(&[("/a/lms", false), ("/b/lms.exe", false)]),
        Some("/usr/local/bin/lms".to_string()),
    );
    assert_eq!(found.unwrap(), "/usr/local/bin/lms");
}

#[test]
fn nothing_found_is_a_configuration_error() {
    let found = find_lms_executable(None, false, &candidates(&[("", false)]), None);
    match found {
        Err(LmsError::Config(m)) => assert_eq!(
            m,
            "lms executable not found in default locations or PATH. Please specify 'lms_path' in config."
        ),
        _ => panic!("expected a configuration error"),
    }
}

#[test]
fn successful_command_combines_stdout_and_stderr() {
    let out = finish_lms_command(true, "exit status: 0", b"loaded\n", b"note\n").unwrap();
    assert_eq!(out, "loaded\nnote\n");
    let out = finish_lms_command(true, "exit status: 0", b"", b"").unwrap();
    assert_eq!(out, "");
}

#[test]
fn failed_command_reports_status_and_both_outputs() {
    match finish_lms_command(false, "exit status: 1", b"out", b"boom") {
        Err(LmsError::LmsCommandFailed(m)) => {
            assert_eq!(m, "lms command failed with status: exit status: 1\nStdout: out\nStderr: boom")
        }
        _ => panic!("expected a command failure"),
    }
}

#[test]
fn invalid_utf8_output_is_replaced_not_dropped() {
    let out = finish_lms_command(true, "exit status: 0", &[0x61, 0xff, 0x62], "é".as_bytes()).unwrap();
    assert_eq!(out, "a\u{FFFD}bé");
}
