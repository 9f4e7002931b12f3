use ai_overlay::config::{get_config_path, load_settings, save_settings, ApplicationSettings};

#[test]
fn load_missing_file_returns_default() {
    let settings = load_settings(None);
    assert_eq!(settings.ai_model, "llama3:latest");
}

#[test]
fn load_empty_object_returns_default() {
    let settings = load_settings(Some("{}"));
    assert_eq!(settings.ai_model, "llama3:latest");
}

#[test]
fn load_invalid_json_returns_default() {
    let settings = load_settings(Some("this is { not json"));
    assert_eq!(settings.ai_model, "llama3:latest");
}

#[test]
fn load_non_string_model_returns_default() {
    let settings = load_settings(Some("{\"ai_model\": 7}"));
    assert_eq!(settings.ai_model, "llama3:latest");
}

#[test]
fn load_non_object_returns_default() {
    let settings = load_settings(Some("[\"ai_model\"]"));
    assert_eq!(settings.ai_model, "llama3:latest");
}

#[test]
fn load_empty_model_name_returns_default() {
    let settings = load_settings(Some("{\"ai_model\": \"\"}"));
    assert_eq!(settings.ai_model, "llama3:latest");
}

#[test]
fn load_valid_file_keeps_model() {
    let settings = load_settings(Some("{\"ai_model\": \"mistral:latest\"}"));
    assert_eq!(settings.ai_model, "mistral:latest");
}

#[test]
fn load_ignores_extra_fields() {
    let settings = load_settings(Some("{\"other\": true, \"ai_model\": \"phi3\"}"));
    assert_eq!(settings.ai_model, "phi3");
}

#[test]
fn save_writes_exact_json() {
    let settings = ApplicationSettings { ai_model: String::from("mistral:latest") };
    assert_eq!(save_settings(&settings), "{\"ai_model\":\"mistral:latest\"}");
}

#[test]
fn save_escapes_model_name() {
    let settings = ApplicationSettings { ai_model: String::from("we\"ird") };
    let text = save_settings(&settings);
    let reloaded = load_settings(Some(&text));
    assert_eq!(reloaded.ai_model, "we\"ird");
}

#[test]
fn save_then_load_round_trip() {
    let settings = ApplicationSettings { ai_model: String::from("qwen2:7b") };
    let text = save_settings(&settings);
    let reloaded = load_settings(Some(&text));
    assert_eq!(reloaded.ai_model, "qwen2:7b");
}

#[test]
fn default_settings_hold_default_model() {
    let settings = ApplicationSettings::default();
    assert_eq!(settings.ai_model, "llama3:latest");
}

#[test]
fn config_path_prefers_config_home() {
    let path = get_config_path(Some(String::from("/cfg")), Some(String::from("/home/u")));
    assert_eq!(path.as_deref(), Some("/cfg/ollama_assistant.json"));
}

#[test]
fn config_path_falls_back_to_home() {
    let path = get_config_path(None, Some(String::from("/home/u")));
    assert_eq!(path.as_deref(), Some("/home/u/.config/ollama_assistant.json"));
}

#[test]
fn config_path_absent_without_directories() {
    assert!(get_config_path(None, None).is_none());
}
