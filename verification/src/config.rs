//! The settings store: a one-field JSON document `{ "ai_model": ... }`.
//!
//! Reading and writing the file itself is left to the surrounding
//! application; this module fixes where the file lives, what its text
//! means, and that a missing or corrupt file silently falls back to the
//! default settings.

use vstd::prelude::*;
use vstd::string::StringExecFns;

use crate::json;

verus! {

/// The model name used when no valid settings file exists.
pub open spec fn default_model() -> Seq<char> {
    "llama3:latest"@
}

/// The name of the one field the settings file carries.
pub open spec fn ai_model_field() -> Seq<char> {
    "ai_model"@
}

/// The persisted user settings. The model name is never empty: loading
/// substitutes the default wherever the file offers nothing usable.
#[derive(Debug, Clone)]
pub struct ApplicationSettings {
    pub ai_model: String,
}

impl Default for ApplicationSettings {
    fn default() -> (r: Self)
        ensures
            r.ai_model@ == default_model(),
            r.ai_model@.len() > 0,
    {
        proof {
            reveal_strlit("llama3:latest");
        }
        ApplicationSettings { ai_model: "llama3:latest".to_owned() }
    }
}

/// The model name that settings-file text denotes: the `ai_model` field if
/// it is present, a string, and non-empty; the default model otherwise, and
/// also when there is no file at all (`contents` is `None`).
pub open spec fn loaded_model(contents: Option<Seq<char>>) -> Seq<char> {
    match contents {
        Option::Some(text) => match json::json_string_field(text, ai_model_field()) {
            Option::Some(m) => if m.len() > 0 {
                m
            } else {
                default_model()
            },
            Option::None => default_model(),
        },
        Option::None => default_model(),
    }
}

/// Turns the settings file's text into settings. A missing file (`None`),
/// text that is not valid JSON, an object without a string `ai_model`
/// field, and an empty model name all fall back to the default settings;
/// no input is an error.
pub fn load_settings(contents: Option<&str>) -> (r: ApplicationSettings)
    ensures
        r.ai_model@ == loaded_model(contents.deep_view()),
        r.ai_model@.len() > 0,
{
    match contents {
        Option::Some(text) => match json::parse_string_field(text, "ai_model") {
            Option::Some(m) => if m.as_str().is_empty() {
                ApplicationSettings::default()
            } else {
                ApplicationSettings { ai_model: m }
            },
            Option::None => ApplicationSettings::default(),
        },
        Option::None => ApplicationSettings::default(),
    }
}

/// Serializes settings to the text the settings file holds. The output is
/// JSON whose `ai_model` field reads back as exactly the stored name.
pub fn save_settings(settings: &ApplicationSettings) -> (r: String)
    ensures
        json::json_string_field(r@, ai_model_field()) == Option::Some(settings.ai_model@),
{
    json::encode_string_field("ai_model", settings.ai_model.as_str())
}

/// Where the settings file lives: directly under the user's configuration
/// home when one is set, under `.config` in the home directory otherwise,
/// and nowhere when neither directory is known.
pub open spec fn config_path_of(config_home: Option<Seq<char>>, home: Option<Seq<char>>) -> Option<
    Seq<char>,
> {
    match config_home {
        Option::Some(base) => Option::Some(base + "/ollama_assistant.json"@),
        Option::None => match home {
            Option::Some(h) => Option::Some(h + "/.config/ollama_assistant.json"@),
            Option::None => Option::None,
        },
    }
}

/// Resolves the settings file's path from the two directory candidates, as
/// `config_path_of` describes.
pub fn get_config_path(config_home: Option<String>, home: Option<String>) -> (r: Option<String>)
    ensures
        r.deep_view() == config_path_of(config_home.deep_view(), home.deep_view()),
{
    match config_home {
        Option::Some(base) => Option::Some(base.concat("/ollama_assistant.json")),
        Option::None => match home {
            Option::Some(h) => Option::Some(h.concat("/.config/ollama_assistant.json")),
            Option::None => Option::None,
        },
    }
}

/// Law: a settings round trip keeps the model name. `save_settings`
/// guarantees of its output that the `ai_model` field reads back as the
/// saved name; loading any such text returns exactly that name.
pub proof fn lemma_save_load_round_trip(saved: Seq<char>, model: Seq<char>)
    requires
        model.len() > 0,
        json::json_string_field(saved, ai_model_field()) == Option::Some(model),
    ensures
        loaded_model(Option::Some(saved)) == model,
{
}

} // verus!
