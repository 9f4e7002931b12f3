use ai_overlay::config::load_settings;
use ai_overlay::update::{
    handle_update, message_for_key, Action, App, AppState, KeyPress, MainMessage, RouterView,
};

fn fresh_app() -> App {
    App::new(load_settings(None))
}

#[test]
fn startup_state_is_settled_and_empty() {
    let app = fresh_app();
    assert_eq!(app.text, "");
    assert_eq!(app.ai_response, "");
    assert!(matches!(app.loading, AppState::Done));
    assert!(app.error.is_none());
    assert!(matches!(app.view, RouterView::Home));
    assert_eq!(app.config_settings.ai_model, "llama3:latest");
    assert!(!app.is_ai_api_live);
    assert!(app.available_models.is_empty());
}

#[test]
fn missing_settings_then_successful_exchange() {
    let mut app = fresh_app();
    assert_eq!(app.config_settings.ai_model, "llama3:latest");

    let action = handle_update(&mut app, MainMessage::UpdateInput(String::from("2+2?")));
    assert!(matches!(action, Action::Nothing));
    assert_eq!(app.text, "2+2?");

    let action = handle_update(&mut app, MainMessage::SendToAI);
    assert!(matches!(app.loading, AppState::Loading));
    match action {
        Action::AskAi { prompt, model } => {
            assert_eq!(prompt, "2+2?");
            assert_eq!(model, "llama3:latest");
        }
        other => panic!("expected an ask action, got {:?}", other),
    }

    let action = handle_update(&mut app, MainMessage::AIResponse(Ok(String::from("4"))));
    assert!(matches!(action, Action::Nothing));
    assert_eq!(app.ai_response, "4");
    assert_eq!(app.text, "");
    assert!(app.error.is_none());
    assert!(app.is_ai_api_live);
    assert!(matches!(app.loading, AppState::Done));
}

#[test]
fn unreachable_backend_shows_error_and_probes_health() {
    let mut app = fresh_app();
    handle_update(&mut app, MainMessage::UpdateInput(String::from("hello")));
    handle_update(&mut app, MainMessage::SendToAI);

    let action = handle_update(
        &mut app,
        MainMessage::AIResponse(Err(String::from("connection refused"))),
    );
    assert!(matches!(action, Action::CheckHealth));
    assert_eq!(app.error.as_deref(), Some("connection refused"));
    assert_eq!(app.ai_response, "");
    assert!(matches!(app.loading, AppState::Done));

    let action = handle_update(&mut app, MainMessage::AiHealthCheck(false));
    assert!(matches!(action, Action::Nothing));
    assert!(!app.is_ai_api_live);
    assert!(matches!(app.loading, AppState::Done));
}

#[test]
fn submit_with_empty_input_is_a_no_op() {
    let mut app = fresh_app();
    let action = handle_update(&mut app, MainMessage::SendToAI);
    assert!(matches!(action, Action::Nothing));
    assert!(matches!(app.loading, AppState::Done));
}

#[test]
fn submit_while_loading_is_a_no_op() {
    let mut app = fresh_app();
    handle_update(&mut app, MainMessage::UpdateInput(String::from("first")));
    handle_update(&mut app, MainMessage::SendToAI);
    assert!(matches!(app.loading, AppState::Loading));

    handle_update(&mut app, MainMessage::UpdateInput(String::from("second")));
    let action = handle_update(&mut app, MainMessage::SendToAI);
    assert!(matches!(action, Action::Nothing));
    assert_eq!(app.text, "second");
}

#[test]
fn successful_reply_is_normalized() {
    let mut app = fresh_app();
    let reply = String::from("col\tumns\n\nand lines");
    handle_update(&mut app, MainMessage::AIResponse(Ok(reply)));
    assert_eq!(app.ai_response, "col umns\nand lines");
}

#[test]
fn error_reply_keeps_typed_input() {
    let mut app = fresh_app();
    handle_update(&mut app, MainMessage::UpdateInput(String::from("keep me")));
    handle_update(&mut app, MainMessage::SendToAI);
    handle_update(&mut app, MainMessage::AIResponse(Err(String::from("boom"))));
    assert_eq!(app.text, "keep me");
}

#[test]
fn view_changes_follow_events() {
    let mut app = fresh_app();
    handle_update(&mut app, MainMessage::ChangeView(RouterView::Settings));
    assert!(matches!(app.view, RouterView::Settings));
    handle_update(&mut app, MainMessage::ChangeView(RouterView::Home));
    assert!(matches!(app.view, RouterView::Home));
}

#[test]
fn health_check_request_starts_loading() {
    let mut app = fresh_app();
    let action = handle_update(&mut app, MainMessage::RunAiHealthCheck);
    assert!(matches!(action, Action::CheckHealth));
    assert!(matches!(app.loading, AppState::Loading));

    let action = handle_update(&mut app, MainMessage::AiHealthCheck(true));
    assert!(matches!(action, Action::Nothing));
    assert!(app.is_ai_api_live);
    assert!(matches!(app.loading, AppState::Done));
}

#[test]
fn selecting_a_model_persists_it() {
    let mut app = fresh_app();
    let action = handle_update(&mut app, MainMessage::UpdateConfigModel(String::from("phi3")));
    assert_eq!(app.config_settings.ai_model, "phi3");
    match action {
        Action::PersistSettings(saved) => assert_eq!(saved.ai_model, "phi3"),
        other => panic!("expected a persist action, got {:?}", other),
    }
}

#[test]
fn selecting_an_empty_model_changes_nothing() {
    let mut app = fresh_app();
    let action = handle_update(&mut app, MainMessage::UpdateConfigModel(String::new()));
    assert!(matches!(action, Action::Nothing));
    assert_eq!(app.config_settings.ai_model, "llama3:latest");
}

#[test]
fn listed_models_are_stored_in_order() {
    let mut app = fresh_app();
    let models = vec![String::from("b"), String::from("a")];
    let action = handle_update(&mut app, MainMessage::UpdateAvailableModels(models));
    assert!(matches!(action, Action::Nothing));
    assert_eq!(app.available_models, vec![String::from("b"), String::from("a")]);
}

#[test]
fn requesting_models_asks_for_the_list() {
    let mut app = fresh_app();
    let action = handle_update(&mut app, MainMessage::GetAvailableModels);
    assert!(matches!(action, Action::ListModels));
}

#[test]
fn clearing_history_resets_transient_fields() {
    let mut app = fresh_app();
    handle_update(&mut app, MainMessage::AIResponse(Ok(String::from("old reply"))));
    handle_update(&mut app, MainMessage::AIResponse(Err(String::from("old error"))));
    let action = handle_update(&mut app, MainMessage::ClearAiHistory);
    assert!(matches!(action, Action::ClearHistory));
    assert_eq!(app.ai_response, "");
    assert!(app.error.is_none());
}

#[test]
fn exit_closes_the_window() {
    let mut app = fresh_app();
    let action = handle_update(&mut app, MainMessage::Exit);
    assert!(matches!(action, Action::CloseWindow));
}

#[test]
fn key_presses_raise_their_events() {
    assert!(matches!(message_for_key(KeyPress::Escape), Some(MainMessage::Exit)));
    assert!(matches!(
        message_for_key(KeyPress::Backspace),
        Some(MainMessage::ChangeView(RouterView::Home))
    ));
    assert!(matches!(message_for_key(KeyPress::Enter), Some(MainMessage::SendToAI)));
    assert!(message_for_key(KeyPress::Other).is_none());
}
