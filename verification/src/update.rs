//! The view-state controller: one record of everything the window shows,
//! driven by a closed set of events. Each event yields the next state and
//! at most one follow-up action for the surrounding application to carry
//! out (a backend call, a settings write, closing the window).
//!
//! `next_state` and `next_action` are the machine's full mathematical
//! description; `handle_update` is proved to follow them exactly, for every
//! state and every event.

use vstd::prelude::*;

use crate::config::ApplicationSettings;
use crate::text;
use crate::text::normalize_response;

verus! {

/// Whether a backend call is in flight.
#[derive(Debug, Clone, Copy, PartialEq, Eq, Structural)]
pub enum AppState {
    Loading,
    Done,
}

/// Which top-level screen is shown.
#[derive(Debug, Clone, Copy, PartialEq, Eq, Structural)]
pub enum RouterView {
    Home,
    Settings,
}

/// An event the controller reacts to: user input, a backend reply, or a
/// request to start one of the backend calls.
#[derive(Debug)]
pub enum MainMessage {
    UpdateInput(String),
    SendToAI,
    AIResponse(Result<String, String>),
    ChangeView(RouterView),
    AiHealthCheck(bool),
    RunAiHealthCheck,
    UpdateConfigModel(String),
    UpdateAvailableModels(Vec<String>),
    GetAvailableModels,
    ClearAiHistory,
    Exit,
}

/// The mathematical value of an event.
pub enum MsgModel {
    UpdateInput(Seq<char>),
    SendToAI,
    AIResponse(Result<Seq<char>, Seq<char>>),
    ChangeView(RouterView),
    AiHealthCheck(bool),
    RunAiHealthCheck,
    UpdateConfigModel(Seq<char>),
    UpdateAvailableModels(Seq<Seq<char>>),
    GetAvailableModels,
    ClearAiHistory,
    Exit,
}

impl View for MainMessage {
    type V = MsgModel;

    open spec fn view(&self) -> MsgModel {
        match self {
            MainMessage::UpdateInput(t) => MsgModel::UpdateInput(t@),
            MainMessage::SendToAI => MsgModel::SendToAI,
            MainMessage::AIResponse(r) => MsgModel::AIResponse(
                match r {
                    Result::Ok(t) => Result::Ok(t@),
                    Result::Err(e) => Result::Err(e@),
                },
            ),
            MainMessage::ChangeView(v) => MsgModel::ChangeView(*v),
            MainMessage::AiHealthCheck(b) => MsgModel::AiHealthCheck(*b),
            MainMessage::RunAiHealthCheck => MsgModel::RunAiHealthCheck,
            MainMessage::UpdateConfigModel(m) => MsgModel::UpdateConfigModel(m@),
            MainMessage::UpdateAvailableModels(ms) => MsgModel::UpdateAvailableModels(
                ms.deep_view(),
            ),
            MainMessage::GetAvailableModels => MsgModel::GetAvailableModels,
            MainMessage::ClearAiHistory => MsgModel::ClearAiHistory,
            MainMessage::Exit => MsgModel::Exit,
        }
    }
}

/// The one follow-up a transition may request from the surrounding
/// application.
#[derive(Debug, Clone)]
pub enum Action {
    Nothing,
    AskAi { prompt: String, model: String },
    CheckHealth,
    ListModels,
    PersistSettings(ApplicationSettings),
    ClearHistory,
    CloseWindow,
}

/// The mathematical value of a follow-up action.
pub enum ActionModel {
    Nothing,
    AskAi { prompt: Seq<char>, model: Seq<char> },
    CheckHealth,
    ListModels,
    PersistSettings(Seq<char>),
    ClearHistory,
    CloseWindow,
}

impl View for Action {
    type V = ActionModel;

    open spec fn view(&self) -> ActionModel {
        match self {
            Action::Nothing => ActionModel::Nothing,
            Action::AskAi { prompt, model } => ActionModel::AskAi {
                prompt: prompt@,
                model: model@,
            },
            Action::CheckHealth => ActionModel::CheckHealth,
            Action::ListModels => ActionModel::ListModels,
            Action::PersistSettings(s) => ActionModel::PersistSettings(s.ai_model@),
            Action::ClearHistory => ActionModel::ClearHistory,
            Action::CloseWindow => ActionModel::CloseWindow,
        }
    }
}

/// Everything the window shows.
pub struct App {
    pub text: String,
    pub ai_response: String,
    pub loading: AppState,
    pub error: Option<String>,
    pub view: RouterView,
    pub config_settings: ApplicationSettings,
    pub is_ai_api_live: bool,
    pub available_models: Vec<String>,
}

/// The mathematical value of the view state.
pub struct AppModel {
    pub text: Seq<char>,
    pub ai_response: Seq<char>,
    pub loading: AppState,
    pub error: Option<Seq<char>>,
    pub view: RouterView,
    pub ai_model: Seq<char>,
    pub is_ai_api_live: bool,
    pub available_models: Seq<Seq<char>>,
}

impl View for App {
    type V = AppModel;

    open spec fn view(&self) -> AppModel {
        AppModel {
            text: self.text@,
            ai_response: self.ai_response@,
            loading: self.loading,
            error: self.error.deep_view(),
            view: self.view,
            ai_model: self.config_settings.ai_model@,
            is_ai_api_live: self.is_ai_api_live,
            available_models: self.available_models.deep_view(),
        }
    }
}

/// The state shown at startup: home view, settled, nothing typed, nothing
/// answered, backend presumed down, no models listed.
pub open spec fn initial_state(ai_model: Seq<char>) -> AppModel {
    AppModel {
        text: Seq::empty(),
        ai_response: Seq::empty(),
        loading: AppState::Done,
        error: Option::None,
        view: RouterView::Home,
        ai_model: ai_model,
        is_ai_api_live: false,
        available_models: Seq::empty(),
    }
}

/// The state an event leads to.
///
/// Submitting is a no-op unless something is typed and no call is in
/// flight; a successful reply is shown normalized and clears the input; a
/// failed reply clears the reply, shows the error and settles the machine;
/// selecting an empty model name changes nothing, so the stored model name
/// never becomes empty.
pub open spec fn next_state(s: AppModel, m: MsgModel) -> AppModel {
    match m {
        MsgModel::UpdateInput(t) => AppModel { text: t, ..s },
        MsgModel::SendToAI => if s.text.len() > 0 && s.loading is Done {
            AppModel { loading: AppState::Loading, ..s }
        } else {
            s
        },
        MsgModel::AIResponse(r) => match r {
            Result::Ok(t) => AppModel {
                error: Option::None,
                ai_response: text::normalized(t),
                text: Seq::empty(),
                is_ai_api_live: true,
                loading: AppState::Done,
                ..s
            },
            Result::Err(e) => AppModel {
                ai_response: Seq::empty(),
                error: Option::Some(e),
                loading: AppState::Done,
                ..s
            },
        },
        MsgModel::ChangeView(v) => AppModel { view: v, ..s },
        MsgModel::AiHealthCheck(b) => AppModel {
            is_ai_api_live: b,
            loading: AppState::Done,
            ..s
        },
        MsgModel::RunAiHealthCheck => AppModel { loading: AppState::Loading, ..s },
        MsgModel::UpdateConfigModel(name) => if name.len() > 0 {
            AppModel { ai_model: name, ..s }
        } else {
            s
        },
        MsgModel::UpdateAvailableModels(ms) => AppModel { available_models: ms, ..s },
        MsgModel::GetAvailableModels => s,
        MsgModel::ClearAiHistory => AppModel {
            ai_response: Seq::empty(),
            error: Option::None,
            ..s
        },
        MsgModel::Exit => s,
    }
}

/// The follow-up an event requests: at most one per event.
///
/// A submission asks the backend with the typed prompt and the selected
/// model; a failed reply requests one recovery health probe; selecting a
/// model requests that the settings be persisted; clearing asks for the
/// conversation history to be discarded.
pub open spec fn next_action(s: AppModel, m: MsgModel) -> ActionModel {
    match m {
        MsgModel::UpdateInput(_) => ActionModel::Nothing,
        MsgModel::SendToAI => if s.text.len() > 0 && s.loading is Done {
            ActionModel::AskAi { prompt: s.text, model: s.ai_model }
        } else {
            ActionModel::Nothing
        },
        MsgModel::AIResponse(r) => match r {
            Result::Ok(_) => ActionModel::Nothing,
            Result::Err(_) => ActionModel::CheckHealth,
        },
        MsgModel::ChangeView(_) => ActionModel::Nothing,
        MsgModel::AiHealthCheck(_) => ActionModel::Nothing,
        MsgModel::RunAiHealthCheck => ActionModel::CheckHealth,
        MsgModel::UpdateConfigModel(name) => if name.len() > 0 {
            ActionModel::PersistSettings(name)
        } else {
            ActionModel::Nothing
        },
        MsgModel::UpdateAvailableModels(_) => ActionModel::Nothing,
        MsgModel::GetAvailableModels => ActionModel::ListModels,
        MsgModel::ClearAiHistory => ActionModel::ClearHistory,
        MsgModel::Exit => ActionModel::CloseWindow,
    }
}

impl App {
    /// The startup state, holding the loaded settings.
    pub fn new(config_settings: ApplicationSettings) -> (app: App)
        ensures
            app@ == initial_state(config_settings.ai_model@),
    {
        let app = App {
            text: String::new(),
            ai_response: String::new(),
            loading: AppState::Done,
            error: Option::None,
            view: RouterView::Home,
            config_settings,
            is_ai_api_live: false,
            available_models: Vec::new(),
        };
        proof {
            assert(app.available_models.deep_view() =~= Seq::<Seq<char>>::empty());
        }
        app
    }
}

/// Moves the view state along one event and returns the follow-up to carry
/// out, exactly as `next_state` and `next_action` describe.
pub fn handle_update(app: &mut App, message: MainMessage) -> (action: Action)
    ensures
        final(app)@ == next_state(old(app)@, message@),
        action@ == next_action(old(app)@, message@),
{
    match message {
        MainMessage::UpdateInput(t) => {
            app.text = t;
            Action::Nothing
        },
        MainMessage::SendToAI => {
            if !app.text.as_str().is_empty() && matches!(app.loading, AppState::Done) {
                app.loading = AppState::Loading;
                Action::AskAi {
                    prompt: app.text.clone(),
                    model: app.config_settings.ai_model.clone(),
                }
            } else {
                Action::Nothing
            }
        },
        MainMessage::AIResponse(result) => match result {
            Result::Ok(response) => {
                app.error = Option::None;
                app.ai_response = normalize_response(response.as_str());
                app.text = String::new();
                app.is_ai_api_live = true;
                app.loading = AppState::Done;
                Action::Nothing
            },
            Result::Err(e) => {
                app.ai_response = String::new();
                app.error = Option::Some(e);
                app.loading = AppState::Done;
                Action::CheckHealth
            },
        },
        MainMessage::ChangeView(v) => {
            app.view = v;
            Action::Nothing
        },
        MainMessage::AiHealthCheck(is_live) => {
            app.is_ai_api_live = is_live;
            app.loading = AppState::Done;
            Action::Nothing
        },
        MainMessage::RunAiHealthCheck => {
            app.loading = AppState::Loading;
            Action::CheckHealth
        },
        MainMessage::UpdateConfigModel(new_model) => {
            if !new_model.as_str().is_empty() {
                app.config_settings.ai_model = new_model;
                Action::PersistSettings(
                    ApplicationSettings { ai_model: app.config_settings.ai_model.clone() },
                )
            } else {
                Action::Nothing
            }
        },
        MainMessage::UpdateAvailableModels(models) => {
            app.available_models = models;
            Action::Nothing
        },
        MainMessage::GetAvailableModels => Action::ListModels,
        MainMessage::ClearAiHistory => {
            app.ai_response = String::new();
            app.error = Option::None;
            Action::ClearHistory
        },
        MainMessage::Exit => Action::CloseWindow,
    }
}

/// A key press the presentation layer listens for.
#[derive(Debug, Clone, Copy, PartialEq, Eq, Structural)]
pub enum KeyPress {
    Escape,
    Backspace,
    Enter,
    Other,
}

/// The event a key press raises: escape closes the window, backspace
/// returns to the home view, enter submits; everything else raises none.
pub open spec fn spec_message_for_key(key: KeyPress) -> Option<MsgModel> {
    match key {
        KeyPress::Escape => Option::Some(MsgModel::Exit),
        KeyPress::Backspace => Option::Some(MsgModel::ChangeView(RouterView::Home)),
        KeyPress::Enter => Option::Some(MsgModel::SendToAI),
        KeyPress::Other => Option::None,
    }
}

/// Maps a key press to the event it raises, as `spec_message_for_key`
/// describes.
pub fn message_for_key(key: KeyPress) -> (r: Option<MainMessage>)
    ensures
        match r {
            Option::Some(m) => spec_message_for_key(key) == Option::Some(m@),
            Option::None => spec_message_for_key(key) is None,
        },
{
    match key {
        KeyPress::Escape => Option::Some(MainMessage::Exit),
        KeyPress::Backspace => Option::Some(MainMessage::ChangeView(RouterView::Home)),
        KeyPress::Enter => Option::Some(MainMessage::SendToAI),
        KeyPress::Other => Option::None,
    }
}

/// Law: submitting a non-empty prompt while no call is in flight starts
/// loading and asks the backend exactly once, with the typed prompt and
/// the selected model.
pub proof fn lemma_submit_starts_loading(s: AppModel)
    requires
        s.text.len() > 0,
        s.loading is Done,
    ensures
        next_state(s, MsgModel::SendToAI).loading is Loading,
        next_action(s, MsgModel::SendToAI) == (ActionModel::AskAi {
            prompt: s.text,
            model: s.ai_model,
        }),
{
}

/// Law: while a call is in flight, the machine stays loading until a reply
/// or a finished health probe arrives; no other event settles it.
pub proof fn lemma_loading_until_response(s: AppModel, m: MsgModel)
    requires
        s.loading is Loading,
        !(m is AIResponse),
        !(m is AiHealthCheck),
    ensures
        next_state(s, m).loading is Loading,
{
}

/// The state after processing `events` in order, oldest first.
pub open spec fn run_events(s: AppModel, events: Seq<MsgModel>) -> AppModel
    decreases events.len(),
{
    if events.len() == 0 {
        s
    } else {
        run_events(next_state(s, events[0]), events.skip(1))
    }
}

/// Law: once loading, the machine stays loading through any stretch of
/// events that holds no reply and no finished health probe; only those two
/// settle it.
pub proof fn lemma_loading_survives_unrelated_events(s: AppModel, events: Seq<MsgModel>)
    requires
        s.loading is Loading,
        forall|j: int|
            0 <= j < events.len() ==> !((#[trigger] events[j]) is AIResponse) && !(events[j] is AiHealthCheck),
    ensures
        run_events(s, events).loading is Loading,
    decreases events.len(),
{
    if events.len() > 0 {
        lemma_loading_until_response(s, events[0]);
        assert forall|j: int|
            0 <= j < events.skip(1).len() implies !((#[trigger] events.skip(1)[j]) is AIResponse)
            && !(events.skip(1)[j] is AiHealthCheck) by {
            assert(events.skip(1)[j] == events[j + 1]);
        }
        lemma_loading_survives_unrelated_events(next_state(s, events[0]), events.skip(1));
    }
}

/// Law: the typed input survives every event but its own edits; among the
/// rest, exactly a successful reply clears it.
pub proof fn lemma_input_cleared_only_on_success(s: AppModel, m: MsgModel)
    requires
        !(m is UpdateInput),
    ensures
        m matches MsgModel::AIResponse(r) && r is Ok ==> next_state(s, m).text
            == Seq::<char>::empty(),
        !(m matches MsgModel::AIResponse(r) && r is Ok) ==> next_state(s, m).text == s.text,
{
}

/// Law: a failed reply settles the machine, shows the error, clears the
/// shown reply, keeps the typed input, and schedules exactly one recovery
/// health probe — the single follow-up action is the probe.
pub proof fn lemma_error_recovery(s: AppModel, e: Seq<char>)
    ensures
        next_state(s, MsgModel::AIResponse(Result::Err(e))).loading is Done,
        next_state(s, MsgModel::AIResponse(Result::Err(e))).error == Option::Some(e),
        next_state(s, MsgModel::AIResponse(Result::Err(e))).ai_response == Seq::<char>::empty(),
        next_state(s, MsgModel::AIResponse(Result::Err(e))).text == s.text,
        next_action(s, MsgModel::AIResponse(Result::Err(e))) == ActionModel::CheckHealth,
{
}

/// Law: no event empties the selected model name; the settings invariant
/// survives every transition.
pub proof fn lemma_model_name_stays_nonempty(s: AppModel, m: MsgModel)
    requires
        s.ai_model.len() > 0,
    ensures
        next_state(s, m).ai_model.len() > 0,
{
}

} // verus!
