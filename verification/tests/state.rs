use streamertools::auth::{AuthMessage, DeviceCodeInfo};
use streamertools::base_form::BaseFormMessage;
use streamertools::config::ConfigMessage;
use streamertools::poll::{PollBarTabId, PollMessage, PollRun};
use streamertools::prediction::{PredictionMessage, PredictionRun};
use streamertools::settings::{Separator, Settings, SettingsMessage};
use streamertools::state::{tab_for_shortcut, App, AppPolling, ConfigKind, Effect, Message, TabId};
use streamertools::twitch_types::{PollPhase, PredictionStatus};

fn fresh() -> App {
    App::new(vec![], vec!["old".to_string()], None, Settings::default(), false).0
}

fn logged_in() -> App {
    let (mut app, effect) = App::new(
        vec![],
        vec![],
        Some(("tok".to_string(), "ref".to_string())),
        Settings::default(),
        false,
    );
    assert!(matches!(effect, Effect::Dispatch(Message::Auth(AuthMessage::ValidateToken))));
    app.update(Message::Auth(AuthMessage::TokenValidated(Ok(Some("42".to_string())))));
    app
}

#[test]
fn start_state() {
    let app = fresh();
    assert_eq!(app.auth_status, "Not logged in");
    assert_eq!(app.poll.form.options, vec![String::new(), String::new()]);
    assert_eq!(app.poll.form.duration, 10);
    assert_eq!(app.poll.form.channel_point_cost, 5000);
    assert_eq!(app.prediction.configs.items, vec!["old".to_string()]);
    assert_eq!(app.active_tab, TabId::Prediction);
    assert!(app.poll.form.title.is_empty() && app.poll.form.name.is_empty());
    assert!(app.prediction.form.title.is_empty() && app.prediction.form.name.is_empty());
    assert_eq!(app.poll.active_tab, PollBarTabId::Total);
    assert_eq!(app.prediction.active_tab, 0);
    assert!(app.confirm.is_none() && app.device_code_info.is_none());
    assert!(!app.auth_in_progress && !app.refresh_attempted);
    assert_eq!(app.polling, AppPolling::Not);
}

#[test]
fn submitting_without_login_reports_an_error() {
    let mut app = fresh();
    match app.update(Message::Poll(PollMessage::Submit)) {
        Effect::Report(e) => assert_eq!(e, "Not logged in, please log in with Twitch first."),
        other => panic!("unexpected {other:?}"),
    }
}

#[test]
fn submitting_a_poll_asks_twitch_with_the_form() {
    let mut app = logged_in();
    app.update(Message::Poll(PollMessage::BaseFormChange(BaseFormMessage::TitleChanged("Q".to_string()))));
    app.update(Message::Poll(PollMessage::BaseFormChange(BaseFormMessage::OptionChanged(1, "B".to_string()))));
    app.update(Message::Poll(PollMessage::BaseFormChange(BaseFormMessage::DurationChanged(3))));
    app.update(Message::Poll(PollMessage::ChannelPointsToggled(true)));
    match app.update(Message::Poll(PollMessage::Submit)) {
        Effect::CreatePoll { access_token, request } => {
            assert_eq!(access_token, "tok");
            assert_eq!(request.broadcaster_id, "42");
            assert_eq!(request.title, "Q");
            assert_eq!(request.choices.len(), 2);
            assert_eq!(request.choices[1].title, "B");
            assert_eq!(request.duration, 180);
            assert!(request.channel_points_voting_enabled);
            assert_eq!(request.channel_points_per_vote, 5000);
        }
        other => panic!("unexpected {other:?}"),
    }
}

#[test]
fn poll_options_stay_at_two_or_more() {
    let mut app = fresh();
    app.update(Message::Poll(PollMessage::BaseFormChange(BaseFormMessage::RemoveOption(0))));
    assert_eq!(app.poll.form.options.len(), 2);
    app.update(Message::Poll(PollMessage::BaseFormChange(BaseFormMessage::AddOption)));
    assert_eq!(app.poll.form.options.len(), 3);
    app.update(Message::Poll(PollMessage::BaseFormChange(BaseFormMessage::RemoveOption(2))));
    assert_eq!(app.poll.form.options.len(), 2);
    app.update(Message::Poll(PollMessage::BaseFormChange(BaseFormMessage::OptionChanged(9, "x".to_string()))));
    assert_eq!(app.poll.form.options, vec![String::new(), String::new()]);
}

#[test]
fn created_poll_goes_live_and_ticks_refresh_it() {
    let mut app = logged_in();
    let poll = streamertools::sample_data::running_poll();
    app.update(Message::Poll(PollMessage::PollCreated(Ok(poll.clone()))));
    assert_eq!(app.poll.run, PollRun::Live(poll));
    // creating a poll leaves the refresh mode as it was
    assert_eq!(app.polling, AppPolling::Not);
    assert!(matches!(app.update(Message::PollTick), Effect::Nothing));
    app.polling = AppPolling::Poll;
    match app.update(Message::PollTick) {
        Effect::CheckPoll { access_token, broadcaster_id, poll_id } => {
            assert_eq!((access_token.as_str(), broadcaster_id.as_str(), poll_id.as_str()), ("tok", "42", "test-poll"));
        }
        other => panic!("unexpected {other:?}"),
    }
    app.update(Message::PollPolled(Ok(streamertools::sample_data::poll_tie())));
    assert_eq!(app.polling, AppPolling::Not);
    assert!(matches!(app.update(Message::PollTick), Effect::Nothing));
}

#[test]
fn failed_requests_become_errors() {
    let mut app = logged_in();
    match app.update(Message::Poll(PollMessage::PollCreated(Err("boom".to_string())))) {
        Effect::Dispatch(Message::Error(e)) => {
            assert_eq!(e, "boom");
            app.update(Message::Error(e));
        }
        other => panic!("unexpected {other:?}"),
    }
    assert_eq!(app.err, "boom");
    app.update(Message::ClearError);
    assert!(app.err.is_empty());
}

#[test]
fn ending_a_poll_needs_a_live_poll() {
    let mut app = logged_in();
    match app.update(Message::Poll(PollMessage::EndPoll)) {
        Effect::Report(e) => assert_eq!(e, "No current poll when trying to end a poll"),
        other => panic!("unexpected {other:?}"),
    }
    app.update(Message::Poll(PollMessage::LoadSampleData(streamertools::sample_data::running_poll())));
    assert!(matches!(
        app.update(Message::Poll(PollMessage::EndPoll)),
        Effect::EndPoll { .. }
    ));
}

#[test]
fn saving_a_config_checks_the_name_and_records_the_save() {
    let mut app = fresh();
    app.update(Message::Poll(PollMessage::Config(ConfigMessage::NameChanged("../x".to_string()))));
    match app.update(Message::Poll(PollMessage::Config(ConfigMessage::Save))) {
        Effect::Dispatch(Message::Error(e)) => {
            assert_eq!(e, "Invalid config name '../x': use a single name without path separators.")
        }
        other => panic!("unexpected {other:?}"),
    }
    app.update(Message::Poll(PollMessage::Config(ConfigMessage::NameChanged("night".to_string()))));
    match app.update(Message::Poll(PollMessage::Config(ConfigMessage::Save))) {
        Effect::SaveConfig { kind, name } => {
            assert_eq!(kind, ConfigKind::Polls);
            assert_eq!(name, "night");
        }
        other => panic!("unexpected {other:?}"),
    }
    app.update(Message::Poll(PollMessage::ConfigSaved(
        "night".to_string(),
        Ok(vec!["night".to_string()]),
    )));
    assert!(app.poll.configs.loaded);
    assert_eq!(app.poll.configs.selected.as_deref(), Some("night"));
    app.update(Message::Poll(PollMessage::Config(ConfigMessage::New)));
    assert!(!app.poll.configs.loaded);
    assert!(app.poll.configs.selected.is_none());
    assert!(app.poll.form.name.is_empty());
}

#[test]
fn loading_a_config_replaces_the_form() {
    let mut app = fresh();
    assert!(matches!(
        app.update(Message::Prediction(PredictionMessage::ConfigSelected("old".to_string()))),
        Effect::LoadConfig { kind: ConfigKind::Predictions, .. }
    ));
    let mut form = app.prediction.form.clone();
    form.title = "Loaded".to_string();
    app.update(Message::Prediction(PredictionMessage::ConfigLoaded("old".to_string(), form)));
    assert_eq!(app.prediction.form.title, "Loaded");
    assert!(app.prediction.configs.loaded);
}

#[test]
fn prediction_lifecycle() {
    let mut app = logged_in();
    match app.update(Message::Prediction(PredictionMessage::LockPrediction)) {
        Effect::Dispatch(Message::Error(e)) => assert_eq!(e, "Prediction run should be live"),
        other => panic!("unexpected {other:?}"),
    }
    let mut live = streamertools::sample_data::prediction_ongoing();
    app.update(Message::Prediction(PredictionMessage::PredictionCreated(Ok(live.clone()))));
    assert_eq!(app.polling, AppPolling::Not);
    app.polling = AppPolling::Prediction;
    match app.update(Message::Prediction(PredictionMessage::LockPrediction)) {
        Effect::ChangePrediction { request, status, .. } => {
            assert_eq!(status, PredictionStatus::Locked);
            assert!(request.outcome_id.is_empty());
            assert_eq!(request.prediction_id, "test-prediction");
        }
        other => panic!("unexpected {other:?}"),
    }
    match app.update(Message::Prediction(PredictionMessage::WinnerChosen("2".to_string()))) {
        Effect::ChangePrediction { request, status, .. } => {
            assert_eq!(status, PredictionStatus::Resolved);
            assert_eq!(request.outcome_id, "2");
        }
        other => panic!("unexpected {other:?}"),
    }
    live.status = PredictionStatus::Resolved;
    app.update(Message::PredictionPolled(Ok(live.clone())));
    assert_eq!(app.polling, AppPolling::Not);
    assert_eq!(app.prediction.run, PredictionRun::Live(live));
    app.update(Message::Prediction(PredictionMessage::ResetPrediction));
    assert_eq!(app.prediction.run, PredictionRun::Idle);
}

#[test]
fn prediction_form_edits() {
    let mut app = fresh();
    app.update(Message::Prediction(PredictionMessage::OptionChanged(0, "a".to_string())));
    app.update(Message::Prediction(PredictionMessage::OptionChanged(1, "b".to_string())));
    app.update(Message::Prediction(PredictionMessage::SwitchOptions));
    assert_eq!(app.prediction.form.options, vec!["b".to_string(), "a".to_string()]);
    app.update(Message::Prediction(PredictionMessage::RemoveOption(0)));
    assert_eq!(app.prediction.form.options.len(), 2);
    app.update(Message::Prediction(PredictionMessage::AddOption));
    app.update(Message::Prediction(PredictionMessage::RemoveOption(0)));
    assert_eq!(app.prediction.form.options, vec!["a".to_string(), String::new()]);
    app.update(Message::Prediction(PredictionMessage::DurationChange(4)));
    app.update(Message::Prediction(PredictionMessage::TitleChanged("T".to_string())));
    assert_eq!(app.prediction.form.duration, 4);
    assert_eq!(app.prediction.form.title, "T");
}

#[test]
fn login_flow() {
    let mut app = fresh();
    assert!(matches!(app.update(Message::Auth(AuthMessage::StartAuth)), Effect::RequestDeviceCode));
    assert!(app.auth_in_progress);
    let info = DeviceCodeInfo {
        verification_uri: "https://x".to_string(),
        user_code: "ABCD".to_string(),
        device_code: "dev".to_string(),
        interval: 5,
        expires_in: 600,
    };
    match app.update(Message::Auth(AuthMessage::DeviceCodeReceived(Ok(info)))) {
        Effect::Dispatch(Message::Auth(AuthMessage::PollForTokens { device_code, interval, expires_in })) => {
            assert_eq!((device_code.as_str(), interval, expires_in), ("dev", 5, 600));
        }
        other => panic!("unexpected {other:?}"),
    }
    assert_eq!(app.auth_status, "Go to https://x and enter code: ABCD");
    match app.update(Message::Auth(AuthMessage::AuthCompleted(Ok(("a".to_string(), "r".to_string()))))) {
        Effect::StoreTokens { access_token, refresh_token } => {
            assert_eq!((access_token.as_str(), refresh_token.as_str()), ("a", "r"));
        }
        other => panic!("unexpected {other:?}"),
    }
    assert!(!app.auth_in_progress);
    assert!(app.device_code_info.is_none());
    assert!(matches!(
        app.update(Message::Auth(AuthMessage::TokensStored(false))),
        Effect::Dispatch(Message::Auth(AuthMessage::ConfirmFallback))
    ));
    app.update(Message::Auth(AuthMessage::ConfirmFallback));
    assert_eq!(
        app.confirm.as_ref().map(|c| c.message.as_str()),
        Some("Could not save tokens to the Operating System's keystore.\nDo you want the tokens saved to a file? This is not recommended since it might leak the tokens to other processes.\nIf \"No\", you'll have to re-authenticate every time you restart the app.")
    );
    assert!(matches!(
        app.update(Message::Auth(AuthMessage::FallbackConfirmed(false))),
        Effect::Dispatch(Message::Auth(AuthMessage::ValidateToken))
    ));
    // answering leaves the question standing
    assert!(app.confirm.is_some());
    assert!(matches!(
        app.update(Message::Auth(AuthMessage::FallbackConfirmed(true))),
        Effect::StoreTokensInFile { .. }
    ));
}

#[test]
fn invalid_token_is_refreshed_once() {
    let mut app = logged_in();
    assert!(matches!(
        app.update(Message::Auth(AuthMessage::TokenValidated(Ok(None)))),
        Effect::Dispatch(Message::Auth(AuthMessage::RefreshToken))
    ));
    assert_eq!(app.auth_status, "Token expired, refreshing...");
    assert!(matches!(
        app.update(Message::Auth(AuthMessage::RefreshToken)),
        Effect::RefreshToken { .. }
    ));
    assert!(matches!(
        app.update(Message::Auth(AuthMessage::TokenValidated(Ok(None)))),
        Effect::Dispatch(Message::Auth(AuthMessage::StartAuth))
    ));
}

#[test]
fn unreachable_twitch_retries_validation() {
    let mut app = logged_in();
    match app.update(Message::Auth(AuthMessage::TokenValidated(Err("timeout".to_string())))) {
        Effect::RetryValidation { reason } => assert_eq!(reason, "timeout"),
        other => panic!("unexpected {other:?}"),
    }
    assert_eq!(app.auth_status, "Could not reach Twitch, retrying...");
}

#[test]
fn settings_are_saved() {
    let mut app = fresh();
    assert!(matches!(
        app.update(Message::Settings(SettingsMessage::NumberFormat(Separator::CommaDecimalDotThousand))),
        Effect::SaveSettings { separator: Some(Separator::CommaDecimalDotThousand) }
    ));
    assert_eq!(app.settings.separator, Some(Separator::CommaDecimalDotThousand));
    assert!(matches!(
        app.update(Message::Settings(SettingsMessage::DefaultTab("Poll".to_string()))),
        Effect::SaveSettings { separator: None }
    ));
    assert_eq!(app.settings.default_tab.as_deref(), Some("Poll"));
}

#[test]
fn tabs_and_shortcuts() {
    let mut app = fresh();
    app.update(Message::TabSelected(1));
    assert_eq!(app.active_tab, TabId::Poll);
    app.update(Message::TabSelected(9));
    assert_eq!(app.active_tab, TabId::Prediction);
    assert_eq!(tab_for_shortcut('3'), Some(TabId::Misc));
    assert_eq!(tab_for_shortcut('x'), None);
    for t in [TabId::Misc, TabId::Poll, TabId::Prediction] {
        assert_eq!(TabId::from_idx(t.idx()), t);
    }
}

#[test]
fn poll_phase_end_stops_refreshing() {
    let mut app = logged_in();
    let mut poll = streamertools::sample_data::running_poll();
    app.update(Message::Poll(PollMessage::PollCreated(Ok(poll.clone()))));
    app.polling = AppPolling::Poll;
    poll.status = PollPhase::Archived;
    app.update(Message::PollPolled(Ok(poll)));
    assert_eq!(app.polling, AppPolling::Not);
    app.update(Message::PollPolled(Err("x".to_string())));
    assert_eq!(app.polling, AppPolling::Not);
}
