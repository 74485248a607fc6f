use streamertools::auth::device_flow_failure;
use streamertools::twitch_api::{
    bearer, check_poll_url, check_prediction_url, end_poll_url, first_poll, first_prediction,
    prediction_state_url,
};
use streamertools::twitch_types::{
    CreatePredictionResponse, EndPredictionRequest, PollStateResponse, PredictionStatus,
};
use streamertools::{first_user, User, CLIENT_ID};

fn request(outcome: &str) -> EndPredictionRequest {
    EndPredictionRequest {
        broadcaster_id: "b1".to_string(),
        outcome_id: outcome.to_string(),
        prediction_id: "p1".to_string(),
    }
}

#[test]
fn resolving_names_the_winner() {
    assert_eq!(
        prediction_state_url(&request("o1"), PredictionStatus::Resolved),
        "https://api.twitch.tv/helix/predictions?broadcaster_id=b1&id=p1&status=RESOLVED&winning_outcome_id=o1"
    );
}

#[test]
fn locking_and_cancelling_name_no_winner() {
    assert_eq!(
        prediction_state_url(&request(""), PredictionStatus::Locked),
        "https://api.twitch.tv/helix/predictions?broadcaster_id=b1&id=p1&status=LOCKED"
    );
    assert_eq!(
        prediction_state_url(&request(""), PredictionStatus::Canceled),
        "https://api.twitch.tv/helix/predictions?broadcaster_id=b1&id=p1&status=CANCELED"
    );
}

#[test]
fn poll_addresses() {
    assert_eq!(
        end_poll_url("b", "x"),
        "https://api.twitch.tv/helix/polls?broadcaster_id=b&id=x&status=TERMINATED"
    );
    assert_eq!(
        check_poll_url("b", "x"),
        "https://api.twitch.tv/helix/polls?broadcaster_id=b&id=x"
    );
    assert_eq!(
        check_prediction_url("b", "y"),
        "https://api.twitch.tv/helix/predictions?broadcaster_id=b&id=y"
    );
}

#[test]
fn authorization_header() {
    assert_eq!(bearer("abc"), "Bearer abc");
    assert_eq!(CLIENT_ID.len(), 30);
}

#[test]
fn empty_responses_are_errors() {
    assert_eq!(
        first_poll(PollStateResponse { data: vec![] }).unwrap_err(),
        "Empty response from Twitch"
    );
    assert_eq!(
        first_prediction(CreatePredictionResponse { data: vec![] }).unwrap_err(),
        "Empty response from Twitch"
    );
    let tie = streamertools::sample_data::poll_tie();
    let running = streamertools::sample_data::running_poll();
    let first = first_poll(PollStateResponse { data: vec![running.clone(), tie] }).unwrap();
    assert_eq!(first, running);
}

#[test]
fn first_user_is_taken() {
    let u = |id: &str| User {
        id: id.to_string(),
        login: "l".to_string(),
        display_name: "d".to_string(),
    };
    assert!(first_user(vec![]).is_none());
    assert_eq!(first_user(vec![u("1"), u("2")]).unwrap().id, "1");
}

#[test]
fn device_flow_keeps_polling_while_pending() {
    assert!(device_flow_failure("authorization_pending").is_none());
    assert_eq!(
        device_flow_failure("access_denied").unwrap(),
        "Authorization failed: access_denied"
    );
}
