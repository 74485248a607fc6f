//! Addresses and response handling of the Helix endpoints for polls and predictions.
use vstd::prelude::*;
use crate::twitch_types::{
    CreatePredictionResponse, CreatePredictionResponseData, EndPredictionRequest, PollStateData,
    PollStateResponse, PredictionStatus,
};
use crate::text::{owned, push_str};

verus! {

pub const POLL_URL: &'static str = "https://api.twitch.tv/helix/polls";

pub const PREDICTION_URL: &'static str = "https://api.twitch.tv/helix/predictions";

/// The value of the `Authorization` header for an access token.
pub fn bearer(access_token: &str) -> (h: String)
    ensures
        h@ == "Bearer "@ + access_token@,
{
    let mut h = owned("Bearer ");
    push_str(&mut h, access_token);
    h
}

/// `{base}?broadcaster_id={b}&id={id}`.
pub open spec fn query_url(base: Seq<char>, broadcaster_id: Seq<char>, id: Seq<char>) -> Seq<char> {
    base + "?broadcaster_id="@ + broadcaster_id + "&id="@ + id
}

fn query(base: &str, broadcaster_id: &str, id: &str) -> (u: String)
    ensures
        u@ == query_url(base@, broadcaster_id@, id@),
{
    let mut u = owned(base);
    push_str(&mut u, "?broadcaster_id=");
    push_str(&mut u, broadcaster_id);
    push_str(&mut u, "&id=");
    push_str(&mut u, id);
    u
}

/// Address that ends a poll early (its status becomes `TERMINATED`).
pub fn end_poll_url(broadcaster_id: &str, poll_id: &str) -> (u: String)
    ensures
        u@ == query_url(POLL_URL@, broadcaster_id@, poll_id@) + "&status=TERMINATED"@,
{
    let mut u = query(POLL_URL, broadcaster_id, poll_id);
    push_str(&mut u, "&status=TERMINATED");
    u
}

/// Address that reads the current state of a poll.
pub fn check_poll_url(broadcaster_id: &str, poll_id: &str) -> (u: String)
    ensures
        u@ == query_url(POLL_URL@, broadcaster_id@, poll_id@),
{
    query(POLL_URL, broadcaster_id, poll_id)
}

/// Address that reads the current state of a prediction.
pub fn check_prediction_url(broadcaster_id: &str, prediction_id: &str) -> (u: String)
    ensures
        u@ == query_url(PREDICTION_URL@, broadcaster_id@, prediction_id@),
{
    query(PREDICTION_URL, broadcaster_id, prediction_id)
}

/// The address that moves a prediction to `status`.
pub open spec fn prediction_state_url_spec(request: EndPredictionRequest, status: PredictionStatus) -> Seq<char> {
    let base = query_url(PREDICTION_URL@, request.broadcaster_id@, request.prediction_id@)
        + "&status="@ + status.api_name();
    if request.outcome_id@.len() == 0 {
        base
    } else {
        base + "&winning_outcome_id="@ + request.outcome_id@
    }
}

/// Address that locks, cancels or resolves a prediction. Only resolving a prediction
/// supplies a winner; lock/cancel deliberately pass an empty `outcome_id`, so
/// `winning_outcome_id` is left out in those cases.
pub fn prediction_state_url(request: &EndPredictionRequest, status: PredictionStatus) -> (u: String)
    ensures
        u@ == prediction_state_url_spec(*request, status),
{
    let mut u = query(PREDICTION_URL, request.broadcaster_id.as_str(), request.prediction_id.as_str());
    push_str(&mut u, "&status=");
    push_str(&mut u, status.as_str());
    if request.outcome_id.as_str().unicode_len() != 0 {
        push_str(&mut u, "&winning_outcome_id=");
        push_str(&mut u, request.outcome_id.as_str());
    }
    u
}

/// The message when Twitch answers with an empty list.
pub open spec fn empty_response_message() -> Seq<char> {
    "Empty response from Twitch"@
}

/// The first poll of a response.
pub fn first_poll(resp: PollStateResponse) -> (r: Result<PollStateData, String>)
    ensures
        resp.data@.len() == 0 ==> (r matches Err(e) && e@ == empty_response_message()),
        resp.data@.len() > 0 ==> r == Ok::<PollStateData, String>(resp.data@[0]),
{
    let mut data = resp.data;
    if data.len() == 0 {
        Err(owned("Empty response from Twitch"))
    } else {
        Ok(data.remove(0))
    }
}

/// The first prediction of a response.
pub fn first_prediction(resp: CreatePredictionResponse) -> (r: Result<CreatePredictionResponseData, String>)
    ensures
        resp.data@.len() == 0 ==> (r matches Err(e) && e@ == empty_response_message()),
        resp.data@.len() > 0 ==> r == Ok::<CreatePredictionResponseData, String>(resp.data@[0]),
{
    let mut data = resp.data;
    if data.len() == 0 {
        Err(owned("Empty response from Twitch"))
    } else {
        Ok(data.remove(0))
    }
}

} // verus!
