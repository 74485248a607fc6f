//! Only used if --sample is active for
//! Test data for debug buttons
use vstd::prelude::*;
use crate::twitch_types::{
    CreatePredictionResponseData, PollChoiceState, PollPhase, PollStateData, PredictionOutcome,
    PredictionStatus, Predictor,
};
use crate::text::{decimal_text, int_to_string, owned, push_str, str_eq};

verus! {

/// `p` is the predictor `user_name` who bet `used` and won `won`.
pub open spec fn predictor_is(p: Predictor, user_name: Seq<char>, used: int, won: int) -> bool {
    p.user_name@ == user_name && p.channel_points_used == used && p.channel_points_won == won
}

/// `c` is the poll choice `id` / `title` with the given votes.
pub open spec fn choice_is(c: PollChoiceState, id: Seq<char>, title: Seq<char>, votes: int, points: int) -> bool {
    c.id@ == id && c.title@ == title && c.votes == votes && c.channel_points_votes == points
}

/// `o` is the sample outcome built from these values: three top predictors whose bets
/// scale with `factor`, and who only won something on the outcome with id `1`.
pub open spec fn outcome_is(
    o: PredictionOutcome,
    id: Seq<char>,
    title: Seq<char>,
    users: int,
    points: int,
    color: Seq<char>,
    factor: int,
) -> bool {
    let won: int = if id == "1"@ { 1 } else { 0 };
    &&& o.id@ == id
    &&& o.title@ == title
    &&& o.users == users
    &&& o.channel_points == points
    &&& o.color@ == color
    &&& o.top_predictors matches Some(ps)
    &&& ps@.len() == 3
    &&& predictor_is(ps@[0], "Alice"@, 12_000 * factor, 18_000 * factor * won)
    &&& predictor_is(ps@[1], "Bob"@, 8_500 * factor, 12_750 * factor * won)
    &&& predictor_is(ps@[2], "Carol"@, 3_000 * factor, 4_500 * factor * won)
}

fn predictor(user_name: &str, channel_points_used: i64, channel_points_won: i64) -> (p: Predictor)
    ensures
        predictor_is(p, user_name@, channel_points_used as int, channel_points_won as int),
{
    Predictor { user_name: owned(user_name), channel_points_used, channel_points_won }
}

fn choice(id: &str, title: &str, votes: i64, channel_points_votes: i64) -> (c: PollChoiceState)
    ensures
        choice_is(c, id@, title@, votes as int, channel_points_votes as int),
{
    PollChoiceState { id: owned(id), title: owned(title), votes, channel_points_votes }
}

fn poll(choices: Vec<PollChoiceState>) -> (p: PollStateData)
    ensures
        p.id@ == "test-poll"@,
        p.choices@ == choices@,
        p.status == PollPhase::Completed,
{
    PollStateData { id: owned("test-poll"), choices, status: PollPhase::Completed }
}

/// A finished poll with a clear overall winner.
pub fn poll_total_winner() -> (p: PollStateData)
    ensures
        p.id@ == "test-poll"@,
        p.status == PollPhase::Completed,
        p.choices@.len() == 3,
        choice_is(p.choices@[0], "1"@, "Total Winner"@, 100, 40),
        choice_is(p.choices@[1], "2"@, "Runner Up"@, 50, 10),
        choice_is(p.choices@[2], "3"@, "Third"@, 30, 5),
{
    poll(vec![
        choice("1", "Total Winner", 100, 40),
        choice("2", "Runner Up", 50, 10),
        choice("3", "Third", 30, 5),
    ])
}

/// A finished poll whose overall winner also wins the point vote but not the free vote.
pub fn poll_points_winner() -> (p: PollStateData)
    ensures
        p.id@ == "test-poll"@,
        p.status == PollPhase::Completed,
        p.choices@.len() == 3,
        choice_is(p.choices@[0], "1"@, "Overall & Points"@, 100, 90),
        choice_is(p.choices@[1], "2"@, "Popular Vote"@, 80, 5),
        choice_is(p.choices@[2], "3"@, "Third"@, 20, 10),
{
    poll(vec![
        choice("1", "Overall & Points", 100, 90),
        choice("2", "Popular Vote", 80, 5),
        choice("3", "Third", 20, 10),
    ])
}

/// A poll that is still running.
pub fn running_poll() -> (p: PollStateData)
    ensures
        p.id@ == "test-poll"@,
        p.status == PollPhase::Active,
        p.choices@.len() == 3,
        choice_is(p.choices@[0], "1"@, "Overall & Points"@, 100, 90),
        choice_is(p.choices@[1], "2"@, "Popular Vote"@, 80, 5),
        choice_is(p.choices@[2], "3"@, "Third"@, 20, 10),
{
    let choices = vec![
        choice("1", "Overall & Points", 100, 90),
        choice("2", "Popular Vote", 80, 5),
        choice("3", "Third", 20, 10),
    ];
    PollStateData { id: owned("test-poll"), choices, status: PollPhase::Active }
}

/// A finished poll whose overall winner also wins the free vote but not the point vote.
pub fn poll_popular_winner() -> (p: PollStateData)
    ensures
        p.id@ == "test-poll"@,
        p.status == PollPhase::Completed,
        p.choices@.len() == 3,
        choice_is(p.choices@[0], "1"@, "Overall & Popular"@, 100, 10),
        choice_is(p.choices@[1], "2"@, "Points Winner"@, 60, 55),
        choice_is(p.choices@[2], "3"@, "Third"@, 30, 8),
{
    poll(vec![
        choice("1", "Overall & Popular", 100, 10),
        choice("2", "Points Winner", 60, 55),
        choice("3", "Third", 30, 8),
    ])
}

/// A finished poll with two winners on a tie.
pub fn poll_tie() -> (p: PollStateData)
    ensures
        p.id@ == "test-poll"@,
        p.status == PollPhase::Completed,
        p.choices@.len() == 4,
        choice_is(p.choices@[0], "1"@, "Team Cats"@, 100, 30),
        choice_is(p.choices@[1], "2"@, "Team Dogs"@, 100, 20),
        choice_is(p.choices@[2], "3"@, "Team Rats"@, 40, 10),
        choice_is(p.choices@[3], "4"@, "Team Spiders"@, 4, 2),
{
    poll(vec![
        choice("1", "Team Cats", 100, 30),
        choice("2", "Team Dogs", 100, 20),
        choice("3", "Team Rats", 40, 10),
        choice("4", "Team Spiders", 4, 2),
    ])
}

fn outcome(id: &str, title: &str, users: i64, channel_points: i64, color: &str, factor: i64) -> (o:
    PredictionOutcome)
    requires
        0 <= factor <= 1_000_000,
    ensures
        outcome_is(o, id@, title@, users as int, channel_points as int, color@, factor as int),
{
    // make sure to have one winner display and the rest losers.
    let won: i64 = if str_eq(id, "1") {
        1
    } else {
        0
    };
    PredictionOutcome {
        id: owned(id),
        title: owned(title),
        users,
        channel_points,
        top_predictors: Some(
            vec![
                predictor("Alice", 12_000 * factor, 18_000 * factor * won),
                predictor("Bob", 8_500 * factor, 12_750 * factor * won),
                predictor("Carol", 3_000 * factor, 4_500 * factor * won),
            ],
        ),
        color: owned(color),
    }
}

fn prediction(outcomes: Vec<PredictionOutcome>) -> (p: CreatePredictionResponseData)
    ensures
        p.id@ == "test-prediction"@,
        p.winning_outcome_id matches Some(w) && w@ == "1"@,
        p.outcomes@ == outcomes@,
        p.status == PredictionStatus::Resolved,
{
    CreatePredictionResponseData {
        id: owned("test-prediction"),
        winning_outcome_id: Some(owned("1")),
        outcomes,
        status: PredictionStatus::Resolved,
    }
}

/// A resolved prediction with two outcomes.
pub fn prediction_two() -> (p: CreatePredictionResponseData)
    ensures
        p.id@ == "test-prediction"@,
        p.winning_outcome_id matches Some(w) && w@ == "1"@,
        p.status == PredictionStatus::Resolved,
        p.outcomes@.len() == 2,
        outcome_is(p.outcomes@[0], "1"@, "Yes"@, 120, 45_000, "BLUE"@, 2),
        outcome_is(p.outcomes@[1], "2"@, "No"@, 80, 30_000, "PINK"@, 3),
{
    prediction(vec![
        outcome("1", "Yes", 120, 45_000, "BLUE", 2),
        outcome("2", "No", 80, 30_000, "PINK", 3),
    ])
}

/// A prediction that is still open for bets.
pub fn prediction_ongoing() -> (p: CreatePredictionResponseData)
    ensures
        p.id@ == "test-prediction"@,
        p.winning_outcome_id matches Some(w) && w@ == "1"@,
        p.status == PredictionStatus::Active,
        p.outcomes@.len() == 2,
        outcome_is(p.outcomes@[0], "1"@, "Yes"@, 120, 45_000, "BLUE"@, 2),
        outcome_is(p.outcomes@[1], "2"@, "No"@, 80, 30_000, "PINK"@, 5),
{
    let outcomes = vec![
        outcome("1", "Yes", 120, 45_000, "BLUE", 2),
        outcome("2", "No", 80, 30_000, "PINK", 5),
    ];
    CreatePredictionResponseData {
        id: owned("test-prediction"),
        winning_outcome_id: Some(owned("1")),
        outcomes,
        status: PredictionStatus::Active,
    }
}

/// A resolved prediction with five outcomes.
pub fn prediction_five() -> (p: CreatePredictionResponseData)
    ensures
        p.id@ == "test-prediction"@,
        p.winning_outcome_id matches Some(w) && w@ == "1"@,
        p.status == PredictionStatus::Resolved,
        p.outcomes@.len() == 5,
        outcome_is(p.outcomes@[0], "1"@, "Outcome 1"@, 90, 30_000, "BLUE"@, 1),
        outcome_is(p.outcomes@[1], "2"@, "Outcome 2"@, 70, 22_000, "PINK"@, 2),
        outcome_is(p.outcomes@[2], "3"@, "Outcome 3"@, 55, 18_500, "BLUE"@, 3),
        outcome_is(p.outcomes@[3], "4"@, "Outcome 4"@, 40, 12_000, "PINK"@, 4),
        outcome_is(p.outcomes@[4], "5"@, "Outcome 5"@, 25, 6_500, "BLUE"@, 5),
{
    prediction(vec![
        outcome("1", "Outcome 1", 90, 30_000, "BLUE", 1),
        outcome("2", "Outcome 2", 70, 22_000, "PINK", 2),
        outcome("3", "Outcome 3", 55, 18_500, "BLUE", 3),
        outcome("4", "Outcome 4", 40, 12_000, "PINK", 4),
        outcome("5", "Outcome 5", 25, 6_500, "BLUE", 5),
    ])
}

/// Outcome `i` of the ten-outcome sample: id `i`, title `Outcome i`, fewer users and
/// points the higher `i`, alternating colours.
pub open spec fn ten_outcome_is(o: PredictionOutcome, i: int) -> bool {
    outcome_is(
        o,
        decimal_text(i),
        "Outcome "@ + decimal_text(i),
        110 - i * 10,
        (11 - i) * 4000,
        if i % 2 == 1 { "BLUE"@ } else { "PINK"@ },
        i,
    )
}

/// A resolved prediction with ten outcomes.
pub fn prediction_ten() -> (p: CreatePredictionResponseData)
    ensures
        p.id@ == "test-prediction"@,
        p.winning_outcome_id matches Some(w) && w@ == "1"@,
        p.status == PredictionStatus::Resolved,
        p.outcomes@.len() == 10,
        forall|k: int| 0 <= k < 10 ==> ten_outcome_is(#[trigger] p.outcomes@[k], k + 1),
{
    let mut outcomes: Vec<PredictionOutcome> = Vec::new();
    let mut i: i64 = 1;
    while i <= 10
        invariant
            1 <= i <= 11,
            outcomes@.len() == i - 1,
            forall|k: int| 0 <= k < i - 1 ==> ten_outcome_is(#[trigger] outcomes@[k], k + 1),
        decreases 11 - i,
    {
        let color = if i % 2 == 1 {
            "BLUE"
        } else {
            "PINK"
        };
        let id = int_to_string(i);
        let mut title = owned("Outcome ");
        push_str(&mut title, id.as_str());
        outcomes.push(outcome(id.as_str(), title.as_str(), 110 - i * 10, (11 - i) * 4000, color, i));
        i = i + 1;
    }
    prediction(outcomes)
}

} // verus!
