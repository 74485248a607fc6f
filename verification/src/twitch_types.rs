//! The data that the Twitch Helix API exchanges for polls and predictions.
use vstd::prelude::*;
use crate::text::str_eq;

verus! {

/// Lifecycle of a channel-point prediction as reported by Twitch. Names that this
/// program does not know map to `Unknown`.
#[derive(Debug, Clone, Copy, PartialEq, Eq, Structural)]
pub enum PredictionStatus {
    Resolved,
    Active,
    Locked,
    Canceled,
    Unknown,
}

impl Default for PredictionStatus {
    fn default() -> (s: Self)
        ensures
            s == PredictionStatus::Active,
    {
        PredictionStatus::Active
    }
}

impl PredictionStatus {
    /// The upper-case name Twitch uses for the status.
    pub open spec fn api_name(self) -> Seq<char> {
        match self {
            PredictionStatus::Resolved => "RESOLVED"@,
            PredictionStatus::Active => "ACTIVE"@,
            PredictionStatus::Locked => "LOCKED"@,
            PredictionStatus::Canceled => "CANCELED"@,
            PredictionStatus::Unknown => "UNKNOWN"@,
        }
    }

    /// The status a name stands for; any other name is `Unknown`.
    pub open spec fn named(name: Seq<char>) -> PredictionStatus {
        if name == "RESOLVED"@ {
            PredictionStatus::Resolved
        } else if name == "ACTIVE"@ {
            PredictionStatus::Active
        } else if name == "LOCKED"@ {
            PredictionStatus::Locked
        } else if name == "CANCELED"@ {
            PredictionStatus::Canceled
        } else {
            PredictionStatus::Unknown
        }
    }

    pub fn as_str(&self) -> (s: &'static str)
        ensures
            s@ == self.api_name(),
    {
        match self {
            PredictionStatus::Resolved => "RESOLVED",
            PredictionStatus::Active => "ACTIVE",
            PredictionStatus::Locked => "LOCKED",
            PredictionStatus::Canceled => "CANCELED",
            PredictionStatus::Unknown => "UNKNOWN",
        }
    }

    /// Reads the status from its API name.
    pub fn from_api_name(name: &str) -> (s: Self)
        ensures
            s == Self::named(name@),
    {
        if str_eq(name, "RESOLVED") {
            PredictionStatus::Resolved
        } else if str_eq(name, "ACTIVE") {
            PredictionStatus::Active
        } else if str_eq(name, "LOCKED") {
            PredictionStatus::Locked
        } else if str_eq(name, "CANCELED") {
            PredictionStatus::Canceled
        } else {
            PredictionStatus::Unknown
        }
    }
}

/// Lifecycle of a poll as reported by Twitch. Names that this program does not
/// know map to `Unknown`.
#[derive(Debug, Clone, Copy, PartialEq, Eq, Structural)]
pub enum PollPhase {
    Active,
    Terminated,
    Archived,
    Completed,
    Moderated,
    Invalid,
    Unknown,
}

impl Default for PollPhase {
    fn default() -> (p: Self)
        ensures
            p == PollPhase::Active,
    {
        PollPhase::Active
    }
}

impl PollPhase {
    /// The upper-case name Twitch uses for the phase.
    pub open spec fn api_name(self) -> Seq<char> {
        match self {
            PollPhase::Active => "ACTIVE"@,
            PollPhase::Terminated => "TERMINATED"@,
            PollPhase::Archived => "ARCHIVED"@,
            PollPhase::Completed => "COMPLETED"@,
            PollPhase::Moderated => "MODERATED"@,
            PollPhase::Invalid => "INVALID"@,
            PollPhase::Unknown => "UNKNOWN"@,
        }
    }

    /// The phase a name stands for; any other name is `Unknown`.
    pub open spec fn named(name: Seq<char>) -> PollPhase {
        if name == "ACTIVE"@ {
            PollPhase::Active
        } else if name == "TERMINATED"@ {
            PollPhase::Terminated
        } else if name == "ARCHIVED"@ {
            PollPhase::Archived
        } else if name == "COMPLETED"@ {
            PollPhase::Completed
        } else if name == "MODERATED"@ {
            PollPhase::Moderated
        } else if name == "INVALID"@ {
            PollPhase::Invalid
        } else {
            PollPhase::Unknown
        }
    }

    pub fn as_str(&self) -> (s: &'static str)
        ensures
            s@ == self.api_name(),
    {
        match self {
            PollPhase::Active => "ACTIVE",
            PollPhase::Terminated => "TERMINATED",
            PollPhase::Archived => "ARCHIVED",
            PollPhase::Completed => "COMPLETED",
            PollPhase::Moderated => "MODERATED",
            PollPhase::Invalid => "INVALID",
            PollPhase::Unknown => "UNKNOWN",
        }
    }

    /// Reads the phase from its API name.
    pub fn from_api_name(name: &str) -> (p: Self)
        ensures
            p == Self::named(name@),
    {
        if str_eq(name, "ACTIVE") {
            PollPhase::Active
        } else if str_eq(name, "TERMINATED") {
            PollPhase::Terminated
        } else if str_eq(name, "ARCHIVED") {
            PollPhase::Archived
        } else if str_eq(name, "COMPLETED") {
            PollPhase::Completed
        } else if str_eq(name, "MODERATED") {
            PollPhase::Moderated
        } else if str_eq(name, "INVALID") {
            PollPhase::Invalid
        } else {
            PollPhase::Unknown
        }
    }
}

/// Body of the request that starts a poll.
#[derive(Debug)]
pub struct CreatePollRequest {
    pub broadcaster_id: String,
    pub title: String,
    pub choices: Vec<PollChoice>,
    pub duration: usize,
    pub channel_points_voting_enabled: bool,
    pub channel_points_per_vote: usize,
}

/// One choice of a poll or outcome of a prediction, as sent when creating it.
#[derive(Debug)]
pub struct PollChoice {
    pub title: String,
}

/// Body of the request that starts a prediction.
#[derive(Debug)]
pub struct CreatePredictionRequest {
    pub broadcaster_id: String,
    pub title: String,
    pub outcomes: Vec<PollChoice>,
    pub prediction_window: usize,
}

/// One of the top predictors of an outcome.
#[derive(Debug, PartialEq, Eq)]
pub struct Predictor {
    pub user_name: String,
    pub channel_points_used: i64,
    pub channel_points_won: i64,
}

impl Clone for Predictor {
    fn clone(&self) -> (r: Self)
        ensures
            r == *self,
    {
        Predictor {
            user_name: self.user_name.clone(),
            channel_points_used: self.channel_points_used,
            channel_points_won: self.channel_points_won,
        }
    }
}

impl Default for Predictor {
    fn default() -> (r: Self)
        ensures
            r.user_name@ == Seq::<char>::empty(),
            r.channel_points_used == 0,
            r.channel_points_won == 0,
    {
        Predictor { user_name: String::new(), channel_points_used: 0, channel_points_won: 0 }
    }
}

/// One outcome of a prediction with what was bet on it.
#[derive(Debug, PartialEq, Eq)]
pub struct PredictionOutcome {
    pub id: String,
    pub title: String,
    pub users: i64,
    pub channel_points: i64,
    pub top_predictors: Option<Vec<Predictor>>,
    pub color: String,
}

/// A prediction outcome with its list of predictors taken as a sequence.
pub struct PredictionOutcomeView {
    pub id: String,
    pub title: String,
    pub users: i64,
    pub channel_points: i64,
    pub top_predictors: Option<Seq<Predictor>>,
    pub color: String,
}

impl View for PredictionOutcome {
    type V = PredictionOutcomeView;

    open spec fn view(&self) -> PredictionOutcomeView {
        PredictionOutcomeView {
            id: self.id,
            title: self.title,
            users: self.users,
            channel_points: self.channel_points,
            top_predictors: match self.top_predictors {
                Some(v) => Some(v@),
                None => None,
            },
            color: self.color,
        }
    }
}

impl Clone for PredictionOutcome {
    fn clone(&self) -> (r: Self)
        ensures
            r@ == self@,
    {
        let top_predictors = match &self.top_predictors {
            Some(v) => Some(clone_predictors(v)),
            None => None,
        };
        PredictionOutcome {
            id: self.id.clone(),
            title: self.title.clone(),
            users: self.users,
            channel_points: self.channel_points,
            top_predictors,
            color: self.color.clone(),
        }
    }
}

impl Default for PredictionOutcome {
    fn default() -> (r: Self)
        ensures
            r.id@ == Seq::<char>::empty(),
            r.title@ == Seq::<char>::empty(),
            r.users == 0,
            r.channel_points == 0,
            r.top_predictors is None,
            r.color@ == Seq::<char>::empty(),
    {
        PredictionOutcome {
            id: String::new(),
            title: String::new(),
            users: 0,
            channel_points: 0,
            top_predictors: None,
            color: String::new(),
        }
    }
}

/// A prediction as Twitch describes it in its responses.
#[derive(Debug, PartialEq, Eq)]
pub struct CreatePredictionResponseData {
    pub id: String,
    pub winning_outcome_id: Option<String>,
    pub outcomes: Vec<PredictionOutcome>,
    pub status: PredictionStatus,
}

/// A prediction with its outcomes taken as a sequence of outcome views.
pub struct PredictionView {
    pub id: String,
    pub winning_outcome_id: Option<String>,
    pub outcomes: Seq<PredictionOutcomeView>,
    pub status: PredictionStatus,
}

impl View for CreatePredictionResponseData {
    type V = PredictionView;

    open spec fn view(&self) -> PredictionView {
        PredictionView {
            id: self.id,
            winning_outcome_id: self.winning_outcome_id,
            outcomes: self.outcomes@.map_values(|o: PredictionOutcome| o@),
            status: self.status,
        }
    }
}

impl Clone for CreatePredictionResponseData {
    fn clone(&self) -> (r: Self)
        ensures
            r@ == self@,
    {
        let winning_outcome_id = match &self.winning_outcome_id {
            Some(w) => Some(w.clone()),
            None => None,
        };
        let outcomes = clone_outcomes(&self.outcomes);
        CreatePredictionResponseData {
            id: self.id.clone(),
            winning_outcome_id,
            outcomes,
            status: self.status,
        }
    }
}

impl Default for CreatePredictionResponseData {
    fn default() -> (r: Self)
        ensures
            r.id@ == Seq::<char>::empty(),
            r.winning_outcome_id is None,
            r.outcomes@ == Seq::<PredictionOutcome>::empty(),
            r.status == PredictionStatus::Active,
    {
        CreatePredictionResponseData {
            id: String::new(),
            winning_outcome_id: None,
            outcomes: Vec::new(),
            status: PredictionStatus::Active,
        }
    }
}

/// The envelope of a prediction response.
#[derive(Debug)]
pub struct CreatePredictionResponse {
    pub data: Vec<CreatePredictionResponseData>,
}

/// Addresses a prediction to lock, cancel or resolve; `outcome_id` is the winner
/// when resolving and empty otherwise.
#[derive(Debug)]
pub struct EndPredictionRequest {
    pub broadcaster_id: String,
    pub outcome_id: String,
    pub prediction_id: String,
}

/// One choice of a running or finished poll with its votes.
#[derive(Debug, PartialEq, Eq)]
pub struct PollChoiceState {
    pub id: String,
    pub title: String,
    pub votes: i64,
    pub channel_points_votes: i64,
}

impl Clone for PollChoiceState {
    fn clone(&self) -> (r: Self)
        ensures
            r == *self,
    {
        PollChoiceState {
            id: self.id.clone(),
            title: self.title.clone(),
            votes: self.votes,
            channel_points_votes: self.channel_points_votes,
        }
    }
}

impl Default for PollChoiceState {
    fn default() -> (r: Self)
        ensures
            r.id@ == Seq::<char>::empty(),
            r.title@ == Seq::<char>::empty(),
            r.votes == 0,
            r.channel_points_votes == 0,
    {
        PollChoiceState { id: String::new(), title: String::new(), votes: 0, channel_points_votes: 0 }
    }
}

impl PollChoiceState {
    /// The free votes: Twitch's `votes` counts free and channel-point votes together.
    pub open spec fn spec_popular_votes(&self) -> int {
        self.votes - self.channel_points_votes
    }

    /// Whether the free votes fit an `i64`.
    pub open spec fn popular_votes_fit(&self) -> bool {
        i64::MIN <= self.votes - self.channel_points_votes <= i64::MAX
    }

    /// Twitch's `votes` is the combined total (free + channel-point votes), so subtracting
    /// the channel-point votes yields the free "popular" votes.
    pub fn popular_votes(&self) -> (v: i64)
        requires
            self.popular_votes_fit(),
        ensures
            v == self.spec_popular_votes(),
    {
        self.votes - self.channel_points_votes
    }
}

/// A poll as Twitch describes it in its responses.
#[derive(Debug, PartialEq, Eq)]
pub struct PollStateData {
    pub id: String,
    pub choices: Vec<PollChoiceState>,
    pub status: PollPhase,
}

/// A poll with its choices taken as a sequence.
pub struct PollView {
    pub id: String,
    pub choices: Seq<PollChoiceState>,
    pub status: PollPhase,
}

impl View for PollStateData {
    type V = PollView;

    open spec fn view(&self) -> PollView {
        PollView { id: self.id, choices: self.choices@, status: self.status }
    }
}

impl Clone for PollStateData {
    fn clone(&self) -> (r: Self)
        ensures
            r@ == self@,
    {
        let choices = clone_choices(&self.choices);
        PollStateData { id: self.id.clone(), choices, status: self.status }
    }
}

impl Default for PollStateData {
    fn default() -> (r: Self)
        ensures
            r.id@ == Seq::<char>::empty(),
            r.choices@ == Seq::<PollChoiceState>::empty(),
            r.status == PollPhase::Active,
    {
        PollStateData { id: String::new(), choices: Vec::new(), status: PollPhase::Active }
    }
}

/// The envelope of a poll response.
#[derive(Debug)]
pub struct PollStateResponse {
    pub data: Vec<PollStateData>,
}

fn clone_predictors(v: &Vec<Predictor>) -> (r: Vec<Predictor>)
    ensures
        r@ == v@,
{
    let mut r: Vec<Predictor> = Vec::new();
    let mut i: usize = 0;
    while i < v.len()
        invariant
            i <= v@.len(),
            r@ == v@.take(i as int),
        decreases v@.len() - i,
    {
        r.push(v[i].clone());
        assert(v@.take(i + 1) =~= v@.take(i as int).push(v@[i as int]));
        i = i + 1;
    }
    assert(v@.take(v@.len() as int) =~= v@);
    r
}

fn clone_outcomes(v: &Vec<PredictionOutcome>) -> (r: Vec<PredictionOutcome>)
    ensures
        r@.map_values(|o: PredictionOutcome| o@) == v@.map_values(|o: PredictionOutcome| o@),
{
    let mut r: Vec<PredictionOutcome> = Vec::new();
    let mut i: usize = 0;
    while i < v.len()
        invariant
            i <= v@.len(),
            r@.len() == i,
            forall|j: int| 0 <= j < i ==> (#[trigger] r@[j])@ == v@[j]@,
        decreases v@.len() - i,
    {
        r.push(v[i].clone());
        i = i + 1;
    }
    assert(r@.map_values(|o: PredictionOutcome| o@) =~= v@.map_values(|o: PredictionOutcome| o@));
    r
}

/// Copies a list of poll choices.
pub fn clone_choices(v: &Vec<PollChoiceState>) -> (r: Vec<PollChoiceState>)
    ensures
        r@ == v@,
{
    let mut r: Vec<PollChoiceState> = Vec::new();
    let mut i: usize = 0;
    while i < v.len()
        invariant
            i <= v@.len(),
            r@ == v@.take(i as int),
        decreases v@.len() - i,
    {
        r.push(v[i].clone());
        assert(v@.take(i + 1) =~= v@.take(i as int).push(v@[i as int]));
        i = i + 1;
    }
    assert(v@.take(v@.len() as int) =~= v@);
    r
}

/// Reading a status back from the name it is sent under gives the same status.
pub proof fn lemma_prediction_status_name_round_trip(s: PredictionStatus)
    ensures
        PredictionStatus::named(s.api_name()) == s,
{
    reveal_strlit("RESOLVED");
    reveal_strlit("ACTIVE");
    reveal_strlit("LOCKED");
    reveal_strlit("CANCELED");
    reveal_strlit("UNKNOWN");
    assert("ACTIVE"@.len() != "RESOLVED"@.len());
    assert("LOCKED"@[0] != "RESOLVED"@[0]);
    assert("LOCKED"@[0] != "ACTIVE"@[0]);
    assert("CANCELED"@[0] != "RESOLVED"@[0]);
    assert("CANCELED"@[0] != "ACTIVE"@[0]);
    assert("CANCELED"@[0] != "LOCKED"@[0]);
    assert("UNKNOWN"@[0] != "RESOLVED"@[0]);
    assert("UNKNOWN"@[0] != "ACTIVE"@[0]);
    assert("UNKNOWN"@[0] != "LOCKED"@[0]);
    assert("UNKNOWN"@[0] != "CANCELED"@[0]);
}

/// Reading a phase back from the name it is sent under gives the same phase.
pub proof fn lemma_poll_phase_name_round_trip(p: PollPhase)
    ensures
        PollPhase::named(p.api_name()) == p,
{
    reveal_strlit("ACTIVE");
    reveal_strlit("TERMINATED");
    reveal_strlit("ARCHIVED");
    reveal_strlit("COMPLETED");
    reveal_strlit("MODERATED");
    reveal_strlit("INVALID");
    reveal_strlit("UNKNOWN");
    assert("TERMINATED"@[0] != "ACTIVE"@[0]);
    assert("ARCHIVED"@[1] != "ACTIVE"@[1]);
    assert("ARCHIVED"@[0] != "TERMINATED"@[0]);
    assert("COMPLETED"@[0] != "ACTIVE"@[0]);
    assert("COMPLETED"@[0] != "TERMINATED"@[0]);
    assert("COMPLETED"@[0] != "ARCHIVED"@[0]);
    assert("MODERATED"@[0] != "ACTIVE"@[0]);
    assert("MODERATED"@[0] != "TERMINATED"@[0]);
    assert("MODERATED"@[0] != "ARCHIVED"@[0]);
    assert("MODERATED"@[0] != "COMPLETED"@[0]);
    assert("INVALID"@[0] != "ACTIVE"@[0]);
    assert("INVALID"@[0] != "TERMINATED"@[0]);
    assert("INVALID"@[0] != "ARCHIVED"@[0]);
    assert("INVALID"@[0] != "COMPLETED"@[0]);
    assert("INVALID"@[0] != "MODERATED"@[0]);
    assert("UNKNOWN"@[0] != "ACTIVE"@[0]);
    assert("UNKNOWN"@[0] != "TERMINATED"@[0]);
    assert("UNKNOWN"@[0] != "ARCHIVED"@[0]);
    assert("UNKNOWN"@[0] != "COMPLETED"@[0]);
    assert("UNKNOWN"@[0] != "MODERATED"@[0]);
    assert("UNKNOWN"@[0] != "INVALID"@[0]);
}

} // verus!
