//! The prediction tab: its form and what a resolved prediction shows.
use vstd::prelude::*;
use rand::seq::SliceRandom;
use crate::config::{ConfigList, Named};
use crate::twitch_types::{
    CreatePredictionResponseData, PredictionOutcome, PredictionOutcomeView, PredictionStatus,
    PredictionView, Predictor,
};
use crate::text::{owned, push_str};
use crate::ranking::{is_rank_order, partial_sums_fit, rank_order, seq_sum, sum_values};
use crate::settings::Separator;
use crate::style::{thousand_separated, thousand_separator_with};

verus! {

/// Everything the prediction tab holds: the form, the running prediction, the saved
/// configs and the selected outcome tab.
#[derive(Debug)]
pub struct PredictionTab {
    pub form: PredictionState,
    pub run: PredictionRun,
    pub configs: ConfigList,
    pub active_tab: usize,
}

impl Default for PredictionTab {
    fn default() -> (t: Self)
        ensures
            t.run is Idle,
            t.active_tab == 0,
            t.configs.items@.len() == 0,
            t.configs.selected is None,
            !t.configs.loaded,
            t.form.title@ == Seq::<char>::empty(),
            t.form.options@.len() == 0,
            t.form.duration == 0,
            t.form.name@ == Seq::<char>::empty(),
    {
        PredictionTab {
            form: PredictionState::default(),
            run: PredictionRun::Idle,
            configs: ConfigList::default(),
            active_tab: 0,
        }
    }
}

/// What happens on the prediction tab, and the results of the work it started.
#[derive(Debug, Clone)]
pub enum PredictionMessage {
    TitleChanged(String),
    OptionChanged(usize, String),
    AddOption,
    RemoveOption(usize),
    Submit,
    PredictionCreated(Result<CreatePredictionResponseData, String>),
    DurationChange(usize),
    WinnerChosen(String),
    PredictionEnded(Result<CreatePredictionResponseData, String>),
    PredictionLocked(Result<CreatePredictionResponseData, String>),
    PredictionCanceled(Result<CreatePredictionResponseData, String>),
    ConfigSelected(String),
    SaveConfig,
    NewConfig,
    NameChanged(String),
    ConfigSaved(String, Result<Vec<String>, String>),
    ConfigLoaded(String, PredictionState),
    SwitchOptions,
    LockPrediction,
    CancelPrediction,
    ResetPrediction,
    LoadSampleData(CreatePredictionResponseData),
    TabSelected(usize),
}

/// Whether a prediction has been started (and what Twitch last reported about it).
#[derive(Debug, PartialEq, Eq)]
pub enum PredictionRun {
    Idle,
    Live(CreatePredictionResponseData),
}

/// The prediction form.
#[derive(Debug, Clone)]
pub struct PredictionState {
    pub title: String,
    pub options: Vec<String>,
    pub duration: usize,
    pub name: String,
}

impl Default for PredictionState {
    fn default() -> (s: Self)
        ensures
            s.title@ == Seq::<char>::empty(),
            s.options@ == Seq::<String>::empty(),
            s.duration == 0,
            s.name@ == Seq::<char>::empty(),
    {
        PredictionState { title: String::new(), options: Vec::new(), duration: 0, name: String::new() }
    }
}

impl Named for PredictionState {
    open spec fn name_view(&self) -> Seq<char> {
        self.name@
    }

    fn name(&self) -> (n: &str) {
        self.name.as_str()
    }

    fn set_name(&mut self, name: String) {
        self.name = name;
    }
}

/// Position of the first outcome with the given id.
pub open spec fn outcome_index(outcomes: Seq<PredictionOutcomeView>, id: String) -> Option<int> {
    if exists|i: int| 0 <= i < outcomes.len() && outcomes[i].id@ == id@ {
        Some(
            choose|i: int|
                0 <= i < outcomes.len() && outcomes[i].id@ == id@ && forall|j: int|
                    0 <= j < i ==> outcomes[j].id@ != id@,
        )
    } else {
        None
    }
}

/// The message when a resolved prediction names no winner.
pub open spec fn no_winner_message() -> Seq<char> {
    "Resolved prediction has no winning outcome."@
}

/// The message when the named winner is not among the outcomes.
pub open spec fn missing_winner_message(id: Seq<char>) -> Seq<char> {
    "Winning outcome "@ + id + " not found in prediction outcomes."@
}

/// `k` is the first outcome with id `id`.
pub open spec fn is_first_with_id(outcomes: Seq<PredictionOutcome>, id: Seq<char>, k: int) -> bool {
    &&& 0 <= k < outcomes.len()
    &&& outcomes[k].id@ == id
    &&& forall|j: int| 0 <= j < k ==> outcomes[j].id@ != id
}

/// Position of the first outcome with id `id`.
pub fn find_outcome(outcomes: &Vec<PredictionOutcome>, id: &String) -> (r: Option<usize>)
    ensures
        r matches Some(k) ==> is_first_with_id(outcomes@, id@, k as int),
        r is None ==> forall|j: int| 0 <= j < outcomes@.len() ==> outcomes@[j].id@ != id@,
{
    let n = outcomes.len();
    let mut i: usize = 0;
    while i < n
        invariant
            n == outcomes@.len(),
            i <= n,
            forall|j: int| 0 <= j < i ==> outcomes@[j].id@ != id@,
        decreases n - i,
    {
        if outcomes[i].id == *id {
            return Some(i);
        }
        i = i + 1;
    }
    None
}

/// The winning outcome of a resolved prediction: the first outcome whose id is the
/// winning outcome id.
pub fn get_winner(current: &CreatePredictionResponseData) -> (r: Result<&PredictionOutcome, String>)
    ensures
        current.winning_outcome_id is None ==> (r matches Err(e) && e@ == no_winner_message()),
        current.winning_outcome_id matches Some(w) ==> match r {
            Ok(o) => exists|k: int|
                is_first_with_id(current.outcomes@, w@, k) && current.outcomes@[k] == *o,
            Err(e) => {
                &&& e@ == missing_winner_message(w@)
                &&& forall|j: int| 0 <= j < current.outcomes@.len() ==> current.outcomes@[j].id@ != w@
            },
        },
{
    let winner_id = match &current.winning_outcome_id {
        Some(w) => w,
        None => {
            return Err(owned("Resolved prediction has no winning outcome."));
        },
    };
    match find_outcome(&current.outcomes, winner_id) {
        Some(k) => Ok(&current.outcomes[k]),
        None => {
            let mut e = owned("Winning outcome ");
            push_str(&mut e, winner_id.as_str());
            push_str(&mut e, " not found in prediction outcomes.");
            Err(e)
        },
    }
}

/// A resolved prediction still waits for its payouts when the winning outcome has top
/// predictors and none of them has won any points yet.
pub open spec fn spec_payouts_pending(p: CreatePredictionResponseData) -> bool {
    &&& p.status == PredictionStatus::Resolved
    &&& p.winning_outcome_id matches Some(w)
    &&& exists|k: int|
        {
            &&& is_first_with_id(p.outcomes@, w@, k)
            &&& p.outcomes@[k].top_predictors matches Some(ps)
            &&& ps@.len() > 0
            &&& forall|q: int| 0 <= q < ps@.len() ==> ps@[q].channel_points_won == 0
        }
}

proof fn lemma_first_with_id_unique(outcomes: Seq<PredictionOutcome>, id: Seq<char>, k1: int, k2: int)
    requires
        is_first_with_id(outcomes, id, k1),
        is_first_with_id(outcomes, id, k2),
    ensures
        k1 == k2,
{
}

/// Whether a resolved prediction's winners have not been paid out yet.
#[verifier::loop_isolation(false)]
pub fn payouts_pending(p: &CreatePredictionResponseData) -> (b: bool)
    ensures
        b == spec_payouts_pending(*p),
{
    if p.status != PredictionStatus::Resolved {
        return false;
    }
    let w = match &p.winning_outcome_id {
        Some(w) => w,
        None => {
            return false;
        },
    };
    let k = match find_outcome(&p.outcomes, w) {
        Some(k) => k,
        None => {
            return false;
        },
    };
    proof {
        assert forall|k2: int| is_first_with_id(p.outcomes@, w@, k2) implies k2 == k by {
            lemma_first_with_id_unique(p.outcomes@, w@, k2, k as int);
        }
    }
    let ps = match &p.outcomes[k].top_predictors {
        Some(ps) => ps,
        None => {
            return false;
        },
    };
    if ps.len() == 0 {
        return false;
    }
    let mut i: usize = 0;
    while i < ps.len()
        invariant
            i <= ps@.len(),
            forall|q: int| 0 <= q < i ==> ps@[q].channel_points_won == 0,
        decreases ps@.len() - i,
    {
        if ps[i].channel_points_won != 0 {
            return false;
        }
        i = i + 1;
    }
    true
}

/// Reorders the options at random with `SliceRandom::shuffle` of the rand crate and
/// its thread-local generator. Stated: the result holds the same options, each as
/// often as before; which order comes out is left open.
#[verifier::external_body]
fn shuffle_options(options: &mut Vec<String>)
    ensures
        final(options)@.to_multiset() == old(options)@.to_multiset(),
{
    options.shuffle(&mut rand::rng());
}

/// The options in a new order: two options swap places, more are shuffled at random.
pub fn switch_options(options: &mut Vec<String>)
    ensures
        old(options)@.len() == 2 ==> final(options)@ == seq![old(options)@[1], old(options)@[0]],
        old(options)@.len() != 2 ==> final(options)@.to_multiset() == old(options)@.to_multiset(),
{
    if options.len() == 2 {
        let first = options.remove(0);
        options.push(first);
        assert(options@ =~= seq![old(options)@[1], old(options)@[0]]);
    } else {
        shuffle_options(options);
    }
}

/// Channel points bet on each outcome.
pub open spec fn points_of(s: Seq<PredictionOutcome>) -> Seq<i64> {
    s.map_values(|o: PredictionOutcome| o.channel_points)
}

/// Users who bet on each outcome.
pub open spec fn users_of(s: Seq<PredictionOutcome>) -> Seq<i64> {
    s.map_values(|o: PredictionOutcome| o.users)
}

fn outcome_values(outcomes: &Vec<PredictionOutcome>, users: bool) -> (v: Vec<i64>)
    ensures
        v@ == if users { users_of(outcomes@) } else { points_of(outcomes@) },
{
    let ghost all = if users { users_of(outcomes@) } else { points_of(outcomes@) };
    let mut v: Vec<i64> = Vec::new();
    let mut i: usize = 0;
    while i < outcomes.len()
        invariant
            i <= outcomes@.len(),
            all == if users { users_of(outcomes@) } else { points_of(outcomes@) },
            v@ == all.take(i as int),
        decreases outcomes@.len() - i,
    {
        v.push(if users { outcomes[i].users } else { outcomes[i].channel_points });
        i = i + 1;
        assert(v@ =~= all.take(i as int));
    }
    assert(all.take(outcomes@.len() as int) =~= all);
    v
}

/// Channel points and users of all outcomes together.
pub fn point_totals(outcomes: &Vec<PredictionOutcome>) -> (t: (i64, i64))
    requires
        partial_sums_fit(points_of(outcomes@)),
        partial_sums_fit(users_of(outcomes@)),
    ensures
        t.0 == seq_sum(points_of(outcomes@)),
        t.1 == seq_sum(users_of(outcomes@)),
{
    (sum_values(&outcome_values(outcomes, false)), sum_values(&outcome_values(outcomes, true)))
}

/// The outcomes from most to fewest channel points, ties in their original order.
pub fn sorted_by_points(outcomes: &Vec<PredictionOutcome>) -> (r: Vec<usize>)
    ensures
        is_rank_order(points_of(outcomes@), r@),
{
    rank_order(&outcome_values(outcomes, false))
}

/// The outcome tab to show: the selected one while it exists, otherwise the first.
pub fn selected_outcome_tab(active_tab: usize, outcome_count: usize) -> (t: usize)
    ensures
        t == if active_tab < outcome_count { active_tab } else { 0 },
{
    if active_tab < outcome_count {
        active_tab
    } else {
        0
    }
}

/// The line for one top predictor: who bet how many points, and, once the
/// prediction is resolved, what they won if anything.
pub open spec fn predictor_line_spec(p: Predictor, resolved: bool, sep: Separator) -> Seq<char> {
    let base = "• "@ + p.user_name@ + " — "@ + thousand_separated(p.channel_points_used as int, sep)
        + " points"@;
    if resolved && p.channel_points_won > 0 {
        base + ", won "@ + thousand_separated(p.channel_points_won as int, sep)
    } else {
        base
    }
}

pub fn predictor_line(p: &Predictor, resolved: bool, sep: Separator) -> (line: String)
    ensures
        line@ == predictor_line_spec(*p, resolved, sep),
{
    let mut line = owned("• ");
    push_str(&mut line, p.user_name.as_str());
    push_str(&mut line, " — ");
    let used = thousand_separator_with(p.channel_points_used, sep);
    push_str(&mut line, used.as_str());
    push_str(&mut line, " points");
    if resolved && p.channel_points_won > 0 {
        push_str(&mut line, ", won ");
        let won = thousand_separator_with(p.channel_points_won, sep);
        push_str(&mut line, won.as_str());
    }
    line
}

/// The lines for the top predictors of an outcome (none when Twitch sent none).
pub fn predictor_lines(o: &PredictionOutcome, resolved: bool, sep: Separator) -> (lines: Vec<String>)
    ensures
        o.top_predictors is None ==> lines@.len() == 0,
        o.top_predictors matches Some(ps) ==> lines@.len() == ps@.len() && forall|i: int|
            0 <= i < ps@.len() ==> (#[trigger] lines@[i])@ == predictor_line_spec(ps@[i], resolved, sep),
{
    let mut lines: Vec<String> = Vec::new();
    match &o.top_predictors {
        None => {},
        Some(ps) => {
            let mut i: usize = 0;
            while i < ps.len()
                invariant
                    i <= ps@.len(),
                    lines@.len() == i,
                    forall|k: int| 0 <= k < i ==> (#[trigger] lines@[k])@ == predictor_line_spec(ps@[k], resolved, sep),
                decreases ps@.len() - i,
            {
                lines.push(predictor_line(&ps[i], resolved, sep));
                i = i + 1;
            }
        },
    }
    lines
}

} // verus!
