//! Poll results: winners, ties and the labels of the results view.
use vstd::prelude::*;
use crate::base_form::{BaseFormMessage, EditableForm};
use crate::config::ConfigMessage;
use crate::config::{ConfigList, Named};
use crate::twitch_types::{PollChoiceState, PollStateData};
use crate::text::{owned, push_str};
use crate::ranking::{is_rank_order, partial_sums_fit, rank_order, seq_sum, sum_values};

verus! {

/// The tabs of the poll bar chart: which vote count the bars show.
#[derive(Debug, Clone, Copy, PartialEq, Eq, Structural)]
pub enum PollBarTabId {
    Total,
    Points,
    Users,
}

impl Default for PollBarTabId {
    fn default() -> (t: Self)
        ensures
            t == PollBarTabId::Total,
    {
        PollBarTabId::Total
    }
}

impl PollBarTabId {
    pub open spec fn spec_idx(self) -> usize {
        match self {
            PollBarTabId::Total => 0,
            PollBarTabId::Points => 1,
            PollBarTabId::Users => 2,
        }
    }

    /// Position of the tab in the tab bar.
    pub fn idx(self) -> (i: usize)
        ensures
            i == self.spec_idx(),
    {
        match self {
            PollBarTabId::Users => 2,
            PollBarTabId::Points => 1,
            PollBarTabId::Total => 0,
        }
    }

    /// The tab at a position of the tab bar; positions past the end select `Total`.
    pub fn from_idx(idx: usize) -> (t: Self)
        ensures
            idx < 3 ==> t.spec_idx() == idx,
            idx >= 3 ==> t == PollBarTabId::Total,
    {
        match idx {
            0 => PollBarTabId::Total,
            1 => PollBarTabId::Points,
            2 => PollBarTabId::Users,
            _ => PollBarTabId::Total,
        }
    }
}

/// Everything the poll tab holds: the form, the running poll, the saved configs
/// and the selected chart tab.
#[derive(Debug)]
pub struct PollTab {
    pub form: PollState,
    pub run: PollRun,
    pub configs: ConfigList,
    pub active_tab: PollBarTabId,
}

impl Default for PollTab {
    fn default() -> (t: Self)
        ensures
            t.run is Idle,
            t.active_tab == PollBarTabId::Total,
            t.configs.items@.len() == 0,
            t.configs.selected is None,
            !t.configs.loaded,
            t.form.title@ == Seq::<char>::empty(),
            t.form.options@.len() == 0,
            t.form.duration == 0,
            !t.form.uses_channel_points,
            t.form.channel_point_cost == 0,
            t.form.name@ == Seq::<char>::empty(),
    {
        PollTab {
            form: PollState::default(),
            run: PollRun::Idle,
            configs: ConfigList::default(),
            active_tab: PollBarTabId::Total,
        }
    }
}

/// A poll keeps at least two and offers at most five options.
pub proof fn lemma_poll_option_limits()
    ensures
        <PollState as EditableForm>::MIN_OPTIONS == 2,
        <PollState as EditableForm>::MAX_OPTIONS == 5,
{
}

/// What happens on the poll tab, and the results of the work it started.
#[derive(Debug, Clone)]
pub enum PollMessage {
    BaseFormChange(BaseFormMessage),
    Submit,
    PollCreated(Result<PollStateData, String>),
    ChannelPointsToggled(bool),
    PointCostChange(usize),
    EndPoll,
    PollEnded(Result<PollStateData, String>),
    Config(ConfigMessage),
    ConfigSaved(String, Result<Vec<String>, String>),
    ConfigLoaded(String, PollState),
    LoadSampleData(PollStateData),
    TabSelected(PollBarTabId),
}

/// Whether a poll has been started (and what Twitch last reported about it).
#[derive(Debug, PartialEq, Eq)]
pub enum PollRun {
    Idle,
    Live(PollStateData),
}

/// The poll form.
#[derive(Debug, Clone)]
pub struct PollState {
    pub title: String,
    pub options: Vec<String>,
    pub duration: usize,
    pub uses_channel_points: bool,
    pub channel_point_cost: usize,
    pub name: String,
}

impl Default for PollState {
    fn default() -> (s: Self)
        ensures
            s.title@ == Seq::<char>::empty(),
            s.options@ == Seq::<String>::empty(),
            s.duration == 0,
            !s.uses_channel_points,
            s.channel_point_cost == 0,
            s.name@ == Seq::<char>::empty(),
    {
        PollState {
            title: String::new(),
            options: Vec::new(),
            duration: 0,
            uses_channel_points: false,
            channel_point_cost: 0,
            name: String::new(),
        }
    }
}

impl Named for PollState {
    open spec fn name_view(&self) -> Seq<char> {
        self.name@
    }

    fn name(&self) -> (n: &str) {
        self.name.as_str()
    }

    fn set_name(&mut self, name: String) {
        self.name = name;
    }
}

impl EditableForm for PollState {
    const MIN_OPTIONS: usize = 2;
    const MAX_OPTIONS: usize = 5;

    open spec fn title_view(&self) -> Seq<char> {
        self.title@
    }

    open spec fn options_view(&self) -> Seq<String> {
        self.options@
    }

    open spec fn duration_view(&self) -> usize {
        self.duration
    }

    open spec fn rest_same(&self, other: &Self) -> bool {
        &&& self.uses_channel_points == other.uses_channel_points
        &&& self.channel_point_cost == other.channel_point_cost
        &&& self.name == other.name
    }

    fn options_mut(&mut self) -> (r: &mut Vec<String>) {
        &mut self.options
    }

    fn set_duration(&mut self, d: usize) {
        self.duration = d;
    }

    fn set_title(&mut self, title: String) {
        self.title = title;
    }
}

/// The largest of a non-empty sequence of numbers.
pub open spec fn max_of(s: Seq<i64>) -> i64
    recommends
        s.len() > 0,
    decreases s.len(),
{
    if s.len() <= 1 {
        s[0]
    } else {
        let m = max_of(s.drop_last());
        if s.last() > m {
            s.last()
        } else {
            m
        }
    }
}

pub proof fn lemma_max_of(s: Seq<i64>)
    requires
        s.len() > 0,
    ensures
        forall|i: int| 0 <= i < s.len() ==> s[i] <= max_of(s),
        exists|i: int| 0 <= i < s.len() && s[i] == max_of(s),
    decreases s.len(),
{
    if s.len() > 1 {
        lemma_max_of(s.drop_last());
        let m = max_of(s.drop_last());
        assert forall|i: int| 0 <= i < s.len() - 1 implies s[i] == s.drop_last()[i] by {}
        let k = choose|i: int| 0 <= i < s.len() - 1 && s.drop_last()[i] == m;
        assert(s[k] == m);
        assert(s[s.len() - 1] == s.last());
    } else {
        assert(s[0] == max_of(s));
    }
}

/// The elements of `s` whose key (at the same position of `keys`) is `m`, in order.
pub open spec fn pick_with_key<T>(s: Seq<T>, keys: Seq<i64>, m: i64) -> Seq<T>
    decreases s.len(),
{
    if s.len() == 0 {
        Seq::empty()
    } else {
        let rest = pick_with_key(s.drop_last(), keys.drop_last(), m);
        if keys[s.len() - 1] == m {
            rest.push(s.last())
        } else {
            rest
        }
    }
}

/// The elements of `s` that share the highest key, in their original order; empty
/// when `s` is empty.
pub open spec fn top_choices<T>(s: Seq<T>, keys: Seq<i64>) -> Seq<T> {
    if s.len() == 0 {
        Seq::empty()
    } else {
        pick_with_key(s, keys, max_of(keys))
    }
}

/// Total votes of each choice.
pub open spec fn total_keys(s: Seq<PollChoiceState>) -> Seq<i64> {
    s.map_values(|c: PollChoiceState| c.votes)
}

/// Free votes of each choice.
pub open spec fn popular_keys(s: Seq<PollChoiceState>) -> Seq<i64> {
    s.map_values(|c: PollChoiceState| (c.votes - c.channel_points_votes) as i64)
}

/// Channel-point votes of each choice.
pub open spec fn points_keys(s: Seq<PollChoiceState>) -> Seq<i64> {
    s.map_values(|c: PollChoiceState| c.channel_points_votes)
}

/// All choices that share the highest value of `key` (several on a tie), in order.
pub fn winners_by<F: Fn(&PollChoiceState) -> i64>(choices: &[PollChoiceState], key: F) -> (w: Vec<
    PollChoiceState,
>)
    requires
        forall|i: int| 0 <= i < choices@.len() ==> call_requires(key, (&choices@[i],)),
    ensures
        exists|keys: Seq<i64>|
            {
                &&& keys.len() == choices@.len()
                &&& forall|i: int|
                    0 <= i < choices@.len() ==> call_ensures(key, (&choices@[i],), #[trigger] keys[i])
                &&& w@ == top_choices(choices@, keys)
            },
{
    let n = choices.len();
    let mut keys: Vec<i64> = Vec::new();
    let mut i: usize = 0;
    while i < n
        invariant
            n == choices@.len(),
            i <= n,
            keys@.len() == i,
            forall|k: int| 0 <= k < choices@.len() ==> call_requires(key, (&choices@[k],)),
            forall|k: int| 0 <= k < i ==> call_ensures(key, (&choices@[k],), #[trigger] keys@[k]),
        decreases n - i,
    {
        let v = key(&choices[i]);
        keys.push(v);
        i = i + 1;
    }
    if n == 0 {
        assert(top_choices(choices@, keys@) =~= Seq::<PollChoiceState>::empty());
        return Vec::new();
    }
    let mut best = keys[0];
    assert(keys@.take(1).drop_last() =~= Seq::<i64>::empty());
    let mut j: usize = 1;
    while j < n
        invariant
            n == keys@.len(),
            n == choices@.len(),
            1 <= j <= n,
            forall|q: int| 0 <= q < choices@.len() ==> call_ensures(key, (&choices@[q],), #[trigger] keys@[q]),
            best == max_of(keys@.take(j as int)),
        decreases n - j,
    {
        assert(keys@.take(j + 1).drop_last() =~= keys@.take(j as int));
        if keys[j] > best {
            best = keys[j];
        }
        j = j + 1;
    }
    assert(keys@.take(n as int) =~= keys@);
    let mut w: Vec<PollChoiceState> = Vec::new();
    let mut k: usize = 0;
    while k < n
        invariant
            n == choices@.len(),
            n == keys@.len(),
            k <= n,
            best == max_of(keys@),
            forall|q: int| 0 <= q < choices@.len() ==> call_ensures(key, (&choices@[q],), #[trigger] keys@[q]),
            w@ == pick_with_key(choices@.take(k as int), keys@.take(k as int), best),
        decreases n - k,
    {
        assert(choices@.take(k + 1).drop_last() =~= choices@.take(k as int));
        assert(keys@.take(k + 1).drop_last() =~= keys@.take(k as int));
        if keys[k] == best {
            w.push(choices[k].clone());
        }
        k = k + 1;
    }
    assert(choices@.take(n as int) =~= choices@);
    assert(keys@.take(n as int) =~= keys@);
    assert(w@ == top_choices(choices@, keys@));
    w
}

/// The overall, popular-vote and point-vote winners of a poll.
pub fn get_winners(state: &PollStateData) -> (w: (
    Vec<PollChoiceState>,
    Vec<PollChoiceState>,
    Vec<PollChoiceState>,
))
    requires
        forall|i: int| 0 <= i < state.choices@.len() ==> (#[trigger] state.choices@[i]).popular_votes_fit(),
    ensures
        w.0@ == top_choices(state.choices@, total_keys(state.choices@)),
        w.1@ == top_choices(state.choices@, popular_keys(state.choices@)),
        w.2@ == top_choices(state.choices@, points_keys(state.choices@)),
{
    let s = state.choices.as_slice();
    let total = |c: &PollChoiceState| -> (r: i64)
        ensures
            r == c.votes,
        { c.votes };
    let popular = |c: &PollChoiceState| -> (r: i64)
        requires
            c.popular_votes_fit(),
        ensures
            r == c.spec_popular_votes(),
        { c.popular_votes() };
    let points = |c: &PollChoiceState| -> (r: i64)
        ensures
            r == c.channel_points_votes,
        { c.channel_points_votes };
    let a = winners_by(s, total);
    let b = winners_by(s, popular);
    let c = winners_by(s, points);
    proof {
        let ka = choose|keys: Seq<i64>| {
            &&& keys.len() == s@.len()
            &&& forall|i: int| 0 <= i < s@.len() ==> call_ensures(total, (&s@[i],), #[trigger] keys[i])
            &&& a@ == top_choices(s@, keys)
        };
        assert(ka =~= total_keys(s@));
        let kb = choose|keys: Seq<i64>| {
            &&& keys.len() == s@.len()
            &&& forall|i: int| 0 <= i < s@.len() ==> call_ensures(popular, (&s@[i],), #[trigger] keys[i])
            &&& b@ == top_choices(s@, keys)
        };
        assert(kb =~= popular_keys(s@));
        let kc = choose|keys: Seq<i64>| {
            &&& keys.len() == s@.len()
            &&& forall|i: int| 0 <= i < s@.len() ==> call_ensures(points, (&s@[i],), #[trigger] keys[i])
            &&& c@ == top_choices(s@, keys)
        };
        assert(kc =~= points_keys(s@));
    }
    (a, b, c)
}

/// How many choices of `s` have exactly `v` votes.
pub open spec fn count_with_votes(s: Seq<PollChoiceState>, v: i64) -> nat
    decreases s.len(),
{
    if s.len() == 0 {
        0
    } else {
        count_with_votes(s.drop_last(), v) + if s.last().votes == v {
            1nat
        } else {
            0nat
        }
    }
}

/// The choice at `i` is the only one with its number of votes.
pub open spec fn is_untied(s: Seq<PollChoiceState>, i: int) -> bool {
    count_with_votes(s, s[i].votes) == 1
}

fn count_votes(choices: &Vec<PollChoiceState>, v: i64) -> (n: usize)
    ensures
        n == count_with_votes(choices@, v),
{
    let len = choices.len();
    let mut n: usize = 0;
    let mut i: usize = 0;
    while i < len
        invariant
            len == choices@.len(),
            i <= len,
            n == count_with_votes(choices@.take(i as int), v),
            n <= i,
        decreases len - i,
    {
        assert(choices@.take(i + 1).drop_last() =~= choices@.take(i as int));
        if choices[i].votes == v {
            n = n + 1;
        }
        i = i + 1;
    }
    assert(choices@.take(len as int) =~= choices@);
    n
}

/// The choice with the most votes among those whose vote count no other choice
/// shares: a single decisive result to show when the top of the poll is tied.
pub fn get_non_tied_winner(state: &PollStateData) -> (r: Option<&PollChoiceState>)
    ensures
        r is None <==> forall|i: int| 0 <= i < state.choices@.len() ==> !is_untied(state.choices@, i),
        r matches Some(c) ==> exists|k: int|
            {
                &&& 0 <= k < state.choices@.len()
                &&& is_untied(state.choices@, k)
                &&& *c == state.choices@[k]
                &&& forall|j: int|
                    0 <= j < state.choices@.len() && is_untied(state.choices@, j)
                        ==> state.choices@[j].votes <= state.choices@[k].votes
            },
{
    let s = &state.choices;
    let n = s.len();
    let mut best: Option<usize> = None;
    let mut i: usize = 0;
    while i < n
        invariant
            n == s@.len(),
            i <= n,
            best is None ==> forall|j: int| 0 <= j < i ==> !is_untied(s@, j),
            best matches Some(b) ==> {
                &&& b < i
                &&& is_untied(s@, b as int)
                &&& forall|j: int| 0 <= j < i && is_untied(s@, j) ==> s@[j].votes <= s@[b as int].votes
            },
        decreases n - i,
    {
        let c = count_votes(s, s[i].votes);
        if c == 1 {
            match best {
                None => {
                    best = Some(i);
                },
                Some(b) => {
                    if s[i].votes > s[b].votes {
                        best = Some(i);
                    }
                },
            }
        }
        i = i + 1;
    }
    match best {
        None => None,
        Some(b) => Some(&s[b]),
    }
}

/// Some choice of `a` has the id `id`.
pub open spec fn has_id(a: Seq<PollChoiceState>, id: Seq<char>) -> bool {
    exists|i: int| 0 <= i < a.len() && #[trigger] a[i].id@ == id
}

/// Both lists have the same length and every choice id of `b` occurs in `a`.
pub open spec fn same_ids(a: Seq<PollChoiceState>, b: Seq<PollChoiceState>) -> bool {
    &&& a.len() == b.len()
    &&& forall|j: int| 0 <= j < b.len() ==> has_id(a, #[trigger] b[j].id@)
}

/// Compares two winner sets by choice id. Used so the results view only shows the separate
/// popular-vote / point-vote winner rows when they differ from the overall winner set.
pub fn same_set(a: &[PollChoiceState], b: &[PollChoiceState]) -> (r: bool)
    ensures
        r == same_ids(a@, b@),
{
    if a.len() != b.len() {
        return false;
    }
    let mut j: usize = 0;
    while j < b.len()
        invariant
            a@.len() == b@.len(),
            j <= b@.len(),
            forall|q: int| 0 <= q < j ==> has_id(a@, #[trigger] b@[q].id@),
        decreases b@.len() - j,
    {
        let mut found = false;
        let mut i: usize = 0;
        while i < a.len()
            invariant
                j < b@.len(),
                i <= a@.len(),
                found ==> has_id(a@, b@[j as int].id@),
                !found ==> forall|k: int| 0 <= k < i ==> a@[k].id@ != b@[j as int].id@,
            decreases a@.len() - i,
        {
            if a[i].id == b[j].id {
                found = true;
            }
            i = i + 1;
        }
        if !found {
            assert(!has_id(a@, b@[j as int].id@));
            return false;
        }
        j = j + 1;
    }
    true
}

/// The titles of `s` joined with `", "`.
pub open spec fn joined_titles(s: Seq<PollChoiceState>) -> Seq<char>
    decreases s.len(),
{
    if s.len() == 0 {
        Seq::empty()
    } else if s.len() == 1 {
        s[0].title@
    } else {
        joined_titles(s.drop_last()) + ", "@ + s.last().title@
    }
}

/// The choices' titles as one comma-separated line.
pub fn titles(choices: &[PollChoiceState]) -> (t: String)
    ensures
        t@ == joined_titles(choices@),
{
    let mut out = String::new();
    let mut i: usize = 0;
    while i < choices.len()
        invariant
            i <= choices@.len(),
            out@ == joined_titles(choices@.take(i as int)),
        decreases choices@.len() - i,
    {
        assert(choices@.take(i + 1).drop_last() =~= choices@.take(i as int));
        if i > 0 {
            push_str(&mut out, ", ");
        } else {
            assert(out@ =~= Seq::<char>::empty());
        }
        push_str(&mut out, choices[i].title.as_str());
        i = i + 1;
    }
    assert(choices@.take(choices@.len() as int) =~= choices@);
    out
}

/// `leader` while voting is active, `winner` afterwards; plural for more than one.
pub open spec fn winner_noun_spec(active: bool, count: usize) -> Seq<char> {
    let base = if active {
        "leader"@
    } else {
        "winner"@
    };
    if count > 1 {
        base.push('s')
    } else {
        base
    }
}

pub fn winner_noun(active: bool, count: usize) -> (noun: String)
    ensures
        noun@ == winner_noun_spec(active, count),
{
    let mut noun = if active {
        owned("leader")
    } else {
        owned("winner")
    };
    if count > 1 {
        noun.push('s');
    }
    noun
}

proof fn lemma_pick_with_key<T>(s: Seq<T>, keys: Seq<i64>, m: i64)
    requires
        keys.len() == s.len(),
    ensures
        forall|j: int|
            0 <= j < pick_with_key(s, keys, m).len() ==> exists|i: int|
                0 <= i < s.len() && s[i] == #[trigger] pick_with_key(s, keys, m)[j] && keys[i] == m,
        (exists|i: int| 0 <= i < s.len() && keys[i] == m) ==> pick_with_key(s, keys, m).len() >= 1,
    decreases s.len(),
{
    if s.len() > 0 {
        let n = s.len() as int;
        lemma_pick_with_key(s.drop_last(), keys.drop_last(), m);
        let rest = pick_with_key(s.drop_last(), keys.drop_last(), m);
        let p = pick_with_key(s, keys, m);
        assert forall|j: int| 0 <= j < p.len() implies exists|i: int|
            0 <= i < s.len() && s[i] == #[trigger] p[j] && keys[i] == m by {
            if j < rest.len() {
                assert(p[j] == rest[j]);
                let i = choose|i: int|
                    0 <= i < s.drop_last().len() && s.drop_last()[i] == rest[j] && keys.drop_last()[i]
                        == m;
                assert(s[i] == s.drop_last()[i]);
                assert(keys[i] == keys.drop_last()[i]);
            } else {
                assert(p[j] == s[n - 1]);
            }
        }
        if exists|i: int| 0 <= i < s.len() && keys[i] == m {
            let i = choose|i: int| 0 <= i < s.len() && keys[i] == m;
            if i < n - 1 {
                assert(keys.drop_last()[i] == keys[i]);
            }
        }
    }
}

/// `x` is a choice of `s` whose key is the highest of all.
pub open spec fn has_top_key<T>(s: Seq<T>, keys: Seq<i64>, x: T) -> bool {
    exists|i: int|
        0 <= i < s.len() && s[i] == x && forall|k: int| 0 <= k < keys.len() ==> keys[k] <= keys[i]
}

/// A poll with at least one choice has at least one winner, and every winner is a
/// choice that has the highest key of all.
pub proof fn lemma_winners_have_the_top_key<T>(s: Seq<T>, keys: Seq<i64>)
    requires
        keys.len() == s.len(),
        s.len() > 0,
    ensures
        top_choices(s, keys).len() >= 1,
        forall|j: int|
            0 <= j < top_choices(s, keys).len() ==> has_top_key(s, keys, #[trigger] top_choices(s, keys)[j]),
{
    lemma_max_of(keys);
    lemma_pick_with_key(s, keys, max_of(keys));
    assert forall|j: int| 0 <= j < top_choices(s, keys).len() implies has_top_key(
        s,
        keys,
        #[trigger] top_choices(s, keys)[j],
    ) by {
        let p = pick_with_key(s, keys, max_of(keys));
        let i = choose|i: int| 0 <= i < s.len() && s[i] == #[trigger] p[j] && keys[i] == max_of(keys);
        assert(forall|k: int| 0 <= k < keys.len() ==> keys[k] <= keys[i]);
    }
}

/// Each element paired with the key at its position.
pub open spec fn keyed<T>(s: Seq<T>, keys: Seq<i64>) -> Seq<(T, i64)> {
    Seq::new(s.len(), |i: int| (s[i], keys[i]))
}

proof fn lemma_pick_is_filter<T>(s: Seq<T>, keys: Seq<i64>, m: i64)
    requires
        keys.len() == s.len(),
    ensures
        pick_with_key(s, keys, m) == keyed(s, keys).filter(|p: (T, i64)| p.1 == m).map_values(
            |p: (T, i64)| p.0,
        ),
    decreases s.len(),
{
    let pred = |p: (T, i64)| p.1 == m;
    let fst = |p: (T, i64)| p.0;
    if s.len() == 0 {
        reveal(Seq::filter);
        assert(keyed(s, keys).filter(pred) =~= Seq::<(T, i64)>::empty());
        assert(keyed(s, keys).filter(pred).map_values(fst) =~= Seq::<T>::empty());
    } else {
        let n = s.len() - 1;
        lemma_pick_is_filter(s.drop_last(), keys.drop_last(), m);
        let front = keyed(s.drop_last(), keys.drop_last());
        let last = (s[n], keys[n]);
        assert(keyed(s, keys) =~= front.push(last));
        front.lemma_filter_push(last, pred);
        let f = front.filter(pred);
        if keys[n] == m {
            assert(f.push(last).map_values(fst) =~= f.map_values(fst).push(s[n]));
        }
        assert(s.last() == s[n]);
    }
}

/// The winners are every choice whose key is the highest one, in their order: for any
/// `m` that is the highest key, the winners are exactly the choices whose key is `m`.
/// So a tie for the top gives all the tied choices, however many there are.
pub proof fn lemma_winners_are_all_top_choices<T>(s: Seq<T>, keys: Seq<i64>, m: i64)
    requires
        keys.len() == s.len(),
        forall|i: int| 0 <= i < keys.len() ==> keys[i] <= m,
        exists|i: int| 0 <= i < keys.len() && keys[i] == m,
    ensures
        top_choices(s, keys) == keyed(s, keys).filter(|p: (T, i64)| p.1 == m).map_values(
            |p: (T, i64)| p.0,
        ),
{
    lemma_max_of(keys);
    let i = choose|i: int| 0 <= i < keys.len() && keys[i] == m;
    let j = choose|j: int| 0 <= j < keys.len() && keys[j] == max_of(keys);
    assert(keys[i] <= max_of(keys));
    assert(keys[j] <= m);
    lemma_pick_is_filter(s, keys, m);
}

/// Every choice's free votes fit an `i64`.
pub open spec fn popular_votes_fit_all(s: Seq<PollChoiceState>) -> bool {
    forall|i: int| 0 <= i < s.len() ==> (#[trigger] s[i]).popular_votes_fit()
}

/// The vote count of each choice that a chart tab shows.
pub open spec fn tab_values(tab: PollBarTabId, s: Seq<PollChoiceState>) -> Seq<i64> {
    match tab {
        PollBarTabId::Total => total_keys(s),
        PollBarTabId::Users => popular_keys(s),
        PollBarTabId::Points => points_keys(s),
    }
}

fn key_values(choices: &[PollChoiceState], tab: PollBarTabId) -> (v: Vec<i64>)
    requires
        popular_votes_fit_all(choices@),
    ensures
        v@ == tab_values(tab, choices@),
{
    let mut v: Vec<i64> = Vec::new();
    let mut i: usize = 0;
    while i < choices.len()
        invariant
            i <= choices@.len(),
            popular_votes_fit_all(choices@),
            v@ == match tab {
                PollBarTabId::Total => total_keys(choices@),
                PollBarTabId::Users => popular_keys(choices@),
                PollBarTabId::Points => points_keys(choices@),
            }.take(i as int),
        decreases choices@.len() - i,
    {
        let c = &choices[i];
        let x = match tab {
            PollBarTabId::Total => c.votes,
            PollBarTabId::Users => c.popular_votes(),
            PollBarTabId::Points => c.channel_points_votes,
        };
        v.push(x);
        i = i + 1;
        proof {
            let all = match tab {
                PollBarTabId::Total => total_keys(choices@),
                PollBarTabId::Users => popular_keys(choices@),
                PollBarTabId::Points => points_keys(choices@),
            };
            assert(v@ =~= all.take(i as int));
        }
    }
    proof {
        let all = match tab {
            PollBarTabId::Total => total_keys(choices@),
            PollBarTabId::Users => popular_keys(choices@),
            PollBarTabId::Points => points_keys(choices@),
        };
        assert(all.take(choices@.len() as int) =~= all);
    }
    v
}

/// Total, free and channel-point votes of all choices together.
pub fn vote_totals(choices: &[PollChoiceState]) -> (t: (i64, i64, i64))
    requires
        popular_votes_fit_all(choices@),
        partial_sums_fit(total_keys(choices@)),
        partial_sums_fit(popular_keys(choices@)),
        partial_sums_fit(points_keys(choices@)),
    ensures
        t.0 == seq_sum(total_keys(choices@)),
        t.1 == seq_sum(popular_keys(choices@)),
        t.2 == seq_sum(points_keys(choices@)),
{
    let total = sum_values(&key_values(choices, PollBarTabId::Total));
    let popular = sum_values(&key_values(choices, PollBarTabId::Users));
    let points = sum_values(&key_values(choices, PollBarTabId::Points));
    (total, popular, points)
}

/// The choices from most to fewest votes, ties in their original order.
pub fn sorted_by_votes(choices: &[PollChoiceState]) -> (r: Vec<PollChoiceState>)
    ensures
        exists|order: Seq<usize>|
            {
                &&& is_rank_order(total_keys(choices@), order)
                &&& r@.len() == order.len()
                &&& forall|i: int| 0 <= i < order.len() ==> r@[i] == choices@[#[trigger] order[i] as int]
            },
{
    let v = key_values_total(choices);
    let order = rank_order(&v);
    let mut r: Vec<PollChoiceState> = Vec::new();
    let mut i: usize = 0;
    while i < order.len()
        invariant
            i <= order@.len(),
            is_rank_order(total_keys(choices@), order@),
            r@.len() == i,
            forall|k: int| 0 <= k < i ==> r@[k] == choices@[#[trigger] order@[k] as int],
        decreases order@.len() - i,
    {
        r.push(choices[order[i]].clone());
        i = i + 1;
    }
    r
}

fn key_values_total(choices: &[PollChoiceState]) -> (v: Vec<i64>)
    ensures
        v@ == total_keys(choices@),
{
    let mut v: Vec<i64> = Vec::new();
    let mut i: usize = 0;
    while i < choices.len()
        invariant
            i <= choices@.len(),
            v@ == total_keys(choices@).take(i as int),
        decreases choices@.len() - i,
    {
        v.push(choices[i].votes);
        i = i + 1;
        assert(v@ =~= total_keys(choices@).take(i as int));
    }
    assert(total_keys(choices@).take(choices@.len() as int) =~= total_keys(choices@));
    v
}

/// The bars of the poll chart for a tab: each choice's position and the vote count
/// the tab shows, tallest bar first, equal bars in choice order.
pub fn bar_chart_bars(tab: PollBarTabId, choices: &[PollChoiceState]) -> (bars: Vec<(usize, i64)>)
    requires
        popular_votes_fit_all(choices@),
    ensures
        exists|order: Seq<usize>|
            {
                &&& #[trigger] is_rank_order(tab_values(tab, choices@), order)
                &&& bars@.len() == order.len()
                &&& forall|i: int|
                    0 <= i < order.len() ==> bars@[i] == (#[trigger] order[i], tab_values(tab, choices@)[order[i] as int])
            },
{
    let values = key_values(choices, tab);
    let order = rank_order(&values);
    let mut bars: Vec<(usize, i64)> = Vec::new();
    let mut i: usize = 0;
    while i < order.len()
        invariant
            i <= order@.len(),
            is_rank_order(values@, order@),
            bars@.len() == i,
            forall|k: int| 0 <= k < i ==> bars@[k] == (#[trigger] order@[k], values@[order@[k] as int]),
        decreases order@.len() - i,
    {
        let p = order[i];
        bars.push((p, values[p]));
        i = i + 1;
    }
    bars
}

/// Position of the first choice with id `id`; the colour of a choice goes by it, so
/// that sorting cannot change a choice's colour.
pub fn choice_position(choices: &[PollChoiceState], id: &str) -> (r: Option<usize>)
    ensures
        r matches Some(k) ==> k < choices@.len() && choices@[k as int].id@ == id@ && forall|j: int|
            0 <= j < k ==> choices@[j].id@ != id@,
        r is None ==> forall|j: int| 0 <= j < choices@.len() ==> choices@[j].id@ != id@,
{
    let mut i: usize = 0;
    while i < choices.len()
        invariant
            i <= choices@.len(),
            forall|j: int| 0 <= j < i ==> choices@[j].id@ != id@,
        decreases choices@.len() - i,
    {
        if crate::text::str_eq(choices[i].id.as_str(), id) {
            return Some(i);
        }
        i = i + 1;
    }
    None
}

} // verus!
