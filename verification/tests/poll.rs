use streamertools::poll::{bar_chart_bars, choice_position, sorted_by_votes, vote_totals};
use streamertools::poll::{
    get_non_tied_winner, get_winners, same_set, titles, winner_noun, winners_by, PollBarTabId,
};
use streamertools::twitch_types::{PollChoiceState, PollStateData};

fn poll_choice_state(title: String, votes: i64, channel_points_votes: i64) -> PollChoiceState {
    PollChoiceState {
        title,
        votes,
        channel_points_votes,
        ..PollChoiceState::default()
    }
}

fn with_id(id: &str, title: &str, votes: i64) -> PollChoiceState {
    PollChoiceState {
        id: id.to_string(),
        title: title.to_string(),
        votes,
        channel_points_votes: 0,
    }
}

#[test]
fn test_winners_by() {
    let choices = [
        poll_choice_state("Loser".to_string(), 1, 1),
        poll_choice_state("Winner".to_string(), 10, 8),
        poll_choice_state("Winner of the hearts".to_string(), 8, 0),
        poll_choice_state("Winner of the money".to_string(), 1, 20),
    ];
    assert_eq!(
        winners_by(&choices, |c| c.votes).first().unwrap().title,
        "Winner"
    );
    assert_eq!(
        winners_by(&choices, |c| c.popular_votes())
            .first()
            .unwrap()
            .title,
        "Winner of the hearts"
    );
    assert_eq!(
        winners_by(&choices, |c| c.channel_points_votes)
            .first()
            .unwrap()
            .title,
        "Winner of the money"
    );
}

#[test]
fn test_winners_by_returns_multiple_winners_on_tie() {
    let choices = [
        poll_choice_state("First".to_string(), 10, 0),
        poll_choice_state("Second".to_string(), 10, 0),
        poll_choice_state("Loser".to_string(), 5, 0),
    ];
    let winners = winners_by(&choices, |c| c.votes);
    assert_eq!(winners.len(), 2);
    assert_eq!(winners[0].title, "First");
    assert_eq!(winners[1].title, "Second");
}

#[test]
fn test_get_non_tied_winner() {
    let state = PollStateData {
        choices: vec![
            poll_choice_state("Tied First A".to_string(), 10, 0),
            poll_choice_state("Tied First B".to_string(), 10, 0),
            poll_choice_state("Third".to_string(), 8, 0),
            poll_choice_state("Loser".to_string(), 5, 0),
        ],
        ..PollStateData::default()
    };
    let non_tied = get_non_tied_winner(&state);
    assert!(non_tied.is_some());
    assert_eq!(non_tied.unwrap().title, "Third");
}

#[test]
fn test_winner_noun() {
    assert_eq!(winner_noun(true, 1), "leader");
    assert_eq!(winner_noun(true, 2), "leaders");
    assert_eq!(winner_noun(false, 1), "winner");
    assert_eq!(winner_noun(false, 2), "winners");
    assert_eq!(winner_noun(true, 0), "leader");
    assert_eq!(winner_noun(false, 0), "winner");
}

#[test]
fn winners_of_an_empty_poll_are_empty() {
    let winners = winners_by(&[], |c: &PollChoiceState| c.votes);
    assert!(winners.is_empty());
}

#[test]
fn non_tied_winner_is_none_when_every_count_is_shared() {
    let state = PollStateData {
        choices: vec![
            poll_choice_state("A".to_string(), 3, 0),
            poll_choice_state("B".to_string(), 3, 0),
        ],
        ..PollStateData::default()
    };
    assert!(get_non_tied_winner(&state).is_none());
}

#[test]
fn get_winners_splits_total_popular_and_points() {
    let state = streamertools::sample_data::poll_points_winner();
    let (total, popular, points) = get_winners(&state);
    assert_eq!(titles(&total), "Overall & Points");
    assert_eq!(titles(&popular), "Popular Vote");
    assert_eq!(titles(&points), "Overall & Points");
    let tie = streamertools::sample_data::poll_tie();
    let (total, _, _) = get_winners(&tie);
    assert_eq!(titles(&total), "Team Cats, Team Dogs");
}

#[test]
fn same_set_compares_ids_only() {
    let a = [with_id("1", "x", 1), with_id("2", "y", 2)];
    let b = [with_id("2", "other", 9), with_id("1", "names", 9)];
    let c = [with_id("1", "x", 1), with_id("3", "z", 2)];
    assert!(same_set(&a, &b));
    assert!(!same_set(&a, &c));
    assert!(!same_set(&a, &a[..1]));
}

#[test]
fn titles_join_with_commas() {
    assert_eq!(titles(&[]), "");
    assert_eq!(titles(&[with_id("1", "One", 1)]), "One");
    assert_eq!(
        titles(&[with_id("1", "One", 1), with_id("2", "Two", 2), with_id("3", "Three", 3)]),
        "One, Two, Three"
    );
}

#[test]
fn poll_bar_tabs_round_trip() {
    for tab in [PollBarTabId::Total, PollBarTabId::Points, PollBarTabId::Users] {
        assert_eq!(PollBarTabId::from_idx(tab.idx()), tab);
    }
    assert_eq!(PollBarTabId::from_idx(7), PollBarTabId::Total);
    assert_eq!(PollBarTabId::Users.idx(), 2);
}

#[test]
fn popular_votes_are_the_free_votes() {
    let c = poll_choice_state("x".to_string(), 12, 5);
    assert_eq!(c.popular_votes(), 7);
}

#[test]
fn results_are_sorted_by_votes_with_stable_ties() {
    let choices = [
        with_id("1", "a", 5),
        with_id("2", "b", 9),
        with_id("3", "c", 5),
        with_id("4", "d", 9),
    ];
    let ids: Vec<String> = sorted_by_votes(&choices).into_iter().map(|c| c.id).collect();
    assert_eq!(ids, vec!["2", "4", "1", "3"]);
}

#[test]
fn vote_totals_add_up() {
    let state = streamertools::sample_data::poll_total_winner();
    assert_eq!(vote_totals(&state.choices), (180, 125, 55));
}

#[test]
fn bars_follow_the_selected_tab() {
    let state = streamertools::sample_data::poll_popular_winner();
    assert_eq!(
        bar_chart_bars(PollBarTabId::Total, &state.choices),
        vec![(0, 100), (1, 60), (2, 30)]
    );
    assert_eq!(
        bar_chart_bars(PollBarTabId::Points, &state.choices),
        vec![(1, 55), (0, 10), (2, 8)]
    );
    assert_eq!(
        bar_chart_bars(PollBarTabId::Users, &state.choices),
        vec![(0, 90), (2, 22), (1, 5)]
    );
}

#[test]
fn choice_colour_goes_by_first_position_of_the_id() {
    let choices = [with_id("a", "x", 1), with_id("b", "y", 2), with_id("a", "z", 3)];
    assert_eq!(choice_position(&choices, "a"), Some(0));
    assert_eq!(choice_position(&choices, "b"), Some(1));
    assert_eq!(choice_position(&choices, "q"), None);
}
