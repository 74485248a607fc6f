use streamertools::prediction::{
    get_winner, payouts_pending, point_totals, predictor_line, predictor_lines,
    selected_outcome_tab, sorted_by_points, switch_options,
};
use streamertools::sample_data::{prediction_ongoing, prediction_ten, prediction_two};
use streamertools::settings::Separator;
use streamertools::twitch_types::{
    CreatePredictionResponseData, PredictionOutcome, PredictionStatus, Predictor,
};

fn predictor(name: &str, used: i64, won: i64) -> Predictor {
    Predictor {
        user_name: name.to_string(),
        channel_points_used: used,
        channel_points_won: won,
    }
}

fn resolved(won: i64) -> CreatePredictionResponseData {
    CreatePredictionResponseData {
        id: "p".to_string(),
        winning_outcome_id: Some("w".to_string()),
        outcomes: vec![
            PredictionOutcome {
                id: "l".to_string(),
                title: "Loser".to_string(),
                top_predictors: Some(vec![predictor("a", 10, 0)]),
                ..PredictionOutcome::default()
            },
            PredictionOutcome {
                id: "w".to_string(),
                title: "Winner".to_string(),
                top_predictors: Some(vec![predictor("b", 10, won), predictor("c", 5, 0)]),
                ..PredictionOutcome::default()
            },
        ],
        status: PredictionStatus::Resolved,
    }
}

#[test]
fn resolved_without_payouts_is_pending() {
    assert!(payouts_pending(&resolved(0)));
}

#[test]
fn resolved_with_payouts_is_settled() {
    assert!(!payouts_pending(&resolved(15)));
}

#[test]
fn active_prediction_is_not_pending() {
    let mut p = resolved(0);
    p.status = PredictionStatus::Active;
    assert!(!payouts_pending(&p));
}

#[test]
fn winner_without_predictors_is_not_pending() {
    let mut p = resolved(0);
    p.outcomes[1].top_predictors = None;
    assert!(!payouts_pending(&p));
}

#[test]
fn get_winner_finds_the_winning_outcome() {
    let p = resolved(3);
    assert_eq!(get_winner(&p).unwrap().title, "Winner");
    assert_eq!(get_winner(&prediction_two()).unwrap().title, "Yes");
}

#[test]
fn get_winner_reports_missing_winner() {
    let mut p = resolved(3);
    p.winning_outcome_id = None;
    assert_eq!(
        get_winner(&p).unwrap_err(),
        "Resolved prediction has no winning outcome."
    );
    p.winning_outcome_id = Some("zz".to_string());
    assert_eq!(
        get_winner(&p).unwrap_err(),
        "Winning outcome zz not found in prediction outcomes."
    );
}

#[test]
fn sample_predictions_are_as_listed() {
    let ten = prediction_ten();
    assert_eq!(ten.outcomes.len(), 10);
    assert_eq!(ten.outcomes[0].id, "1");
    assert_eq!(ten.outcomes[9].id, "10");
    assert_eq!(ten.outcomes[9].title, "Outcome 10");
    assert_eq!(ten.outcomes[9].users, 10);
    assert_eq!(ten.outcomes[9].channel_points, 4000);
    assert_eq!(ten.outcomes[9].color, "PINK");
    assert_eq!(ten.outcomes[0].color, "BLUE");
    let top = ten.outcomes[0].top_predictors.as_ref().unwrap();
    assert_eq!(top[0].channel_points_won, 18_000);
    let top = ten.outcomes[1].top_predictors.as_ref().unwrap();
    assert_eq!(top[1].channel_points_used, 17_000);
    assert_eq!(top[1].channel_points_won, 0);
    assert_eq!(prediction_ongoing().status, PredictionStatus::Active);
    assert!(payouts_pending(&prediction_two()) == false);
}

#[test]
fn totals_and_order_of_outcomes() {
    let p = prediction_two();
    assert_eq!(point_totals(&p.outcomes), (75_000, 200));
    let mut outcomes = p.outcomes.clone();
    outcomes[1].channel_points = 45_000;
    outcomes.push(PredictionOutcome {
        channel_points: 50_000,
        ..PredictionOutcome::default()
    });
    assert_eq!(sorted_by_points(&outcomes), vec![2, 0, 1]);
}

#[test]
fn selected_tab_falls_back_to_first() {
    assert_eq!(selected_outcome_tab(1, 2), 1);
    assert_eq!(selected_outcome_tab(5, 2), 0);
}

#[test]
fn predictor_lines_show_winnings_once_resolved() {
    let p = predictor("Alice", 12_000, 18_000);
    assert_eq!(
        predictor_line(&p, true, Separator::DotDecimalCommaThousand),
        "• Alice — 12,000 points, won 18,000"
    );
    assert_eq!(
        predictor_line(&p, false, Separator::CommaDecimalDotThousand),
        "• Alice — 12.000 points"
    );
    let lines = predictor_lines(&prediction_two().outcomes[1], true, Separator::DotDecimalCommaThousand);
    assert_eq!(lines.len(), 3);
    assert_eq!(lines[1], "• Bob — 25,500 points");
}

#[test]
fn switching_two_options_swaps_them() {
    let mut options = vec!["a".to_string(), "b".to_string()];
    switch_options(&mut options);
    assert_eq!(options, vec!["b".to_string(), "a".to_string()]);
    let mut many: Vec<String> = (0..6).map(|i| i.to_string()).collect();
    switch_options(&mut many);
    let mut sorted = many.clone();
    sorted.sort();
    assert_eq!(sorted, (0..6).map(|i| i.to_string()).collect::<Vec<_>>());
}

#[test]
fn shuffling_many_options_keeps_them_and_reorders() {
    let before: Vec<String> = (0..20).map(|i| format!("{i:02}")).collect();
    let mut options = before.clone();
    switch_options(&mut options);
    // Twenty options come back in the same order with probability 1 / 20!.
    assert_ne!(options, before);
    let mut sorted = options.clone();
    sorted.sort();
    assert_eq!(sorted, before);
}
