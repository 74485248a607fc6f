use streamertools::twitch_types::{PollChoiceState, PollPhase, PredictionStatus};

#[test]
fn enum_status_uppercase_rename() {
    let statuses = [
        ("RESOLVED", PredictionStatus::Resolved),
        ("ACTIVE", PredictionStatus::Active),
        ("LOCKED", PredictionStatus::Locked),
        ("CANCELED", PredictionStatus::Canceled),
    ];
    for (json_str, expected) in statuses {
        let json = format!("\"{}\"", json_str);
        let name: String = serde_json::from_str(&json).unwrap();
        let parsed = PredictionStatus::from_api_name(&name);
        assert_eq!(parsed, expected);
    }
}

#[test]
fn unrecognized_status_falls_back_to_unknown() {
    let name: String = serde_json::from_str("\"SOMETHING_NEW\"").unwrap();
    let parsed = PredictionStatus::from_api_name(&name);
    assert_eq!(parsed, PredictionStatus::Unknown);
}

#[test]
fn enum_poll_phase_uppercase_rename() {
    let phases = [
        ("ACTIVE", PollPhase::Active),
        ("TERMINATED", PollPhase::Terminated),
        ("ARCHIVED", PollPhase::Archived),
        ("COMPLETED", PollPhase::Completed),
        ("MODERATED", PollPhase::Moderated),
        ("INVALID", PollPhase::Invalid),
    ];
    for (json_str, expected) in phases {
        let json = format!("\"{}\"", json_str);
        let name: String = serde_json::from_str(&json).unwrap();
        let parsed = PollPhase::from_api_name(&name);
        assert_eq!(parsed, expected);
    }
}

#[test]
fn unrecognized_phase_falls_back_to_unknown() {
    let name: String = serde_json::from_str("\"SOMETHING_NEW\"").unwrap();
    let parsed = PollPhase::from_api_name(&name);
    assert_eq!(parsed, PollPhase::Unknown);
}

#[test]
fn status_names_round_trip() {
    for s in [
        PredictionStatus::Resolved,
        PredictionStatus::Active,
        PredictionStatus::Locked,
        PredictionStatus::Canceled,
        PredictionStatus::Unknown,
    ] {
        assert_eq!(PredictionStatus::from_api_name(s.as_str()), s);
    }
    for p in [
        PollPhase::Active,
        PollPhase::Terminated,
        PollPhase::Archived,
        PollPhase::Completed,
        PollPhase::Moderated,
        PollPhase::Invalid,
        PollPhase::Unknown,
    ] {
        assert_eq!(PollPhase::from_api_name(p.as_str()), p);
    }
}

#[test]
fn status_names_are_upper_case() {
    assert_eq!(PredictionStatus::Resolved.as_str(), "RESOLVED");
    assert_eq!(PredictionStatus::Canceled.as_str(), "CANCELED");
    assert_eq!(PollPhase::Terminated.as_str(), "TERMINATED");
    assert_eq!(PredictionStatus::from_api_name("resolved"), PredictionStatus::Unknown);
}

#[test]
fn defaults_are_active() {
    assert_eq!(PredictionStatus::default(), PredictionStatus::Active);
    assert_eq!(PollPhase::default(), PollPhase::Active);
    let c = PollChoiceState::default();
    assert_eq!(c.votes, 0);
    assert!(c.id.is_empty());
}

#[test]
fn clones_keep_every_field() {
    let p = streamertools::sample_data::prediction_five();
    let q = p.clone();
    assert_eq!(p, q);
    let poll = streamertools::sample_data::poll_tie();
    assert_eq!(poll.clone(), poll);
}
