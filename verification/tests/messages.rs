use roster_check::data::{InjuryStatus, RosterPosition, SleeperError, SleeperSport};
use roster_check::messaging::{
    create_bye_msg_string, create_empty_msg_string, create_injured_msg_string,
};
use roster_check::strutil::str_eq;

#[test]
fn injured_msg_without_team_name() {
    let owner = "gridiron_gary".to_string();
    let msg = create_injured_msg_string(
        None,
        &owner,
        "Mike Williams",
        InjuryStatus::Out,
        RosterPosition::WR,
    );
    assert_eq!(
        msg,
        "\u{26d4}  gridiron_gary is starting Mike Williams (Out) at WR! \u{26d4}"
    );
}

#[test]
fn injured_msg_with_team_name() {
    let owner = "gary".to_string();
    let msg = create_injured_msg_string(
        Some("The Mud Dogs".to_string()),
        &owner,
        "Joe Mixon",
        InjuryStatus::Doubtful,
        RosterPosition::RB,
    );
    assert_eq!(
        msg,
        "\u{26d4} The Mud Dogs (gary) is starting Joe Mixon (Doubtful) at RB! \u{26d4}"
    );
}

#[test]
fn empty_msg_text() {
    let owner = "kate".to_string();
    let msg = create_empty_msg_string(None, &owner, RosterPosition::K);
    assert_eq!(
        msg,
        "\u{1f573}\u{fe0f}  kate is not starting a player at K! \u{1f573}\u{fe0f}"
    );
}

#[test]
fn bye_msg_text() {
    let owner = "sam".to_string();
    let msg = create_bye_msg_string(
        Some("Waiver Wire Warriors".to_string()),
        &owner,
        "Chicago Bears",
        RosterPosition::DEF,
    );
    assert_eq!(
        msg,
        "\u{1f4a4} Waiver Wire Warriors (sam) is starting Chicago Bears (on bye) at DEF! \u{1f4a4}"
    );
}

#[test]
fn status_names_match_wire() {
    assert_eq!(InjuryStatus::Out.name(), "Out");
    assert_eq!(InjuryStatus::InjuredReserve.name(), "IR");
    assert_eq!(InjuryStatus::Questionable.name(), "Questionable");
    assert_eq!(InjuryStatus::Healthy.name(), "Healthy");
}

#[test]
fn position_names_match_wire() {
    assert_eq!(RosterPosition::QB.name(), "QB");
    assert_eq!(RosterPosition::FLEX.name(), "FLEX");
    assert_eq!(RosterPosition::DEF.name(), "DEF");
    assert_eq!(RosterPosition::IDP.name(), "IDP");
}

#[test]
fn sport_from_str_ignores_case() {
    assert_eq!(SleeperSport::from_str("NFL"), Ok(SleeperSport::NFL));
    assert_eq!(SleeperSport::from_str("nfl"), Ok(SleeperSport::NFL));
    assert_eq!(SleeperSport::from_str("nba"), Ok(SleeperSport::NBA));
    assert_eq!(SleeperSport::from_str("LcS"), Ok(SleeperSport::LCS));
}

#[test]
fn sport_from_str_rejects_unknown() {
    assert_eq!(
        SleeperSport::from_str("MLB"),
        Err(SleeperError::InvalidSportError("mlb".to_string()))
    );
}

#[test]
fn sport_to_string_codes() {
    assert_eq!(SleeperSport::NFL.to_string(), "nfl");
    assert_eq!(SleeperSport::NBA.to_string(), "nba");
    assert_eq!(SleeperSport::LCS.to_string(), "lcs");
}

#[test]
fn str_eq_compares_contents() {
    assert!(str_eq("KC", "KC"));
    assert!(!str_eq("KC", "GB"));
    assert!(!str_eq("KC", "KCC"));
    assert!(str_eq("", ""));
    assert!(str_eq("\u{26d4} bye", "\u{26d4} bye"));
    assert!(!str_eq("\u{26d4}", "\u{1f4a4}"));
}
