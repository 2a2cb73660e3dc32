use std::collections::HashMap;

use roster_check::brains::{
    check_rosters, empties_from_starters, evaluate_roster, is_injured, position_from_index,
    BotError, ByeStarter, InjuredStarter, NflTeamAbbrv,
};
use roster_check::data::{InjuryStatus, NflPlayer, Roster, RosterPosition, RosterSettings};

fn mk_player(
    full: Option<&str>,
    first: &str,
    last: &str,
    status: Option<&str>,
    team: Option<&str>,
) -> NflPlayer {
    NflPlayer {
        full_name: full.map(|s| s.to_string()),
        first_name: first.to_string(),
        last_name: last.to_string(),
        injury_status: status.map(|s| s.to_string()),
        team: team.map(|s| s.to_string()),
    }
}

fn mk_roster(owner: &str, starters: &[&str]) -> Roster {
    Roster {
        taxi: None,
        starters: starters.iter().map(|s| s.to_string()).collect(),
        settings: RosterSettings {
            wins: 0,
            waiver_position: 1,
            waiver_budget_used: 0,
            total_moves: 0,
            ties: 0,
            losses: 0,
            fpts: 0,
        },
        roster_id: 1,
        reserve: None,
        players: vec![],
        player_map: None,
        owner_id: owner.to_string(),
        metadata: None,
        league_id: "league-1".to_string(),
        keepers: None,
        co_owners: None,
    }
}

fn mk_table(entries: Vec<(&str, NflPlayer)>) -> HashMap<String, NflPlayer> {
    let mut table = HashMap::new();
    for (id, player) in entries {
        table.insert(id.to_string(), player);
    }
    table
}

fn healthy(first: &str, last: &str, team: &str) -> NflPlayer {
    let full = format!("{} {}", first, last);
    mk_player(Some(&full), first, last, None, Some(team))
}

#[test]
fn position_table_decodes_all_slots() {
    let expected = [
        RosterPosition::QB,
        RosterPosition::RB,
        RosterPosition::RB,
        RosterPosition::WR,
        RosterPosition::WR,
        RosterPosition::WR,
        RosterPosition::TE,
        RosterPosition::FLEX,
        RosterPosition::FLEX,
        RosterPosition::K,
        RosterPosition::DEF,
    ];
    for (i, pos) in expected.iter().enumerate() {
        assert_eq!(position_from_index(i), Ok(*pos));
    }
    assert_eq!(position_from_index(11), Err(BotError::InvalidStarterIndex));
    assert_eq!(position_from_index(100), Err(BotError::InvalidStarterIndex));
}

#[test]
fn bye_week_table_entries() {
    assert_eq!(NflTeamAbbrv::CLE.get_bye_week(), 5);
    assert_eq!(NflTeamAbbrv::GB.get_bye_week(), 6);
    assert_eq!(NflTeamAbbrv::CAR.get_bye_week(), 7);
    assert_eq!(NflTeamAbbrv::DEN.get_bye_week(), 9);
    assert_eq!(NflTeamAbbrv::KC.get_bye_week(), 10);
    assert_eq!(NflTeamAbbrv::ATL.get_bye_week(), 11);
    assert_eq!(NflTeamAbbrv::BAL.get_bye_week(), 13);
    assert_eq!(NflTeamAbbrv::ARI.get_bye_week(), 14);
    assert_eq!(NflTeamAbbrv::FA.get_bye_week(), 0);
}

#[test]
fn free_agent_always_on_bye() {
    for week in [1u8, 7, 14, 18] {
        assert!(NflTeamAbbrv::FA.is_on_bye(week));
    }
}

#[test]
fn team_on_bye_only_its_week() {
    assert!(NflTeamAbbrv::GB.is_on_bye(6));
    assert!(!NflTeamAbbrv::GB.is_on_bye(7));
    assert!(NflTeamAbbrv::TEN.is_on_bye(7));
    assert!(!NflTeamAbbrv::TEN.is_on_bye(6));
}

#[test]
fn parse_team_codes() {
    assert!(matches!(
        NflTeamAbbrv::new(Some("KC".to_string())),
        Some(NflTeamAbbrv::KC)
    ));
    assert!(matches!(NflTeamAbbrv::new(None), Some(NflTeamAbbrv::FA)));
    assert!(matches!(
        NflTeamAbbrv::new(Some("FA".to_string())),
        Some(NflTeamAbbrv::FA)
    ));
    assert!(NflTeamAbbrv::new(Some("ZZZ".to_string())).is_none());
    assert!(NflTeamAbbrv::new(Some("kc".to_string())).is_none());
    assert!(NflTeamAbbrv::new(Some("".to_string())).is_none());
}

#[test]
fn classify_statuses() {
    assert_eq!(
        InjuryStatus::from_opt_string(&None),
        Ok(InjuryStatus::Healthy)
    );
    assert_eq!(
        InjuryStatus::from_opt_string(&Some("Out".to_string())),
        Ok(InjuryStatus::Out)
    );
    assert_eq!(
        InjuryStatus::from_opt_string(&Some("Questionable".to_string())),
        Ok(InjuryStatus::Questionable)
    );
    assert_eq!(
        InjuryStatus::from_opt_string(&Some("IR".to_string())),
        Ok(InjuryStatus::InjuredReserve)
    );
    assert_eq!(
        InjuryStatus::from_opt_string(&Some("Banged up".to_string())),
        Err(BotError::InjuryStatusNotFound)
    );
}

#[test]
fn injury_policy_blocks_all_but_healthy_and_questionable() {
    assert_eq!(is_injured(InjuryStatus::Healthy), None);
    assert_eq!(is_injured(InjuryStatus::Questionable), None);
    assert_eq!(is_injured(InjuryStatus::Out), Some(InjuryStatus::Out));
    assert_eq!(is_injured(InjuryStatus::Doubtful), Some(InjuryStatus::Doubtful));
    assert_eq!(is_injured(InjuryStatus::Covid), Some(InjuryStatus::Covid));
}

#[test]
fn empties_list_sentinel_slots_in_order() {
    let starters: Vec<String> = ["0", "4046", "0"].iter().map(|s| s.to_string()).collect();
    let empties = empties_from_starters(&starters);
    assert_eq!(empties, vec![RosterPosition::QB, RosterPosition::RB]);
}

#[test]
fn scenario_week7_mixed_roster() {
    let starters = [
        "4046", "0", "1234", "2315", "0", "5001", "5002", "5003", "5004", "5005", "5006",
    ];
    let table = mk_table(vec![
        ("4046", healthy("Jalen", "Hurts", "DET")),
        ("1234", mk_player(Some("Mike Williams"), "Mike", "Williams", Some("Out"), Some("DET"))),
        // "2315" is deliberately missing from the table: a lookup miss is
        // skipped, never reported as a bye.
        ("5001", healthy("Amon-Ra", "St. Brown", "DET")),
        ("5002", healthy("Travis", "Kelce", "KC")),
        ("5003", healthy("Aaron", "Jones", "GB")),
        ("5004", healthy("Justin", "Jefferson", "MIN")),
        ("5005", healthy("Harrison", "Butker", "KC")),
        ("5006", healthy("San Francisco", "49ers", "SF")),
    ]);
    let starters: Vec<String> = starters.iter().map(|s| s.to_string()).collect();
    let (injured, empty, bye) = evaluate_roster(&starters, &table, 7).unwrap();

    assert_eq!(
        injured,
        vec![InjuredStarter {
            name: "Mike Williams".to_string(),
            status: InjuryStatus::Out,
            pos: RosterPosition::RB,
        }]
    );
    assert_eq!(empty, vec![RosterPosition::RB, RosterPosition::WR]);
    assert!(bye.is_empty());
}

#[test]
fn scenario_all_healthy_clean() {
    let starters = [
        "1", "2", "3", "4", "5", "6", "7", "8", "9", "10", "11",
    ];
    let teams = [
        "DET", "KC", "GB", "MIN", "SF", "BAL", "BUF", "MIA", "PHI", "NYG", "CHI",
    ];
    let mut entries = Vec::new();
    for (id, team) in starters.iter().zip(teams.iter()) {
        entries.push((*id, healthy("Player", id, team)));
    }
    let table = mk_table(entries);
    let starters: Vec<String> = starters.iter().map(|s| s.to_string()).collect();
    let (injured, empty, bye) = evaluate_roster(&starters, &table, 7).unwrap();
    assert!(injured.is_empty());
    assert!(empty.is_empty());
    assert!(bye.is_empty());
}

#[test]
fn evaluate_rejects_overlong_lineup() {
    let starters: Vec<String> = (0..12).map(|i| i.to_string()).collect();
    let table = mk_table(vec![]);
    assert_eq!(
        evaluate_roster(&starters, &table, 1),
        Err(BotError::InvalidStarterIndex)
    );
}

#[test]
fn evaluate_empty_lineup() {
    let starters: Vec<String> = vec![];
    let table = mk_table(vec![("1", healthy("A", "B", "KC"))]);
    let (injured, empty, bye) = evaluate_roster(&starters, &table, 3).unwrap();
    assert!(injured.is_empty());
    assert!(empty.is_empty());
    assert!(bye.is_empty());
}

#[test]
fn evaluate_twice_same_output() {
    let starters: Vec<String> = ["4046", "0", "9999"].iter().map(|s| s.to_string()).collect();
    let table = mk_table(vec![
        ("4046", mk_player(Some("Joe Mixon"), "Joe", "Mixon", Some("Doubtful"), Some("HOU"))),
    ]);
    let first = evaluate_roster(&starters, &table, 7).unwrap();
    let second = evaluate_roster(&starters, &table, 7).unwrap();
    assert_eq!(first, second);
}

#[test]
fn findings_positions_in_template() {
    let starters: Vec<String> = [
        "0", "1", "2", "3", "4", "5", "6", "7", "8", "9", "0",
    ]
    .iter()
    .map(|s| s.to_string())
    .collect();
    let mut table = HashMap::new();
    for i in 1..10 {
        table.insert(
            i.to_string(),
            mk_player(Some("Some Player"), "Some", "Player", Some("Out"), None),
        );
    }
    let (injured, empty, bye) = evaluate_roster(&starters, &table, 4).unwrap();
    let template = [
        RosterPosition::QB,
        RosterPosition::RB,
        RosterPosition::WR,
        RosterPosition::TE,
        RosterPosition::FLEX,
        RosterPosition::K,
        RosterPosition::DEF,
    ];
    for f in &injured {
        assert!(template.contains(&f.pos));
    }
    for p in &empty {
        assert!(template.contains(p));
    }
    for f in &bye {
        assert!(template.contains(&f.pos));
    }
    assert!(!injured.is_empty());
    assert!(!bye.is_empty());
}

#[test]
fn empty_count_partition() {
    let starters: Vec<String> = ["0", "11", "0", "22", "33"].iter().map(|s| s.to_string()).collect();
    let table = mk_table(vec![("11", healthy("A", "B", "KC"))]);
    let (_, empty, _) = evaluate_roster(&starters, &table, 2).unwrap();
    let nonempty = starters.iter().filter(|s| s.as_str() != "0").count();
    assert_eq!(empty.len() + nonempty, starters.len());
}

#[test]
fn questionable_not_reported_out_reported() {
    let starters: Vec<String> = ["1", "2"].iter().map(|s| s.to_string()).collect();
    let table = mk_table(vec![
        ("1", mk_player(Some("Fine Guy"), "Fine", "Guy", Some("Questionable"), Some("KC"))),
        ("2", mk_player(Some("Hurt Guy"), "Hurt", "Guy", Some("Out"), Some("KC"))),
    ]);
    let (injured, _, _) = evaluate_roster(&starters, &table, 2).unwrap();
    assert_eq!(
        injured,
        vec![InjuredStarter {
            name: "Hurt Guy".to_string(),
            status: InjuryStatus::Out,
            pos: RosterPosition::RB,
        }]
    );
    assert!(injured.iter().all(|f| f.name != "Fine Guy"));
}

#[test]
fn sentinel_not_in_injured_or_bye() {
    let starters: Vec<String> = ["0", "1", "0"].iter().map(|s| s.to_string()).collect();
    let table = mk_table(vec![("1", healthy("A", "B", "KC"))]);
    let (injured, empty, bye) = evaluate_roster(&starters, &table, 9).unwrap();
    assert_eq!(empty, vec![RosterPosition::QB, RosterPosition::RB]);
    assert!(injured.is_empty());
    assert!(bye.is_empty());
}

#[test]
fn free_agent_in_bye_list_any_week() {
    let starters: Vec<String> = ["1", "2", "3", "77"].iter().map(|s| s.to_string()).collect();
    let mut entries = vec![
        ("1", healthy("A", "B", "KC")),
        ("2", healthy("C", "D", "GB")),
        ("3", healthy("E", "F", "SF")),
        ("77", mk_player(Some("Loose End"), "Loose", "End", None, None)),
    ];
    let table = mk_table(entries.drain(..).collect());
    for week in [1u8, 7, 14] {
        let (_, _, bye) = evaluate_roster(&starters, &table, week).unwrap();
        assert_eq!(
            bye,
            vec![ByeStarter { name: "Loose End".to_string(), pos: RosterPosition::WR }]
        );
    }
}

#[test]
fn lookup_miss_skipped() {
    let starters: Vec<String> = ["404"].iter().map(|s| s.to_string()).collect();
    let table = mk_table(vec![]);
    let (injured, empty, bye) = evaluate_roster(&starters, &table, 5).unwrap();
    assert!(injured.is_empty());
    assert!(empty.is_empty());
    assert!(bye.is_empty());
}

#[test]
fn unparsable_team_code_skipped() {
    let starters: Vec<String> = ["8"].iter().map(|s| s.to_string()).collect();
    let table = mk_table(vec![
        ("8", mk_player(Some("Odd Record"), "Odd", "Record", None, Some("LONDON"))),
    ]);
    let (_, _, bye) = evaluate_roster(&starters, &table, 5).unwrap();
    assert!(bye.is_empty());
}

#[test]
fn bye_starter_named_by_first_and_last() {
    let starters: Vec<String> = ["15"].iter().map(|s| s.to_string()).collect();
    let table = mk_table(vec![
        ("15", mk_player(None, "Chicago", "Bears", None, Some("CHI"))),
    ]);
    let (_, _, bye) = evaluate_roster(&starters, &table, 13).unwrap();
    assert_eq!(
        bye,
        vec![ByeStarter { name: "Chicago Bears".to_string(), pos: RosterPosition::QB }]
    );
}

#[test]
fn injured_and_bye_findings_overlap() {
    // One starter can be reported injured and on bye at once: the
    // categories are independent.
    let starters: Vec<String> = ["21"].iter().map(|s| s.to_string()).collect();
    let table = mk_table(vec![
        ("21", mk_player(Some("Beat Up"), "Beat", "Up", Some("Out"), Some("GB"))),
    ]);
    let (injured, empty, bye) = evaluate_roster(&starters, &table, 6).unwrap();
    assert_eq!(injured.len(), 1);
    assert_eq!(bye.len(), 1);
    assert!(empty.is_empty());
}

#[test]
fn check_rosters_orders_and_skips() {
    let table = mk_table(vec![
        ("1", healthy("A", "B", "KC")),
        ("2", mk_player(Some("Hurt Guy"), "Hurt", "Guy", Some("IR"), Some("SF"))),
    ]);
    let overlong: Vec<&str> = vec!["1"; 12];
    let rosters = vec![
        mk_roster("owner-1", &["1", "2"]),
        mk_roster("owner-2", &overlong),
        mk_roster("owner-3", &["0"]),
    ];
    let report = check_rosters(&rosters, &table, 3);
    assert_eq!(report.len(), 2);
    assert_eq!(report[0].0, "owner-1");
    assert_eq!(
        report[0].1 .0,
        vec![InjuredStarter {
            name: "Hurt Guy".to_string(),
            status: InjuryStatus::InjuredReserve,
            pos: RosterPosition::RB,
        }]
    );
    assert_eq!(report[1].0, "owner-3");
    assert_eq!(report[1].1 .1, vec![RosterPosition::QB]);
}

#[test]
fn all_eleven_slots_empty() {
    let starters: Vec<String> = vec!["0".to_string(); 11];
    let table = mk_table(vec![]);
    let (injured, empty, bye) = evaluate_roster(&starters, &table, 1).unwrap();
    assert_eq!(
        empty,
        vec![
            RosterPosition::QB,
            RosterPosition::RB,
            RosterPosition::RB,
            RosterPosition::WR,
            RosterPosition::WR,
            RosterPosition::WR,
            RosterPosition::TE,
            RosterPosition::FLEX,
            RosterPosition::FLEX,
            RosterPosition::K,
            RosterPosition::DEF,
        ]
    );
    assert!(injured.is_empty());
    assert!(bye.is_empty());
}
