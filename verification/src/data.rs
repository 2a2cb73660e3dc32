//! Data model for the fantasy platform's records, as the evaluation engine
//! consumes them: players, rosters, league bookkeeping, and the sport/state
//! records of the platform's "sport state" endpoint.
//!
//! Every record here is a plain snapshot value; the HTTP client that fills
//! them lives outside the library and hands in ready-made values.

use vstd::prelude::*;
use std::collections::HashMap;
use crate::strutil::{str_eq, lowercase, lower_of};
use vstd::string::StringExecFns;

verus! {

pub type LeagueId = String;

pub type PlayerId = String;

pub type OwnerId = String;

/// One NFL player, as the platform's player table describes him.
///
/// `full_name` is absent for team defenses, whose `first_name` is the city
/// and whose `last_name` is the team name. `injury_status` is absent for a
/// healthy player; `team` is absent for a free agent.
#[derive(Debug, Clone)]
pub struct NflPlayer {
    pub full_name: Option<String>,
    pub first_name: String,
    pub last_name: String,
    pub injury_status: Option<String>,
    pub team: Option<String>,
}

/// Mathematical image of an [`NflPlayer`]: every string as its characters.
pub ghost struct NflPlayerV {
    pub full_name: Option<Seq<char>>,
    pub first_name: Seq<char>,
    pub last_name: Seq<char>,
    pub injury_status: Option<Seq<char>>,
    pub team: Option<Seq<char>>,
}

impl View for NflPlayer {
    type V = NflPlayerV;

    open spec fn view(&self) -> NflPlayerV {
        NflPlayerV {
            full_name: self.full_name.deep_view(),
            first_name: self.first_name@,
            last_name: self.last_name@,
            injury_status: self.injury_status.deep_view(),
            team: self.team.deep_view(),
        }
    }
}

impl DeepView for NflPlayer {
    type V = NflPlayerV;

    open spec fn deep_view(&self) -> NflPlayerV {
        self.view()
    }
}

/// The closed vocabulary of injury designations on the platform's wire.
///
/// `Healthy` stands for an absent status field as well as a literal
/// "Healthy"; all other variants mirror one wire string each.
#[derive(Debug, Clone, Copy, PartialEq, Eq, Structural)]
pub enum InjuryStatus {
    Healthy,
    Questionable,
    Doubtful,
    Out,
    InjuredReserve,
    Pup,
    Covid,
    Suspended,
    NotActive,
    DidNotReport,
}

/// The wire string for each injury designation.
pub open spec fn spec_status_name(st: InjuryStatus) -> Seq<char> {
    match st {
        InjuryStatus::Healthy => "Healthy"@,
        InjuryStatus::Questionable => "Questionable"@,
        InjuryStatus::Doubtful => "Doubtful"@,
        InjuryStatus::Out => "Out"@,
        InjuryStatus::InjuredReserve => "IR"@,
        InjuryStatus::Pup => "PUP"@,
        InjuryStatus::Covid => "COV"@,
        InjuryStatus::Suspended => "Sus"@,
        InjuryStatus::NotActive => "NA"@,
        InjuryStatus::DidNotReport => "DNR"@,
    }
}

impl InjuryStatus {
    /// The designation as the platform writes it.
    pub fn name(&self) -> (r: String)
        ensures
            r@ == spec_status_name(*self),
    {
        match self {
            InjuryStatus::Healthy => String::from_str("Healthy"),
            InjuryStatus::Questionable => String::from_str("Questionable"),
            InjuryStatus::Doubtful => String::from_str("Doubtful"),
            InjuryStatus::Out => String::from_str("Out"),
            InjuryStatus::InjuredReserve => String::from_str("IR"),
            InjuryStatus::Pup => String::from_str("PUP"),
            InjuryStatus::Covid => String::from_str("COV"),
            InjuryStatus::Suspended => String::from_str("Sus"),
            InjuryStatus::NotActive => String::from_str("NA"),
            InjuryStatus::DidNotReport => String::from_str("DNR"),
        }
    }
}

/// A lineup slot kind, as the platform names them.
#[derive(Debug, Clone, Copy, PartialEq, Eq, Structural)]
pub enum RosterPosition {
    QB,
    RB,
    WR,
    TE,
    FLEX,
    K,
    DEF,
    BN,
    IDP,
}

impl DeepView for RosterPosition {
    type V = RosterPosition;

    open spec fn deep_view(&self) -> RosterPosition {
        *self
    }
}

/// The wire string for each lineup slot kind.
pub open spec fn spec_position_name(pos: RosterPosition) -> Seq<char> {
    match pos {
        RosterPosition::QB => "QB"@,
        RosterPosition::RB => "RB"@,
        RosterPosition::WR => "WR"@,
        RosterPosition::TE => "TE"@,
        RosterPosition::FLEX => "FLEX"@,
        RosterPosition::K => "K"@,
        RosterPosition::DEF => "DEF"@,
        RosterPosition::BN => "BN"@,
        RosterPosition::IDP => "IDP"@,
    }
}

impl RosterPosition {
    /// The slot kind as the platform writes it.
    pub fn name(&self) -> (r: String)
        ensures
            r@ == spec_position_name(*self),
    {
        match self {
            RosterPosition::QB => String::from_str("QB"),
            RosterPosition::RB => String::from_str("RB"),
            RosterPosition::WR => String::from_str("WR"),
            RosterPosition::TE => String::from_str("TE"),
            RosterPosition::FLEX => String::from_str("FLEX"),
            RosterPosition::K => String::from_str("K"),
            RosterPosition::DEF => String::from_str("DEF"),
            RosterPosition::BN => String::from_str("BN"),
            RosterPosition::IDP => String::from_str("IDP"),
        }
    }
}

/// Season bookkeeping of one fantasy roster.
#[derive(Debug, Clone, Copy, PartialEq, Eq, Structural)]
pub struct RosterSettings {
    pub wins: u8,
    pub waiver_position: u8,
    pub waiver_budget_used: u8,
    pub total_moves: u16,
    pub ties: u8,
    pub losses: u8,
    pub fpts: u8,
}

/// One fantasy team's roster record. The `starters` list is ordered: the
/// index of an entry decides which lineup slot that starter fills, so the
/// list must never be reordered or shrunk.
#[derive(Debug, Clone)]
pub struct Roster {
    pub taxi: Option<String>,
    pub starters: Vec<String>,
    pub settings: RosterSettings,
    pub roster_id: u8,
    pub reserve: Option<String>,
    pub players: Vec<String>,
    pub player_map: Option<PlayerId>,
    pub owner_id: String,
    pub metadata: Option<HashMap<String, String>>,
    pub league_id: LeagueId,
    pub keepers: Option<Vec<String>>,
    pub co_owners: Option<Vec<String>>,
}

/// Mathematical image of a [`Roster`].
pub ghost struct RosterV {
    pub taxi: Option<Seq<char>>,
    pub starters: Seq<Seq<char>>,
    pub settings: RosterSettings,
    pub roster_id: u8,
    pub reserve: Option<Seq<char>>,
    pub players: Seq<Seq<char>>,
    pub player_map: Option<Seq<char>>,
    pub owner_id: Seq<char>,
    pub metadata: Option<Map<Seq<char>, Seq<char>>>,
    pub league_id: Seq<char>,
    pub keepers: Option<Seq<Seq<char>>>,
    pub co_owners: Option<Seq<Seq<char>>>,
}

impl View for Roster {
    type V = RosterV;

    open spec fn view(&self) -> RosterV {
        RosterV {
            taxi: self.taxi.deep_view(),
            starters: self.starters.deep_view(),
            settings: self.settings,
            roster_id: self.roster_id,
            reserve: self.reserve.deep_view(),
            players: self.players.deep_view(),
            player_map: self.player_map.deep_view(),
            owner_id: self.owner_id@,
            metadata: self.metadata.deep_view(),
            league_id: self.league_id@,
            keepers: self.keepers.deep_view(),
            co_owners: self.co_owners.deep_view(),
        }
    }
}

impl DeepView for Roster {
    type V = RosterV;

    open spec fn deep_view(&self) -> RosterV {
        self.view()
    }
}

/// One league member, as the platform's user endpoint describes them.
#[derive(Debug, Clone)]
pub struct SleeperUser {
    pub user_id: String,
    pub username: Option<String>,
    pub settings: Option<HashMap<String, String>>,
    pub metadata: Option<HashMap<String, String>>,
    pub is_owner: bool,
    pub is_bot: bool,
    pub league_id: LeagueId,
    pub display_name: Option<String>,
    pub avatar: Option<String>,
}

/// League bookkeeping strings of the platform's league record.
#[derive(Debug, Clone)]
pub struct LeagueMetadata {
    pub latest_league_winner_roster_id: Option<String>,
    pub keeper_deadline: String,
    pub auto_continue: String,
}

/// Numeric configuration of a league, kept verbatim from the wire.
#[derive(Debug, Clone, Copy, PartialEq, Eq, Structural)]
pub struct LeagueSettings {
    pub daily_waivers_last_ran: u16,
    pub reserve_allow_cov: u8,
    pub reserve_slots: u8,
    pub leg: u8,
    pub offseason_adds: u8,
    pub bench_lock: u8,
    pub trade_review_days: u8,
    pub league_average_match: u8,
    pub waiver_type: u8,
    pub max_keepers: u8,
    pub _type: u8,
    pub pick_trading: u8,
    pub disable_trades: u8,
    pub daily_waivers: u8,
    pub taxi_years: u8,
    pub trade_deadline: u8,
    pub veto_show_votes: u8,
    pub reserve_allow_sus: u8,
    pub reserve_allow_out: u8,
    pub playoff_round_type: u8,
    pub waiver_day_of_week: u8,
    pub taxi_allow_vets: u8,
    pub reserve_allow_dnr: u8,
    pub veto_auto_poll: u8,
    pub commissioner_direct_invite: u8,
    pub reserve_allow_doubtful: u8,
    pub waiver_clear_days: u8,
    pub playoff_week_start: u8,
    pub daily_waivers_days: u16,
    pub taxi_slots: u8,
    pub playoff_type: u8,
    pub daily_waivers_hour: u32,
    pub num_teams: u8,
    pub squads: u8,
    pub veto_votes_needed: u8,
    pub playoff_teams: u8,
    pub playoff_seed_type: u8,
    pub start_week: u8,
    pub reserve_allow_na: u8,
    pub draft_rounds: u8,
    pub taxi_deadline: u8,
    pub capacity_override: u8,
    pub disable_adds: u8,
    pub waiver_budget: u8,
    pub best_ball: u8,
}

/// The sports the platform can host.
#[derive(Debug, Clone, Copy, PartialEq, Eq, Structural)]
pub enum SleeperSport {
    NFL,
    NBA,
    LCS,
}

/// Errors of the platform-facing boundary.
#[derive(Debug, Clone, PartialEq, Eq)]
pub enum SleeperError {
    DeserializationError(String),
    NetworkError(Option<u16>),
    InvalidSportError(String),
}

/// Which sport a lower-case sport code names, if any.
pub open spec fn spec_parse_sport(s: Seq<char>) -> Option<SleeperSport> {
    if s == "nfl"@ {
        Some(SleeperSport::NFL)
    } else if s == "nba"@ {
        Some(SleeperSport::NBA)
    } else if s == "lcs"@ {
        Some(SleeperSport::LCS)
    } else {
        None
    }
}

/// The lower-case code of each sport.
pub open spec fn spec_sport_name(sport: SleeperSport) -> Seq<char> {
    match sport {
        SleeperSport::NFL => "nfl"@,
        SleeperSport::NBA => "nba"@,
        SleeperSport::LCS => "lcs"@,
    }
}

impl SleeperSport {
    /// Read a sport from its code, ignoring the letters' case.
    ///
    /// The unrecognised-code error carries the lowered form of the input.
    pub fn from_str(s: &str) -> (r: Result<SleeperSport, SleeperError>)
        ensures
            match spec_parse_sport(lower_of(s@)) {
                Some(sport) => r == Ok::<SleeperSport, SleeperError>(sport),
                None => (r matches Err(e) && e matches SleeperError::InvalidSportError(l)
                    && l@ == lower_of(s@)),
            },
    {
        let lower = lowercase(s);
        SleeperSport::from_lowered(lower)
    }

    /// Read a sport from an already lower-cased code.
    pub fn from_lowered(lower: String) -> (r: Result<SleeperSport, SleeperError>)
        ensures
            match spec_parse_sport(lower@) {
                Some(sport) => r == Ok::<SleeperSport, SleeperError>(sport),
                None => (r matches Err(e) && e matches SleeperError::InvalidSportError(l)
                    && l@ == lower@),
            },
    {
        if str_eq(lower.as_str(), "nfl") {
            Ok(SleeperSport::NFL)
        } else if str_eq(lower.as_str(), "nba") {
            Ok(SleeperSport::NBA)
        } else if str_eq(lower.as_str(), "lcs") {
            Ok(SleeperSport::LCS)
        } else {
            Err(SleeperError::InvalidSportError(lower))
        }
    }

    /// The code the platform's URLs use for this sport.
    pub fn to_string(&self) -> (r: String)
        ensures
            r@ == spec_sport_name(*self),
    {
        match self {
            SleeperSport::NFL => String::from_str("nfl"),
            SleeperSport::NBA => String::from_str("nba"),
            SleeperSport::LCS => String::from_str("lcs"),
        }
    }
}

/// The platform's per-sport state record; `week` is the source of truth
/// for the current week of the season.
#[derive(Debug, Clone)]
pub struct SportState {
    pub week: u8,
    pub season_type: String,
    pub season_start_date: String,
    pub season: String,
    pub previous_season: String,
    pub leg: u8,
    pub league_season: String,
    pub league_create_season: String,
    pub display_week: u8,
}

} // verus!
