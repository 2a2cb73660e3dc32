//! The roster-evaluation engine.
//!
//! Given one fantasy team's ordered starter list, a player lookup table and
//! the current week, the engine produces three independent findings lists:
//! starters who are injured, starting slots left empty, and starters whose
//! NFL team is on bye (a starter with no team at all counts as on bye).
//! The starter list's order is load-bearing: the index of an entry decides
//! which lineup slot it fills, so every pass over it keeps index and length.

use vstd::prelude::*;
use std::collections::HashMap;
use crate::data::{InjuryStatus, NflPlayer, NflPlayerV, PlayerId, OwnerId, Roster, RosterPosition};
use crate::strutil::str_eq;

verus! {

/// A starter slot kind that was found to be empty.
pub type EmptySpot = RosterPosition;

/// A player who is starting although his status says he cannot play.
#[derive(Debug, Clone, PartialEq, Eq)]
pub struct InjuredStarter {
    pub name: String,
    pub status: InjuryStatus,
    pub pos: RosterPosition,
}

/// Mathematical image of an [`InjuredStarter`].
pub ghost struct InjuredStarterV {
    pub name: Seq<char>,
    pub status: InjuryStatus,
    pub pos: RosterPosition,
}

impl View for InjuredStarter {
    type V = InjuredStarterV;

    open spec fn view(&self) -> InjuredStarterV {
        InjuredStarterV { name: self.name@, status: self.status, pos: self.pos }
    }
}

impl DeepView for InjuredStarter {
    type V = InjuredStarterV;

    open spec fn deep_view(&self) -> InjuredStarterV {
        self.view()
    }
}

/// A player who is starting although his team is on bye this week.
#[derive(Debug, Clone, PartialEq, Eq)]
pub struct ByeStarter {
    pub name: String,
    pub pos: RosterPosition,
}

/// Mathematical image of a [`ByeStarter`].
pub ghost struct ByeStarterV {
    pub name: Seq<char>,
    pub pos: RosterPosition,
}

impl View for ByeStarter {
    type V = ByeStarterV;

    open spec fn view(&self) -> ByeStarterV {
        ByeStarterV { name: self.name@, pos: self.pos }
    }
}

impl DeepView for ByeStarter {
    type V = ByeStarterV;

    open spec fn deep_view(&self) -> ByeStarterV {
        self.view()
    }
}

/// All of one fantasy team's bad starters: injured, empty slots, on bye.
pub type BadStarters = (Vec<InjuredStarter>, Vec<EmptySpot>, Vec<ByeStarter>);

/// Errors of the evaluation engine.
#[derive(Debug, Clone, Copy, PartialEq, Eq, Structural)]
pub enum BotError {
    InjuryStatusNotFound,
    InvalidStarterIndex,
    Generic,
}

/// The NFL team abbreviations, plus `FA` for a player on no team.
#[derive(Debug, Clone, Copy, PartialEq, Eq, Structural)]
pub enum NflTeamAbbrv {
    ARI, ATL, BAL, BUF,
    CAR, CHI, CIN, CLE,
    DAL, DEN, DET, GB,
    HOU, IND, JAX, KC,
    LAC, LAR, LV,  MIA,
    MIN, NE,  NO,  NYG,
    NYJ, PHI, PIT, SEA,
    SF,  TB,  TEN, WAS,
    FA,
}

/// Each team's bye week of the season this table was written for.
/// The week is literal (week 1 is the first week); `FA` carries 0, a week
/// that never occurs, since a free agent has no schedule.
pub open spec fn spec_bye_week(t: NflTeamAbbrv) -> u8 {
    match t {
        NflTeamAbbrv::CLE | NflTeamAbbrv::LAC | NflTeamAbbrv::SEA | NflTeamAbbrv::TB => 5,
        NflTeamAbbrv::GB | NflTeamAbbrv::PIT => 6,
        NflTeamAbbrv::CAR | NflTeamAbbrv::CIN | NflTeamAbbrv::DAL | NflTeamAbbrv::HOU
            | NflTeamAbbrv::NYJ | NflTeamAbbrv::TEN => 7,
        NflTeamAbbrv::DEN | NflTeamAbbrv::DET | NflTeamAbbrv::JAX | NflTeamAbbrv::SF => 9,
        NflTeamAbbrv::KC | NflTeamAbbrv::LAR | NflTeamAbbrv::MIA | NflTeamAbbrv::PHI => 10,
        NflTeamAbbrv::ATL | NflTeamAbbrv::IND | NflTeamAbbrv::NE | NflTeamAbbrv::NO => 11,
        NflTeamAbbrv::BAL | NflTeamAbbrv::BUF | NflTeamAbbrv::CHI | NflTeamAbbrv::LV
            | NflTeamAbbrv::MIN | NflTeamAbbrv::NYG => 13,
        NflTeamAbbrv::ARI | NflTeamAbbrv::WAS => 14,
        NflTeamAbbrv::FA => 0,
    }
}

/// Whether a team sits out the given week. A free agent is always "on bye":
/// he is not playing, whatever the week is.
pub open spec fn spec_is_on_bye(t: NflTeamAbbrv, current_week: u8) -> bool {
    t is FA || spec_bye_week(t) == current_week
}

/// Which team a wire team field names. An absent field means free agent;
/// an unrecognised code means the field cannot be read.
pub open spec fn spec_parse_team(team: Option<Seq<char>>) -> Option<NflTeamAbbrv> {
    match team {
        None => Some(NflTeamAbbrv::FA),
        Some(s) =>
            if s == "ARI"@ { Some(NflTeamAbbrv::ARI) }
            else if s == "ATL"@ { Some(NflTeamAbbrv::ATL) }
            else if s == "BAL"@ { Some(NflTeamAbbrv::BAL) }
            else if s == "BUF"@ { Some(NflTeamAbbrv::BUF) }
            else if s == "CAR"@ { Some(NflTeamAbbrv::CAR) }
            else if s == "CHI"@ { Some(NflTeamAbbrv::CHI) }
            else if s == "CIN"@ { Some(NflTeamAbbrv::CIN) }
            else if s == "CLE"@ { Some(NflTeamAbbrv::CLE) }
            else if s == "DAL"@ { Some(NflTeamAbbrv::DAL) }
            else if s == "DEN"@ { Some(NflTeamAbbrv::DEN) }
            else if s == "DET"@ { Some(NflTeamAbbrv::DET) }
            else if s == "GB"@ { Some(NflTeamAbbrv::GB) }
            else if s == "HOU"@ { Some(NflTeamAbbrv::HOU) }
            else if s == "IND"@ { Some(NflTeamAbbrv::IND) }
            else if s == "JAX"@ { Some(NflTeamAbbrv::JAX) }
            else if s == "KC"@ { Some(NflTeamAbbrv::KC) }
            else if s == "LAC"@ { Some(NflTeamAbbrv::LAC) }
            else if s == "LAR"@ { Some(NflTeamAbbrv::LAR) }
            else if s == "LV"@ { Some(NflTeamAbbrv::LV) }
            else if s == "MIA"@ { Some(NflTeamAbbrv::MIA) }
            else if s == "MIN"@ { Some(NflTeamAbbrv::MIN) }
            else if s == "NE"@ { Some(NflTeamAbbrv::NE) }
            else if s == "NO"@ { Some(NflTeamAbbrv::NO) }
            else if s == "NYG"@ { Some(NflTeamAbbrv::NYG) }
            else if s == "NYJ"@ { Some(NflTeamAbbrv::NYJ) }
            else if s == "PHI"@ { Some(NflTeamAbbrv::PHI) }
            else if s == "PIT"@ { Some(NflTeamAbbrv::PIT) }
            else if s == "SEA"@ { Some(NflTeamAbbrv::SEA) }
            else if s == "SF"@ { Some(NflTeamAbbrv::SF) }
            else if s == "TB"@ { Some(NflTeamAbbrv::TB) }
            else if s == "TEN"@ { Some(NflTeamAbbrv::TEN) }
            else if s == "WAS"@ { Some(NflTeamAbbrv::WAS) }
            else if s == "FA"@ { Some(NflTeamAbbrv::FA) }
            else { None },
    }
}

impl NflTeamAbbrv {
    /// This team's bye week in the season the compiled-in table covers.
    /// The week is literal, not zero-indexed; `FA` yields 0.
    pub fn get_bye_week(&self) -> (w: u8)
        ensures
            w == spec_bye_week(*self),
    {
        match self {
            Self::CLE | Self::LAC | Self::SEA | Self::TB => 5,
            Self::GB | Self::PIT => 6,
            Self::CAR | Self::CIN | Self::DAL | Self::HOU | Self::NYJ | Self::TEN => 7,
            Self::DEN | Self::DET | Self::JAX | Self::SF => 9,
            Self::KC | Self::LAR | Self::MIA | Self::PHI => 10,
            Self::ATL | Self::IND | Self::NE | Self::NO => 11,
            Self::BAL | Self::BUF | Self::CHI | Self::LV | Self::MIN | Self::NYG => 13,
            Self::ARI | Self::WAS => 14,
            Self::FA => 0,
        }
    }

    /// Whether this team sits out `current_week`; free agents always do.
    pub fn is_on_bye(&self, current_week: u8) -> (r: bool)
        ensures
            r == spec_is_on_bye(*self, current_week),
    {
        match self {
            Self::FA => true,
            unmatched => unmatched.get_bye_week() == current_week,
        }
    }

    /// Read a team from an optional wire field, where an absent field means
    /// free agent and an unrecognised code means the field cannot be read.
    pub fn new(team: Option<String>) -> (r: Option<Self>)
        ensures
            r == spec_parse_team(team.deep_view()),
    {
        match team {
            None => Some(Self::FA),
            Some(team_name) => {
                let s = team_name.as_str();
                if str_eq(s, "ARI") { Some(NflTeamAbbrv::ARI) }
                else if str_eq(s, "ATL") { Some(NflTeamAbbrv::ATL) }
                else if str_eq(s, "BAL") { Some(NflTeamAbbrv::BAL) }
                else if str_eq(s, "BUF") { Some(NflTeamAbbrv::BUF) }
                else if str_eq(s, "CAR") { Some(NflTeamAbbrv::CAR) }
                else if str_eq(s, "CHI") { Some(NflTeamAbbrv::CHI) }
                else if str_eq(s, "CIN") { Some(NflTeamAbbrv::CIN) }
                else if str_eq(s, "CLE") { Some(NflTeamAbbrv::CLE) }
                else if str_eq(s, "DAL") { Some(NflTeamAbbrv::DAL) }
                else if str_eq(s, "DEN") { Some(NflTeamAbbrv::DEN) }
                else if str_eq(s, "DET") { Some(NflTeamAbbrv::DET) }
                else if str_eq(s, "GB") { Some(NflTeamAbbrv::GB) }
                else if str_eq(s, "HOU") { Some(NflTeamAbbrv::HOU) }
                else if str_eq(s, "IND") { Some(NflTeamAbbrv::IND) }
                else if str_eq(s, "JAX") { Some(NflTeamAbbrv::JAX) }
                else if str_eq(s, "KC") { Some(NflTeamAbbrv::KC) }
                else if str_eq(s, "LAC") { Some(NflTeamAbbrv::LAC) }
                else if str_eq(s, "LAR") { Some(NflTeamAbbrv::LAR) }
                else if str_eq(s, "LV") { Some(NflTeamAbbrv::LV) }
                else if str_eq(s, "MIA") { Some(NflTeamAbbrv::MIA) }
                else if str_eq(s, "MIN") { Some(NflTeamAbbrv::MIN) }
                else if str_eq(s, "NE") { Some(NflTeamAbbrv::NE) }
                else if str_eq(s, "NO") { Some(NflTeamAbbrv::NO) }
                else if str_eq(s, "NYG") { Some(NflTeamAbbrv::NYG) }
                else if str_eq(s, "NYJ") { Some(NflTeamAbbrv::NYJ) }
                else if str_eq(s, "PHI") { Some(NflTeamAbbrv::PHI) }
                else if str_eq(s, "PIT") { Some(NflTeamAbbrv::PIT) }
                else if str_eq(s, "SEA") { Some(NflTeamAbbrv::SEA) }
                else if str_eq(s, "SF") { Some(NflTeamAbbrv::SF) }
                else if str_eq(s, "TB") { Some(NflTeamAbbrv::TB) }
                else if str_eq(s, "TEN") { Some(NflTeamAbbrv::TEN) }
                else if str_eq(s, "WAS") { Some(NflTeamAbbrv::WAS) }
                else if str_eq(s, "FA") { Some(NflTeamAbbrv::FA) }
                else { None }
            }
        }
    }
}

/// Which lineup slot a starter-list index fills, under the fixed 11-slot
/// template QB RB RB WR WR WR TE FLEX FLEX K DEF. `None` outside `[0, 10]`.
pub open spec fn spec_position_from_index(i: int) -> Option<RosterPosition> {
    if i == 0 { Some(RosterPosition::QB) }
    else if 1 <= i <= 2 { Some(RosterPosition::RB) }
    else if 3 <= i <= 5 { Some(RosterPosition::WR) }
    else if i == 6 { Some(RosterPosition::TE) }
    else if 7 <= i <= 8 { Some(RosterPosition::FLEX) }
    else if i == 9 { Some(RosterPosition::K) }
    else if i == 10 { Some(RosterPosition::DEF) }
    else { None }
}

/// Decode a starter-list index to its lineup slot under the fixed 11-slot
/// template; an index past the template is a starter-index error.
pub fn position_from_index(index: usize) -> (r: Result<RosterPosition, BotError>)
    ensures
        match spec_position_from_index(index as int) {
            Some(p) => r == Ok::<RosterPosition, BotError>(p),
            None => r == Err::<RosterPosition, BotError>(BotError::InvalidStarterIndex),
        },
{
    match index {
        0 => Ok(RosterPosition::QB),
        1 | 2 => Ok(RosterPosition::RB),
        3 | 4 | 5 => Ok(RosterPosition::WR),
        6 => Ok(RosterPosition::TE),
        7 | 8 => Ok(RosterPosition::FLEX),
        9 => Ok(RosterPosition::K),
        10 => Ok(RosterPosition::DEF),
        _ => Err(BotError::InvalidStarterIndex),
    }
}

/// Which injury designation a wire status field carries: an absent field
/// means healthy, an unrecognised string cannot be read.
pub open spec fn spec_parse_status(status: Option<Seq<char>>) -> Option<InjuryStatus> {
    match status {
        None => Some(InjuryStatus::Healthy),
        Some(s) =>
            if s == "Questionable"@ { Some(InjuryStatus::Questionable) }
            else if s == "Doubtful"@ { Some(InjuryStatus::Doubtful) }
            else if s == "Out"@ { Some(InjuryStatus::Out) }
            else if s == "IR"@ { Some(InjuryStatus::InjuredReserve) }
            else if s == "PUP"@ { Some(InjuryStatus::Pup) }
            else if s == "COV"@ { Some(InjuryStatus::Covid) }
            else if s == "Sus"@ { Some(InjuryStatus::Suspended) }
            else if s == "NA"@ { Some(InjuryStatus::NotActive) }
            else if s == "DNR"@ { Some(InjuryStatus::DidNotReport) }
            else if s == "Healthy"@ { Some(InjuryStatus::Healthy) }
            else { None },
    }
}

impl InjuryStatus {
    /// Read an injury designation from an optional wire field; an absent
    /// field means healthy, an unrecognised string is a status error.
    pub fn from_opt_string(status: &Option<String>) -> (r: Result<InjuryStatus, BotError>)
        ensures
            match spec_parse_status(status.deep_view()) {
                Some(st) => r == Ok::<InjuryStatus, BotError>(st),
                None => r == Err::<InjuryStatus, BotError>(BotError::InjuryStatusNotFound),
            },
    {
        match status {
            None => Ok(InjuryStatus::Healthy),
            Some(text) => {
                let s = text.as_str();
                if str_eq(s, "Questionable") { Ok(InjuryStatus::Questionable) }
                else if str_eq(s, "Doubtful") { Ok(InjuryStatus::Doubtful) }
                else if str_eq(s, "Out") { Ok(InjuryStatus::Out) }
                else if str_eq(s, "IR") { Ok(InjuryStatus::InjuredReserve) }
                else if str_eq(s, "PUP") { Ok(InjuryStatus::Pup) }
                else if str_eq(s, "COV") { Ok(InjuryStatus::Covid) }
                else if str_eq(s, "Sus") { Ok(InjuryStatus::Suspended) }
                else if str_eq(s, "NA") { Ok(InjuryStatus::NotActive) }
                else if str_eq(s, "DNR") { Ok(InjuryStatus::DidNotReport) }
                else if str_eq(s, "Healthy") { Ok(InjuryStatus::Healthy) }
                else { Err(BotError::InjuryStatusNotFound) }
            }
        }
    }
}

/// The start-blocking policy: healthy and questionable players may start;
/// every other designation blocks, and is carried forward for display.
pub open spec fn spec_is_injured(st: InjuryStatus) -> Option<InjuryStatus> {
    match st {
        InjuryStatus::Healthy | InjuryStatus::Questionable => None,
        otherwise => Some(otherwise),
    }
}

/// Decide whether a designation blocks a start: healthy and questionable
/// players pass, everything else is reported with its designation.
pub fn is_injured(st: InjuryStatus) -> (r: Option<InjuryStatus>)
    ensures
        r == spec_is_injured(st),
{
    match st {
        InjuryStatus::Healthy | InjuryStatus::Questionable => None,
        otherwise => Some(otherwise),
    }
}

/// A player's first and last name, joined by one space. Used for bye
/// findings, where a defense's name only exists in those two fields.
pub open spec fn spec_combined_name(p: NflPlayerV) -> Seq<char> {
    p.first_name + " "@ + p.last_name
}

/// A player's full name where the record has one, else the first and last
/// name joined. Used for injured findings.
pub open spec fn spec_display_name(p: NflPlayerV) -> Seq<char> {
    match p.full_name {
        Some(n) => n,
        None => spec_combined_name(p),
    }
}

/// Join a player's first and last name with one space.
pub fn combined_name(player: &NflPlayer) -> (r: String)
    ensures
        r@ == spec_combined_name(player@),
{
    let mut name = player.first_name.clone();
    name.append(" ");
    name.append(player.last_name.as_str());
    name
}

/// A player's full name, or his joined first and last name without one.
pub fn display_name(player: &NflPlayer) -> (r: String)
    ensures
        r@ == spec_display_name(player@),
{
    match &player.full_name {
        Some(n) => n.clone(),
        None => combined_name(player),
    }
}

/// The injured finding, if any, that the starter at index `i` yields:
/// nothing for an unfilled slot, an unreadable status, a start-allowing
/// designation, or an index past the slot template.
pub open spec fn spec_injured_at(op: Option<NflPlayerV>, i: int) -> Seq<InjuredStarterV> {
    match op {
        None => Seq::empty(),
        Some(p) => match spec_parse_status(p.injury_status) {
            None => Seq::empty(),
            Some(st) => match spec_is_injured(st) {
                None => Seq::empty(),
                Some(injury) => match spec_position_from_index(i) {
                    None => Seq::empty(),
                    Some(pos) => seq![
                        InjuredStarterV { name: spec_display_name(p), status: injury, pos: pos }
                    ],
                },
            },
        },
    }
}

/// The empty-slot finding, if any, that the starter id at index `i` yields:
/// one entry exactly when the id is the sentinel `"0"` and the index is in
/// the slot template.
pub open spec fn spec_empty_at(id: Seq<char>, i: int) -> Seq<RosterPosition> {
    if id == "0"@ {
        match spec_position_from_index(i) {
            None => Seq::empty(),
            Some(pos) => seq![pos],
        }
    } else {
        Seq::empty()
    }
}

/// The bye finding, if any, that the starter at index `i` yields: nothing
/// for an unfilled slot, an unreadable team code, a team playing this week,
/// or an index past the slot template. A free agent is always on bye.
pub open spec fn spec_bye_at(op: Option<NflPlayerV>, i: int, current_week: u8) -> Seq<ByeStarterV> {
    match op {
        None => Seq::empty(),
        Some(p) => match spec_parse_team(p.team) {
            None => Seq::empty(),
            Some(team) =>
                if spec_is_on_bye(team, current_week) {
                    match spec_position_from_index(i) {
                        None => Seq::empty(),
                        Some(pos) => seq![ByeStarterV { name: spec_combined_name(p), pos: pos }],
                    }
                } else {
                    Seq::empty()
                },
        },
    }
}

/// Injured findings of the first `n` starters, in index order.
pub open spec fn spec_injured_prefix(s: Seq<Option<NflPlayerV>>, n: int) -> Seq<InjuredStarterV>
    decreases n,
{
    if n <= 0 {
        Seq::empty()
    } else {
        spec_injured_prefix(s, n - 1) + spec_injured_at(s[n - 1], n - 1)
    }
}

/// Injured findings of a resolved starter list, in index order.
pub open spec fn spec_injured_list(s: Seq<Option<NflPlayerV>>) -> Seq<InjuredStarterV> {
    spec_injured_prefix(s, s.len() as int)
}

/// Empty-slot findings of the first `n` starter ids, in index order.
pub open spec fn spec_empty_prefix(ids: Seq<Seq<char>>, n: int) -> Seq<RosterPosition>
    decreases n,
{
    if n <= 0 {
        Seq::empty()
    } else {
        spec_empty_prefix(ids, n - 1) + spec_empty_at(ids[n - 1], n - 1)
    }
}

/// Empty-slot findings of a starter id list, in index order.
pub open spec fn spec_empty_list(ids: Seq<Seq<char>>) -> Seq<RosterPosition> {
    spec_empty_prefix(ids, ids.len() as int)
}

/// Bye findings of the first `n` starters, in index order.
pub open spec fn spec_bye_prefix(s: Seq<Option<NflPlayerV>>, n: int, current_week: u8) -> Seq<
    ByeStarterV,
>
    decreases n,
{
    if n <= 0 {
        Seq::empty()
    } else {
        spec_bye_prefix(s, n - 1, current_week) + spec_bye_at(s[n - 1], n - 1, current_week)
    }
}

/// Bye findings of a resolved starter list, in index order.
pub open spec fn spec_bye_list(s: Seq<Option<NflPlayerV>>, current_week: u8) -> Seq<ByeStarterV> {
    spec_bye_prefix(s, s.len() as int, current_week)
}

/// Each starter id resolved against the player table, index and length
/// kept: a missing id yields `None` at its index, never a shorter list.
pub open spec fn spec_resolve(ids: Seq<Seq<char>>, table: Map<Seq<char>, NflPlayerV>) -> Seq<
    Option<NflPlayerV>,
> {
    Seq::new(ids.len(), |i: int| if table.contains_key(ids[i]) { Some(table[ids[i]]) } else { None })
}

/// One lineup's whole evaluation: its injured, empty-slot and bye findings,
/// each in starter-index order.
pub open spec fn spec_evaluate(
    ids: Seq<Seq<char>>,
    table: Map<Seq<char>, NflPlayerV>,
    current_week: u8,
) -> (Seq<InjuredStarterV>, Seq<RosterPosition>, Seq<ByeStarterV>) {
    (
        spec_injured_list(spec_resolve(ids, table)),
        spec_empty_list(ids),
        spec_bye_list(spec_resolve(ids, table), current_week),
    )
}

/// List the lineup slots whose starter id is the empty sentinel `"0"`,
/// in index order.
pub fn empties_from_starters(starters: &Vec<PlayerId>) -> (r: Vec<EmptySpot>)
    requires
        starters@.len() <= 11,
    ensures
        r.deep_view() == spec_empty_list(starters.deep_view()),
{
    let ghost ids = starters.deep_view();
    let mut result: Vec<RosterPosition> = Vec::new();
    let mut index: usize = 0;
    while index < starters.len()
        invariant
            starters@.len() <= 11,
            index <= starters@.len(),
            ids == starters.deep_view(),
            result.deep_view() == spec_empty_prefix(ids, index as int),
        decreases starters@.len() - index,
    {
        let value: &String = &starters[index];
        proof {
            assert(ids[index as int] == value@);
        }
        if str_eq(value.as_str(), "0") {
            let empty_pos = position_from_index(index).unwrap();
            result.push(empty_pos);
            proof {
                assert(result.deep_view() =~= spec_empty_prefix(ids, index as int)
                    + spec_empty_at(ids[index as int], index as int));
            }
        }
        index += 1;
    }
    result
}

/// List the starters whose injury designation blocks a start, in index
/// order. A slot that resolved to no player, or whose status cannot be
/// read, yields no finding.
pub fn injured_from_starters(starters: &Vec<Option<&NflPlayer>>) -> (r: Vec<InjuredStarter>)
    requires
        starters@.len() <= 11,
    ensures
        r.deep_view() == spec_injured_list(starters.deep_view()),
{
    let ghost s = starters.deep_view();
    let mut result: Vec<InjuredStarter> = Vec::new();
    let mut index: usize = 0;
    while index < starters.len()
        invariant
            starters@.len() <= 11,
            index <= starters@.len(),
            s == starters.deep_view(),
            result.deep_view() == spec_injured_prefix(s, index as int),
        decreases starters@.len() - index,
    {
        let op: Option<&NflPlayer> = starters[index];
        proof {
            assert(s[index as int] == op.deep_view());
        }
        match op {
            Some(player) => match InjuryStatus::from_opt_string(&player.injury_status) {
                Ok(status) => match is_injured(status) {
                    Some(injury) => {
                        let pos = position_from_index(index).unwrap();
                        let name = display_name(player);
                        result.push(InjuredStarter { name, pos, status: injury });
                        proof {
                            assert(result.deep_view() =~= spec_injured_prefix(s, index as int)
                                + spec_injured_at(s[index as int], index as int));
                        }
                    }
                    None => {}
                },
                Err(_) => {}
            },
            None => {}
        }
        index += 1;
    }
    result
}

/// List the starters whose team is on bye for `current_week`, in index
/// order; a starter with no team (a free agent) is always on bye. A slot
/// that resolved to no player, or a team code that cannot be read, yields
/// no finding.
pub fn byes_from_starters(starters: &Vec<Option<&NflPlayer>>, current_week: u8) -> (r: Vec<
    ByeStarter,
>)
    requires
        starters@.len() <= 11,
    ensures
        r.deep_view() == spec_bye_list(starters.deep_view(), current_week),
{
    let ghost s = starters.deep_view();
    let mut result: Vec<ByeStarter> = Vec::new();
    let mut index: usize = 0;
    while index < starters.len()
        invariant
            starters@.len() <= 11,
            index <= starters@.len(),
            s == starters.deep_view(),
            result.deep_view() == spec_bye_prefix(s, index as int, current_week),
        decreases starters@.len() - index,
    {
        let op: Option<&NflPlayer> = starters[index];
        proof {
            assert(s[index as int] == op.deep_view());
        }
        match op {
            Some(player) => match NflTeamAbbrv::new(clone_opt_string(&player.team)) {
                Some(team) => {
                    if team.is_on_bye(current_week) {
                        let pos = position_from_index(index).unwrap();
                        let name = combined_name(player);
                        result.push(ByeStarter { name, pos });
                        proof {
                            assert(result.deep_view() =~= spec_bye_prefix(s, index as int,
                                current_week) + spec_bye_at(s[index as int], index as int,
                                current_week));
                        }
                    }
                }
                None => {}
            },
            None => {}
        }
        index += 1;
    }
    result
}

/// Copy an optional string, keeping the value exactly.
fn clone_opt_string(s: &Option<String>) -> (r: Option<String>)
    ensures
        r == *s,
{
    match s {
        Some(text) => Some(text.clone()),
        None => None,
    }
}

/// Relies on std's `HashMap::get`: it returns the entry whose key holds the
/// same characters as `id` (`String` hashes and compares by its contents),
/// and `None` when the map has no such entry.
#[verifier::external_body]
fn player_for_id<'a>(all_players: &'a HashMap<PlayerId, NflPlayer>, id: &PlayerId) -> (r: Option<
    &'a NflPlayer,
>)
    ensures
        match r {
            Some(p) => all_players.deep_view().contains_key(id@)
                && p.deep_view() == all_players.deep_view()[id@],
            None => !all_players.deep_view().contains_key(id@),
        },
{
    all_players.get(id)
}

/// Evaluate one lineup: resolve every starter id against the player table
/// with index and length kept, then collect the three findings lists.
/// A lineup longer than the 11-slot template cannot be decoded and is
/// rejected whole as a starter-index error; nothing else fails.
pub fn evaluate_roster(
    starters: &Vec<PlayerId>,
    all_players: &HashMap<PlayerId, NflPlayer>,
    current_week: u8,
) -> (r: Result<BadStarters, BotError>)
    ensures
        starters@.len() <= 11 ==> (r matches Ok(b) && b.deep_view() == spec_evaluate(
            starters.deep_view(),
            all_players.deep_view(),
            current_week,
        )),
        starters@.len() > 11 ==> r == Err::<BadStarters, BotError>(BotError::InvalidStarterIndex),
{
    if starters.len() > 11 {
        return Err(BotError::InvalidStarterIndex);
    }
    let ghost ids = starters.deep_view();
    let ghost table = all_players.deep_view();

    let mut resolved: Vec<Option<&NflPlayer>> = Vec::new();
    let mut index: usize = 0;
    while index < starters.len()
        invariant
            starters@.len() <= 11,
            index <= starters@.len(),
            ids == starters.deep_view(),
            table == all_players.deep_view(),
            resolved.deep_view().len() == index as int,
            forall|j: int|
                0 <= j < index ==> resolved.deep_view()[j] == spec_resolve(ids, table)[j],
        decreases starters@.len() - index,
    {
        let id: &String = &starters[index];
        let ghost prev = resolved.deep_view();
        let found = player_for_id(all_players, id);
        resolved.push(found);
        proof {
            assert(ids[index as int] == id@);
            assert(resolved.deep_view() =~= prev.push(found.deep_view()));
            if table.contains_key(id@) {
                assert(found is Some);
            } else {
                assert(found is None);
            }
            assert(found.deep_view() == spec_resolve(ids, table)[index as int]);
        }
        index += 1;
    }
    proof {
        assert(resolved.deep_view() =~= spec_resolve(ids, table));
    }

    let empty_starters: Vec<EmptySpot> = empties_from_starters(starters);
    let injured_starters: Vec<InjuredStarter> = injured_from_starters(&resolved);
    let bye_starters: Vec<ByeStarter> = byes_from_starters(&resolved, current_week);

    Ok((injured_starters, empty_starters, bye_starters))
}

/// The scan of a roster sequence: one `(owner, findings)` entry for every
/// roster whose lineup fits the slot template, in roster order; a roster
/// whose lineup is too long for the template is left out, and never stops
/// the scan.
pub open spec fn spec_scan(
    rosters: Seq<crate::data::RosterV>,
    table: Map<Seq<char>, NflPlayerV>,
    current_week: u8,
) -> Seq<(Seq<char>, (Seq<InjuredStarterV>, Seq<RosterPosition>, Seq<ByeStarterV>))>
    decreases rosters.len(),
{
    if rosters.len() == 0 {
        Seq::empty()
    } else {
        let rest = spec_scan(rosters.drop_last(), table, current_week);
        let r = rosters.last();
        if r.starters.len() <= 11 {
            rest + seq![(r.owner_id, spec_evaluate(r.starters, table, current_week))]
        } else {
            rest
        }
    }
}

/// Check every roster of a league for bad starters, pairing each owner id
/// with that roster's findings, in roster order. A roster whose lineup is
/// longer than the slot template is skipped; the scan itself never fails.
pub fn check_rosters(
    rosters: &Vec<Roster>,
    all_players: &HashMap<PlayerId, NflPlayer>,
    current_week: u8,
) -> (r: Vec<(OwnerId, BadStarters)>)
    ensures
        r.deep_view() == spec_scan(rosters.deep_view(), all_players.deep_view(), current_week),
{
    let ghost rs = rosters.deep_view();
    let ghost table = all_players.deep_view();
    let mut result: Vec<(OwnerId, BadStarters)> = Vec::new();
    let mut index: usize = 0;
    while index < rosters.len()
        invariant
            index <= rosters@.len(),
            rs == rosters.deep_view(),
            table == all_players.deep_view(),
            result.deep_view() == spec_scan(rs.take(index as int), table, current_week),
        decreases rosters@.len() - index,
    {
        let roster: &Roster = &rosters[index];
        proof {
            assert(rs[index as int] == roster.deep_view());
            assert(rs.take(index as int + 1).drop_last() =~= rs.take(index as int));
            assert(rs.take(index as int + 1).last() == rs[index as int]);
        }
        match evaluate_roster(&roster.starters, all_players, current_week) {
            Ok(bad) => {
                let owner: OwnerId = roster.owner_id.clone();
                result.push((owner, bad));
                proof {
                    assert(result.deep_view() =~= spec_scan(rs.take(index as int), table,
                        current_week) + seq![
                        (roster.deep_view().owner_id, spec_evaluate(roster.deep_view().starters,
                        table, current_week))
                    ]);
                }
            }
            Err(_) => {}
        }
        index += 1;
    }
    proof {
        assert(rs.take(rs.len() as int) =~= rs);
    }
    result
}

} // verus!
