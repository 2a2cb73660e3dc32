//! Alert-message texts for each kind of bad-starter finding.
//!
//! Each builder takes an optional fantasy-team name: without one, the
//! message names the owner plainly; with one, the owner stands after it in
//! parentheses. The exact text of every message is pinned by its contract.

use vstd::prelude::*;
use crate::data::{InjuryStatus, RosterPosition, spec_position_name, spec_status_name};
use vstd::string::StringExecFns;

verus! {

/// The team-name part of a message: the given name, or nothing.
pub open spec fn spec_team_text(team_name: Option<Seq<char>>) -> Seq<char> {
    match team_name {
        Some(t) => t,
        None => Seq::empty(),
    }
}

/// The owner part of a message: the bare username when no team name is
/// shown, the username in parentheses after a team name.
pub open spec fn spec_owner_text(team_name: Option<Seq<char>>, owner: Seq<char>) -> Seq<char> {
    if spec_team_text(team_name).len() == 0 {
        owner
    } else {
        "("@ + owner + ")"@
    }
}

/// The message announcing an injured starter.
pub open spec fn spec_injured_msg(
    team_name: Option<Seq<char>>,
    owner: Seq<char>,
    player: Seq<char>,
    status: InjuryStatus,
    pos: RosterPosition,
) -> Seq<char> {
    "⛔ "@ + spec_team_text(team_name) + " "@ + spec_owner_text(team_name, owner)
        + " is starting "@ + player + " ("@ + spec_status_name(status) + ") at "@
        + spec_position_name(pos) + "! ⛔"@
}

/// The message announcing an empty starting slot.
pub open spec fn spec_empty_msg(
    team_name: Option<Seq<char>>,
    owner: Seq<char>,
    pos: RosterPosition,
) -> Seq<char> {
    "🕳️ "@ + spec_team_text(team_name) + " "@ + spec_owner_text(team_name, owner)
        + " is not starting a player at "@ + spec_position_name(pos) + "! 🕳️"@
}

/// The message announcing a starter on bye.
pub open spec fn spec_bye_msg(
    team_name: Option<Seq<char>>,
    owner: Seq<char>,
    player: Seq<char>,
    pos: RosterPosition,
) -> Seq<char> {
    "💤 "@ + spec_team_text(team_name) + " "@ + spec_owner_text(team_name, owner)
        + " is starting "@ + player + " (on bye) at "@ + spec_position_name(pos) + "! 💤"@
}

/// The team-name text of a message: the name as given, or empty.
fn team_text(team_name: &Option<String>) -> (r: String)
    ensures
        r@ == spec_team_text(team_name.deep_view()),
{
    match team_name {
        Some(t) => t.clone(),
        None => String::new(),
    }
}

/// The owner text of a message: bare, or in parentheses after a team name.
fn owner_text(team: &String, owner: &String) -> (r: String)
    ensures
        team@.len() == 0 ==> r@ == owner@,
        team@.len() != 0 ==> r@ == "("@ + owner@ + ")"@,
{
    if team.as_str().is_empty() {
        owner.clone()
    } else {
        let mut tag = String::from_str("(");
        tag.append(owner.as_str());
        tag.append(")");
        tag
    }
}

/// The formatted message for an owner starting an injured (or otherwise
/// inactive) player at the given position.
pub fn create_injured_msg_string(
    team_name: Option<String>,
    owner_username: &String,
    player_name: &str,
    status: InjuryStatus,
    position: RosterPosition,
) -> (r: String)
    ensures
        r@ == spec_injured_msg(
            team_name.deep_view(),
            owner_username@,
            player_name@,
            status,
            position,
        ),
{
    let team = team_text(&team_name);
    let owner = owner_text(&team, owner_username);
    let status_text = status.name();
    let position_text = position.name();
    let mut msg = String::from_str("⛔ ");
    msg.append(team.as_str());
    msg.append(" ");
    msg.append(owner.as_str());
    msg.append(" is starting ");
    msg.append(player_name);
    msg.append(" (");
    msg.append(status_text.as_str());
    msg.append(") at ");
    msg.append(position_text.as_str());
    msg.append("! ⛔");
    msg
}

/// The formatted message for an owner starting nobody at the given
/// position.
pub fn create_empty_msg_string(
    team_name: Option<String>,
    owner_username: &String,
    position: RosterPosition,
) -> (r: String)
    ensures
        r@ == spec_empty_msg(team_name.deep_view(), owner_username@, position),
{
    let team = team_text(&team_name);
    let owner = owner_text(&team, owner_username);
    let position_text = position.name();
    let mut msg = String::from_str("🕳️ ");
    msg.append(team.as_str());
    msg.append(" ");
    msg.append(owner.as_str());
    msg.append(" is not starting a player at ");
    msg.append(position_text.as_str());
    msg.append("! 🕳️");
    msg
}

/// The formatted message for an owner starting a player who is on bye at
/// the given position.
pub fn create_bye_msg_string(
    team_name: Option<String>,
    owner_username: &String,
    player_name: &str,
    position: RosterPosition,
) -> (r: String)
    ensures
        r@ == spec_bye_msg(team_name.deep_view(), owner_username@, player_name@, position),
{
    let team = team_text(&team_name);
    let owner = owner_text(&team, owner_username);
    let position_text = position.name();
    let mut msg = String::from_str("💤 ");
    msg.append(team.as_str());
    msg.append(" ");
    msg.append(owner.as_str());
    msg.append(" is starting ");
    msg.append(player_name);
    msg.append(" (on bye) at ");
    msg.append(position_text.as_str());
    msg.append("! 💤");
    msg
}

} // verus!
