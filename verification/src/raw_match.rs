use vstd::prelude::*;
use crate::champion::champion_id;
use crate::champion::champion_id_of_name;

verus! {

/// The side a participant or a team entry is reported on.
#[derive(Clone, Copy, Debug, PartialEq, Eq, Structural)]
pub enum MatchSide {
    Blue,
    Red,
    /// Any side other than the two that play a match.
    Other,
}

/// One participant as the match service reports it.
#[derive(Clone, Debug)]
pub struct RawParticipant {
    pub team: MatchSide,
    pub champion_name: String,
    pub summoner_name: String,
    pub puuid: String,
}

/// The mathematical content of a [`RawParticipant`].
pub struct ParticipantView {
    pub team: MatchSide,
    pub champion_name: Seq<char>,
    pub summoner_name: Seq<char>,
    pub puuid: Seq<char>,
}

impl View for RawParticipant {
    type V = ParticipantView;

    open spec fn view(&self) -> ParticipantView {
        ParticipantView {
            team: self.team,
            champion_name: self.champion_name@,
            summoner_name: self.summoner_name@,
            puuid: self.puuid@,
        }
    }
}

/// One team entry of a match: a side and whether it is marked as the winner.
#[derive(Clone, Copy, Debug, PartialEq, Eq, Structural)]
pub struct RawTeam {
    pub team: MatchSide,
    pub win: bool,
}

/// A match as the match service reports it, reduced to what validation reads.
#[derive(Clone, Debug)]
pub struct RawMatch {
    pub match_id: String,
    pub game_id: i64,
    /// When the game started, as a unix timestamp.
    pub game_start: i64,
    pub participants: Vec<RawParticipant>,
    pub teams: Vec<RawTeam>,
}

/// The mathematical content of a [`RawMatch`].
pub struct RawMatchView {
    pub match_id: Seq<char>,
    pub game_id: i64,
    pub game_start: i64,
    pub participants: Seq<ParticipantView>,
    pub teams: Seq<RawTeam>,
}

impl View for RawMatch {
    type V = RawMatchView;

    open spec fn view(&self) -> RawMatchView {
        RawMatchView {
            match_id: self.match_id@,
            game_id: self.game_id,
            game_start: self.game_start,
            participants: participants_view(self.participants@),
            teams: self.teams@,
        }
    }
}

/// A participant whose champion name has been looked up.
#[derive(Clone, Debug)]
pub struct RosterEntry {
    pub team: MatchSide,
    /// The champion's id, or `None` where the name names no champion.
    pub champion: Option<i32>,
    pub summoner_name: String,
}

/// The mathematical content of a [`RosterEntry`].
pub struct RosterEntryView {
    pub team: MatchSide,
    pub champion: Option<i32>,
    pub summoner_name: Seq<char>,
}

impl View for RosterEntry {
    type V = RosterEntryView;

    open spec fn view(&self) -> RosterEntryView {
        RosterEntryView {
            team: self.team,
            champion: self.champion,
            summoner_name: self.summoner_name@,
        }
    }
}

/// The roster entry that a participant resolves to.
pub open spec fn resolved(p: ParticipantView) -> RosterEntryView {
    RosterEntryView {
        team: p.team,
        champion: champion_id_of_name(p.champion_name),
        summoner_name: p.summoner_name,
    }
}

/// The views of a vector of participants, in order.
pub open spec fn participants_view(ps: Seq<RawParticipant>) -> Seq<ParticipantView> {
    ps.map_values(|p: RawParticipant| p@)
}

/// The views of a roster, in order.
pub open spec fn roster_view(roster: Seq<RosterEntry>) -> Seq<RosterEntryView> {
    roster.map_values(|e: RosterEntry| e@)
}

/// The roster that a sequence of participants resolves to, entry by entry.
pub open spec fn resolved_roster(ps: Seq<ParticipantView>) -> Seq<RosterEntryView> {
    ps.map_values(|p: ParticipantView| resolved(p))
}

/// Looks up the champion of every participant, keeping the order.
pub fn resolve_roster(participants: &Vec<RawParticipant>) -> (roster: Vec<RosterEntry>)
    ensures
        roster_view(roster@) == resolved_roster(participants_view(participants@)),
{
    let mut roster: Vec<RosterEntry> = Vec::new();
    let mut i: usize = 0;
    while i < participants.len()
        invariant
            i <= participants.len(),
            roster.len() == i,
            forall|j: int| 0 <= j < i ==> (#[trigger] roster@[j])@ == resolved(participants@[j]@),
        decreases participants.len() - i,
    {
        let p = &participants[i];
        let entry = RosterEntry {
            team: p.team,
            champion: champion_id(p.champion_name.as_str()),
            summoner_name: p.summoner_name.clone(),
        };
        roster.push(entry);
        i += 1;
    }
    assert(roster_view(roster@) =~= resolved_roster(participants_view(participants@)));
    roster
}

} // verus!
