use vstd::prelude::*;
use crate::raw_match::MatchSide;
use crate::raw_match::RawTeam;
use crate::raw_match::RosterEntry;
use crate::raw_match::RosterEntryView;
use crate::raw_match::roster_view;

verus! {

/// One of the two sides that play a match.
#[derive(Clone, Copy, Debug, PartialEq, Eq, Structural)]
pub enum PlayerTeam {
    Blue,
    Red,
}

/// A validated match: five champions a side, and which side won.
#[derive(Debug, PartialEq, Eq, Hash)]
pub struct ARAMMatchDocument {
    /// The blue side's champions, in the order of the participant list.
    pub blue_champs: [i32; 5],
    /// The red side's champions, in the order of the participant list.
    pub red_champs: [i32; 5],
    pub blue_win: bool,
    pub match_id: String,
    pub game_start: i64,
}

/// The mathematical content of an [`ARAMMatchDocument`].
pub struct MatchRecord {
    pub match_id: Seq<char>,
    pub blue_team: Seq<i32>,
    pub red_team: Seq<i32>,
    pub blue_won: bool,
    pub started_at: i64,
}

impl View for ARAMMatchDocument {
    type V = MatchRecord;

    open spec fn view(&self) -> MatchRecord {
        MatchRecord {
            match_id: self.match_id@,
            blue_team: self.blue_champs@,
            red_team: self.red_champs@,
            blue_won: self.blue_win,
            started_at: self.game_start,
        }
    }
}

impl Clone for ARAMMatchDocument {
    fn clone(&self) -> (copy: ARAMMatchDocument)
        ensures
            copy@ == self@,
    {
        ARAMMatchDocument {
            blue_champs: self.blue_champs,
            red_champs: self.red_champs,
            blue_win: self.blue_win,
            match_id: self.match_id.clone(),
            game_start: self.game_start,
        }
    }
}

/// Why a match was rejected.
#[derive(Clone, Debug, PartialEq, Eq)]
pub enum ValidationError {
    /// A roster error: a participant is on neither of the two sides.
    MonsterParticipant { match_id: String, summoner_name: String },
    /// A roster error of another kind: a participant's champion name names
    /// no champion.
    UnknownChampion { match_id: String, summoner_name: String },
    /// A team size error: `team` has `players` participants, not five.
    Not5Players { match_id: String, players: usize, team: PlayerTeam },
    /// Not exactly one side is marked as the winner.
    NoWinner { match_id: String },
    /// A participant count error: the match has `players` participants, not
    /// ten.
    Not10Players { game_id: i64, players: usize },
}

/// The mathematical content of a [`ValidationError`].
pub enum ValidationFault {
    MonsterParticipant { match_id: Seq<char>, summoner_name: Seq<char> },
    UnknownChampion { match_id: Seq<char>, summoner_name: Seq<char> },
    Not5Players { match_id: Seq<char>, players: nat, team: PlayerTeam },
    NoWinner { match_id: Seq<char> },
    Not10Players { game_id: i64, players: nat },
}

impl View for ValidationError {
    type V = ValidationFault;

    open spec fn view(&self) -> ValidationFault {
        match *self {
            ValidationError::MonsterParticipant { match_id, summoner_name } => {
                ValidationFault::MonsterParticipant {
                    match_id: match_id@,
                    summoner_name: summoner_name@,
                }
            },
            ValidationError::UnknownChampion { match_id, summoner_name } => {
                ValidationFault::UnknownChampion {
                    match_id: match_id@,
                    summoner_name: summoner_name@,
                }
            },
            ValidationError::Not5Players { match_id, players, team } => {
                ValidationFault::Not5Players { match_id: match_id@, players: players as nat, team }
            },
            ValidationError::NoWinner { match_id } => {
                ValidationFault::NoWinner { match_id: match_id@ }
            },
            ValidationError::Not10Players { game_id, players } => {
                ValidationFault::Not10Players { game_id, players: players as nat }
            },
        }
    }
}

/// Whether an entry alone makes its match invalid: it is on neither side, or
/// its champion is unknown.
pub open spec fn is_fault(e: RosterEntryView) -> bool {
    e.team == MatchSide::Other || e.champion is None
}

/// Whether `i` is the position of the first faulty entry of `roster`.
pub open spec fn is_first_fault(roster: Seq<RosterEntryView>, i: int) -> bool {
    &&& 0 <= i < roster.len()
    &&& is_fault(roster[i])
    &&& forall|j: int| 0 <= j < i ==> !is_fault(#[trigger] roster[j])
}

/// The position of the first faulty entry of `roster`, if it has one.
pub open spec fn first_fault(roster: Seq<RosterEntryView>) -> Option<int> {
    if exists|i: int| is_first_fault(roster, i) {
        Some(choose|i: int| is_first_fault(roster, i))
    } else {
        None
    }
}

/// The test for an entry to be on `side`.
pub open spec fn on_side(side: MatchSide) -> spec_fn(RosterEntryView) -> bool {
    |e: RosterEntryView| e.team == side
}

/// The champion id of an entry; meaningful for an entry whose champion is known.
pub open spec fn champion_of() -> spec_fn(RosterEntryView) -> i32 {
    |e: RosterEntryView| e.champion.unwrap()
}

/// The champions of the entries on `side`, in roster order.
pub open spec fn side_champions(roster: Seq<RosterEntryView>, side: MatchSide) -> Seq<i32> {
    roster.filter(on_side(side)).map_values(champion_of())
}

/// How many entries of `roster` are on `side`.
pub open spec fn side_size(roster: Seq<RosterEntryView>, side: MatchSide) -> nat {
    roster.filter(on_side(side)).len()
}

/// The test for a team entry to belong to `side`.
pub open spec fn team_of(side: MatchSide) -> spec_fn(RawTeam) -> bool {
    |t: RawTeam| t.team == side
}

/// Whether `side` is marked as the winner: the flag of the last team entry
/// for that side, and `false` where the side has no entry.
pub open spec fn side_won(teams: Seq<RawTeam>, side: MatchSide) -> bool {
    let entries = teams.filter(team_of(side));
    entries.len() > 0 && entries.last().win
}

/// What validation makes of a match: the record, or the first reason to
/// reject it. A faulty entry is reported before a wrong team size, the blue
/// side's size before the red side's, and a wrong size before a missing
/// winner.
pub open spec fn match_data_spec(
    match_id: Seq<char>,
    game_start: i64,
    roster: Seq<RosterEntryView>,
    teams: Seq<RawTeam>,
) -> Result<MatchRecord, ValidationFault> {
    let blue = side_champions(roster, MatchSide::Blue);
    let red = side_champions(roster, MatchSide::Red);
    let blue_won = side_won(teams, MatchSide::Blue);
    let red_won = side_won(teams, MatchSide::Red);
    match first_fault(roster) {
        Some(i) => {
            if roster[i].team == MatchSide::Other {
                Err(
                    ValidationFault::MonsterParticipant {
                        match_id,
                        summoner_name: roster[i].summoner_name,
                    },
                )
            } else {
                Err(
                    ValidationFault::UnknownChampion {
                        match_id,
                        summoner_name: roster[i].summoner_name,
                    },
                )
            }
        },
        None => {
            if blue.len() != 5 {
                Err(
                    ValidationFault::Not5Players {
                        match_id,
                        players: blue.len(),
                        team: PlayerTeam::Blue,
                    },
                )
            } else if red.len() != 5 {
                Err(
                    ValidationFault::Not5Players {
                        match_id,
                        players: red.len(),
                        team: PlayerTeam::Red,
                    },
                )
            } else if blue_won == red_won {
                Err(ValidationFault::NoWinner { match_id })
            } else {
                Ok(
                    MatchRecord {
                        match_id,
                        blue_team: blue,
                        red_team: red,
                        blue_won,
                        started_at: game_start,
                    },
                )
            }
        },
    }
}

/// The mathematical content of a validation result.
pub open spec fn outcome_view(r: Result<ARAMMatchDocument, ValidationError>) -> Result<
    MatchRecord,
    ValidationFault,
> {
    match r {
        Ok(doc) => Ok(doc@),
        Err(e) => Err(e@),
    }
}

/// The first faulty entry of a roster is the only position that is one.
pub proof fn lemma_first_fault_is(roster: Seq<RosterEntryView>, i: int)
    requires
        is_first_fault(roster, i),
    ensures
        first_fault(roster) == Some(i),
{
    let k = choose|k: int| is_first_fault(roster, k);
    assert(is_first_fault(roster, k));
    if k < i {
        assert(!is_fault(roster[k]));
    }
    if i < k {
        assert(!is_fault(roster[i]));
    }
}

/// A roster none of whose entries is faulty has no first fault.
pub proof fn lemma_no_fault(roster: Seq<RosterEntryView>)
    requires
        forall|j: int| 0 <= j < roster.len() ==> !is_fault(#[trigger] roster[j]),
    ensures
        first_fault(roster) is None,
{
}

/// Whether the last team entry for `side` marks it as the winner.
fn winner_flag(teams: &Vec<RawTeam>, side: MatchSide) -> (won: bool)
    ensures
        won == side_won(teams@, side),
{
    let mut won = false;
    let mut i: usize = 0;
    while i < teams.len()
        invariant
            i <= teams.len(),
            won == side_won(teams@.take(i as int), side),
        decreases teams.len() - i,
    {
        proof {
            teams@.lemma_take_succ_push(i as int);
            teams@.take(i as int).lemma_filter_push(teams@[i as int], team_of(side));
        }
        if teams[i].team == side {
            won = teams[i].win;
        }
        i += 1;
    }
    proof {
        teams@.lemma_take_len();
    }
    won
}

/// Validates a match whose champions have been looked up: partitions the
/// roster by side, checks both team sizes and the winner, and builds the
/// record with each side's champions in roster order.
pub fn match_data_from_roster(
    match_id: &String,
    game_start: i64,
    roster: &Vec<RosterEntry>,
    teams: &Vec<RawTeam>,
) -> (r: Result<ARAMMatchDocument, ValidationError>)
    ensures
        outcome_view(r) == match_data_spec(match_id@, game_start, roster_view(roster@), teams@),
{
    let ghost rv = roster_view(roster@);
    let mut blue: Vec<i32> = Vec::new();
    let mut red: Vec<i32> = Vec::new();
    let mut i: usize = 0;
    while i < roster.len()
        invariant
            i <= roster.len(),
            rv == roster_view(roster@),
            forall|j: int| 0 <= j < i ==> !is_fault(#[trigger] rv[j]),
            blue@ == side_champions(rv.take(i as int), MatchSide::Blue),
            red@ == side_champions(rv.take(i as int), MatchSide::Red),
        decreases roster.len() - i,
    {
        let entry = &roster[i];
        proof {
            assert(rv[i as int] == entry@);
            rv.lemma_take_succ_push(i as int);
            let prefix = rv.take(i as int);
            prefix.lemma_filter_push(entry@, on_side(MatchSide::Blue));
            prefix.lemma_filter_push(entry@, on_side(MatchSide::Red));
            prefix.filter(on_side(MatchSide::Blue)).lemma_push_map_commute(
                champion_of(),
                entry@,
            );
            prefix.filter(on_side(MatchSide::Red)).lemma_push_map_commute(champion_of(), entry@);
        }
        match entry.team {
            MatchSide::Blue => {
                match entry.champion {
                    Some(c) => blue.push(c),
                    None => {
                        proof {
                            lemma_first_fault_is(rv, i as int);
                        }
                        return Err(
                            ValidationError::UnknownChampion {
                                match_id: match_id.clone(),
                                summoner_name: entry.summoner_name.clone(),
                            },
                        );
                    },
                }
            },
            MatchSide::Red => {
                match entry.champion {
                    Some(c) => red.push(c),
                    None => {
                        proof {
                            lemma_first_fault_is(rv, i as int);
                        }
                        return Err(
                            ValidationError::UnknownChampion {
                                match_id: match_id.clone(),
                                summoner_name: entry.summoner_name.clone(),
                            },
                        );
                    },
                }
            },
            MatchSide::Other => {
                proof {
                    lemma_first_fault_is(rv, i as int);
                }
                return Err(
                    ValidationError::MonsterParticipant {
                        match_id: match_id.clone(),
                        summoner_name: entry.summoner_name.clone(),
                    },
                );
            },
        }
        i += 1;
    }
    proof {
        rv.lemma_take_len();
        lemma_no_fault(rv);
    }
    if blue.len() != 5 {
        return Err(
            ValidationError::Not5Players {
                match_id: match_id.clone(),
                players: blue.len(),
                team: PlayerTeam::Blue,
            },
        );
    }
    if red.len() != 5 {
        return Err(
            ValidationError::Not5Players {
                match_id: match_id.clone(),
                players: red.len(),
                team: PlayerTeam::Red,
            },
        );
    }
    let blue_win = winner_flag(teams, MatchSide::Blue);
    let red_win = winner_flag(teams, MatchSide::Red);
    if blue_win == red_win {
        return Err(ValidationError::NoWinner { match_id: match_id.clone() });
    }
    let blue_champs: [i32; 5] = [blue[0], blue[1], blue[2], blue[3], blue[4]];
    let red_champs: [i32; 5] = [red[0], red[1], red[2], red[3], red[4]];
    assert(blue_champs@ =~= blue@);
    assert(red_champs@ =~= red@);
    Ok(
        ARAMMatchDocument {
            blue_champs,
            red_champs,
            blue_win,
            match_id: match_id.clone(),
            game_start,
        },
    )
}

} // verus!
