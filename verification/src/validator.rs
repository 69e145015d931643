use vstd::prelude::*;
use crate::match_data::ARAMMatchDocument;
use crate::match_data::MatchRecord;
use crate::match_data::PlayerTeam;
use crate::match_data::ValidationError;
use crate::match_data::ValidationFault;
use crate::match_data::first_fault;
use crate::match_data::is_fault;
use crate::match_data::is_first_fault;
use crate::match_data::match_data_from_roster;
use crate::match_data::match_data_spec;
use crate::match_data::on_side;
use crate::match_data::outcome_view;
use crate::match_data::side_champions;
use crate::match_data::side_size;
use crate::match_data::side_won;
use crate::raw_match::MatchSide;
use crate::raw_match::ParticipantView;
use crate::raw_match::RawMatch;
use crate::raw_match::RawMatchView;
use crate::raw_match::RosterEntryView;
use crate::raw_match::resolve_roster;
use crate::raw_match::resolved_roster;
use crate::strings::strings_view;

verus! {

/// The record that a match validates to, or the reason it is rejected, with
/// every champion name looked up.
pub open spec fn match_data_of(m: RawMatchView) -> Result<MatchRecord, ValidationFault> {
    match_data_spec(m.match_id, m.game_start, resolved_roster(m.participants), m.teams)
}

/// The player ids of a match's participants, in order, where there are
/// exactly ten of them.
pub open spec fn puuids_of(m: RawMatchView) -> Result<Seq<Seq<char>>, ValidationFault> {
    if m.participants.len() == 10 {
        Ok(m.participants.map_values(|p: ParticipantView| p.puuid))
    } else {
        Err(
            ValidationFault::Not10Players {
                game_id: m.game_id,
                players: m.participants.len(),
            },
        )
    }
}

/// What validation yields: the record together with the ten player ids, or
/// the reason the match is rejected.
pub open spec fn validated(m: RawMatchView) -> Result<
    (MatchRecord, Seq<Seq<char>>),
    ValidationFault,
> {
    match match_data_of(m) {
        Ok(record) => Ok((record, m.participants.map_values(|p: ParticipantView| p.puuid))),
        Err(fault) => Err(fault),
    }
}

/// Validates a match and builds its record. Champion names are looked up
/// first; the rest is [`match_data_from_roster`].
pub fn get_match_data_from_match(matc: &RawMatch) -> (r: Result<
    ARAMMatchDocument,
    ValidationError,
>)
    ensures
        outcome_view(r) == match_data_of(matc@),
{
    let roster = resolve_roster(&matc.participants);
    match_data_from_roster(&matc.match_id, matc.game_start, &roster, &matc.teams)
}

/// The player ids of the ten participants of a match, in order; a match with
/// another number of participants is rejected.
pub fn get_puuids_from_match(matc: &RawMatch) -> (r: Result<[String; 10], ValidationError>)
    ensures
        match r {
            Ok(ids) => puuids_of(matc@) == Ok::<Seq<Seq<char>>, ValidationFault>(
                strings_view(ids@),
            ),
            Err(e) => puuids_of(matc@) == Err::<Seq<Seq<char>>, ValidationFault>(e@),
        },
{
    let ps = &matc.participants;
    if ps.len() != 10 {
        return Err(ValidationError::Not10Players { game_id: matc.game_id, players: ps.len() });
    }
    let ids: [String; 10] = [
        ps[0].puuid.clone(),
        ps[1].puuid.clone(),
        ps[2].puuid.clone(),
        ps[3].puuid.clone(),
        ps[4].puuid.clone(),
        ps[5].puuid.clone(),
        ps[6].puuid.clone(),
        ps[7].puuid.clone(),
        ps[8].puuid.clone(),
        ps[9].puuid.clone(),
    ];
    assert(strings_view(ids@) =~= matc@.participants.map_values(|p: ParticipantView| p.puuid));
    Ok(ids)
}

/// In a roster without a faulty entry every entry is on one of the two
/// sides, so the two sides' sizes add up to the roster's length.
pub proof fn lemma_sides_partition(roster: Seq<RosterEntryView>)
    requires
        first_fault(roster) is None,
    ensures
        side_champions(roster, MatchSide::Blue).len() + side_champions(
            roster,
            MatchSide::Red,
        ).len() == roster.len(),
{
    lemma_no_fault_anywhere(roster);
    lemma_sides_count(roster);
}

/// A roster that has no first fault has no faulty entry at all.
pub proof fn lemma_no_fault_anywhere(roster: Seq<RosterEntryView>)
    requires
        first_fault(roster) is None,
    ensures
        forall|j: int| 0 <= j < roster.len() ==> !is_fault(#[trigger] roster[j]),
{
    assert forall|j: int| 0 <= j < roster.len() implies !is_fault(#[trigger] roster[j]) by {
        lemma_fault_below(roster, j);
    }
}

/// A faulty entry at or before `j` would give the roster a first fault.
proof fn lemma_fault_below(roster: Seq<RosterEntryView>, j: int)
    requires
        first_fault(roster) is None,
        0 <= j < roster.len(),
    ensures
        !is_fault(roster[j]),
    decreases j,
{
    if is_fault(roster[j]) {
        assert forall|k: int| 0 <= k < j implies !is_fault(#[trigger] roster[k]) by {
            lemma_fault_below(roster, k);
        }
        assert(is_first_fault(roster, j));
    }
}

/// Where no entry is faulty, the entries on the blue side and those on the
/// red side are all the entries.
proof fn lemma_sides_count(roster: Seq<RosterEntryView>)
    requires
        forall|j: int| 0 <= j < roster.len() ==> !is_fault(#[trigger] roster[j]),
    ensures
        roster.filter(on_side(MatchSide::Blue)).len() + roster.filter(
            on_side(MatchSide::Red),
        ).len() == roster.len(),
    decreases roster.len(),
{
    if roster.len() == 0 {
        assert(roster.filter(on_side(MatchSide::Blue)).len() <= roster.len()) by {
            roster.lemma_filter_len(on_side(MatchSide::Blue));
        }
        assert(roster.filter(on_side(MatchSide::Red)).len() <= roster.len()) by {
            roster.lemma_filter_len(on_side(MatchSide::Red));
        }
    } else {
        let front = roster.drop_last();
        let last = roster.last();
        assert(roster =~= front.push(last));
        assert forall|j: int| 0 <= j < front.len() implies !is_fault(#[trigger] front[j]) by {
            assert(front[j] == roster[j]);
        }
        lemma_sides_count(front);
        front.lemma_filter_push(last, on_side(MatchSide::Blue));
        front.lemma_filter_push(last, on_side(MatchSide::Red));
        assert(!is_fault(roster[roster.len() - 1]));
    }
}

/// Whatever passes validation has exactly ten participants: its player ids
/// can always be listed.
pub proof fn lemma_valid_match_has_ten_players(m: RawMatchView)
    requires
        match_data_of(m) is Ok,
    ensures
        m.participants.len() == 10,
        puuids_of(m) is Ok,
{
    let roster = resolved_roster(m.participants);
    lemma_sides_partition(roster);
}

/// A match without a faulty entry in which a side does not have exactly five
/// participants is rejected, never turned into a record, and the rejection
/// names the side and how many participants it has: the blue side where its
/// size is wrong, else the red side.
pub proof fn lemma_wrong_team_size_is_rejected(m: RawMatchView)
    requires
        first_fault(resolved_roster(m.participants)) is None,
        side_size(resolved_roster(m.participants), MatchSide::Blue) != 5 || side_size(
            resolved_roster(m.participants),
            MatchSide::Red,
        ) != 5,
    ensures
        side_size(resolved_roster(m.participants), MatchSide::Blue) != 5 ==> validated(m) == Err::<
            (MatchRecord, Seq<Seq<char>>),
            ValidationFault,
        >(
            ValidationFault::Not5Players {
                match_id: m.match_id,
                players: side_size(resolved_roster(m.participants), MatchSide::Blue),
                team: PlayerTeam::Blue,
            },
        ),
        side_size(resolved_roster(m.participants), MatchSide::Blue) == 5 ==> validated(m) == Err::<
            (MatchRecord, Seq<Seq<char>>),
            ValidationFault,
        >(
            ValidationFault::Not5Players {
                match_id: m.match_id,
                players: side_size(resolved_roster(m.participants), MatchSide::Red),
                team: PlayerTeam::Red,
            },
        ),
{
}

/// A match without a faulty entry and with five participants a side in
/// which neither side or both sides are marked as the winner is rejected
/// for want of a winner.
pub proof fn lemma_undecided_match_is_rejected(m: RawMatchView)
    requires
        first_fault(resolved_roster(m.participants)) is None,
        side_size(resolved_roster(m.participants), MatchSide::Blue) == 5,
        side_size(resolved_roster(m.participants), MatchSide::Red) == 5,
        side_won(m.teams, MatchSide::Blue) == side_won(m.teams, MatchSide::Red),
    ensures
        validated(m) == Err::<(MatchRecord, Seq<Seq<char>>), ValidationFault>(
            ValidationFault::NoWinner { match_id: m.match_id },
        ),
{
}

/// A record that validation yields has five champions a side, carries the
/// match's id and start time, says that blue won exactly where blue is the
/// one side marked as the winner, and comes with ten player ids.
pub proof fn lemma_valid_record_shape(m: RawMatchView)
    requires
        validated(m) is Ok,
    ensures
        ({
            let (record, ids) = validated(m)->Ok_0;
            &&& record.blue_team.len() == 5
            &&& record.red_team.len() == 5
            &&& record.match_id == m.match_id
            &&& record.started_at == m.game_start
            &&& record.blue_won == side_won(m.teams, MatchSide::Blue)
            &&& record.blue_won != side_won(m.teams, MatchSide::Red)
            &&& ids.len() == 10
        }),
{
    lemma_valid_match_has_ten_players(m);
}

/// Validates a match: the record and the ten player ids, or the first
/// reason to reject it.
pub fn validate(matc: &RawMatch) -> (r: Result<(ARAMMatchDocument, [String; 10]), ValidationError>)
    ensures
        match r {
            Ok((doc, ids)) => validated(matc@) == Ok::<
                (MatchRecord, Seq<Seq<char>>),
                ValidationFault,
            >((doc@, strings_view(ids@))),
            Err(e) => validated(matc@) == Err::<(MatchRecord, Seq<Seq<char>>), ValidationFault>(
                e@,
            ),
        },
{
    match get_match_data_from_match(matc) {
        Err(e) => Err(e),
        Ok(doc) => {
            proof {
                lemma_valid_match_has_ten_players(matc@);
            }
            match get_puuids_from_match(matc) {
                Ok(ids) => Ok((doc, ids)),
                Err(e) => Err(e),
            }
        },
    }
}

} // verus!
