use vstd::prelude::*;
use crate::champ::Champ;
use crate::champ_select::ARAMChampSelectState;
use crate::champ_select::ChampSelectView;

verus! {

/// One member of the player's team as the game client reports it.
#[derive(Debug, Clone, Copy, PartialEq, Eq, Structural)]
pub struct TeamMember {
    pub champion_id: u16,
    pub summoner_id: u64,
}

/// What the game client reports of a champion select session.
#[derive(Debug)]
pub struct ChampSelectSession {
    /// Whether the client answered with a status in place of a session.
    pub has_http_status: bool,
    pub bench_champion_ids: Vec<u16>,
    pub my_team: Vec<TeamMember>,
}

/// Why a session gives no champion select state.
#[derive(Debug, Clone, Copy, PartialEq, Eq, Structural)]
pub enum SessionError {
    /// The client is not in champion select.
    NotInChampSelect,
    /// The team does not have exactly five members.
    NotFiveTeamMembers { members: usize },
}

/// Reads champion select states for one player.
#[derive(Debug, Clone, Copy, PartialEq, Eq, Structural)]
pub struct ChampSelectFetcher {
    /// The player's own summoner id.
    pub summoner_id: u64,
}

/// The position of the last of the first `n` members that has the summoner
/// id `summoner_id`; 0 where none has it.
pub open spec fn own_position(team: Seq<TeamMember>, summoner_id: u64, n: int) -> usize
    decreases n,
{
    if n <= 0 {
        0
    } else if team[n - 1].summoner_id == summoner_id {
        (n - 1) as usize
    } else {
        own_position(team, summoner_id, n - 1)
    }
}

/// The champion select state that a session shows to the player
/// `summoner_id`.
pub open spec fn session_state(
    bench: Seq<u16>,
    team: Seq<TeamMember>,
    summoner_id: u64,
) -> Result<ChampSelectView, SessionError> {
    if team.len() != 5 {
        Err(SessionError::NotFiveTeamMembers { members: team.len() as usize })
    } else {
        Ok(
            ChampSelectView {
                your_champ: own_position(team, summoner_id, 5),
                bench: bench.map_values(|id: u16| Champ { id }),
                team_champs: team.map_values(|m: TeamMember| Champ { id: m.champion_id }),
            },
        )
    }
}

impl ChampSelectFetcher {
    /// The champion select state that `session` shows: the bench, the
    /// team's five champions, and the player's own position, which is that
    /// of the last team member with the player's summoner id.
    pub fn get_champ_select_state(&self, session: &ChampSelectSession) -> (r: Result<
        ARAMChampSelectState,
        SessionError,
    >)
        ensures
            session.has_http_status ==> r == Err::<ARAMChampSelectState, SessionError>(
                SessionError::NotInChampSelect,
            ),
            !session.has_http_status ==> match r {
                Ok(state) => session_state(
                    session.bench_champion_ids@,
                    session.my_team@,
                    self.summoner_id,
                ) == Ok::<ChampSelectView, SessionError>(state@),
                Err(e) => session_state(
                    session.bench_champion_ids@,
                    session.my_team@,
                    self.summoner_id,
                ) == Err::<ChampSelectView, SessionError>(e),
            },
    {
        if session.has_http_status {
            return Err(SessionError::NotInChampSelect);
        }
        let team = &session.my_team;
        let mut your_champ: usize = 0;
        let mut count: usize = 0;
        while count < team.len()
            invariant
                count <= team.len(),
                your_champ == own_position(team@, self.summoner_id, count as int),
            decreases team.len() - count,
        {
            if team[count].summoner_id == self.summoner_id {
                your_champ = count;
            }
            count += 1;
        }
        if team.len() != 5 {
            return Err(SessionError::NotFiveTeamMembers { members: team.len() });
        }
        let team_champs: [Champ; 5] = [
            Champ { id: team[0].champion_id },
            Champ { id: team[1].champion_id },
            Champ { id: team[2].champion_id },
            Champ { id: team[3].champion_id },
            Champ { id: team[4].champion_id },
        ];
        let ids = &session.bench_champion_ids;
        let mut bench: Vec<Champ> = Vec::new();
        let mut i: usize = 0;
        while i < ids.len()
            invariant
                i <= ids.len(),
                bench.len() == i,
                forall|j: int| 0 <= j < i ==> bench@[j] == (Champ { id: ids@[j] }),
            decreases ids.len() - i,
        {
            bench.push(Champ { id: ids[i] });
            i += 1;
        }
        let state = ARAMChampSelectState { your_champ, bench, team_champs };
        assert(state@.bench =~= ids@.map_values(|id: u16| Champ { id }));
        assert(state@.team_champs =~= team@.map_values(|m: TeamMember| Champ { id: m.champion_id }));
        Ok(state)
    }
}

} // verus!
