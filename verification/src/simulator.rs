use vstd::prelude::*;
use crate::champ::Champ;
use crate::champ_select::ARAMChampSelectState;
use crate::champ_select::ChampSelectView;

verus! {

/// One command of the champion select simulator.
#[derive(Debug, Clone, Copy)]
pub enum Commands {
    /// Put a champion on the bench.
    AddBench { champ: Champ },
    /// Take the last champion off the bench.
    RmBench,
    /// Make `champ` the player's champion.
    YourChamp { champ: Champ },
    /// Put `champ` at position `pos` of the team.
    TeamChamps { pos: usize, champ: Champ },
    /// Show the state.
    Print,
}

/// The state after a simulator command.
pub open spec fn simulated(state: ChampSelectView, command: Commands) -> ChampSelectView {
    match command {
        Commands::AddBench { champ } => state.add_bench(champ),
        Commands::RmBench => ChampSelectView {
            bench: if state.bench.len() > 0 {
                state.bench.drop_last()
            } else {
                state.bench
            },
            ..state
        },
        Commands::YourChamp { champ } => state.swap_team(state.your_champ, champ),
        Commands::TeamChamps { pos, champ } => state.swap_team(pos, champ),
        Commands::Print => state,
    }
}

/// A stand-in for the game client: it holds a champion select state that
/// simulator commands change, and hands that state out on request.
#[derive(Debug)]
pub struct FakeChampSelectFetcher {
    pub state: ARAMChampSelectState,
}

impl FakeChampSelectFetcher {
    /// A fetcher in the initial champion select state.
    pub fn new() -> (fetcher: FakeChampSelectFetcher)
        ensures
            fetcher.state@ == ChampSelectView::initial(),
    {
        FakeChampSelectFetcher { state: ARAMChampSelectState::default() }
    }

    /// The current champion select state.
    pub fn get_champ_select_state(&self) -> (state: ARAMChampSelectState)
        ensures
            state@ == self.state@,
    {
        self.state.clone()
    }

    /// Carries out one command. `Print` changes nothing and hands back the
    /// state to show; every other command hands back nothing.
    pub fn simulator(&mut self, command: Commands) -> (shown: Option<ARAMChampSelectState>)
        requires
            command matches Commands::TeamChamps { pos, .. } ==> pos < 5,
        ensures
            final(self).state@ == simulated(old(self).state@, command),
            match shown {
                Some(state) => command is Print && state@ == old(self).state@,
                None => !(command is Print),
            },
    {
        match command {
            Commands::AddBench { champ } => {
                self.state.add_bench(champ);
                None
            },
            Commands::RmBench => {
                self.state.bench.pop();
                None
            },
            Commands::YourChamp { champ } => {
                let at = self.state.your_champ;
                self.state.swap_team(at, champ);
                None
            },
            Commands::TeamChamps { pos, champ } => {
                self.state.swap_team(pos, champ);
                None
            },
            Commands::Print => Some(self.state.clone()),
        }
    }
}

} // verus!
