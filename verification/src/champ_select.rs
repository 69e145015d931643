use vstd::prelude::*;
use crate::champ::Champ;

verus! {

/// What a player sees during champion select: the own team's five
/// champions, which of them is the player's, and the bench.
#[derive(Debug, PartialEq, Eq)]
pub struct ARAMChampSelectState {
    /// The position of the player's champion in `team_champs`.
    pub your_champ: usize,
    pub bench: Vec<Champ>,
    pub team_champs: [Champ; 5],
}

/// The mathematical content of an [`ARAMChampSelectState`].
pub struct ChampSelectView {
    pub your_champ: usize,
    pub bench: Seq<Champ>,
    pub team_champs: Seq<Champ>,
}

impl View for ARAMChampSelectState {
    type V = ChampSelectView;

    open spec fn view(&self) -> ChampSelectView {
        ChampSelectView {
            your_champ: self.your_champ,
            bench: self.bench@,
            team_champs: self.team_champs@,
        }
    }
}

impl ChampSelectView {
    /// The state before anything is known: five times champion 0, the first
    /// of them the player's, and an empty bench.
    pub open spec fn initial() -> ChampSelectView {
        ChampSelectView {
            your_champ: 0,
            bench: Seq::empty(),
            team_champs: Seq::new(5, |i: int| Champ { id: 0 }),
        }
    }

    /// The champions the player can end up with: the current one, then the
    /// bench in order.
    pub open spec fn choices(self) -> Seq<Champ> {
        seq![self.team_champs[self.your_champ as int]] + self.bench
    }

    /// The team as it would be with each choice in turn as the player's
    /// champion.
    pub open spec fn choice_teams(self) -> Seq<Seq<Champ>> {
        self.choices().map_values(
            |choice: Champ| self.team_champs.update(self.your_champ as int, choice),
        )
    }

    /// The state with `champ` put at the end of the bench.
    pub open spec fn add_bench(self, champ: Champ) -> ChampSelectView {
        ChampSelectView { bench: self.bench.push(champ), ..self }
    }

    /// The state with the bench champion at `index` taken off; the same
    /// state for an index beyond the bench.
    pub open spec fn remove_bench(self, index: usize) -> ChampSelectView {
        if index < self.bench.len() {
            ChampSelectView { bench: self.bench.remove(index as int), ..self }
        } else {
            self
        }
    }

    /// The state with the bench champion at `index` replaced by `champ`; the
    /// same state for an index beyond the bench.
    pub open spec fn swap_bench(self, index: usize, champ: Champ) -> ChampSelectView {
        if index < self.bench.len() {
            ChampSelectView { bench: self.bench.update(index as int, champ), ..self }
        } else {
            self
        }
    }

    /// The state with the team's champion at `index` replaced by `champ`;
    /// the same state for an index beyond the team.
    pub open spec fn swap_team(self, index: usize, champ: Champ) -> ChampSelectView {
        if index < self.team_champs.len() {
            ChampSelectView { team_champs: self.team_champs.update(index as int, champ), ..self }
        } else {
            self
        }
    }
}

impl Default for ARAMChampSelectState {
    fn default() -> (state: ARAMChampSelectState)
        ensures
            state@ == ChampSelectView::initial(),
    {
        let none = Champ { id: 0 };
        let state = ARAMChampSelectState {
            your_champ: 0,
            bench: Vec::new(),
            team_champs: [none, none, none, none, none],
        };
        assert(state.team_champs@ =~= Seq::new(5, |i: int| Champ { id: 0 }));
        state
    }
}

impl Clone for ARAMChampSelectState {
    fn clone(&self) -> (copy: ARAMChampSelectState)
        ensures
            copy@ == self@,
    {
        ARAMChampSelectState {
            your_champ: self.your_champ,
            bench: self.bench.clone(),
            team_champs: self.team_champs,
        }
    }
}

impl ARAMChampSelectState {
    /// The champions the player can end up with: the current one, then the
    /// bench in order.
    pub fn choices(&self) -> (ret: Vec<Champ>)
        requires
            self.your_champ < 5,
        ensures
            ret@ == self@.choices(),
    {
        let mut ret: Vec<Champ> = Vec::new();
        ret.push(self.team_champs[self.your_champ]);
        let mut i: usize = 0;
        while i < self.bench.len()
            invariant
                i <= self.bench.len(),
                self.your_champ < 5,
                ret@ == seq![self.team_champs@[self.your_champ as int]] + self.bench@.take(
                    i as int,
                ),
            decreases self.bench.len() - i,
        {
            ret.push(self.bench[i]);
            i += 1;
        }
        assert(self.bench@.take(self.bench.len() as int) =~= self.bench@);
        ret
    }

    /// The teams to rate: for each choice, the team with that choice as the
    /// player's champion.
    pub fn choice_teams(&self) -> (teams: Vec<[Champ; 5]>)
        requires
            self.your_champ < 5,
        ensures
            teams@.map_values(|team: [Champ; 5]| team@) == self@.choice_teams(),
    {
        let choices = self.choices();
        let mut teams: Vec<[Champ; 5]> = Vec::new();
        let mut i: usize = 0;
        while i < choices.len()
            invariant
                i <= choices.len(),
                self.your_champ < 5,
                teams.len() == i,
                forall|j: int|
                    0 <= j < i ==> (#[trigger] teams@[j])@ == self.team_champs@.update(
                        self.your_champ as int,
                        choices@[j],
                    ),
            decreases choices.len() - i,
        {
            let mut team = self.team_champs;
            team[self.your_champ] = choices[i];
            teams.push(team);
            i += 1;
        }
        assert(teams@.map_values(|team: [Champ; 5]| team@) =~= self@.choice_teams());
        teams
    }

    /// Puts `champ` at the end of the bench.
    pub fn add_bench(&mut self, champ: Champ)
        ensures
            final(self)@ == old(self)@.add_bench(champ),
    {
        self.bench.push(champ);
    }

    /// Takes the champion at `index` off the bench; an index beyond the
    /// bench changes nothing.
    pub fn remove_bench(&mut self, index: usize)
        ensures
            final(self)@ == old(self)@.remove_bench(index),
    {
        if index < self.bench.len() {
            self.bench.remove(index);
        }
    }

    /// Replaces the bench champion at `index` by `champ`; an index beyond
    /// the bench changes nothing.
    pub fn swap_bench(&mut self, index: usize, champ: Champ)
        ensures
            final(self)@ == old(self)@.swap_bench(index, champ),
    {
        if index < self.bench.len() {
            self.bench[index] = champ;
        }
    }

    /// Replaces the team's champion at `index` by `champ`; an index beyond
    /// the team changes nothing.
    pub fn swap_team(&mut self, index: usize, champ: Champ)
        ensures
            final(self)@ == old(self)@.swap_team(index, champ),
    {
        if index < self.team_champs.len() {
            self.team_champs[index] = champ;
        }
    }
}

} // verus!
