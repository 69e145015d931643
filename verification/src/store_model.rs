use vstd::prelude::*;
use crate::match_data::MatchRecord;

verus! {

/// A known player: the player's id and when the player was last claimed for
/// polling, as a unix time; 0 for a player never claimed.
pub struct PlayerRecord {
    pub id: Seq<char>,
    pub last_claimed_at: i64,
}

/// The content of a document store: the players and the matches it holds,
/// each in the order in which it came to hold them.
pub struct StoreView {
    pub players: Seq<PlayerRecord>,
    pub matches: Seq<MatchRecord>,
}

/// Whether a player was last claimed before `cutoff`.
pub open spec fn is_due(p: PlayerRecord, cutoff: int) -> bool {
    p.last_claimed_at < cutoff
}

impl StoreView {
    /// The store that holds nothing.
    pub open spec fn empty() -> StoreView {
        StoreView { players: Seq::empty(), matches: Seq::empty() }
    }

    /// The ids of the players held, in order.
    pub open spec fn player_ids(self) -> Seq<Seq<char>> {
        self.players.map_values(|p: PlayerRecord| p.id)
    }

    /// The ids of the matches held, in order.
    pub open spec fn match_ids(self) -> Seq<Seq<char>> {
        self.matches.map_values(|m: MatchRecord| m.match_id)
    }

    /// No two players share an id, and no two matches do.
    pub open spec fn wf(self) -> bool {
        self.player_ids().no_duplicates() && self.match_ids().no_duplicates()
    }

    /// Whether the store holds a player of the id `id`.
    pub open spec fn has_player(self, id: Seq<char>) -> bool {
        self.player_ids().contains(id)
    }

    /// Whether the store holds a match of the id `id`.
    pub open spec fn has_match(self, id: Seq<char>) -> bool {
        self.match_ids().contains(id)
    }

    /// The record of the player `id`; meaningful where the store has that
    /// player.
    pub open spec fn player(self, id: Seq<char>) -> PlayerRecord {
        self.players[self.player_ids().index_of(id)]
    }

    /// The record of the match `id`; meaningful where the store has that
    /// match.
    pub open spec fn stored_match(self, id: Seq<char>) -> MatchRecord {
        self.matches[self.match_ids().index_of(id)]
    }

    /// The store after an insert-if-absent of the player `id`: a player not
    /// yet held is added as never claimed, and a player already held is left
    /// as it is.
    pub open spec fn upsert_player(self, id: Seq<char>) -> StoreView {
        if self.has_player(id) {
            self
        } else {
            StoreView {
                players: self.players.push(PlayerRecord { id, last_claimed_at: 0 }),
                matches: self.matches,
            }
        }
    }

    /// The store after an insert-if-absent of a match: a match whose id is
    /// already held is left as it is.
    pub open spec fn upsert_match(self, record: MatchRecord) -> StoreView {
        if self.has_match(record.match_id) {
            self
        } else {
            StoreView { players: self.players, matches: self.matches.push(record) }
        }
    }

    /// Whether `i` is the position of the first player due at `cutoff`.
    pub open spec fn is_first_due(self, cutoff: int, i: int) -> bool {
        &&& 0 <= i < self.players.len()
        &&& is_due(self.players[i], cutoff)
        &&& forall|j: int| 0 <= j < i ==> !is_due(#[trigger] self.players[j], cutoff)
    }

    /// The position of the first player due at `cutoff`, if any is due.
    pub open spec fn first_due(self, cutoff: int) -> Option<int> {
        if exists|i: int| self.is_first_due(cutoff, i) {
            Some(choose|i: int| self.is_first_due(cutoff, i))
        } else {
            None
        }
    }

    /// The player that a claim at `cutoff` hands out, as it stands before the
    /// claim: the first one due, or none where nobody is due.
    pub open spec fn claimed(self, cutoff: int) -> Option<PlayerRecord> {
        match self.first_due(cutoff) {
            Some(i) => Some(self.players[i]),
            None => None,
        }
    }

    /// The store after a claim at time `now` of the first player due at
    /// `cutoff`: that player's last claim becomes `now`, and nothing else
    /// changes.
    pub open spec fn claim(self, now: i64, cutoff: int) -> StoreView {
        match self.first_due(cutoff) {
            Some(i) => StoreView {
                players: self.players.update(
                    i,
                    PlayerRecord { id: self.players[i].id, last_claimed_at: now },
                ),
                matches: self.matches,
            },
            None => self,
        }
    }
}

/// The first due player of a store is the only position that is one.
pub proof fn lemma_first_due_is(s: StoreView, cutoff: int, i: int)
    requires
        s.is_first_due(cutoff, i),
    ensures
        s.first_due(cutoff) == Some(i),
{
    let k = choose|k: int| s.is_first_due(cutoff, k);
    assert(s.is_first_due(cutoff, k));
    if k < i {
        assert(!is_due(s.players[k], cutoff));
    }
    if i < k {
        assert(!is_due(s.players[i], cutoff));
    }
}

/// Where `first_due` names a position, that position is the first due one.
pub proof fn lemma_first_due_some(s: StoreView, cutoff: int)
    requires
        s.first_due(cutoff) is Some,
    ensures
        s.is_first_due(cutoff, s.first_due(cutoff).unwrap()),
{
}

/// Where no player is due, nothing is claimed and a claim changes nothing.
pub proof fn lemma_nobody_due(s: StoreView, cutoff: int)
    requires
        forall|j: int| 0 <= j < s.players.len() ==> !is_due(#[trigger] s.players[j], cutoff),
    ensures
        s.first_due(cutoff) is None,
        s.claimed(cutoff) is None,
        forall|now: i64| #[trigger] s.claim(now, cutoff) == s,
{
}

/// Where nothing is claimed, no player is due.
pub proof fn lemma_none_claimed(s: StoreView, cutoff: int)
    requires
        s.first_due(cutoff) is None,
    ensures
        forall|j: int| 0 <= j < s.players.len() ==> !is_due(#[trigger] s.players[j], cutoff),
{
    assert forall|j: int| 0 <= j < s.players.len() implies !is_due(
        #[trigger] s.players[j],
        cutoff,
    ) by {
        lemma_not_due_below(s, cutoff, j);
    }
}

proof fn lemma_not_due_below(s: StoreView, cutoff: int, j: int)
    requires
        s.first_due(cutoff) is None,
        0 <= j < s.players.len(),
    ensures
        !is_due(s.players[j], cutoff),
    decreases j,
{
    if is_due(s.players[j], cutoff) {
        assert forall|k: int| 0 <= k < j implies !is_due(#[trigger] s.players[k], cutoff) by {
            lemma_not_due_below(s, cutoff, k);
        }
        assert(s.is_first_due(cutoff, j));
    }
}

/// A claim keeps every player's id in place, so it keeps the store
/// well-formed and deletes nobody.
pub proof fn lemma_claim_keeps_ids(s: StoreView, now: i64, cutoff: int)
    ensures
        s.claim(now, cutoff).player_ids() == s.player_ids(),
        s.claim(now, cutoff).matches == s.matches,
        s.wf() ==> s.claim(now, cutoff).wf(),
{
    assert(s.claim(now, cutoff).player_ids() =~= s.player_ids());
}

/// An insert-if-absent of a player keeps the store well-formed.
pub proof fn lemma_upsert_player_wf(s: StoreView, id: Seq<char>)
    requires
        s.wf(),
    ensures
        s.upsert_player(id).wf(),
        s.upsert_player(id).has_player(id),
{
    if !s.has_player(id) {
        let ids = s.player_ids();
        let after = s.upsert_player(id).player_ids();
        assert(after =~= ids.push(id));
        assert(after[ids.len() as int] == id);
    }
}

/// An insert-if-absent of a match keeps the store well-formed.
pub proof fn lemma_upsert_match_wf(s: StoreView, record: MatchRecord)
    requires
        s.wf(),
    ensures
        s.upsert_match(record).wf(),
        s.upsert_match(record).has_match(record.match_id),
{
    if !s.has_match(record.match_id) {
        let ids = s.match_ids();
        let after = s.upsert_match(record).match_ids();
        assert(after =~= ids.push(record.match_id));
        assert(after[ids.len() as int] == record.match_id);
    }
}

} // verus!
