use vstd::prelude::*;
use crate::clock::get_current_unix_time;
use crate::dedup::fresh_ids;
use crate::dedup::lemma_fresh_ids_known_among_candidates;
use crate::dedup::new_match_ids;
use crate::match_data::ARAMMatchDocument;
use crate::match_data::MatchRecord;
use crate::store_model::PlayerRecord;
use crate::store_model::StoreView;
use crate::store_model::is_due;
use crate::store_model::lemma_claim_keeps_ids;
use crate::store_model::lemma_first_due_is;
use crate::store_model::lemma_nobody_due;
use crate::store_model::lemma_upsert_match_wf;
use crate::store_model::lemma_upsert_player_wf;
use crate::strings::contains_string;
use crate::strings::strings_view;

verus! {

/// A known player and when the player was last claimed for polling.
#[derive(Debug, PartialEq, Eq)]
pub struct SummonerDocument {
    pub puuid: String,
    /// Unix time of the last claim; 0 for a player never claimed.
    pub time_at_last_fetch: i64,
}

impl View for SummonerDocument {
    type V = PlayerRecord;

    open spec fn view(&self) -> PlayerRecord {
        PlayerRecord { id: self.puuid@, last_claimed_at: self.time_at_last_fetch }
    }
}

impl Clone for SummonerDocument {
    fn clone(&self) -> (copy: SummonerDocument)
        ensures
            copy@ == self@,
    {
        SummonerDocument {
            puuid: self.puuid.clone(),
            time_at_last_fetch: self.time_at_last_fetch,
        }
    }
}

/// The mathematical content of an optional player document.
pub open spec fn player_view(doc: Option<SummonerDocument>) -> Option<PlayerRecord> {
    match doc {
        Some(d) => Some(d@),
        None => None,
    }
}

/// The mathematical content of an optional match document.
pub open spec fn match_view(doc: Option<ARAMMatchDocument>) -> Option<MatchRecord> {
    match doc {
        Some(d) => Some(d@),
        None => None,
    }
}

/// An in-memory document store with the operations the crawler relies on:
/// insert-if-absent of players and of matches, a lookup of which match ids
/// are held, and the claim of the next player due for polling.
pub struct DocumentStore {
    summoners: Vec<SummonerDocument>,
    matches: Vec<ARAMMatchDocument>,
}

impl View for DocumentStore {
    type V = StoreView;

    closed spec fn view(&self) -> StoreView {
        StoreView {
            players: self.summoners@.map_values(|d: SummonerDocument| d@),
            matches: self.matches@.map_values(|d: ARAMMatchDocument| d@),
        }
    }
}

impl DocumentStore {
    #[verifier::type_invariant]
    spec fn inv(self) -> bool {
        self@.wf()
    }

    /// A store that holds nothing.
    pub fn new() -> (store: DocumentStore)
        ensures
            store@ == StoreView::empty(),
    {
        let store = DocumentStore { summoners: Vec::new(), matches: Vec::new() };
        assert(store@.players =~= Seq::<PlayerRecord>::empty());
        assert(store@.matches =~= Seq::<MatchRecord>::empty());
        assert(store@.player_ids() =~= Seq::<Seq<char>>::empty());
        assert(store@.match_ids() =~= Seq::<Seq<char>>::empty());
        store
    }

    /// The position of the player `puuid` among the players held.
    fn find_player(&self, puuid: &String) -> (at: Option<usize>)
        ensures
            match at {
                Some(i) => i < self.summoners.len() && self@.player_ids()[i as int] == puuid@,
                None => !self@.has_player(puuid@),
            },
    {
        let mut i: usize = 0;
        while i < self.summoners.len()
            invariant
                i <= self.summoners.len(),
                forall|j: int| 0 <= j < i ==> self@.player_ids()[j] != puuid@,
            decreases self.summoners.len() - i,
        {
            if self.summoners[i].puuid == *puuid {
                return Some(i);
            }
            i += 1;
        }
        None
    }

    /// The position of the match `match_id` among the matches held.
    fn find_match(&self, match_id: &String) -> (at: Option<usize>)
        ensures
            match at {
                Some(i) => i < self.matches.len() && self@.match_ids()[i as int] == match_id@,
                None => !self@.has_match(match_id@),
            },
    {
        let mut i: usize = 0;
        while i < self.matches.len()
            invariant
                i <= self.matches.len(),
                forall|j: int| 0 <= j < i ==> self@.match_ids()[j] != match_id@,
            decreases self.matches.len() - i,
        {
            if self.matches[i].match_id == *match_id {
                return Some(i);
            }
            i += 1;
        }
        None
    }

    /// The document of the player `puuid`, if the store holds that player.
    pub fn player(&self, puuid: &String) -> (doc: Option<SummonerDocument>)
        ensures
            self@.has_player(puuid@) ==> player_view(doc) == Some(self@.player(puuid@)),
            !self@.has_player(puuid@) ==> doc is None,
    {
        proof {
            use_type_invariant(self);
        }
        match self.find_player(puuid) {
            Some(i) => {
                let doc = self.summoners[i].clone();
                assert(self@.player_ids().index_of(puuid@) == i);
                Some(doc)
            },
            None => None,
        }
    }

    /// The document of the match `match_id`, if the store holds that match.
    pub fn stored_match(&self, match_id: &String) -> (doc: Option<ARAMMatchDocument>)
        ensures
            self@.has_match(match_id@) ==> match_view(doc) == Some(self@.stored_match(match_id@)),
            !self@.has_match(match_id@) ==> doc is None,
    {
        proof {
            use_type_invariant(self);
        }
        match self.find_match(match_id) {
            Some(i) => {
                let doc = self.matches[i].clone();
                assert(self@.match_ids().index_of(match_id@) == i);
                Some(doc)
            },
            None => None,
        }
    }

    /// The ids of the matches held that are among `match_ids`, in the order
    /// in which the store holds them.
    pub fn known_match_ids(&self, match_ids: &Vec<String>) -> (known: Vec<String>)
        ensures
            strings_view(known@) == self@.match_ids().filter(among(strings_view(match_ids@))),
    {
        let ghost held = self@.match_ids();
        let ghost wanted = among(strings_view(match_ids@));
        let mut known: Vec<String> = Vec::new();
        let mut i: usize = 0;
        proof {
            held.take(0).lemma_filter_len(wanted);
            assert(strings_view(known@) =~= held.take(0).filter(wanted));
        }
        while i < self.matches.len()
            invariant
                i <= self.matches.len(),
                held == self@.match_ids(),
                wanted == among(strings_view(match_ids@)),
                strings_view(known@) == held.take(i as int).filter(wanted),
            decreases self.matches.len() - i,
        {
            let id = &self.matches[i].match_id;
            let ghost before = strings_view(known@);
            proof {
                held.lemma_take_succ_push(i as int);
                held.take(i as int).lemma_filter_push(id@, wanted);
            }
            if contains_string(match_ids, id) {
                known.push(id.clone());
                assert(strings_view(known@) =~= before.push(id@));
            }
            i += 1;
        }
        proof {
            held.lemma_take_len();
        }
        known
    }
}

/// The test for an id to be one of `candidates`.
pub open spec fn among(candidates: Seq<Seq<char>>) -> spec_fn(Seq<char>) -> bool {
    |id: Seq<char>| candidates.contains(id)
}

/// Registers the player `puuid` as never claimed, unless the store already
/// holds that player: a player already held keeps its last claim.
pub fn insert_summoner_by_puuid(puuid: String, summoner_collection: &mut DocumentStore)
    ensures
        final(summoner_collection)@ == old(summoner_collection)@.upsert_player(puuid@),
{
    proof {
        use_type_invariant(&*summoner_collection);
        lemma_upsert_player_wf(summoner_collection@, puuid@);
    }
    if summoner_collection.find_player(&puuid).is_none() {
        let ghost before = summoner_collection@;
        let mut summoners: Vec<SummonerDocument> = Vec::new();
        std::mem::swap(&mut summoners, &mut summoner_collection.summoners);
        summoners.push(SummonerDocument { puuid, time_at_last_fetch: 0 });
        proof {
            assert(summoners@.map_values(|d: SummonerDocument| d@) =~= before.upsert_player(
                puuid@,
            ).players);
        }
        summoner_collection.summoners = summoners;
    }
}

/// Stores a match, unless the store already holds a match of that id: the
/// match already held is left as it is.
pub fn insert_match_data(match_data: ARAMMatchDocument, match_collection: &mut DocumentStore)
    ensures
        final(match_collection)@ == old(match_collection)@.upsert_match(match_data@),
{
    proof {
        use_type_invariant(&*match_collection);
        lemma_upsert_match_wf(match_collection@, match_data@);
    }
    if match_collection.find_match(&match_data.match_id).is_none() {
        let ghost before = match_collection@;
        let ghost record = match_data@;
        let mut matches: Vec<ARAMMatchDocument> = Vec::new();
        std::mem::swap(&mut matches, &mut match_collection.matches);
        matches.push(match_data);
        proof {
            assert(matches@.map_values(|d: ARAMMatchDocument| d@) =~= before.upsert_match(
                record,
            ).matches);
        }
        match_collection.matches = matches;
    }
}

/// The ids among `match_ids` of which the store holds no match yet, each
/// once, in the order of their first occurrence. With no candidates the
/// store is not consulted.
pub fn filter_match_ids(match_collection: &DocumentStore, match_ids: Vec<String>) -> (fresh: Vec<
    String,
>)
    ensures
        strings_view(fresh@) == fresh_ids(
            strings_view(match_ids@),
            match_collection@.match_ids().to_set(),
        ),
{
    if match_ids.len() == 0 {
        let fresh: Vec<String> = Vec::new();
        assert(strings_view(fresh@) =~= Seq::<Seq<char>>::empty());
        return fresh;
    }
    let old_matches = match_collection.known_match_ids(&match_ids);
    proof {
        let candidates = strings_view(match_ids@);
        let held = match_collection@.match_ids().to_set();
        let found = strings_view(old_matches@).to_set();
        let ids = match_collection@.match_ids();
        assert forall|x: Seq<char>| candidates.contains(x) implies (held.contains(x)
            <==> found.contains(x)) by {
            if ids.contains(x) {
                let k = choose|k: int| 0 <= k < ids.len() && ids[k] == x;
                ids.lemma_filter_contains(among(candidates), k);
            }
            if ids.filter(among(candidates)).contains(x) {
                ids.lemma_filter_contains_rev(among(candidates), x);
            }
        }
        lemma_fresh_ids_known_among_candidates(
            strings_view(match_ids@),
            match_collection@.match_ids().to_set(),
            strings_view(old_matches@).to_set(),
        );
    }
    new_match_ids(&match_ids, &old_matches)
}

/// Why no player could be claimed.
#[derive(Clone, Copy, Debug, PartialEq, Eq, Structural)]
pub enum ClaimError {
    /// The claim is exhausted: every known player was claimed within the
    /// staleness window.
    NoSummoner,
    /// The system clock gave no usable unix time.
    NoClock,
}

/// Claims the next player to poll: the first player held whose last claim
/// lies more than `staleness_threshold` before `now`. The claim sets that
/// player's last claim to `now` in the same step and hands back the player's
/// document as it stood before. `None`, and no change, where nobody is due.
pub fn claim_next(
    summoner_collection: &mut DocumentStore,
    now: i64,
    staleness_threshold: i64,
) -> (claimed: Option<SummonerDocument>)
    ensures
        player_view(claimed) == old(summoner_collection)@.claimed(now - staleness_threshold),
        final(summoner_collection)@ == old(summoner_collection)@.claim(
            now,
            now - staleness_threshold,
        ),
{
    proof {
        use_type_invariant(&*summoner_collection);
        lemma_claim_keeps_ids(summoner_collection@, now, now - staleness_threshold);
    }
    let ghost before = summoner_collection@;
    let ghost cutoff = now - staleness_threshold;
    let mut i: usize = 0;
    while i < summoner_collection.summoners.len()
        invariant
            i <= summoner_collection.summoners.len(),
            summoner_collection@ == before,
            before == old(summoner_collection)@,
            before.wf(),
            before.claim(now, cutoff).wf(),
            cutoff == now - staleness_threshold,
            forall|j: int| 0 <= j < i ==> !is_due(#[trigger] before.players[j], cutoff),
        decreases summoner_collection.summoners.len() - i,
    {
        let last_claim = summoner_collection.summoners[i].time_at_last_fetch;
        if (last_claim as i128) < (now as i128) - (staleness_threshold as i128) {
            proof {
                assert(before.players[i as int] == summoner_collection.summoners@[i as int]@);
                assert(before.is_first_due(cutoff, i as int));
                lemma_first_due_is(before, cutoff, i as int);
            }
            let previous = summoner_collection.summoners[i].clone();
            let claimed = SummonerDocument { puuid: previous.puuid.clone(), time_at_last_fetch: now };
            let mut summoners: Vec<SummonerDocument> = Vec::new();
            std::mem::swap(&mut summoners, &mut summoner_collection.summoners);
            summoners[i] = claimed;
            proof {
                assert(summoners@.map_values(|d: SummonerDocument| d@) =~= before.claim(
                    now,
                    cutoff,
                ).players);
            }
            summoner_collection.summoners = summoners;
            return Some(previous);
        }
        proof {
            assert(before.players[i as int] == summoner_collection.summoners@[i as int]@);
        }
        i += 1;
    }
    proof {
        lemma_nobody_due(before, cutoff);
    }
    None
}

/// Claims the next player to poll at the current time and hands back the
/// player's id. The time is read from the system clock, so the contract says
/// what holds whatever the clock read: the claim is [`claim_next`] at some
/// time that is not negative.
pub fn get_summoner_id(summoner_collection: &mut DocumentStore, time_bound: i64) -> (r: Result<
    String,
    ClaimError,
>)
    ensures
        match r {
            Ok(puuid) => exists|now: i64|
                {
                    &&& now >= 0
                    &&& #[trigger] old(summoner_collection)@.claimed(now - time_bound) matches Some(
                        p,
                    ) && p.id == puuid@
                    &&& final(summoner_collection)@ == old(summoner_collection)@.claim(
                        now,
                        now - time_bound,
                    )
                },
            Err(ClaimError::NoSummoner) => {
                &&& final(summoner_collection)@ == old(summoner_collection)@
                &&& exists|now: i64|
                    now >= 0 && #[trigger] old(summoner_collection)@.claimed(now - time_bound)
                        is None
            },
            Err(ClaimError::NoClock) => final(summoner_collection)@ == old(summoner_collection)@,
        },
{
    match get_current_unix_time() {
        None => Err(ClaimError::NoClock),
        Some(current_time) => {
            match claim_next(summoner_collection, current_time, time_bound) {
                Some(doc) => Ok(doc.puuid),
                None => Err(ClaimError::NoSummoner),
            }
        },
    }
}

} // verus!
