use vstd::prelude::*;
use crate::dedup::fresh_ids;
use crate::dedup::lemma_fresh_ids_are_the_difference;
use crate::match_data::MatchRecord;
use crate::match_data::ValidationFault;
use crate::raw_match::RawMatchView;
use crate::validator::lemma_valid_record_shape;
use crate::validator::validated;

verus! {

/// The queue id of 5v5 ARAM games on the Howling Abyss.
pub const ARAM_QUEUE_ID: u16 = 450;

/// How many match ids one listing asks for at most.
pub const MATCH_LIST_LIMIT: i32 = 100;

/// What the crawl is configured with: the handle of the player to start
/// from, and the time window in seconds that bounds both how far back
/// matches are listed and how long a claimed player rests.
pub struct CrawlConfigView {
    pub seed_summoner: Seq<char>,
    pub time_limit: i64,
}

/// Why the crawl stops.
pub enum CrawlFault {
    /// The seed handle names no player.
    UnknownSeed { summoner_name: Seq<char> },
    /// The claim is exhausted: no player is due for polling.
    NoSummoner,
    /// A match is missing upstream: it was listed, but is no longer to be
    /// had from the match service.
    NonExistentMatch { match_id: Seq<char> },
    /// A fetched match was rejected.
    InvalidMatch { fault: ValidationFault },
    /// The store or the match service failed.
    Transport,
    /// An event arrived that the state does not wait for.
    UnexpectedEvent,
    /// The start of the time window does not fit a timestamp.
    TimeOutOfRange,
}

/// Where the crawl stands: which answer it waits for, and what is left to do
/// for the player being polled.
pub enum CrawlStateView {
    Start,
    CreatingIndexes,
    ResolvingSeed,
    SeedingPlayer,
    Claiming,
    ListingMatches,
    /// Waits for the store to say which of `candidates` it holds.
    FindingKnown { candidates: Seq<Seq<char>> },
    /// Waits for the match `match_id`; `later` are the new ids after it.
    FetchingMatch { match_id: Seq<char>, later: Seq<Seq<char>> },
    /// Waits for the match to be stored; `players` are its participants.
    StoringMatch { players: Seq<Seq<char>>, later: Seq<Seq<char>> },
    /// Waits for a participant to be stored; `players` are those after it.
    StoringPlayer { players: Seq<Seq<char>>, later: Seq<Seq<char>> },
}

/// What the outside world answered.
pub enum CrawlEventView {
    Begin,
    /// The last write went through.
    Done,
    SeedResolved { puuid: Option<Seq<char>> },
    Claimed { puuid: Option<Seq<char>> },
    MatchIds { match_ids: Seq<Seq<char>> },
    KnownIds { match_ids: Seq<Seq<char>> },
    MatchFetched { raw: Option<RawMatchView> },
    Failed,
}

/// What the crawl asks of the outside world next.
pub enum CrawlActionView {
    CreateIndexes,
    ResolveSeed { summoner_name: Seq<char> },
    UpsertPlayer { puuid: Seq<char> },
    /// Claim a player last claimed before `cutoff`, stamping it with `now`.
    ClaimPlayer { cutoff: i64, now: i64 },
    ListMatchIds { puuid: Seq<char>, queue: u16, count: i32, start_time: i64, end_time: i64 },
    FindKnownMatches { match_ids: Seq<Seq<char>> },
    FetchMatch { match_id: Seq<char> },
    UpsertMatch { document: MatchRecord },
}

pub type CrawlStepView = Result<(CrawlStateView, CrawlActionView), CrawlFault>;

/// Whether the window's start at time `now` fits a timestamp.
pub open spec fn window_fits(config: CrawlConfigView, now: i64) -> bool {
    i64::MIN <= now - config.time_limit <= i64::MAX
}

/// The step that claims the next player at time `now`.
pub open spec fn claim_step(config: CrawlConfigView, now: i64) -> CrawlStepView {
    if window_fits(config, now) {
        Ok(
            (
                CrawlStateView::Claiming,
                CrawlActionView::ClaimPlayer { cutoff: (now - config.time_limit) as i64, now },
            ),
        )
    } else {
        Err(CrawlFault::TimeOutOfRange)
    }
}

/// The step that lists the recent matches of a claimed player.
pub open spec fn list_step(config: CrawlConfigView, puuid: Seq<char>, now: i64) -> CrawlStepView {
    if window_fits(config, now) {
        Ok(
            (
                CrawlStateView::ListingMatches,
                CrawlActionView::ListMatchIds {
                    puuid,
                    queue: ARAM_QUEUE_ID,
                    count: MATCH_LIST_LIMIT,
                    start_time: (now - config.time_limit) as i64,
                    end_time: now,
                },
            ),
        )
    } else {
        Err(CrawlFault::TimeOutOfRange)
    }
}

/// The step that turns to the new match ids `ids`: the first is fetched,
/// and with none left the next player is claimed.
pub open spec fn match_step(config: CrawlConfigView, ids: Seq<Seq<char>>, now: i64) -> CrawlStepView {
    if ids.len() == 0 {
        claim_step(config, now)
    } else {
        Ok(
            (
                CrawlStateView::FetchingMatch { match_id: ids[0], later: ids.skip(1) },
                CrawlActionView::FetchMatch { match_id: ids[0] },
            ),
        )
    }
}

/// The step that turns to the participants `players` of a stored match: the
/// first is stored, and with none left the crawl turns to the next match.
pub open spec fn player_step(
    config: CrawlConfigView,
    players: Seq<Seq<char>>,
    later: Seq<Seq<char>>,
    now: i64,
) -> CrawlStepView {
    if players.len() == 0 {
        match_step(config, later, now)
    } else {
        Ok(
            (
                CrawlStateView::StoringPlayer { players: players.skip(1), later },
                CrawlActionView::UpsertPlayer { puuid: players[0] },
            ),
        )
    }
}

/// The crawl's transition: from a state and the answer it got, at time
/// `now`, to the next state and the next request, or to the reason the
/// crawl stops. A failure of the outside world stops the crawl in any
/// state, and so does an answer that the state does not wait for.
pub open spec fn crawl_step(
    config: CrawlConfigView,
    state: CrawlStateView,
    event: CrawlEventView,
    now: i64,
) -> CrawlStepView {
    match (state, event) {
        (_, CrawlEventView::Failed) => Err(CrawlFault::Transport),
        (CrawlStateView::Start, CrawlEventView::Begin) => Ok(
            (CrawlStateView::CreatingIndexes, CrawlActionView::CreateIndexes),
        ),
        (CrawlStateView::CreatingIndexes, CrawlEventView::Done) => Ok(
            (
                CrawlStateView::ResolvingSeed,
                CrawlActionView::ResolveSeed { summoner_name: config.seed_summoner },
            ),
        ),
        (CrawlStateView::ResolvingSeed, CrawlEventView::SeedResolved { puuid }) => match puuid {
            Some(puuid) => Ok(
                (CrawlStateView::SeedingPlayer, CrawlActionView::UpsertPlayer { puuid }),
            ),
            None => Err(CrawlFault::UnknownSeed { summoner_name: config.seed_summoner }),
        },
        (CrawlStateView::SeedingPlayer, CrawlEventView::Done) => claim_step(config, now),
        (CrawlStateView::Claiming, CrawlEventView::Claimed { puuid }) => match puuid {
            Some(puuid) => list_step(config, puuid, now),
            None => Err(CrawlFault::NoSummoner),
        },
        (CrawlStateView::ListingMatches, CrawlEventView::MatchIds { match_ids }) => {
            if match_ids.len() == 0 {
                claim_step(config, now)
            } else {
                Ok(
                    (
                        CrawlStateView::FindingKnown { candidates: match_ids },
                        CrawlActionView::FindKnownMatches { match_ids },
                    ),
                )
            }
        },
        (CrawlStateView::FindingKnown { candidates }, CrawlEventView::KnownIds { match_ids }) => {
            match_step(config, fresh_ids(candidates, match_ids.to_set()), now)
        },
        (
            CrawlStateView::FetchingMatch { match_id, later },
            CrawlEventView::MatchFetched { raw },
        ) => match raw {
            None => Err(CrawlFault::NonExistentMatch { match_id }),
            Some(raw) => match validated(raw) {
                Err(fault) => Err(CrawlFault::InvalidMatch { fault }),
                Ok((document, players)) => Ok(
                    (
                        CrawlStateView::StoringMatch { players, later },
                        CrawlActionView::UpsertMatch { document },
                    ),
                ),
            },
        },
        (CrawlStateView::StoringMatch { players, later }, CrawlEventView::Done) => player_step(
            config,
            players,
            later,
            now,
        ),
        (CrawlStateView::StoringPlayer { players, later }, CrawlEventView::Done) => player_step(
            config,
            players,
            later,
            now,
        ),
        _ => Err(CrawlFault::UnexpectedEvent),
    }
}

/// The store is never asked about an empty list of candidates.
pub proof fn lemma_no_lookup_without_candidates(
    config: CrawlConfigView,
    state: CrawlStateView,
    event: CrawlEventView,
    now: i64,
)
    ensures
        crawl_step(config, state, event, now) matches Ok((_, action)) ==> (
        action matches CrawlActionView::FindKnownMatches { match_ids } ==> match_ids.len() > 0),
{
}

/// Once the store has said which candidates it holds, the matches still to
/// be fetched are exactly the candidates it does not hold, each once: the
/// one fetched first followed by those kept for later.
pub proof fn lemma_only_new_matches_are_fetched(
    config: CrawlConfigView,
    candidates: Seq<Seq<char>>,
    known: Seq<Seq<char>>,
    now: i64,
)
    ensures
        ({
            let fresh = fresh_ids(candidates, known.to_set());
            let next = crawl_step(
                config,
                CrawlStateView::FindingKnown { candidates },
                CrawlEventView::KnownIds { match_ids: known },
                now,
            );
            &&& fresh.len() > 0 ==> next == Ok::<(CrawlStateView, CrawlActionView), CrawlFault>(
                (
                    CrawlStateView::FetchingMatch { match_id: fresh[0], later: fresh.skip(1) },
                    CrawlActionView::FetchMatch { match_id: fresh[0] },
                ),
            )
            &&& fresh.len() == 0 ==> next == claim_step(config, now)
            &&& fresh.no_duplicates()
            &&& forall|i: int|
                0 <= i < fresh.len() ==> candidates.contains(#[trigger] fresh[i])
                    && !known.contains(fresh[i])
        }),
{
    let fresh = fresh_ids(candidates, known.to_set());
    lemma_fresh_ids_are_the_difference(candidates, known.to_set());
    assert forall|i: int| 0 <= i < fresh.len() implies candidates.contains(#[trigger] fresh[i])
        && !known.contains(fresh[i]) by {
        assert(fresh.to_set().contains(fresh[i]));
        assert(candidates.to_set().difference(known.to_set()).contains(fresh[i]));
    }
}

/// A match is stored before any of its participants, and the participants
/// are stored in the order of the match's participant list: after the match
/// went through, the first participant is stored and the others are kept.
pub proof fn lemma_match_is_stored_before_players(
    config: CrawlConfigView,
    players: Seq<Seq<char>>,
    later: Seq<Seq<char>>,
    now: i64,
)
    requires
        players.len() > 0,
    ensures
        crawl_step(
            config,
            CrawlStateView::StoringMatch { players, later },
            CrawlEventView::Done,
            now,
        ) == Ok::<(CrawlStateView, CrawlActionView), CrawlFault>(
            (
                CrawlStateView::StoringPlayer { players: players.skip(1), later },
                CrawlActionView::UpsertPlayer { puuid: players[0] },
            ),
        ),
{
}

/// Only a match that passed validation is ever stored: where the next
/// request is to store a match, the crawl was waiting for that match, the
/// match came and was valid, and what is stored is its record, with five
/// champions a side; its participants are kept to be stored after it.
pub proof fn lemma_only_valid_matches_are_stored(
    config: CrawlConfigView,
    state: CrawlStateView,
    event: CrawlEventView,
    now: i64,
)
    ensures
        crawl_step(config, state, event, now) matches Ok((next, action)) ==> (
        action matches CrawlActionView::UpsertMatch { document } ==> {
            &&& state matches CrawlStateView::FetchingMatch { later, .. }
            &&& event matches CrawlEventView::MatchFetched { raw: Some(raw) }
            &&& validated(raw) matches Ok((record, players))
            &&& document == record
            &&& document.blue_team.len() == 5
            &&& document.red_team.len() == 5
            &&& players.len() == 10
            &&& next == (CrawlStateView::StoringMatch { players, later })
        }),
{
    if let Ok((next, action)) = crawl_step(config, state, event, now) {
        if let CrawlActionView::UpsertMatch { document } = action {
            if let CrawlEventView::MatchFetched { raw: Some(raw) } = event {
                lemma_valid_record_shape(raw);
            }
        }
    }
}

/// Every request keeps to the configured time limit: a claim asks for a
/// player last claimed more than the time limit before `now` and stamps it
/// with `now`, and a listing asks for at most [`MATCH_LIST_LIMIT`] ARAM
/// matches from the time limit before `now` up to `now`.
pub proof fn lemma_requests_keep_to_the_time_limit(
    config: CrawlConfigView,
    state: CrawlStateView,
    event: CrawlEventView,
    now: i64,
)
    ensures
        crawl_step(config, state, event, now) matches Ok((_, action)) ==> {
            &&& action matches CrawlActionView::ClaimPlayer { cutoff, now: stamp } ==> stamp == now
                && cutoff == now - config.time_limit
            &&& action matches CrawlActionView::ListMatchIds {
                queue,
                count,
                start_time,
                end_time,
                ..
            } ==> queue == ARAM_QUEUE_ID && count == MATCH_LIST_LIMIT && start_time == now
                - config.time_limit && end_time == now
        },
{
}

/// A failure of the outside world stops the crawl, whatever it waits for.
pub proof fn lemma_failure_stops_the_crawl(
    config: CrawlConfigView,
    state: CrawlStateView,
    now: i64,
)
    ensures
        crawl_step(config, state, CrawlEventView::Failed, now) == Err::<
            (CrawlStateView, CrawlActionView),
            CrawlFault,
        >(CrawlFault::Transport),
{
}

} // verus!
