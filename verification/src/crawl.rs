use vstd::prelude::*;
use crate::crawl_model::ARAM_QUEUE_ID;
use crate::crawl_model::CrawlActionView;
use crate::crawl_model::CrawlConfigView;
use crate::crawl_model::CrawlEventView;
use crate::crawl_model::CrawlFault;
use crate::crawl_model::CrawlStateView;
use crate::crawl_model::CrawlStepView;
use crate::crawl_model::MATCH_LIST_LIMIT;
use crate::crawl_model::claim_step;
use crate::crawl_model::crawl_step;
use crate::crawl_model::list_step;
use crate::crawl_model::match_step;
use crate::crawl_model::player_step;
use crate::dedup::new_match_ids;
use crate::match_data::ARAMMatchDocument;
use crate::match_data::ValidationError;
use crate::raw_match::RawMatch;
use crate::raw_match::RawMatchView;
use crate::strings::strings_view;
use crate::validator::validate;

verus! {

/// What the crawl is configured with: the handle of the player to start
/// from, and the time window in seconds that bounds both how far back
/// matches are listed and how long a claimed player rests.
#[derive(Debug)]
pub struct CrawlConfig {
    pub seed_summoner: String,
    pub time_limit: i64,
}

impl View for CrawlConfig {
    type V = CrawlConfigView;

    open spec fn view(&self) -> CrawlConfigView {
        CrawlConfigView { seed_summoner: self.seed_summoner@, time_limit: self.time_limit }
    }
}

/// Why the crawl stops.
#[derive(Debug, PartialEq, Eq)]
pub enum CrawlError {
    /// The seed handle names no player.
    UnknownSeed { summoner_name: String },
    /// The claim is exhausted: no player is due for polling.
    NoSummoner,
    /// A match is missing upstream: it was listed, but is no longer to be
    /// had from the match service.
    NonExistentMatch { match_id: String },
    /// A fetched match was rejected.
    InvalidMatch { error: ValidationError },
    /// The store or the match service failed.
    Transport,
    /// An event arrived that the state does not wait for.
    UnexpectedEvent,
    /// The start of the time window does not fit a timestamp.
    TimeOutOfRange,
}

impl View for CrawlError {
    type V = CrawlFault;

    open spec fn view(&self) -> CrawlFault {
        match *self {
            CrawlError::UnknownSeed { summoner_name } => CrawlFault::UnknownSeed {
                summoner_name: summoner_name@,
            },
            CrawlError::NoSummoner => CrawlFault::NoSummoner,
            CrawlError::NonExistentMatch { match_id } => CrawlFault::NonExistentMatch {
                match_id: match_id@,
            },
            CrawlError::InvalidMatch { error } => CrawlFault::InvalidMatch { fault: error@ },
            CrawlError::Transport => CrawlFault::Transport,
            CrawlError::UnexpectedEvent => CrawlFault::UnexpectedEvent,
            CrawlError::TimeOutOfRange => CrawlFault::TimeOutOfRange,
        }
    }
}

/// Where the crawl stands: which answer it waits for, and what is left to do
/// for the player being polled.
#[derive(Debug)]
pub enum CrawlState {
    Start,
    CreatingIndexes,
    ResolvingSeed,
    SeedingPlayer,
    Claiming,
    ListingMatches,
    /// Waits for the store to say which of `candidates` it holds.
    FindingKnown { candidates: Vec<String> },
    /// Waits for the match `match_id`; `later` are the new ids after it.
    FetchingMatch { match_id: String, later: Vec<String> },
    /// Waits for the match to be stored; `players` are its participants.
    StoringMatch { players: Vec<String>, later: Vec<String> },
    /// Waits for a participant to be stored; `players` are those after it.
    StoringPlayer { players: Vec<String>, later: Vec<String> },
}

impl View for CrawlState {
    type V = CrawlStateView;

    open spec fn view(&self) -> CrawlStateView {
        match *self {
            CrawlState::Start => CrawlStateView::Start,
            CrawlState::CreatingIndexes => CrawlStateView::CreatingIndexes,
            CrawlState::ResolvingSeed => CrawlStateView::ResolvingSeed,
            CrawlState::SeedingPlayer => CrawlStateView::SeedingPlayer,
            CrawlState::Claiming => CrawlStateView::Claiming,
            CrawlState::ListingMatches => CrawlStateView::ListingMatches,
            CrawlState::FindingKnown { candidates } => CrawlStateView::FindingKnown {
                candidates: strings_view(candidates@),
            },
            CrawlState::FetchingMatch { match_id, later } => CrawlStateView::FetchingMatch {
                match_id: match_id@,
                later: strings_view(later@),
            },
            CrawlState::StoringMatch { players, later } => CrawlStateView::StoringMatch {
                players: strings_view(players@),
                later: strings_view(later@),
            },
            CrawlState::StoringPlayer { players, later } => CrawlStateView::StoringPlayer {
                players: strings_view(players@),
                later: strings_view(later@),
            },
        }
    }
}

/// What the outside world answered.
#[derive(Debug)]
pub enum CrawlEvent {
    Begin,
    /// The last write went through.
    Done,
    SeedResolved { puuid: Option<String> },
    Claimed { puuid: Option<String> },
    MatchIds { match_ids: Vec<String> },
    KnownIds { match_ids: Vec<String> },
    MatchFetched { raw: Option<RawMatch> },
    Failed,
}

/// The character sequence of an optional string.
pub open spec fn optional_string_view(s: Option<String>) -> Option<Seq<char>> {
    match s {
        Some(s) => Some(s@),
        None => None,
    }
}

/// The mathematical content of an optional raw match.
pub open spec fn optional_match_view(raw: Option<RawMatch>) -> Option<RawMatchView> {
    match raw {
        Some(raw) => Some(raw@),
        None => None,
    }
}

impl View for CrawlEvent {
    type V = CrawlEventView;

    open spec fn view(&self) -> CrawlEventView {
        match *self {
            CrawlEvent::Begin => CrawlEventView::Begin,
            CrawlEvent::Done => CrawlEventView::Done,
            CrawlEvent::SeedResolved { puuid } => CrawlEventView::SeedResolved {
                puuid: optional_string_view(puuid),
            },
            CrawlEvent::Claimed { puuid } => CrawlEventView::Claimed {
                puuid: optional_string_view(puuid),
            },
            CrawlEvent::MatchIds { match_ids } => CrawlEventView::MatchIds {
                match_ids: strings_view(match_ids@),
            },
            CrawlEvent::KnownIds { match_ids } => CrawlEventView::KnownIds {
                match_ids: strings_view(match_ids@),
            },
            CrawlEvent::MatchFetched { raw } => CrawlEventView::MatchFetched {
                raw: optional_match_view(raw),
            },
            CrawlEvent::Failed => CrawlEventView::Failed,
        }
    }
}

/// What the crawl asks of the outside world next.
#[derive(Debug)]
pub enum CrawlAction {
    CreateIndexes,
    ResolveSeed { summoner_name: String },
    UpsertPlayer { puuid: String },
    /// Claim a player last claimed before `cutoff`, stamping it with `now`.
    ClaimPlayer { cutoff: i64, now: i64 },
    ListMatchIds { puuid: String, queue: u16, count: i32, start_time: i64, end_time: i64 },
    FindKnownMatches { match_ids: Vec<String> },
    FetchMatch { match_id: String },
    UpsertMatch { document: ARAMMatchDocument },
}

impl View for CrawlAction {
    type V = CrawlActionView;

    open spec fn view(&self) -> CrawlActionView {
        match *self {
            CrawlAction::CreateIndexes => CrawlActionView::CreateIndexes,
            CrawlAction::ResolveSeed { summoner_name } => CrawlActionView::ResolveSeed {
                summoner_name: summoner_name@,
            },
            CrawlAction::UpsertPlayer { puuid } => CrawlActionView::UpsertPlayer { puuid: puuid@ },
            CrawlAction::ClaimPlayer { cutoff, now } => CrawlActionView::ClaimPlayer {
                cutoff,
                now,
            },
            CrawlAction::ListMatchIds { puuid, queue, count, start_time, end_time } => {
                CrawlActionView::ListMatchIds { puuid: puuid@, queue, count, start_time, end_time }
            },
            CrawlAction::FindKnownMatches { match_ids } => CrawlActionView::FindKnownMatches {
                match_ids: strings_view(match_ids@),
            },
            CrawlAction::FetchMatch { match_id } => CrawlActionView::FetchMatch {
                match_id: match_id@,
            },
            CrawlAction::UpsertMatch { document } => CrawlActionView::UpsertMatch {
                document: document@,
            },
        }
    }
}

/// The mathematical content of a step's result.
pub open spec fn step_view(r: Result<(CrawlState, CrawlAction), CrawlError>) -> CrawlStepView {
    match r {
        Ok((state, action)) => Ok((state@, action@)),
        Err(e) => Err(e@),
    }
}

/// `riven`'s queue constant for 5v5 ARAM games on the Howling Abyss, as the
/// number the match service knows the queue by: 450.
#[verifier::external_body]
fn howling_abyss_aram_queue() -> (queue: u16)
    ensures
        queue == ARAM_QUEUE_ID,
{
    u16::from(riven::consts::Queue::HOWLING_ABYSS_5V5_ARAM)
}

/// A copy of a list of strings.
fn clone_strings(list: &Vec<String>) -> (copy: Vec<String>)
    ensures
        strings_view(copy@) == strings_view(list@),
{
    let mut copy: Vec<String> = Vec::new();
    let mut i: usize = 0;
    while i < list.len()
        invariant
            i <= list.len(),
            copy.len() == i,
            forall|j: int| 0 <= j < i ==> copy@[j]@ == list@[j]@,
        decreases list.len() - i,
    {
        copy.push(list[i].clone());
        i += 1;
    }
    assert(strings_view(copy@) =~= strings_view(list@));
    copy
}

/// The ten player ids of a match as a list.
fn player_list(ids: &[String; 10]) -> (list: Vec<String>)
    ensures
        strings_view(list@) == strings_view(ids@),
{
    let mut list: Vec<String> = Vec::new();
    let mut i: usize = 0;
    while i < 10
        invariant
            i <= 10,
            list.len() == i,
            forall|j: int| 0 <= j < i ==> list@[j]@ == ids@[j]@,
        decreases 10 - i,
    {
        list.push(ids[i].clone());
        i += 1;
    }
    assert(strings_view(list@) =~= strings_view(ids@));
    list
}

/// The start of the time window that ends at `now`: `time_limit` seconds
/// before it, or `None` where that time does not fit a timestamp.
pub fn window_start(now: i64, time_limit: i64) -> (start: Option<i64>)
    ensures
        i64::MIN <= now - time_limit <= i64::MAX ==> start == Some((now - time_limit) as i64),
        !(i64::MIN <= now - time_limit <= i64::MAX) ==> start is None,
{
    now.checked_sub(time_limit)
}

/// The step that claims the next player at time `now`.
fn claim(config: &CrawlConfig, now: i64) -> (r: Result<(CrawlState, CrawlAction), CrawlError>)
    ensures
        step_view(r) == claim_step(config@, now),
{
    match window_start(now, config.time_limit) {
        Some(cutoff) => Ok((CrawlState::Claiming, CrawlAction::ClaimPlayer { cutoff, now })),
        None => Err(CrawlError::TimeOutOfRange),
    }
}

/// The step that lists the recent matches of a claimed player.
fn list(config: &CrawlConfig, puuid: String, now: i64) -> (r: Result<
    (CrawlState, CrawlAction),
    CrawlError,
>)
    ensures
        step_view(r) == list_step(config@, puuid@, now),
{
    match window_start(now, config.time_limit) {
        Some(start_time) => Ok(
            (
                CrawlState::ListingMatches,
                CrawlAction::ListMatchIds {
                    puuid,
                    queue: howling_abyss_aram_queue(),
                    count: MATCH_LIST_LIMIT,
                    start_time,
                    end_time: now,
                },
            ),
        ),
        None => Err(CrawlError::TimeOutOfRange),
    }
}

/// The step that turns to the new match ids `ids`.
fn next_match(config: &CrawlConfig, ids: Vec<String>, now: i64) -> (r: Result<
    (CrawlState, CrawlAction),
    CrawlError,
>)
    ensures
        step_view(r) == match_step(config@, strings_view(ids@), now),
{
    if ids.len() == 0 {
        return claim(config, now);
    }
    let mut later = ids;
    let match_id = later.remove(0);
    assert(strings_view(later@) =~= strings_view(ids@).skip(1));
    assert(match_id@ == strings_view(ids@)[0]);
    Ok(
        (
            CrawlState::FetchingMatch { match_id: match_id.clone(), later },
            CrawlAction::FetchMatch { match_id },
        ),
    )
}

/// The step that turns to the participants `players` of a stored match.
fn next_player(config: &CrawlConfig, players: Vec<String>, later: Vec<String>, now: i64) -> (r:
    Result<(CrawlState, CrawlAction), CrawlError>)
    ensures
        step_view(r) == player_step(config@, strings_view(players@), strings_view(later@), now),
{
    if players.len() == 0 {
        return next_match(config, later, now);
    }
    let mut rest = players;
    let puuid = rest.remove(0);
    assert(strings_view(rest@) =~= strings_view(players@).skip(1));
    assert(puuid@ == strings_view(players@)[0]);
    Ok((CrawlState::StoringPlayer { players: rest, later }, CrawlAction::UpsertPlayer { puuid }))
}

/// The crawl's transition: takes the state and the answer that came in, at
/// time `now`, and says what to ask for next and what state to wait in, or
/// why the crawl stops. Nothing is retried and nothing is skipped: the first
/// failure stops the crawl.
pub fn step(config: &CrawlConfig, state: CrawlState, event: CrawlEvent, now: i64) -> (r: Result<
    (CrawlState, CrawlAction),
    CrawlError,
>)
    ensures
        step_view(r) == crawl_step(config@, state@, event@, now),
{
    match (state, event) {
        (_, CrawlEvent::Failed) => Err(CrawlError::Transport),
        (CrawlState::Start, CrawlEvent::Begin) => Ok(
            (CrawlState::CreatingIndexes, CrawlAction::CreateIndexes),
        ),
        (CrawlState::CreatingIndexes, CrawlEvent::Done) => Ok(
            (
                CrawlState::ResolvingSeed,
                CrawlAction::ResolveSeed { summoner_name: config.seed_summoner.clone() },
            ),
        ),
        (CrawlState::ResolvingSeed, CrawlEvent::SeedResolved { puuid }) => match puuid {
            Some(puuid) => Ok((CrawlState::SeedingPlayer, CrawlAction::UpsertPlayer { puuid })),
            None => Err(CrawlError::UnknownSeed { summoner_name: config.seed_summoner.clone() }),
        },
        (CrawlState::SeedingPlayer, CrawlEvent::Done) => claim(config, now),
        (CrawlState::Claiming, CrawlEvent::Claimed { puuid }) => match puuid {
            Some(puuid) => list(config, puuid, now),
            None => Err(CrawlError::NoSummoner),
        },
        (CrawlState::ListingMatches, CrawlEvent::MatchIds { match_ids }) => {
            if match_ids.len() == 0 {
                claim(config, now)
            } else {
                let candidates = clone_strings(&match_ids);
                Ok(
                    (
                        CrawlState::FindingKnown { candidates },
                        CrawlAction::FindKnownMatches { match_ids },
                    ),
                )
            }
        },
        (CrawlState::FindingKnown { candidates }, CrawlEvent::KnownIds { match_ids }) => {
            let fresh = new_match_ids(&candidates, &match_ids);
            next_match(config, fresh, now)
        },
        (CrawlState::FetchingMatch { match_id, later }, CrawlEvent::MatchFetched { raw }) => {
            match raw {
                None => Err(CrawlError::NonExistentMatch { match_id }),
                Some(raw) => match validate(&raw) {
                    Err(error) => Err(CrawlError::InvalidMatch { error }),
                    Ok((document, puuids)) => {
                        let players = player_list(&puuids);
                        Ok(
                            (
                                CrawlState::StoringMatch { players, later },
                                CrawlAction::UpsertMatch { document },
                            ),
                        )
                    },
                },
            }
        },
        (CrawlState::StoringMatch { players, later }, CrawlEvent::Done) => next_player(
            config,
            players,
            later,
            now,
        ),
        (CrawlState::StoringPlayer { players, later }, CrawlEvent::Done) => next_player(
            config,
            players,
            later,
            now,
        ),
        _ => Err(CrawlError::UnexpectedEvent),
    }
}

} // verus!
