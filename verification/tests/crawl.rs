use aram_helper::crawl::{
    step, window_start, CrawlAction, CrawlConfig, CrawlError, CrawlEvent, CrawlState,
};
use aram_helper::match_data::{PlayerTeam, ValidationError};
use aram_helper::raw_match::{MatchSide, RawMatch, RawParticipant, RawTeam};
use aram_helper::store::{
    claim_next, filter_match_ids, insert_match_data, insert_summoner_by_puuid, DocumentStore,
};

const WEEK: i64 = 60 * 60 * 24 * 7;
const NOW: i64 = 1_700_000_000;

fn config() -> CrawlConfig {
    CrawlConfig { seed_summoner: "Rock Solid".to_string(), time_limit: WEEK }
}

fn ids(list: &[&str]) -> Vec<String> {
    list.iter().map(|s| s.to_string()).collect()
}

fn raw_match(match_id: &str, blue: usize) -> RawMatch {
    let names = ["Annie", "Ahri", "Aatrox", "Alistar", "Amumu", "Anivia", "Ashe", "Akali", "Bard", "Brand", "Braum"];
    let participants = (0..blue + 5)
        .map(|n| RawParticipant {
            team: if n < blue { MatchSide::Blue } else { MatchSide::Red },
            champion_name: names[n].to_string(),
            summoner_name: format!("{match_id}-s{n}"),
            puuid: format!("{match_id}-p{n}"),
        })
        .collect();
    RawMatch {
        match_id: match_id.to_string(),
        game_id: 7,
        game_start: NOW - 100,
        participants,
        teams: vec![
            RawTeam { team: MatchSide::Blue, win: false },
            RawTeam { team: MatchSide::Red, win: true },
        ],
    }
}

#[test]
fn crawl_starts_with_indexes_then_seed() {
    let (state, action) = step(&config(), CrawlState::Start, CrawlEvent::Begin, NOW).unwrap();
    assert!(matches!(state, CrawlState::CreatingIndexes));
    assert!(matches!(action, CrawlAction::CreateIndexes));
    let (state, action) = step(&config(), state, CrawlEvent::Done, NOW).unwrap();
    assert!(matches!(state, CrawlState::ResolvingSeed));
    match action {
        CrawlAction::ResolveSeed { summoner_name } => assert_eq!(summoner_name, "Rock Solid"),
        other => panic!("unexpected action {other:?}"),
    }
    let event = CrawlEvent::SeedResolved { puuid: Some("seed".to_string()) };
    let (state, action) = step(&config(), state, event, NOW).unwrap();
    assert!(matches!(state, CrawlState::SeedingPlayer));
    match action {
        CrawlAction::UpsertPlayer { puuid } => assert_eq!(puuid, "seed"),
        other => panic!("unexpected action {other:?}"),
    }
    let (state, action) = step(&config(), state, CrawlEvent::Done, NOW).unwrap();
    assert!(matches!(state, CrawlState::Claiming));
    match action {
        CrawlAction::ClaimPlayer { cutoff, now } => {
            assert_eq!(cutoff, NOW - WEEK);
            assert_eq!(now, NOW);
        }
        other => panic!("unexpected action {other:?}"),
    }
}

#[test]
fn unknown_seed_stops_the_crawl() {
    let event = CrawlEvent::SeedResolved { puuid: None };
    match step(&config(), CrawlState::ResolvingSeed, event, NOW) {
        Err(CrawlError::UnknownSeed { summoner_name }) => assert_eq!(summoner_name, "Rock Solid"),
        other => panic!("unexpected step {other:?}"),
    }
}

#[test]
fn claimed_player_has_matches_listed() {
    let event = CrawlEvent::Claimed { puuid: Some("A".to_string()) };
    let (state, action) = step(&config(), CrawlState::Claiming, event, NOW).unwrap();
    assert!(matches!(state, CrawlState::ListingMatches));
    match action {
        CrawlAction::ListMatchIds { puuid, queue, count, start_time, end_time } => {
            assert_eq!(puuid, "A");
            assert_eq!(queue, 450);
            assert_eq!(count, 100);
            assert_eq!(start_time, NOW - WEEK);
            assert_eq!(end_time, NOW);
        }
        other => panic!("unexpected action {other:?}"),
    }
}

#[test]
fn exhausted_frontier_is_a_status_of_its_own() {
    let event = CrawlEvent::Claimed { puuid: None };
    assert!(matches!(
        step(&config(), CrawlState::Claiming, event, NOW),
        Err(CrawlError::NoSummoner)
    ));
}

#[test]
fn empty_match_list_goes_back_to_claiming_without_lookup() {
    let event = CrawlEvent::MatchIds { match_ids: vec![] };
    let (state, action) = step(&config(), CrawlState::ListingMatches, event, NOW + 5).unwrap();
    assert!(matches!(state, CrawlState::Claiming));
    assert!(matches!(
        action,
        CrawlAction::ClaimPlayer { cutoff, now } if cutoff == NOW + 5 - WEEK && now == NOW + 5
    ));
}

#[test]
fn listed_matches_are_looked_up_then_new_ones_fetched_in_order() {
    let event = CrawlEvent::MatchIds { match_ids: ids(&["m1", "m2", "m3"]) };
    let (state, action) = step(&config(), CrawlState::ListingMatches, event, NOW).unwrap();
    match action {
        CrawlAction::FindKnownMatches { match_ids } => assert_eq!(match_ids, ids(&["m1", "m2", "m3"])),
        other => panic!("unexpected action {other:?}"),
    }
    let event = CrawlEvent::KnownIds { match_ids: ids(&["m2"]) };
    let (state, action) = step(&config(), state, event, NOW).unwrap();
    match action {
        CrawlAction::FetchMatch { match_id } => assert_eq!(match_id, "m1"),
        other => panic!("unexpected action {other:?}"),
    }
    match state {
        CrawlState::FetchingMatch { match_id, later } => {
            assert_eq!(match_id, "m1");
            assert_eq!(later, ids(&["m3"]));
        }
        other => panic!("unexpected state {other:?}"),
    }
}

#[test]
fn all_matches_known_goes_back_to_claiming() {
    let state = CrawlState::FindingKnown { candidates: ids(&["m1", "m2"]) };
    let event = CrawlEvent::KnownIds { match_ids: ids(&["m2", "m1"]) };
    let (state, action) = step(&config(), state, event, NOW).unwrap();
    assert!(matches!(state, CrawlState::Claiming));
    assert!(matches!(action, CrawlAction::ClaimPlayer { .. }));
}

#[test]
fn missing_match_stops_the_crawl() {
    let state = CrawlState::FetchingMatch { match_id: "m1".to_string(), later: ids(&["m3"]) };
    let event = CrawlEvent::MatchFetched { raw: None };
    match step(&config(), state, event, NOW) {
        Err(CrawlError::NonExistentMatch { match_id }) => assert_eq!(match_id, "m1"),
        other => panic!("unexpected step {other:?}"),
    }
}

#[test]
fn invalid_match_stops_the_crawl() {
    let state = CrawlState::FetchingMatch { match_id: "m1".to_string(), later: vec![] };
    let event = CrawlEvent::MatchFetched { raw: Some(raw_match("m1", 6)) };
    match step(&config(), state, event, NOW) {
        Err(CrawlError::InvalidMatch {
            error: ValidationError::Not5Players { players, team, .. },
        }) => {
            assert_eq!(players, 6);
            assert_eq!(team, PlayerTeam::Blue);
        }
        other => panic!("unexpected step {other:?}"),
    }
}

#[test]
fn valid_match_is_stored_then_its_ten_players_then_the_next_match() {
    let mut state = CrawlState::FetchingMatch { match_id: "m1".to_string(), later: ids(&["m3"]) };
    let mut event = CrawlEvent::MatchFetched { raw: Some(raw_match("m1", 5)) };
    let mut actions = Vec::new();
    for _ in 0..12 {
        let (next, action) = step(&config(), state, event, NOW).unwrap();
        state = next;
        event = CrawlEvent::Done;
        actions.push(action);
    }
    match &actions[0] {
        CrawlAction::UpsertMatch { document } => {
            assert_eq!(document.match_id, "m1");
            assert_eq!(document.blue_champs, [1, 103, 266, 12, 32]);
            assert_eq!(document.red_champs, [34, 22, 84, 432, 63]);
            assert!(!document.blue_win);
            assert_eq!(document.game_start, NOW - 100);
        }
        other => panic!("unexpected action {other:?}"),
    }
    for n in 0..10 {
        match &actions[n + 1] {
            CrawlAction::UpsertPlayer { puuid } => assert_eq!(*puuid, format!("m1-p{n}")),
            other => panic!("unexpected action {other:?}"),
        }
    }
    match &actions[11] {
        CrawlAction::FetchMatch { match_id } => assert_eq!(match_id, "m3"),
        other => panic!("unexpected action {other:?}"),
    }
    assert!(matches!(state, CrawlState::FetchingMatch { .. }));
}

#[test]
fn failure_stops_the_crawl_in_any_state() {
    assert!(matches!(
        step(&config(), CrawlState::Claiming, CrawlEvent::Failed, NOW),
        Err(CrawlError::Transport)
    ));
    let state = CrawlState::StoringPlayer { players: ids(&["p"]), later: vec![] };
    assert!(matches!(step(&config(), state, CrawlEvent::Failed, NOW), Err(CrawlError::Transport)));
}

#[test]
fn answer_that_is_not_waited_for_stops_the_crawl() {
    assert!(matches!(
        step(&config(), CrawlState::Start, CrawlEvent::Done, NOW),
        Err(CrawlError::UnexpectedEvent)
    ));
    let event = CrawlEvent::KnownIds { match_ids: vec![] };
    assert!(matches!(
        step(&config(), CrawlState::Claiming, event, NOW),
        Err(CrawlError::UnexpectedEvent)
    ));
}

#[test]
fn window_that_does_not_fit_stops_the_crawl() {
    let config = CrawlConfig { seed_summoner: "s".to_string(), time_limit: i64::MIN };
    assert!(matches!(
        step(&config, CrawlState::SeedingPlayer, CrawlEvent::Done, NOW),
        Err(CrawlError::TimeOutOfRange)
    ));
    let event = CrawlEvent::Claimed { puuid: Some("A".to_string()) };
    assert!(matches!(
        step(&config, CrawlState::Claiming, event, NOW),
        Err(CrawlError::TimeOutOfRange)
    ));
}

fn perform(store: &mut DocumentStore, action: CrawlAction, upstream: &[RawMatch]) -> CrawlEvent {
    match action {
        CrawlAction::CreateIndexes => CrawlEvent::Done,
        CrawlAction::ResolveSeed { .. } => CrawlEvent::SeedResolved { puuid: Some("seed".to_string()) },
        CrawlAction::UpsertPlayer { puuid } => {
            insert_summoner_by_puuid(puuid, store);
            CrawlEvent::Done
        }
        CrawlAction::ClaimPlayer { cutoff, now } => CrawlEvent::Claimed {
            puuid: claim_next(store, now, now - cutoff).map(|doc| doc.puuid),
        },
        CrawlAction::ListMatchIds { puuid, .. } => CrawlEvent::MatchIds {
            match_ids: if puuid == "seed" { ids(&["m1", "m2"]) } else { ids(&["m2"]) },
        },
        CrawlAction::FindKnownMatches { match_ids } => {
            let fresh = filter_match_ids(store, match_ids.clone());
            let known = match_ids.into_iter().filter(|id| !fresh.contains(id)).collect();
            CrawlEvent::KnownIds { match_ids: known }
        }
        CrawlAction::FetchMatch { match_id } => CrawlEvent::MatchFetched {
            raw: upstream.iter().find(|m| m.match_id == match_id).cloned(),
        },
        CrawlAction::UpsertMatch { document } => {
            insert_match_data(document, store);
            CrawlEvent::Done
        }
    }
}

#[test]
fn crawl_against_a_store_discovers_players_until_nobody_is_due() {
    let upstream = vec![raw_match("m1", 5), raw_match("m2", 5)];
    let mut store = DocumentStore::new();
    let config = config();
    let mut state = CrawlState::Start;
    let mut event = CrawlEvent::Begin;
    let mut steps = 0;
    let stopped = loop {
        steps += 1;
        assert!(steps < 1000);
        match step(&config, state, event, NOW) {
            Ok((next, action)) => {
                state = next;
                event = perform(&mut store, action, &upstream);
            }
            Err(error) => break error,
        }
    };
    assert!(matches!(stopped, CrawlError::NoSummoner));
    assert!(store.stored_match(&"m1".to_string()).is_some());
    assert!(store.stored_match(&"m2".to_string()).is_some());
    for m in ["m1", "m2"] {
        for n in 0..10 {
            let doc = store.player(&format!("{m}-p{n}")).unwrap();
            assert_eq!(doc.time_at_last_fetch, NOW);
        }
    }
    assert_eq!(store.player(&"seed".to_string()).unwrap().time_at_last_fetch, NOW);
    assert!(filter_match_ids(&store, ids(&["m1", "m2"])).is_empty());
}

#[test]
fn window_starts_one_time_limit_before_now() {
    assert_eq!(window_start(NOW, WEEK), Some(NOW - WEEK));
    assert_eq!(window_start(0, 0), Some(0));
    assert_eq!(window_start(5, -5), Some(10));
    assert_eq!(window_start(i64::MIN, 1), None);
    assert_eq!(window_start(i64::MAX, -1), None);
    assert_eq!(window_start(-1, i64::MAX), Some(i64::MIN));
}
