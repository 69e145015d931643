use aram_helper::clock::{get_current_unix_time, unix_time_from_seconds};
use aram_helper::crawl::CrawlError;
use aram_helper::match_data::{ARAMMatchDocument, PlayerTeam, ValidationError};
use aram_helper::raw_match::{MatchSide, RawMatch, RawParticipant, RawTeam};
use aram_helper::store::{
    filter_match_ids, get_summoner_id, insert_match_data, insert_summoner_by_puuid, ClaimError,
    DocumentStore,
};
use aram_helper::validator::validate;

#[test]
fn team_names() {
    assert_eq!(PlayerTeam::Blue.to_string(), "blue");
    assert_eq!(PlayerTeam::Red.to_string(), "red");
}

#[test]
fn validation_messages() {
    let monster = ValidationError::MonsterParticipant {
        match_id: "EUW1_1".to_string(),
        summoner_name: "summoner3".to_string(),
    };
    assert_eq!(
        monster.to_string(),
        "participant summoner3 in match EUW1_1 is not on blue or red team"
    );
    let unknown = ValidationError::UnknownChampion {
        match_id: "EUW1_1".to_string(),
        summoner_name: "summoner3".to_string(),
    };
    assert_eq!(
        unknown.to_string(),
        "participant summoner3 in match EUW1_1 has an unknown champion"
    );
    let size = ValidationError::Not5Players {
        match_id: "EUW1_1".to_string(),
        players: 6,
        team: PlayerTeam::Blue,
    };
    assert_eq!(size.to_string(), "match EUW1_1 had 6 players on blue team, should be 5");
    let size = ValidationError::Not5Players {
        match_id: "m".to_string(),
        players: 0,
        team: PlayerTeam::Red,
    };
    assert_eq!(size.to_string(), "match m had 0 players on red team, should be 5");
    let winner = ValidationError::NoWinner { match_id: "EUW1_1".to_string() };
    assert_eq!(winner.to_string(), "match EUW1_1 had no winning team");
    let count = ValidationError::Not10Players { game_id: 5_812_345_678, players: 11 };
    assert_eq!(count.to_string(), "match 5812345678 had 11 participants total, should be 10");
}

#[test]
fn numbers_in_messages_are_decimal() {
    for (game_id, players) in [
        (0i64, 0usize),
        (-5, 9),
        (10, 10),
        (-100, 1234567890),
        (i64::MAX, usize::MAX),
        (i64::MIN, 101),
    ] {
        let count = ValidationError::Not10Players { game_id, players };
        assert_eq!(
            count.to_string(),
            format!("match {game_id} had {players} participants total, should be 10")
        );
    }
}

#[test]
fn crawl_messages() {
    let seed = CrawlError::UnknownSeed { summoner_name: "Rock Solid".to_string() };
    assert_eq!(seed.to_string(), "summoner Rock Solid does not exist on the platform");
    assert_eq!(CrawlError::NoSummoner.to_string(), "no_summoner");
    let missing = CrawlError::NonExistentMatch { match_id: "EUW1_9".to_string() };
    assert_eq!(missing.to_string(), "match EUW1_9 is in DB but does not exist in Riot DB");
    let invalid = CrawlError::InvalidMatch {
        error: ValidationError::NoWinner { match_id: "EUW1_9".to_string() },
    };
    assert_eq!(invalid.to_string(), "match EUW1_9 had no winning team");
    assert_eq!(CrawlError::Transport.to_string(), "the store or the match service failed");
    assert_eq!(
        CrawlError::UnexpectedEvent.to_string(),
        "an answer arrived that was not waited for"
    );
    assert_eq!(
        CrawlError::TimeOutOfRange.to_string(),
        "the time window does not fit a timestamp"
    );
}

#[test]
fn seconds_become_unix_time_where_they_fit() {
    assert_eq!(unix_time_from_seconds(0), Some(0));
    assert_eq!(unix_time_from_seconds(1_700_000_000), Some(1_700_000_000));
    assert_eq!(unix_time_from_seconds(i64::MAX as u64), Some(i64::MAX));
    assert_eq!(unix_time_from_seconds(i64::MAX as u64 + 1), None);
    assert_eq!(unix_time_from_seconds(u64::MAX), None);
}

#[test]
fn current_unix_time_is_after_2020() {
    let now = get_current_unix_time().unwrap();
    assert!(now > 1_577_836_800);
}

#[test]
fn claim_at_the_current_time() {
    let mut store = DocumentStore::new();
    assert_eq!(get_summoner_id(&mut store, 3600), Err(ClaimError::NoSummoner));
    insert_summoner_by_puuid("A".to_string(), &mut store);
    let before = get_current_unix_time().unwrap();
    assert_eq!(get_summoner_id(&mut store, 3600), Ok("A".to_string()));
    let after = get_current_unix_time().unwrap();
    let stamp = store.player(&"A".to_string()).unwrap().time_at_last_fetch;
    assert!(before <= stamp && stamp <= after);
    assert_eq!(get_summoner_id(&mut store, 3600), Err(ClaimError::NoSummoner));
}

#[test]
fn validated_match_once_stored_is_not_new() {
    let names = ["Annie", "Ahri", "Aatrox", "Alistar", "Amumu", "Anivia", "Ashe", "Akali", "Bard", "Brand"];
    let matc = RawMatch {
        match_id: "EUW1_77".to_string(),
        game_id: 77,
        game_start: 1_650_000_000,
        participants: names
            .iter()
            .enumerate()
            .map(|(n, name)| RawParticipant {
                team: if n % 2 == 0 { MatchSide::Blue } else { MatchSide::Red },
                champion_name: name.to_string(),
                summoner_name: format!("summoner{n}"),
                puuid: format!("puuid-{n}"),
            })
            .collect(),
        teams: vec![
            RawTeam { team: MatchSide::Red, win: false },
            RawTeam { team: MatchSide::Blue, win: true },
        ],
    };
    let (doc, _) = validate(&matc).unwrap();
    let expected = ARAMMatchDocument {
        blue_champs: [1, 266, 32, 22, 432],
        red_champs: [103, 12, 34, 84, 63],
        blue_win: true,
        match_id: "EUW1_77".to_string(),
        game_start: 1_650_000_000,
    };
    assert_eq!(doc.blue_champs, expected.blue_champs);
    assert_eq!(doc.red_champs, expected.red_champs);
    assert_eq!(doc.blue_win, expected.blue_win);
    assert_eq!(doc.match_id, expected.match_id);
    assert_eq!(doc.game_start, expected.game_start);
    let mut store = DocumentStore::new();
    let id = vec!["EUW1_77".to_string()];
    assert_eq!(filter_match_ids(&store, id.clone()), id);
    insert_match_data(doc, &mut store);
    assert!(filter_match_ids(&store, id).is_empty());
}
