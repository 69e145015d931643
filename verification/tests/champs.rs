use aram_helper::champ::{Champ, ChampParseError};
use aram_helper::champ_select::ARAMChampSelectState;
use aram_helper::client::{
    ok_ref, App, ClientState, Command, DebugInfo, DebugMessage, ManualInputMessage, Message,
};
use aram_helper::lol_client_api::{
    ChampSelectFetcher, ChampSelectSession, SessionError, TeamMember,
};
use aram_helper::model_input::{
    init_all_champs, map_champ_id_to_index, node_positions, one_hot_positions,
};
use aram_helper::simulator::{Commands, FakeChampSelectFetcher};

fn champs(ids: &[u16]) -> Vec<Champ> {
    ids.iter().map(|&id| Champ { id }).collect()
}

fn state() -> ARAMChampSelectState {
    ARAMChampSelectState {
        your_champ: 4,
        bench: champs(&[1, 51, 124, 12, 53]),
        team_champs: [123u16, 12, 3, 1, 12].map(Champ::from),
    }
}

#[test]
fn choices_are_own_champion_then_bench() {
    assert_eq!(state().choices(), champs(&[12, 1, 51, 124, 12, 53]));
    let mut first = state();
    first.your_champ = 0;
    first.bench.clear();
    assert_eq!(first.choices(), champs(&[123]));
}

#[test]
fn bench_changes() {
    let mut cs = state();
    cs.add_bench(Champ { id: 7 });
    assert_eq!(cs.bench, champs(&[1, 51, 124, 12, 53, 7]));
    cs.remove_bench(1);
    assert_eq!(cs.bench, champs(&[1, 124, 12, 53, 7]));
    cs.remove_bench(5);
    assert_eq!(cs.bench, champs(&[1, 124, 12, 53, 7]));
    cs.swap_bench(0, Champ { id: 99 });
    assert_eq!(cs.bench, champs(&[99, 124, 12, 53, 7]));
    cs.swap_bench(5, Champ { id: 98 });
    assert_eq!(cs.bench, champs(&[99, 124, 12, 53, 7]));
    assert_eq!(cs.team_champs.to_vec(), champs(&[123, 12, 3, 1, 12]));
    assert_eq!(cs.your_champ, 4);
}

#[test]
fn team_changes() {
    let mut cs = state();
    cs.swap_team(2, Champ { id: 77 });
    assert_eq!(cs.team_champs.to_vec(), champs(&[123, 12, 77, 1, 12]));
    cs.swap_team(5, Champ { id: 78 });
    assert_eq!(cs.team_champs.to_vec(), champs(&[123, 12, 77, 1, 12]));
    assert_eq!(cs.bench, champs(&[1, 51, 124, 12, 53]));
}

#[test]
fn default_state_is_empty() {
    let cs = ARAMChampSelectState::default();
    assert_eq!(cs.your_champ, 0);
    assert!(cs.bench.is_empty());
    assert_eq!(cs.team_champs, [Champ { id: 0 }; 5]);
    assert_eq!(Champ::default(), Champ { id: 0 });
    assert_eq!(cs.clone(), cs);
}

#[test]
fn champ_ids_are_read_from_decimal_text() {
    assert_eq!(Champ::parse("12"), Ok(Champ { id: 12 }));
    assert_eq!(Champ::parse("0"), Ok(Champ { id: 0 }));
    assert_eq!(Champ::parse("007"), Ok(Champ { id: 7 }));
    assert_eq!(Champ::parse("+15"), Ok(Champ { id: 15 }));
    assert_eq!(Champ::parse("65535"), Ok(Champ { id: 65535 }));
    assert_eq!(Champ::parse("65536"), Err(ChampParseError {}));
    assert_eq!(Champ::parse("99999999999999999999"), Err(ChampParseError {}));
    assert_eq!(Champ::parse(""), Err(ChampParseError {}));
    assert_eq!(Champ::parse("+"), Err(ChampParseError {}));
    assert_eq!(Champ::parse("-1"), Err(ChampParseError {}));
    assert_eq!(Champ::parse("1 "), Err(ChampParseError {}));
    assert_eq!(Champ::parse(" 1"), Err(ChampParseError {}));
    assert_eq!(Champ::parse("1_0"), Err(ChampParseError {}));
    assert_eq!(Champ::parse("++1"), Err(ChampParseError {}));
    assert_eq!(Champ::parse("twelve"), Err(ChampParseError {}));
    assert_eq!(Champ::parse("١٢"), Err(ChampParseError {}));
}

#[test]
fn champ_parsing_agrees_with_the_standard_parser() {
    for text in ["12", "0", "007", "+15", "65535", "65536", "", "+", "-1", "1 ", "+-3", "0x10", "４"] {
        assert_eq!(Champ::parse(text).ok().map(|c| c.id), text.parse::<u16>().ok());
    }
}

#[test]
fn champ_converts_to_and_from_text() {
    assert_eq!(Champ { id: 0 }.to_string(), "0");
    assert_eq!(Champ { id: 7 }.to_string(), "7");
    assert_eq!(Champ { id: 120 }.to_string(), "120");
    assert_eq!(Champ { id: 65535 }.to_string(), "65535");
    assert_eq!(String::from(Champ { id: 266 }), "266");
    assert_eq!(Champ::try_from("266".to_string()), Ok(Champ { id: 266 }));
    assert_eq!(Champ::try_from("Aatrox".to_string()), Err(ChampParseError {}));
    for id in [0u16, 9, 10, 99, 100, 4321, 65535] {
        assert_eq!(Champ::parse(&Champ { id }.to_string()), Ok(Champ { id }));
    }
}

#[test]
fn ok_ref_borrows_the_value() {
    let ok: Result<u8, String> = Ok(3);
    let err: Result<u8, String> = Err("no".to_string());
    assert_eq!(ok_ref(&ok), Some(&3));
    assert_eq!(ok_ref(&err), None);
}

#[test]
fn client_state_knows_champ_select() {
    assert!(!ClientState::default().is_champ_select());
    assert!(!ClientState::WaitingForChampSelect.is_champ_select());
    assert!(ClientState::ChampSelect(state()).is_champ_select());
}

fn manual() -> App {
    let mut app = App::new();
    app.selected_champ = Champ { id: 5 };
    app
}

fn select(input: &App) -> &ARAMChampSelectState {
    match &input.champ_select_state {
        ClientState::ChampSelect(state) => state,
        ClientState::WaitingForChampSelect => panic!("not in champion select"),
    }
}

#[test]
fn manual_input_starts_champ_select() {
    let mut input = manual();
    input.update_manual(ManualInputMessage::AddBench(Champ { id: 9 }));
    assert_eq!(select(&input).bench, champs(&[9]));
    assert_eq!(select(&input).team_champs, [Champ { id: 0 }; 5]);
    assert_eq!(select(&input).your_champ, 0);
    assert_eq!(input.selected_champ, Champ { id: 5 });
}

#[test]
fn manual_input_changes_bench_and_team() {
    let mut input = manual();
    input.champ_select_state = ClientState::ChampSelect(state());
    input.update_manual(ManualInputMessage::RemoveBench(0));
    assert_eq!(select(&input).bench, champs(&[51, 124, 12, 53]));
    input.update_manual(ManualInputMessage::SwapBench(3, Champ { id: 5 }));
    assert_eq!(select(&input).bench, champs(&[51, 124, 12, 5]));
    input.update_manual(ManualInputMessage::SwapTeam(0, Champ { id: 6 }));
    assert_eq!(select(&input).team_champs.to_vec(), champs(&[6, 12, 3, 1, 12]));
    input.update_manual(ManualInputMessage::RemoveBench(40));
    assert_eq!(select(&input).bench, champs(&[51, 124, 12, 5]));
}

#[test]
fn manual_selection_keeps_text_and_selects_what_it_denotes() {
    let mut input = manual();
    input.update_manual(ManualInputMessage::ChangeSelection("26".to_string()));
    assert_eq!(input.champ_input, "26");
    assert_eq!(input.selected_champ, Champ { id: 26 });
    assert!(input.champ_select_state.is_champ_select());
    input.update_manual(ManualInputMessage::ChangeSelection("26x".to_string()));
    assert_eq!(input.champ_input, "26x");
    assert_eq!(input.selected_champ, Champ { id: 26 });
}

#[test]
fn simulator_commands_change_the_state() {
    let mut fetcher = FakeChampSelectFetcher::new();
    assert_eq!(fetcher.get_champ_select_state(), ARAMChampSelectState::default());
    assert!(fetcher.simulator(Commands::RmBench).is_none());
    assert!(fetcher.state.bench.is_empty());
    assert!(fetcher.simulator(Commands::AddBench { champ: Champ { id: 3 } }).is_none());
    assert!(fetcher.simulator(Commands::AddBench { champ: Champ { id: 4 } }).is_none());
    assert!(fetcher.simulator(Commands::RmBench).is_none());
    assert_eq!(fetcher.state.bench, champs(&[3]));
    assert!(fetcher.simulator(Commands::YourChamp { champ: Champ { id: 8 } }).is_none());
    assert!(fetcher.simulator(Commands::TeamChamps { pos: 4, champ: Champ { id: 2 } }).is_none());
    assert_eq!(fetcher.state.team_champs.to_vec(), champs(&[8, 0, 0, 0, 2]));
    let shown = fetcher.simulator(Commands::Print).unwrap();
    assert_eq!(shown, fetcher.get_champ_select_state());
    assert_eq!(shown.bench, champs(&[3]));
}

fn session(team: &[(u16, u64)]) -> ChampSelectSession {
    ChampSelectSession {
        has_http_status: false,
        bench_champion_ids: vec![7, 8],
        my_team: team
            .iter()
            .map(|&(champion_id, summoner_id)| TeamMember { champion_id, summoner_id })
            .collect(),
    }
}

#[test]
fn session_gives_champ_select_state() {
    let fetcher = ChampSelectFetcher { summoner_id: 42 };
    let team = [(1, 40), (2, 41), (3, 42), (4, 43), (5, 44)];
    let cs = fetcher.get_champ_select_state(&session(&team)).unwrap();
    assert_eq!(cs.your_champ, 2);
    assert_eq!(cs.bench, champs(&[7, 8]));
    assert_eq!(cs.team_champs.to_vec(), champs(&[1, 2, 3, 4, 5]));
}

#[test]
fn session_takes_last_own_member_and_defaults_to_first() {
    let fetcher = ChampSelectFetcher { summoner_id: 42 };
    let twice = [(1, 42), (2, 41), (3, 42), (4, 43), (5, 44)];
    assert_eq!(fetcher.get_champ_select_state(&session(&twice)).unwrap().your_champ, 2);
    let never = [(1, 1), (2, 2), (3, 3), (4, 4), (5, 5)];
    assert_eq!(fetcher.get_champ_select_state(&session(&never)).unwrap().your_champ, 0);
}

#[test]
fn session_with_wrong_team_size_or_status_gives_error() {
    let fetcher = ChampSelectFetcher { summoner_id: 42 };
    let four = [(1, 40), (2, 41), (3, 42), (4, 43)];
    assert_eq!(
        fetcher.get_champ_select_state(&session(&four)),
        Err(SessionError::NotFiveTeamMembers { members: 4 })
    );
    let six = [(1, 40), (2, 41), (3, 42), (4, 43), (5, 44), (6, 45)];
    assert_eq!(
        fetcher.get_champ_select_state(&session(&six)),
        Err(SessionError::NotFiveTeamMembers { members: 6 })
    );
    let mut status = session(&[(1, 40), (2, 41), (3, 42), (4, 43), (5, 44)]);
    status.has_http_status = true;
    assert_eq!(fetcher.get_champ_select_state(&status), Err(SessionError::NotInChampSelect));
}

#[test]
fn champion_ids_map_to_their_last_position() {
    let all: Vec<(String, Champ)> = [("a", 10u16), ("b", 20), ("c", 10), ("d", 30)]
        .iter()
        .map(|&(name, id)| (name.to_string(), Champ { id }))
        .collect();
    let map = map_champ_id_to_index(&all);
    assert_eq!(map.len(), 3);
    assert_eq!(map[&10], 2);
    assert_eq!(map[&20], 1);
    assert_eq!(map[&30], 3);
    let team = [10u16, 30, 99, 20, 10].map(Champ::from);
    assert_eq!(one_hot_positions(&team, &map), [2, 3, 3, 1, 2]);
    assert!(map_champ_id_to_index(&vec![]).is_empty());
}

#[test]
fn known_champions_are_ranked_by_id() {
    let all = init_all_champs();
    assert_eq!(all[&1], 0); // Annie has the least id
    assert_eq!(all[&2], 1);
    assert_eq!(all[&3], 2);
    assert!(!all.contains_key(&0));
    assert!(!all.contains_key(&1001));
    assert!(all.contains_key(&266));
    let mut ranks: Vec<usize> = all.values().copied().collect();
    ranks.sort();
    assert_eq!(ranks, (0..all.len()).collect::<Vec<_>>());
    let mut by_id: Vec<(i32, usize)> = all.iter().map(|(&id, &rank)| (id, rank)).collect();
    by_id.sort();
    assert!(by_id.windows(2).all(|w| w[0].1 + 1 == w[1].1));
    let positions = node_positions(&[1, 2, 0, 3, 30000], &all).unwrap();
    assert_eq!(positions, [0, 1, all.len(), 2, all.len()]);
    // champion 60045 is known, lies beyond the ranked ids, and so has no position
    assert_eq!(node_positions(&[1, 2, 60045, 3, 4], &all), None);
}

#[test]
fn each_choice_gives_a_team_to_rate() {
    let mut cs = state();
    cs.bench = champs(&[1, 51]);
    cs.your_champ = 1;
    let teams = cs.choice_teams();
    assert_eq!(teams.len(), 3);
    assert_eq!(teams[0].to_vec(), champs(&[123, 12, 3, 1, 12]));
    assert_eq!(teams[1].to_vec(), champs(&[123, 1, 3, 1, 12]));
    assert_eq!(teams[2].to_vec(), champs(&[123, 51, 3, 1, 12]));
}

#[test]
fn app_starts_waiting() {
    let app = App::new();
    assert!(!app.champ_select_state.is_champ_select());
    assert_eq!(app.champ_select_fetcher, None);
    assert!(!app.aram_ai_model);
    assert_eq!(app.debug, DebugInfo { enabled: false, message_count: 0 });
    assert!(!app.manual_input_enabled);
    assert_eq!(app.selected_champ, Champ { id: 0 });
    assert_eq!(app.champ_input, "");
    assert_eq!(app.title(), "ARAM Assistant");
    assert_eq!(app.subscription(), None);
}

#[test]
fn app_polls_once_the_fetcher_is_ready_and_input_is_not_manual() {
    let fetcher = ChampSelectFetcher { summoner_id: 42 };
    let mut app = App::new();
    assert_eq!(app.update(Message::InitFetcher(fetcher)), Command::Nothing);
    assert_eq!(app.champ_select_fetcher, Some(fetcher));
    assert_eq!(app.subscription(), Some(1000));
    assert_eq!(
        app.update(Message::UpdateChampSelectState),
        Command::FetchChampSelectState(fetcher)
    );
    assert_eq!(app.update(Message::SetChampSelectState(state())), Command::Nothing);
    assert_eq!(select(&app).bench, champs(&[1, 51, 124, 12, 53]));
    assert_eq!(app.update(Message::EnableManualInput), Command::Nothing);
    assert!(app.manual_input_enabled);
    assert_eq!(select(&app).bench, champs(&[1, 51, 124, 12, 53]));
    assert_eq!(app.subscription(), None);
}

#[test]
fn app_counts_messages_while_debugging() {
    let mut app = App::new();
    app.update(Message::Error);
    assert_eq!(app.debug, DebugInfo { enabled: false, message_count: 0 });
    app.update(Message::Debug(DebugMessage::EnableDebug));
    assert_eq!(app.debug, DebugInfo { enabled: true, message_count: 0 });
    app.update(Message::InitARAMAIModel);
    assert!(app.aram_ai_model);
    app.update(Message::Error);
    assert_eq!(app.debug, DebugInfo { enabled: true, message_count: 2 });
    app.debug.message_count = u32::MAX;
    app.update(Message::ManualInput(ManualInputMessage::AddBench(Champ { id: 1 })));
    assert_eq!(app.debug, DebugInfo { enabled: true, message_count: 0 });
    assert_eq!(select(&app).bench, champs(&[1]));
    app.update_debug();
    assert_eq!(app.debug.message_count, 1);
}

#[test]
fn manual_input_switch_starts_champ_select() {
    let mut app = App::new();
    app.update(Message::EnableManualInput);
    assert_eq!(select(&app), &ARAMChampSelectState::default());
}
