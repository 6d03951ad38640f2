use carnival::carnival_matchserver::actions::{Action, ActionChain as TypedChain, Actions};
use carnival::carnival_matchserver::client_state::{ClientState, Menu, Probe, Verdict};
use carnival::carnival_matchserver::connection::{
    connect_start, connect_step, ConnAction, ConnEvent, ConnState,
};
use carnival::carnival_matchserver::dyn_actions::{ActionType, DynamicAction, DynamicActionChain};
use carnival::carnival_matchserver::game_state::GameState;
use carnival::carnival_matchserver::input::{
    keypress, keypress_for_duration, type_str, InputStep, Key, Plannable,
};
use carnival::carnival_matchserver::map::GameMap;
use carnival::carnival_matchserver::scan::{
    filter_fps_gt_60, filter_pages, i32_match_offsets, is_fps_reading_above_60,
    str_match_offsets, to_i32_little_endian, turboscan_chunks, CachedScan, ScanResult,
    ScanWorker, THREADSAFE_MEMORY_BASIC_INFO, _filter_engine_rev, _retain_valid, NOT_CACHED,
};
use carnival::carnival_matchserver::state_handler::StateHandler;
use carnival::carnival_matchserver::static_actions::{
    ActionChain, ActionStyle, KeyboardAction, MouseAction,
};
use carnival::carnival_matchserver::types::ResolvedTeams;
use carnival::carnival_matchserver::window::style_without;
use carnival::chains::ChainTable;

fn describe(plan: &[InputStep]) -> Vec<String> {
    plan.iter()
        .map(|s| match s {
            InputStep::Click { x, y } => format!("click {x},{y}"),
            InputStep::Sleep { millis } => format!("sleep {millis}"),
            InputStep::SendStr { text } => format!("type {text}"),
            InputStep::Send { key } => format!("send {key:?}"),
            InputStep::Press { key } => format!("press {key:?}"),
            InputStep::Release { key } => format!("release {key:?}"),
        })
        .collect()
}

#[test]
fn type_str_pauses_between_characters() {
    let mut plan = Vec::new();
    type_str(&mut plan, "ab", 25);
    assert_eq!(describe(&plan), vec!["sleep 25", "type a", "sleep 25", "type b", "sleep 125"]);
}

#[test]
fn keypresses_plan_press_and_pause() {
    let mut plan = Vec::new();
    keypress(&mut plan, Key::DownArrow, 90);
    keypress_for_duration(&mut plan, Key::Space, 300);
    assert_eq!(
        describe(&plan),
        vec!["send DownArrow", "sleep 90", "press Space", "sleep 300", "release Space", "sleep 300"]
    );
}

#[test]
fn chain_table_reads_back_what_was_written() {
    let mut t: ChainTable<u8> = ChainTable::new();
    assert!(t.get("a").is_none());
    t.insert("a".to_string(), vec![1, 2]);
    t.insert("b".to_string(), vec![3]);
    t.insert("a".to_string(), vec![4]);
    assert_eq!(t.get("a"), Some(&vec![4]));
    assert_eq!(t.get("b"), Some(&vec![3]));
    assert!(t.contains("b"));
    assert!(!t.contains("c"));
}

fn lobby_chains() -> ActionChain {
    let mut chains = ActionChain::new();
    chains.0.insert(
        "custom_lobby".to_string(),
        vec![ActionStyle::MouseAction(MouseAction { x: 10, y: 20, delay: 5 })],
    );
    chains.0.insert(
        "move_self_spec".to_string(),
        vec![ActionStyle::KeyboardAction(KeyboardAction { input: "spec".to_string(), delay: 1 })],
    );
    chains.0.insert("set_preset".to_string(), vec![]);
    chains.0.insert(
        "set_invite_only".to_string(),
        vec![ActionStyle::MouseAction(MouseAction { x: 1, y: 2, delay: 3 })],
    );
    chains
}

#[test]
fn invoke_chain_plans_each_action_in_order() {
    let chains = lobby_chains();
    let mut plan = Vec::new();
    chains.invoke_chain("custom_lobby", &mut plan).invoke_chain("move_self_spec", &mut plan);
    assert_eq!(describe(&plan), vec!["click 10,20", "sleep 5", "type spec", "sleep 1"]);
}

#[test]
fn menu_advance_sets_up_the_lobby_once() {
    let chains = lobby_chains();
    let mut game = GameState::default();
    let mut plan = Vec::new();
    Menu::MainMenu.advance(&chains, &mut game, &mut plan);
    assert_eq!(describe(&plan), vec!["click 10,20", "sleep 5"]);
    assert!(!game.game_configured());
    let mut plan = Vec::new();
    Menu::CustomLobby.advance(&chains, &mut game, &mut plan);
    assert_eq!(describe(&plan), vec!["type spec", "sleep 1", "click 1,2", "sleep 3"]);
    assert!(game.game_configured());
    let mut plan = Vec::new();
    Menu::CustomLobby.advance(&chains, &mut game, &mut plan);
    assert!(plan.is_empty());
    Menu::InGame.advance(&chains, &mut game, &mut plan);
    assert!(plan.is_empty());
}

#[test]
fn determine_settles_on_the_first_recognised_menu() {
    let state = ClientState::default();
    assert!(matches!(ClientState::determine_probe(0), Probe::FpsAbove60));
    match ClientState::determine_probe(2) {
        Probe::Text { needle, break_at_count } => {
            assert_eq!(needle, "2.7.0.0 - 117535");
            assert_eq!(break_at_count, 9);
        }
        _ => panic!("stage 2 searches for text"),
    }
    assert_eq!(state.determine(0, 5), Verdict::Decided { menu: Menu::InGame, pause_secs: 1 });
    assert_eq!(state.determine(0, 4), Verdict::Next { stage: 1 });
    assert_eq!(state.determine(1, 3), Verdict::Decided { menu: Menu::CustomLobby, pause_secs: 0 });
    assert_eq!(state.determine(2, 8), Verdict::Next { stage: 3 });
    assert_eq!(state.determine(3, 5), Verdict::Decided { menu: Menu::PlayMenu, pause_secs: 0 });
    assert_eq!(state.determine(4, 4), Verdict::Decided { menu: Menu::CustomList, pause_secs: 0 });
    assert_eq!(state.determine(4, 3), Verdict::Decided { menu: Menu::Unknown, pause_secs: 0 });
}

#[test]
fn invite_chain_moves_only_the_team_slot_for_red() {
    let mut blue = Vec::new();
    DynamicActionChain::generate_invite_chain("Ana#1".to_string(), 1).invoke(&mut blue);
    let mut red = Vec::new();
    DynamicActionChain::generate_invite_chain("Ana#1".to_string(), 2).invoke(&mut red);
    let b = describe(&blue);
    let r = describe(&red);
    assert_eq!(b.len(), r.len());
    assert_eq!(b[0..5], vec!["sleep 25", "click 1675,250", "sleep 150", "click 1244,780", "sleep 25"][..]);
    assert_eq!(b[5], "click 1204,867");
    assert_eq!(r[5], "click 1204,906");
    for i in 0..b.len() {
        if i != 5 {
            assert_eq!(b[i], r[i]);
        }
    }
    assert!(b.contains(&"type #".to_string()));
    assert_eq!(b.last().unwrap(), "click 1026,892");
}

#[test]
fn dynamic_keyboard_action_waits_before_typing() {
    let mut plan = Vec::new();
    DynamicAction::new(ActionType::Keyboard, "x".to_string(), 0, 0, 2).invoke(&mut plan);
    assert_eq!(describe(&plan), vec!["sleep 100", "sleep 2", "type x", "sleep 10"]);
}

#[test]
fn invite_covers_blue_then_red() {
    let teams = ResolvedTeams { blue: vec!["B#1".to_string()], red: vec!["R#2".to_string()] };
    let mut plan = Vec::new();
    teams.invite(&mut plan);
    let d = describe(&plan);
    let b = d.iter().position(|s| s == "type B").unwrap();
    let r = d.iter().position(|s| s == "type R").unwrap();
    assert!(b < r);
    assert!(d.contains(&"click 1204,867".to_string()));
    assert!(d.contains(&"click 1204,906".to_string()));
}

#[test]
fn map_data_table() {
    assert_eq!(format!("{:?}", GameMap::Busan.data()), "MapData { idx: 2, varied_skybox: true }");
    assert_eq!(format!("{:?}", GameMap::None3.data()), "MapData { idx: 0, varied_skybox: false }");
    assert_eq!(format!("{:?}", GameMap::NewQueenStreet.data()), "MapData { idx: 32, varied_skybox: true }");
    assert_eq!(format!("{:?}", GameMap::Numbani.data()), "MapData { idx: 28, varied_skybox: false }");
}

#[test]
fn map_select_moves_down_then_confirms() {
    let mut plan = Vec::new();
    GameMap::Busan.select(&mut plan);
    assert_eq!(
        describe(&plan),
        vec![
            "send DownArrow", "sleep 90", "sleep 200", "press Space", "sleep 300", "release Space",
            "sleep 300", "send DownArrow", "sleep 100", "press RightArrow", "sleep 120",
            "release RightArrow", "sleep 120"
        ]
    );
    let mut plan = Vec::new();
    GameMap::NoMap.select(&mut plan);
    assert_eq!(describe(&plan)[0], "sleep 200");
    assert_eq!(plan.len(), 5);
}

#[test]
fn state_handler_dummy_data() {
    let mut h = StateHandler::default();
    h.test_set_dummy_data().game_state.has_game = true;
    assert!(h.game_state.has_game());
    assert_eq!(format!("{:?}", h.client_state), "ClientState { client_state: CustomSettingsRoot, previous_state: CustomLobby }");
}

fn sends(actions: &[ConnAction]) -> Vec<String> {
    actions.iter().map(|a| format!("{a:?}")).collect()
}

#[test]
fn connection_asks_and_forwards_a_match() {
    let (s, a) = connect_start();
    assert_eq!(s, ConnState::Authenticating);
    assert_eq!(sends(&a), vec!["Send(\"auth:debugtoken69\")"]);
    let (s, a) = connect_step(s, ConnEvent::Received(Some("ok".to_string())));
    assert_eq!((s, a.len()), (ConnState::Polling, 0));
    let (s, a) = connect_step(s, ConnEvent::GameStatus { has_game: true });
    assert_eq!(s, ConnState::Polling);
    assert_eq!(sends(&a), vec!["SleepSecs(5)"]);
    let (s, a) = connect_step(s, ConnEvent::GameStatus { has_game: false });
    assert_eq!(s, ConnState::AwaitingReply);
    assert_eq!(sends(&a), vec!["Send(\"match?\")"]);
    let (s2, a) = connect_step(s, ConnEvent::Received(Some("nope".to_string())));
    assert_eq!(s2, ConnState::Polling);
    assert_eq!(sends(&a), vec!["SleepSecs(5)"]);
    let (s, _) = connect_step(s, ConnEvent::Received(Some("match".to_string())));
    assert_eq!(s, ConnState::AwaitingMatch);
    let (s, a) = connect_step(s, ConnEvent::Received(Some("{data}".to_string())));
    assert_eq!(s, ConnState::Forwarding);
    assert_eq!(sends(&a), vec!["Notify(\"match ack\")", "Forward(\"{data}\")"]);
    let (s, a) = connect_step(s, ConnEvent::Forwarded { ok: true });
    assert_eq!(s, ConnState::Polling);
    assert_eq!(sends(&a), vec!["Notify(\"match lobby\")"]);
    let (_, a) = connect_step(ConnState::Forwarding, ConnEvent::Forwarded { ok: false });
    assert_eq!(sends(&a), vec!["ReportForwardFailure"]);
    let (s, _) = connect_step(ConnState::Authenticating, ConnEvent::Received(None));
    assert_eq!(s, ConnState::Closed);
}

fn page(base: u64, protect: u32, state: u32, ty: u32) -> THREADSAFE_MEMORY_BASIC_INFO {
    THREADSAFE_MEMORY_BASIC_INFO {
        BaseAddress: base,
        AllocationBase: base,
        AllocationProtect: protect,
        PartitionId: 0,
        RegionSize: 4096,
        State: state,
        Protect: protect,
        Type: ty,
    }
}

#[test]
fn filter_pages_keeps_committed_readable_low_pages() {
    let mut pages = vec![
        page(0x1000, 0x04, 0x1000, 0x20000),
        page(0x2000, 0x01, 0x1000, 0x20000),
        page(0x3000, 0x04, 0x2000, 0x20000),
        page(0x4000, 0x04, 0x1000, 0x40000),
        page(0x30000000000, 0x04, 0x1000, 0x1000000),
        page(0x5000, 0x20, 0x1000, 0x1000000),
    ];
    filter_pages(&mut pages);
    let bases: Vec<u64> = pages.iter().map(|p| p.BaseAddress).collect();
    assert_eq!(bases, vec![0x1000, 0x5000]);
}

#[test]
fn pattern_search_finds_every_window() {
    assert_eq!(str_match_offsets(b"aaaa", b"aa"), vec![0, 1, 2]);
    assert_eq!(str_match_offsets(b"FPS: 60 FPS:", b"FPS:"), vec![0, 8]);
    assert_eq!(str_match_offsets(b"ab", b"abc"), Vec::<usize>::new());
}

#[test]
fn four_bytes_read_most_significant_first() {
    assert_eq!(to_i32_little_endian(&[0, 0, 1, 2]), 258);
    assert_eq!(to_i32_little_endian(&[0xff, 0xff, 0xff, 0xff]), -1);
    assert_eq!(to_i32_little_endian(&[0x80, 0, 0, 0]), i32::MIN);
    assert_eq!(i32_match_offsets(&[0, 0, 0, 5, 0, 0, 0, 5], 5), vec![0, 4]);
    assert_eq!(i32_match_offsets(&[1, 2, 3], 1), Vec::<usize>::new());
}

#[test]
fn turboscan_splits_pages_into_sixteen_runs() {
    let chunks = turboscan_chunks(35);
    assert_eq!(chunks.len(), 16);
    assert_eq!(chunks[0], (0, 2));
    assert_eq!(chunks[15], (30, 32));
    assert_eq!(turboscan_chunks(10)[3], (0, 0));
}

fn cached(values: &[&str]) -> CachedScan {
    CachedScan::new(values.iter().enumerate().map(|(i, v)| ScanResult::new(i as u64, v.to_string(), 10)).collect())
}

#[test]
fn fps_readings_above_sixty() {
    assert!(is_fps_reading_above_60("FPS: 144"));
    assert!(!is_fps_reading_above_60("FPS: 61"));
    assert!(is_fps_reading_above_60("FPS: 6 2"));
    assert!(!is_fps_reading_above_60("FP S: 99x"));
    assert!(!is_fps_reading_above_60("fps: 99"));
    assert_eq!(filter_fps_gt_60(None), NOT_CACHED);
    assert_eq!(filter_fps_gt_60(Some(&cached(&["FPS: 60", "FPS: 120", "FPS: 240", "junk"]))), 2);
    assert_eq!(_filter_engine_rev(Some(&cached(&["Jump into a game against", "Jump"]))), 1);
    assert_eq!(_filter_engine_rev(None), NOT_CACHED);
}

#[test]
fn rescan_keeps_successful_reads() {
    let scan = cached(&["FPS: 60", "FPS: 61", "FPS: 62"]);
    let fresh = scan.rescan(vec![Some("FPS: 99".to_string()), None, Some("x".to_string())]);
    let got: Vec<(u64, String)> = fresh.0.iter().map(|r| (r.address, r.value.clone())).collect();
    assert_eq!(got, vec![(0, "FPS: 99".to_string()), (2, "x".to_string())]);
    let one = ScanResult::new(7, "a".to_string(), 3);
    assert_eq!(one.rescan(Some("b".to_string())).unwrap().value, "b");
    assert!(one.rescan(None).is_none());
}

#[test]
fn retain_valid_drops_changed_places() {
    let mut prev = cached(&["a", "b", "c"]).0;
    _retain_valid(&mut prev, vec![Some("a".to_string()), Some("x".to_string()), None]);
    assert_eq!(prev.len(), 1);
    assert_eq!(prev[0].value, "a");
}

#[test]
fn scan_worker_stops_at_its_limit() {
    let mut w = ScanWorker::new(2);
    assert!(!w.offer(1, None, 4));
    assert!(!w.offer(2, Some("x".to_string()), 4));
    assert!(w.offer(3, Some("y".to_string()), 4));
    let found = w.finish();
    assert_eq!(found.iter().map(|r| r.address).collect::<Vec<_>>(), vec![2, 3]);
}

#[test]
fn window_style_bits_are_cleared() {
    assert_eq!(style_without(0x00CF0000, 0x00C00000), 0x000F0000);
    assert_eq!(style_without(-1, 0x00040000), (!0x00040000u32) as isize);
}

#[test]
fn click_chains_plan_clicks() {
    let mut chains = ChainTable::new();
    chains.insert("x".to_string(), vec![Action { x: 1, y: 2, delay: 3 }]);
    let actions = Actions { chains };
    let mut plan = Vec::new();
    actions.invoke_chain("x", &mut plan);
    assert_eq!(describe(&plan), vec!["click 1,2", "sleep 3"]);
    let mut typed = ChainTable::new();
    typed.insert("t".to_string(), vec![ActionType::Mouse]);
    let typed = TypedChain(typed);
    let mut plan = Vec::new();
    typed.invoke_chain("t", &mut plan);
    assert!(plan.is_empty());
}

#[test]
fn game_state_parts_round_trip() {
    let blue = vec!["A#1".to_string(), "B#2".to_string()];
    let red = vec!["C#3".to_string()];
    let g = GameState::from_parts(true, false, blue.clone(), red.clone());
    assert!(g.has_game());
    assert!(!g.game_configured());
    assert_eq!(g.blue_team(), &blue);
    assert_eq!(g.red_team(), &red);
}

#[test]
fn client_state_menus_round_trip() {
    let c = ClientState::from_menus(Menu::CustomLobby, Menu::MainMenu);
    assert_eq!(c.current(), Menu::CustomLobby);
    assert_eq!(c.previous(), Menu::MainMenu);
    let d = ClientState::default();
    assert_eq!(d.current(), Menu::Unknown);
    assert_eq!(d.previous(), Menu::Unknown);
}

#[test]
fn advance_names_per_menu() {
    assert_eq!(Menu::MainMenu.advance_names(false), vec!["custom_lobby"]);
    assert_eq!(Menu::MainMenu.advance_names(true), vec!["custom_lobby"]);
    assert_eq!(
        Menu::CustomLobby.advance_names(false),
        vec!["move_self_spec", "set_preset", "set_invite_only"]
    );
    assert!(Menu::CustomLobby.advance_names(true).is_empty());
    assert!(Menu::InGame.advance_names(false).is_empty());
}

#[test]
fn chain_table_entries_keep_first_insertion_order() {
    let mut t: ChainTable<u64> = ChainTable::new();
    t.insert("b".to_string(), vec![1]);
    t.insert("a".to_string(), vec![2]);
    t.insert("b".to_string(), vec![3]);
    let names: Vec<&str> = t.entries().iter().map(|(n, _)| n.as_str()).collect();
    assert_eq!(names, vec!["b", "a"]);
    assert_eq!(t.entries()[0].1, vec![3]);
    assert_eq!(t.get("b"), Some(&vec![3]));
}

#[test]
fn filtering_pages_twice_keeps_what_once_kept() {
    let mut pages = vec![
        page(0x1000, 0x04, 0x1000, 0x20000),
        page(0x2000, 0x01, 0x1000, 0x20000),
        page(0x5000, 0x20, 0x1000, 0x1000000),
        page(0x30000000000, 0x04, 0x1000, 0x1000000),
    ];
    filter_pages(&mut pages);
    let once: Vec<u64> = pages.iter().map(|p| p.BaseAddress).collect();
    filter_pages(&mut pages);
    let twice: Vec<u64> = pages.iter().map(|p| p.BaseAddress).collect();
    assert_eq!(once, vec![0x1000, 0x5000]);
    assert_eq!(twice, once);
}
