use ascii_game::client::app::{App, ClientAction, ClientEvent};
use ascii_game::client::ui::MenuState;
use ascii_game::draw::DrawOp;
use ascii_game::shared::actors::{Actors, PointActor, PointActorColor, WorldActor};
use ascii_game::shared::events::{ChatEvent, Events, KeyCommand};

fn shown(ops: &[DrawOp]) -> Vec<String> {
    ops.iter().map(|o| format!("{:?}", o)).collect()
}

fn type_text(app: &mut App, text: &str) {
    for c in text.chars() {
        app.handle_key(c);
    }
}

fn frame(app: &mut App, connected: bool, others: &Vec<(u16, PointActor)>) -> ascii_game::client::app::UiFrame {
    assert!(app.ready_to_draw(connected, others));
    app.draw_ui(connected, others)
}

#[test]
fn app_starts_on_the_main_menu() {
    let app = App::new();
    assert!(app.menu_state == MenuState::Main);
    assert_eq!(app.menu_idx, 0);
    assert!(!app.has_client && !app.paused && !app.chat_open);
    assert!(app.map.is_none());
    assert_eq!(app.ss, (0, 0));
}

#[test]
fn main_menu_draws_two_buttons() {
    let mut app = App::new();
    let f = frame(&mut app, false, &vec![]);
    assert_eq!(
        shown(&f.ops),
        vec![
            "Erase",
            "ColorPair(7)",
            "Text(0, 0, \"CONNECT\")",
            "ColorPair(8)",
            "Text(1, 0, \"EXIT\")",
        ]
    );
    assert!(f.connect_to.is_none() && !f.drop_client);
    assert_eq!(app.menu_counter, 0);
}

#[test]
fn selection_moves_and_saturates() {
    let mut app = App::new();
    app.handle_key('w');
    assert_eq!(app.menu_idx, 0);
    app.handle_key('s');
    assert_eq!(app.menu_idx, 1);
    let f = frame(&mut app, false, &vec![]);
    assert_eq!(shown(&f.ops)[1], "ColorPair(8)");
    assert_eq!(shown(&f.ops)[3], "ColorPair(7)");
    app.menu_idx = 255;
    app.handle_key('s');
    assert_eq!(app.menu_idx, 255);
    assert!(app.queued_command == Some(KeyCommand::new(false, true, false, false)));
}

#[test]
fn pressing_connect_opens_the_address_screen() {
    let mut app = App::new();
    app.handle_key(' ');
    assert!(app.menu_press);
    let f = frame(&mut app, false, &vec![]);
    assert!(app.menu_state == MenuState::Connect);
    assert_eq!(app.menu_idx, 0);
    assert!(!app.menu_press);
    assert_eq!(
        shown(&f.ops),
        vec!["Erase", "ColorPair(7)", "ColorPair(7)", "Text(0, 0, \"EXIT\")"]
    );
}

#[test]
fn typing_an_address_and_connecting() {
    let mut app = App::new();
    app.change_menu(MenuState::Connect);
    let f = frame(&mut app, false, &vec![]);
    assert_eq!(
        shown(&f.ops),
        vec![
            "Erase",
            "ColorPair(7)",
            "Text(0, 0, \"IP:\")",
            "ColorPair(8)",
            "Text(0, 4, \"   \")",
            "ColorPair(8)",
            "Text(1, 0, \"CONNECT\")",
            "ColorPair(8)",
            "Text(3, 0, \"BACK\")",
        ]
    );
    app.handle_key('\n');
    frame(&mut app, false, &vec![]);
    assert!(app.menu_eaten);
    type_text(&mut app, "locaw");
    app.handle_key('\u{8}');
    type_text(&mut app, "lhost");
    let f = frame(&mut app, false, &vec![]);
    assert_eq!(app.ip, "localhost");
    assert_eq!(shown(&f.ops)[4], "Text(0, 4, \"localhost\")");
    app.handle_key('\n');
    assert!(!app.menu_eaten && app.menu_unpress);
    frame(&mut app, false, &vec![]);
    app.handle_key('s');
    app.handle_key(' ');
    let f = frame(&mut app, false, &vec![]);
    let request = f.connect_to.unwrap();
    assert_eq!(request.address, "localhost:14191");
    assert_eq!(request.heartbeat_secs, 2);
    assert_eq!(request.disconnection_timeout_secs, 10000);
    assert_eq!(request.auth.username, "charlie");
    assert_eq!(request.auth.password, "12345");
    assert!(app.has_client);
    assert!(app.menu_state == MenuState::Connecting);
}

#[test]
fn connect_keeps_a_given_port_and_refuses_more_colons() {
    let mut app = App::new();
    assert_eq!(app.connect("10.0.0.1:9000").unwrap().address, "10.0.0.1:9000");
    assert!(app.has_client);
    let mut other = App::new();
    assert!(other.connect("::1").is_none());
    assert!(!other.has_client);
    assert_eq!(other.connect("").unwrap().address, ":14191");
}

#[test]
fn waiting_screen_can_be_cancelled() {
    let mut app = App::new();
    app.connect("server");
    app.change_menu(MenuState::Connecting);
    let f = frame(&mut app, false, &vec![]);
    assert_eq!(
        shown(&f.ops),
        vec![
            "Erase",
            "ColorPair(8)",
            "Text(0, 0, \"CONNECTING...\")",
            "ColorPair(7)",
            "Text(1, 0, \"CANCEL\")",
        ]
    );
    let f = frame(&mut app, true, &vec![]);
    assert_eq!(shown(&f.ops), vec!["Erase", "ColorPair(8)", "Text(0, 0, \":)\")"]);
    app.handle_key(' ');
    let f = frame(&mut app, false, &vec![]);
    assert!(f.drop_client);
    assert!(!app.has_client);
    assert!(app.menu_state == MenuState::Connect);
    let empty = frame(&mut App { menu_state: MenuState::Connecting, ..App::new() }, false, &vec![]);
    assert_eq!(shown(&empty.ops), vec!["Erase"]);
}

#[test]
fn connection_events_switch_screens() {
    let mut app = App::new();
    app.menu_idx = 1;
    assert!(app.handle_client_event(ClientEvent::Connection).is_empty());
    assert!(app.menu_state == MenuState::Game);
    assert_eq!(app.menu_idx, 0);
    app.menu_idx = 2;
    app.handle_client_event(ClientEvent::Disconnection);
    assert!(app.menu_state == MenuState::Connect);
    assert_eq!(app.menu_idx, 0);
}

#[test]
fn tick_sends_queued_command_and_chat_for_a_pawn() {
    let mut app = App::new();
    app.handle_client_event(ClientEvent::Connection);
    app.handle_key('w');
    app.handle_key('\n');
    assert!(app.chat_open && app.menu_eaten);
    type_text(&mut app, "hi");
    app.handle_key('\n');
    assert_eq!(app.chat_msg, Some("hi".to_string()));
    assert_eq!(app.menu_text, "");
    assert!(!app.chat_open);
    assert!(app.handle_client_event(ClientEvent::Tick).is_empty());
    assert!(app.queued_command.is_some());
    app.handle_client_event(ClientEvent::AssignPawn(3));
    assert_eq!(app.pawn_key, Some(3));
    let actions = app.handle_client_event(ClientEvent::Tick);
    assert_eq!(actions.len(), 2);
    match &actions[0] {
        ClientAction::SendCommand(k, c) => {
            assert_eq!(*k, 3);
            assert!(*c == KeyCommand::new(true, false, false, false));
        }
        other => panic!("unexpected {:?}", other),
    }
    match &actions[1] {
        ClientAction::SendChat(e) => assert_eq!(e.body, "hi"),
        other => panic!("unexpected {:?}", other),
    }
    assert!(app.queued_command.is_none() && app.chat_msg.is_none());
    app.handle_client_event(ClientEvent::UnassignPawn(3));
    assert!(app.pawn_key.is_none());
}

#[test]
fn world_actor_brings_a_fresh_map() {
    let mut app = App::new();
    app.handle_client_event(ClientEvent::CreateActor(1, Some(Actors::PointActor(PointActor::new(0, 0, PointActorColor::Red)))));
    assert!(app.map.is_none());
    app.handle_client_event(ClientEvent::CreateActor(2, None));
    assert!(app.map.is_none());
    app.handle_client_event(ClientEvent::CreateActor(4, Some(Actors::WorldActor(WorldActor::new(31)))));
    let map = app.map.as_ref().unwrap();
    assert_eq!(map.seed, 31);
    assert!(map.get_chunk(0, 0).is_none());
}

#[test]
fn pawn_command_moves_the_player() {
    let mut app = App::new();
    let pawn = PointActor::new(4, 4, PointActorColor::Blue);
    let actions = app.handle_client_event(ClientEvent::Command(
        9,
        Events::KeyCommand(KeyCommand::new(false, true, true, false)),
        Some(Actors::PointActor(pawn)),
    ));
    assert_eq!((app.player_x, app.player_y), (3, 5));
    match &actions[..] {
        [ClientAction::UpdatePawn(9, p)] => assert!(*p == PointActor::new(3, 5, PointActorColor::Blue)),
        other => panic!("unexpected {:?}", other),
    }
    let none = app.handle_client_event(ClientEvent::Command(
        9,
        Events::ChatEvent(ChatEvent::new("x")),
        Some(Actors::PointActor(pawn)),
    ));
    assert!(none.is_empty());
    assert_eq!((app.player_x, app.player_y), (3, 5));
}

#[test]
fn chat_events_fill_the_log() {
    let mut app = App::new();
    app.handle_client_event(ClientEvent::Event(Events::ChatEvent(ChatEvent::new("one"))));
    app.handle_client_event(ClientEvent::Event(Events::KeyCommand(KeyCommand::new(true, true, true, true))));
    app.handle_client_event(ClientEvent::Other);
    assert_eq!(app.chat_log, vec!["one".to_string()]);
}

#[test]
fn escape_pauses_and_closes_the_chat() {
    let mut app = App::new();
    app.handle_client_event(ClientEvent::Connection);
    app.handle_key('\n');
    type_text(&mut app, "abc");
    app.handle_key('\u{1b}');
    assert!(app.paused && !app.chat_open && !app.menu_eaten && app.menu_unpress);
    assert_eq!(app.menu_text, "");
    app.handle_key('\u{1b}');
    assert!(!app.paused);
}

#[test]
fn k_toggles_key_logging() {
    let mut app = App::new();
    app.handle_key('k');
    assert!(app.debug_keys);
    app.handle_key('k');
    assert!(!app.debug_keys);
}

#[test]
fn game_screen_draws_map_player_and_others() {
    let mut app = App::new();
    app.has_client = true;
    app.handle_client_event(ClientEvent::Connection);
    app.handle_client_event(ClientEvent::CreateActor(1, Some(Actors::WorldActor(WorldActor::new(8)))));
    app.handle_client_event(ClientEvent::AssignPawn(5));
    let others = vec![
        (5, PointActor::new(0, 0, PointActorColor::Red)),
        (6, PointActor::new(2, -3, PointActorColor::Red)),
    ];
    let f = frame(&mut app, true, &others);
    let ops = shown(&f.ops);
    assert_eq!(ops.len(), 1 + 2 * 32 * 32 + 2 + 1 + 2 + 1);
    assert_eq!(ops[0], "Erase");
    assert_eq!(ops[2], "Plot(0, 0, ' ')");
    assert_eq!(ops[4], "Plot(0, 1, ' ')");
    assert_eq!(ops[2 * 32 + 2], "Plot(1, 0, ' ')");
    assert_eq!(ops[2049], "ColorPair(7)");
    assert_eq!(ops[2050], "Plot(0, 0, '@')");
    assert_eq!(ops[2051], "Plot(2, -3, 'O')");
    assert_eq!(ops[2052], "FrameTime(0, 0)");
    assert_eq!(ops[2053], "Text(1, 0, \"0,0\")");
    assert_eq!(ops[2054], "Text(-1, 0, \"\")");
    let map = app.map.as_ref().unwrap();
    let chunk = map.get_chunk(0, 0).unwrap();
    let color = |t| if t == ascii_game::shared::game::map::Tile::Air { "ColorPair(8)" } else { "ColorPair(2)" };
    assert_eq!(ops[1], color(chunk.tiles[0][0]));
    assert_eq!(ops[3], color(chunk.tiles[0][1]));
    assert!(map.get_chunk(1, 0).is_none());
}

#[test]
fn game_screen_without_connection_shows_status_only() {
    let mut app = App::new();
    app.handle_client_event(ClientEvent::Connection);
    let f = frame(&mut app, true, &vec![]);
    assert_eq!(shown(&f.ops), vec!["Erase", "Text(-1, 0, \"\")"]);
    app.has_client = true;
    let f = frame(&mut app, false, &vec![]);
    assert_eq!(
        shown(&f.ops),
        vec!["Erase", "FrameTime(0, 0)", "Text(1, 0, \"0,0\")", "Text(-1, 0, \"\")"]
    );
}

#[test]
fn chat_log_needs_a_screen_width() {
    let mut app = App::new();
    app.handle_client_event(ClientEvent::Connection);
    app.handle_client_event(ClientEvent::Event(Events::ChatEvent(ChatEvent::new("hello"))));
    assert!(!app.ready_to_draw(false, &vec![]));
}

#[test]
fn chat_log_shows_the_last_ten_lines() {
    let mut app = App::new();
    app.handle_client_event(ClientEvent::Connection);
    app.ss = (4, 30);
    for i in 0..12 {
        let line = if i == 11 { "abcdefghi".to_string() } else { format!("m{}", i) };
        app.handle_client_event(ClientEvent::Event(Events::ChatEvent(ChatEvent::new(&line))));
    }
    let f = frame(&mut app, false, &vec![]);
    let ops = shown(&f.ops);
    assert_eq!(ops[1], "Text(29, 0, \"\")");
    assert_eq!(ops[2], "Text(19, 0, \"m2\")");
    assert_eq!(ops[3], "Text(20, 0, \"m3\")");
    assert_eq!(ops[10], "Text(27, 0, \"m10\")");
    assert_eq!(ops[11], "Text(28, 0, \"abcdefghi\")");
    assert_eq!(ops.len(), 12);
}

#[test]
fn chat_log_only_grows_and_open_chat_captures_typing() {
    let mut app = App::new();
    app.handle_client_event(ClientEvent::Connection);
    app.handle_client_event(ClientEvent::Event(Events::ChatEvent(ChatEvent::new("a"))));
    app.handle_key('\n');
    assert!(app.chat_open && app.menu_eaten);
    app.handle_client_event(ClientEvent::Disconnection);
    app.handle_key('\n');
    assert!(app.chat_open && app.menu_eaten);
    app.handle_client_event(ClientEvent::Event(Events::ChatEvent(ChatEvent::new("b"))));
    assert_eq!(app.chat_log, vec!["a".to_string(), "b".to_string()]);
}
