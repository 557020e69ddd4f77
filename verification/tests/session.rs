use ascii_game::draw::DrawOp;
use ascii_game::game::session::{Input, Session};

fn shown(ops: &[DrawOp]) -> Vec<String> {
    ops.iter().map(|o| format!("{:?}", o)).collect()
}

fn step(s: &mut Session, input: Input) -> (bool, Vec<String>) {
    assert!(s.input_ok(&input));
    let (quit, ops) = s.handle_input(input);
    (quit, shown(&ops))
}

#[test]
fn new_session_starts_still() {
    let s = Session::new((80, 24), 1);
    assert_eq!(s.ss, (80, 24));
    assert_eq!((s.player_x, s.player_y), (0, 0));
    assert!(!s.paused && !s.have_moved && !s.toggle);
    assert_eq!(s.old_m, 1);
    assert!(s.map.get_chunk(0, 0).is_none());
}

#[test]
fn q_quits() {
    let mut s = Session::new((80, 24), 1);
    assert_eq!(step(&mut s, Input::Character('q')), (true, vec![]));
    assert_eq!(step(&mut s, Input::Character('x')).0, false);
}

#[test]
fn keys_move_the_player() {
    let mut s = Session::new((80, 24), 1);
    step(&mut s, Input::Character('w'));
    step(&mut s, Input::Character('a'));
    step(&mut s, Input::Character('a'));
    assert_eq!((s.player_x, s.player_y), (-2, -1));
    assert!(s.have_moved);
    step(&mut s, Input::Character('s'));
    step(&mut s, Input::Character('d'));
    assert_eq!((s.player_x, s.player_y), (-1, 0));
}

#[test]
fn moving_past_the_edge_is_refused() {
    let mut s = Session::new((80, 24), 1);
    s.player_y = i32::MIN;
    assert!(!s.input_ok(&Input::Character('w')));
    assert!(s.input_ok(&Input::Character('s')));
}

#[test]
fn escape_toggles_pause() {
    let mut s = Session::new((80, 24), 1);
    step(&mut s, Input::Character('\u{1b}'));
    assert!(s.paused);
    assert!(s.ready_to_draw());
    assert_eq!(shown(&s.draw()), vec!["Text(40, 12, \"PAUSED\")"]);
    step(&mut s, Input::Character('\u{1b}'));
    assert!(!s.paused);
}

#[test]
fn mouse_release_marks_and_toggles() {
    let mut s = Session::new((80, 24), 4);
    assert_eq!(step(&mut s, Input::Mouse(3, 7, 2)).1, Vec::<String>::new());
    assert_eq!((s.mx, s.my, s.old_m), (3, 7, 2));
    assert!(!s.toggle);
    assert_eq!(step(&mut s, Input::Mouse(5, 6, 4 | 8)).1, vec!["Plot(5, 6, 'x')"]);
    assert!(s.toggle);
    assert_eq!((s.x0, s.y0), (5, 6));
    step(&mut s, Input::Mouse(9, 9, 4));
    assert!(!s.toggle);
    assert_eq!((s.x0, s.y0), (5, 6));
    step(&mut s, Input::MouseError);
    assert_eq!((s.mx, s.my), (9, 9));
}

#[test]
fn resize_takes_the_new_size() {
    let mut s = Session::new((80, 24), 1);
    step(&mut s, Input::Resize(100, 40));
    assert_eq!(s.ss, (100, 40));
    step(&mut s, Input::Unknown(3));
    step(&mut s, Input::Other);
    assert_eq!(s.ss, (100, 40));
}

#[test]
fn still_turn_draws_status_lines_only() {
    let mut s = Session::new((80, 24), 1);
    assert!(s.ready_to_draw());
    assert_eq!(
        shown(&s.draw()),
        vec!["FrameTime(0, 0)", "Text(1, 0, \"80,24\")", "Text(2, 0, \"2,1\")"]
    );
    assert!(s.map.get_chunk(0, 0).is_none());
}

#[test]
fn moved_turn_draws_the_map_once() {
    let mut s = Session::new((80, 24), 1);
    step(&mut s, Input::Character('d'));
    assert!(s.ready_to_draw());
    let ops = shown(&s.draw());
    // camera at (1 - 40, 0 - 12) = (-39, -12): chunks -1..=1 across, -1..=0 down
    assert_eq!(ops.len(), 3 * 2 * 2 * 50 * 50 + 2 + 3);
    assert_eq!(ops[1], "Plot(-11, -38, ' ')");
    assert_eq!(ops[ops.len() - 5], "ColorPair(7)");
    assert_eq!(ops[ops.len() - 4], "Plot(40, 12, '@')");
    assert!(!s.have_moved);
    for i in -1..=1 {
        for j in -1..=0 {
            assert!(s.map.get_chunk(i, j).is_some());
        }
    }
    assert!(s.map.get_chunk(2, 0).is_none());
    assert_eq!(shown(&s.draw()).len(), 3);
}
