use ascii_game::shared::actors::{Actors, ChatActor, Message, PointActor, PointActorColor, WorldActor};
use ascii_game::shared::events::{AuthEvent, ChatEvent, Events, KeyCommand};
use ascii_game::shared::shared_behaviour::process_command;

#[test]
fn point_actor_color_defaults_to_red() {
    assert!(PointActorColor::default() == PointActorColor::Red);
}

#[test]
fn actors_hold_what_they_were_made_with() {
    let p = PointActor::new(3, -4, PointActorColor::Blue);
    assert_eq!(p.x, 3);
    assert_eq!(p.y, -4);
    assert!(p.color == PointActorColor::Blue);
    assert_eq!(WorldActor::new(77).seed, 77);
    assert!(ChatActor::new().messages.is_empty());
    let m = Message { name: "ann".to_string(), body: "hi".to_string() };
    let chat = ChatActor { messages: vec![m.clone()] };
    assert!(chat.messages[0] == m);
    match Actors::WorldActor(WorldActor::new(1)) {
        Actors::WorldActor(w) => assert_eq!(w.seed, 1),
        _ => panic!("wrong variant"),
    }
}

#[test]
fn events_hold_what_they_were_made_with() {
    let c = KeyCommand::new(true, false, true, false);
    assert!(c.w && !c.s && c.a && !c.d);
    let a = AuthEvent::new("charlie", "12345");
    assert_eq!(a.username, "charlie");
    assert_eq!(a.password, "12345");
    let e = ChatEvent::new("hello there");
    assert_eq!(e.body, "hello there");
    assert!(ChatEvent::is_guaranteed());
    match Events::ChatEvent(e) {
        Events::ChatEvent(e) => assert_eq!(e.body, "hello there"),
        _ => panic!("wrong variant"),
    }
}

#[test]
fn each_key_moves_one_tile() {
    let mut p = PointActor::new(10, 20, PointActorColor::Yellow);
    process_command(&KeyCommand::new(true, false, false, false), &mut p);
    assert_eq!((p.x, p.y), (10, 19));
    process_command(&KeyCommand::new(false, true, false, false), &mut p);
    assert_eq!((p.x, p.y), (10, 20));
    process_command(&KeyCommand::new(false, false, true, false), &mut p);
    assert_eq!((p.x, p.y), (9, 20));
    process_command(&KeyCommand::new(false, false, false, true), &mut p);
    assert_eq!((p.x, p.y), (10, 20));
    assert!(p.color == PointActorColor::Yellow);
}

#[test]
fn empty_command_keeps_pawn() {
    let mut p = PointActor::new(-8, 8, PointActorColor::Red);
    process_command(&KeyCommand::new(false, false, false, false), &mut p);
    assert_eq!((p.x, p.y), (-8, 8));
}

#[test]
fn down_and_right_win_over_up_and_left() {
    let mut p = PointActor::new(0, 0, PointActorColor::Red);
    process_command(&KeyCommand::new(true, true, true, true), &mut p);
    assert_eq!((p.x, p.y), (1, 1));
    let mut q = PointActor::new(5, 5, PointActorColor::Red);
    process_command(&KeyCommand::new(true, false, false, true), &mut q);
    assert_eq!((q.x, q.y), (6, 4));
}

#[test]
fn steps_wrap_at_the_ends() {
    let mut p = PointActor::new(i32::MAX, i32::MIN, PointActorColor::Red);
    process_command(&KeyCommand::new(true, false, false, true), &mut p);
    assert_eq!((p.x, p.y), (i32::MIN, i32::MAX));
    process_command(&KeyCommand::new(false, true, true, false), &mut p);
    assert_eq!((p.x, p.y), (i32::MAX, i32::MIN));
}
