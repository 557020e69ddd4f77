use ascii_game::client::renderer::{grid_dimensions, key_event, plot_visible, window_event, Event, WindowInput};
use ascii_game::text::{count_colons_up_to_two, push_decimal, push_decimal_digits, string_pop, string_push};

#[test]
fn decimal_digits_and_signs() {
    let mut s = String::new();
    push_decimal(&mut s, 0);
    assert_eq!(s, "0");
    let mut s = String::from("x=");
    push_decimal(&mut s, -120);
    assert_eq!(s, "x=-120");
    let mut s = String::new();
    push_decimal(&mut s, i32::MIN as i64);
    assert_eq!(s, "-2147483648");
    let mut s = String::new();
    push_decimal_digits(&mut s, u64::MAX);
    assert_eq!(s, "18446744073709551615");
}

#[test]
fn colons_are_counted_up_to_two() {
    assert_eq!(count_colons_up_to_two(""), 0);
    assert_eq!(count_colons_up_to_two("localhost"), 0);
    assert_eq!(count_colons_up_to_two("host:80"), 1);
    assert_eq!(count_colons_up_to_two("::1"), 2);
    assert_eq!(count_colons_up_to_two("a:b:c:d"), 2);
}

#[test]
fn push_and_pop_characters() {
    let mut s = String::from("ab");
    string_push(&mut s, 'é');
    assert_eq!(s, "abé");
    assert_eq!(string_pop(&mut s), Some('é'));
    assert_eq!(string_pop(&mut s), Some('b'));
    assert_eq!(string_pop(&mut s), Some('a'));
    assert_eq!(string_pop(&mut s), None);
    assert_eq!(s, "");
}

#[test]
fn scan_codes_stand_for_characters() {
    assert!(key_event(28) == Some(Event::Character('\n')));
    assert!(key_event(14) == Some(Event::Character('\u{8}')));
    assert!(key_event(1) == Some(Event::Character('\u{1b}')));
    assert!(key_event(30).is_none());
}

#[test]
fn framebuffer_grid_dimensions() {
    assert_eq!(grid_dimensions(Some((1920, 1080))), (60, 33));
    assert_eq!(grid_dimensions(Some((31, 32))), (0, 1));
    assert_eq!(grid_dimensions(Some((u32::MAX, 0))), (-1, 0));
    assert_eq!(grid_dimensions(None), (0, 0));
}

#[test]
fn window_turns() {
    assert!(window_event(WindowInput::CloseRequested) == (None, true));
    assert!(window_event(WindowInput::Resized) == (None, false));
    assert!(window_event(WindowInput::KeyPressed(28)) == (Some(Event::Character('\n')), false));
    assert!(window_event(WindowInput::KeyPressed(2)) == (None, false));
    assert!(window_event(WindowInput::KeyReleased(28)) == (None, false));
    assert!(window_event(WindowInput::ReceivedCharacter('z')) == (Some(Event::Character('z')), false));
    assert!(window_event(WindowInput::Other) == (None, false));
}

#[test]
fn plots_off_screen_are_skipped() {
    assert!(plot_visible(0, 0));
    assert!(plot_visible(5, 9));
    assert!(!plot_visible(-1, 3));
    assert!(!plot_visible(3, -1));
}
