use gridlight::input::Button;
use gridlight::input::ElementState;
use gridlight::input::InputHandler;
use gridlight::input::Key;
use gridlight::input::KeyOrButton;
use gridlight::input::Pressable;

#[test]
fn new_handler_has_nothing_held_or_clicked() {
    let h = InputHandler::new();
    assert!(!h.down(Key::W));
    assert!(!h.clicked(Key::W));
    assert!(h.up(Key::W));
    assert!(!h.down(Button::Left));
    assert!(!h.clicked(Button::Left));
    assert_eq!(h.get_mouse_pos(), (0, 0));
    assert_eq!(h.get_mouse_scroll(), (0, 0));
}

#[test]
fn press_makes_key_held_and_clicked() {
    let mut h = InputHandler::new();
    h.update_key(Key::Space, ElementState::Pressed);
    assert!(h.down(Key::Space));
    assert!(h.clicked(Key::Space));
    assert!(!h.up(Key::Space));
    assert!(!h.down(Key::W));
    assert!(!h.clicked(Key::W));
}

#[test]
fn clicked_true_only_in_press_frame() {
    // A press registers as clicked; after the frame boundary it is held but
    // no longer clicked, and stays unclicked over further frames until a
    // new press happens.
    let mut h = InputHandler::new();
    h.update_key(Key::Up, ElementState::Pressed);
    assert!(h.clicked(Key::Up));
    h.frame();
    assert!(!h.clicked(Key::Up));
    assert!(h.down(Key::Up));
    h.frame();
    assert!(!h.clicked(Key::Up));
    h.update_key(Key::Up, ElementState::Pressed);
    assert!(h.clicked(Key::Up));
}

#[test]
fn release_clears_held_but_not_clicked() {
    let mut h = InputHandler::new();
    h.update_key(Key::A, ElementState::Pressed);
    h.update_key(Key::A, ElementState::Released);
    assert!(!h.down(Key::A));
    assert!(h.up(Key::A));
    // The click stays visible until the frame boundary.
    assert!(h.clicked(Key::A));
    h.frame();
    assert!(!h.clicked(Key::A));
}

#[test]
fn double_press_then_single_release_clears_held() {
    let mut h = InputHandler::new();
    h.update_key(Key::D, ElementState::Pressed);
    h.update_key(Key::D, ElementState::Pressed);
    h.update_key(Key::D, ElementState::Released);
    assert!(!h.down(Key::D));
}

#[test]
fn buttons_track_separately_from_keys() {
    let mut h = InputHandler::new();
    h.update_button(Button::Right, ElementState::Pressed);
    assert!(h.down(Button::Right));
    assert!(h.clicked(Button::Right));
    assert!(!h.down(Button::Left));
    assert!(!h.down(Key::W));
    h.frame();
    assert!(!h.clicked(Button::Right));
    assert!(h.down(Button::Right));
    h.update_button(Button::Right, ElementState::Released);
    assert!(!h.down(Button::Right));
}

#[test]
fn other_keys_are_distinguished_by_code() {
    let mut h = InputHandler::new();
    h.update_key(Key::Other(17), ElementState::Pressed);
    assert!(h.down(Key::Other(17)));
    assert!(!h.down(Key::Other(18)));
}

#[test]
fn cursor_and_scroll_store_bit_patterns() {
    let mut h = InputHandler::new();
    let x = 12.5f64.to_bits();
    let y = (-3.25f64).to_bits();
    h.update_cursor(x, y);
    assert_eq!(h.get_mouse_pos(), (x, y));
    let sx = 0.0f64.to_bits();
    let sy = 1.0f64.to_bits();
    h.update_wheel(sx, sy);
    assert_eq!(h.get_mouse_scroll(), (sx, sy));
    // The frame boundary does not clear coordinates.
    h.frame();
    assert_eq!(h.get_mouse_pos(), (x, y));
    assert_eq!(h.get_mouse_scroll(), (sx, sy));
}

#[test]
fn pressable_splits_keys_and_buttons() {
    assert!(matches!(Key::W.as_button_or_key(), KeyOrButton::Key(Key::W)));
    assert!(matches!(
        Button::Middle.as_button_or_key(),
        KeyOrButton::Button(Button::Middle)
    ));
}
