use scarab_client::input::keys::{build_modifiers, keycode_to_char, typed_key_char, Key, KeyModifiers, KeyboardState};
use scarab_client::input::nav_input::{
    route_nav_input, KeyBinding, Modifier, ModeStack, NavAction, NavInputRouter, NavMode, NavStyle,
};

#[test]
fn test_mode_stack_basic() {
    let mut stack = ModeStack::new();
    assert_eq!(stack.current(), NavMode::Normal);
    assert!(stack.is_normal());
    stack.push(NavMode::Hints);
    assert_eq!(stack.current(), NavMode::Hints);
    assert!(!stack.is_normal());
    stack.pop();
    assert_eq!(stack.current(), NavMode::Normal);
}

#[test]
fn test_mode_stack_nested() {
    let mut stack = ModeStack::new();
    stack.push(NavMode::CommandPalette);
    stack.push(NavMode::Hints);
    assert_eq!(stack.depth(), 3);
    stack.pop();
    assert_eq!(stack.current(), NavMode::CommandPalette);
    stack.clear();
    assert_eq!(stack.current(), NavMode::Normal);
    assert_eq!(stack.depth(), 1);
}

#[test]
fn test_mode_stack_cannot_pop_normal() {
    let mut stack = ModeStack::new();
    assert_eq!(stack.pop(), None);
    assert_eq!(stack.current(), NavMode::Normal);
}

#[test]
fn test_key_binding_creation() {
    let binding = KeyBinding::new(Key::KeyF, NavAction::EnterHintMode).with_ctrl().in_mode(NavMode::Normal);
    assert_eq!(binding.key, Key::KeyF);
    assert!(binding.modifiers.contains(&Modifier::Ctrl));
    assert_eq!(binding.active_in_mode, Some(NavMode::Normal));
    assert!(binding.is_active_in(NavMode::Normal));
    assert!(!binding.is_active_in(NavMode::Hints));
}

#[test]
fn test_router_default_style() {
    let router = NavInputRouter::default();
    assert_eq!(router.current_style, NavStyle::VimiumStyle);
    assert!(!router.current_bindings().is_empty());
}

#[test]
fn test_router_style_switching() {
    let mut router = NavInputRouter::default();
    assert_eq!(router.current_style, NavStyle::VimiumStyle);
    router.set_style(NavStyle::CosmosStyle);
    assert_eq!(router.current_style, NavStyle::CosmosStyle);
}

#[test]
fn test_keycode_to_char() {
    assert_eq!(keycode_to_char(Key::KeyA), Some('a'));
    assert_eq!(keycode_to_char(Key::KeyZ), Some('z'));
    assert_eq!(keycode_to_char(Key::Escape), None);
    assert_eq!(keycode_to_char(Key::Digit1), None);
}

#[test]
fn test_nav_action_event_equality() {
    let action1 = NavAction::EnterHintMode;
    let action2 = NavAction::EnterHintMode;
    let action3 = NavAction::EnterCopyMode;
    assert_eq!(action1, action2);
    assert_ne!(action1, action3);
}

#[test]
fn typed_characters_follow_shift() {
    assert_eq!(typed_key_char(Key::KeyQ, false), Some('q'));
    assert_eq!(typed_key_char(Key::KeyQ, true), Some('Q'));
    assert_eq!(typed_key_char(Key::Digit7, false), Some('7'));
    assert_eq!(typed_key_char(Key::Space, false), Some(' '));
    assert_eq!(typed_key_char(Key::F1, false), None);
}

#[test]
fn binding_needs_all_its_modifiers() {
    let binding = KeyBinding::new(Key::KeyF, NavAction::EnterHintMode).with_ctrl();
    let plain = KeyboardState { pressed: vec![Key::KeyF], just_pressed: vec![Key::KeyF] };
    let ctrl = KeyboardState { pressed: vec![Key::ControlRight, Key::KeyF], just_pressed: vec![Key::KeyF] };
    assert!(!binding.matches(&plain));
    assert!(binding.matches(&ctrl));
}

#[test]
fn routing_enters_and_leaves_hint_mode() {
    let router = NavInputRouter::default();
    let mut stack = ModeStack::new();
    let f = KeyboardState { pressed: vec![Key::KeyF], just_pressed: vec![Key::KeyF] };
    assert_eq!(route_nav_input(&f, &router, &mut stack), vec![NavAction::EnterHintMode]);
    assert_eq!(stack.current(), NavMode::Hints);

    let letters = KeyboardState { pressed: vec![], just_pressed: vec![Key::KeyA, Key::Digit1, Key::KeyS] };
    assert_eq!(
        route_nav_input(&letters, &router, &mut stack),
        vec![NavAction::HintChar('a'), NavAction::HintChar('s')]
    );

    let esc = KeyboardState { pressed: vec![Key::Escape], just_pressed: vec![Key::Escape] };
    assert_eq!(route_nav_input(&esc, &router, &mut stack), vec![NavAction::CancelAllModes]);
    assert_eq!(stack.current(), NavMode::Normal);
}

#[test]
fn modifiers_come_from_either_key_of_a_pair() {
    let kb = KeyboardState { pressed: vec![Key::ControlRight, Key::ShiftLeft, Key::KeyA], just_pressed: vec![Key::KeyA] };
    assert_eq!(
        build_modifiers(&kb, true),
        KeyModifiers { ctrl: true, alt: false, shift: true, super_key: false, leader: true }
    );
}
