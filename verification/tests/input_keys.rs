use miniquad::KeyCode;
use vncviewer::input::{
    accepts_char, button_mask, ctrl_alt_del_events, editor_key, f8_key_events, key_down_action,
    key_input, key_up_action, modifiers_from, pointer_events, x11_keysym, EditorKey, KeyInput,
    KeyPress, Modifiers, NamedKey, PointerState, StageKey, WheelStep, KEY_A, KEY_BACKSPACE,
    KEY_C, KEY_DELETE, KEY_DOWN, KEY_END, KEY_ENTER, KEY_ESCAPE, KEY_F8, KEY_HOME, KEY_INSERT,
    KEY_LEFT, KEY_LEFT_ALT, KEY_LEFT_CONTROL, KEY_PAGE_DOWN, KEY_PAGE_UP, KEY_RIGHT, KEY_SPACE,
    KEY_TAB, KEY_UP, KEY_V, KEY_X, KEY_Z,
};

#[test]
fn key_codes_match_the_windowing_layer() {
    assert_eq!(KeyCode::Space as u16, KEY_SPACE);
    assert_eq!(KeyCode::A as u16, KEY_A);
    assert_eq!(KeyCode::C as u16, KEY_C);
    assert_eq!(KeyCode::V as u16, KEY_V);
    assert_eq!(KeyCode::X as u16, KEY_X);
    assert_eq!(KeyCode::Z as u16, KEY_Z);
    assert_eq!(KeyCode::Backspace as u16, KEY_BACKSPACE);
    assert_eq!(KeyCode::Tab as u16, KEY_TAB);
    assert_eq!(KeyCode::Enter as u16, KEY_ENTER);
    assert_eq!(KeyCode::Escape as u16, KEY_ESCAPE);
    assert_eq!(KeyCode::Home as u16, KEY_HOME);
    assert_eq!(KeyCode::Left as u16, KEY_LEFT);
    assert_eq!(KeyCode::Up as u16, KEY_UP);
    assert_eq!(KeyCode::Right as u16, KEY_RIGHT);
    assert_eq!(KeyCode::Down as u16, KEY_DOWN);
    assert_eq!(KeyCode::PageUp as u16, KEY_PAGE_UP);
    assert_eq!(KeyCode::PageDown as u16, KEY_PAGE_DOWN);
    assert_eq!(KeyCode::End as u16, KEY_END);
    assert_eq!(KeyCode::Insert as u16, KEY_INSERT);
    assert_eq!(KeyCode::F8 as u16, KEY_F8);
    assert_eq!(KeyCode::LeftControl as u16, KEY_LEFT_CONTROL);
    assert_eq!(KeyCode::LeftAlt as u16, KEY_LEFT_ALT);
    assert_eq!(KeyCode::Delete as u16, KEY_DELETE);
}

#[test]
fn keysym_lowers_capital_letters() {
    assert_eq!(x11_keysym(KEY_A), 0x61);
    assert_eq!(x11_keysym(KEY_Z), 0x7a);
    assert_eq!(x11_keysym(0x31), 0x31);
    assert_eq!(x11_keysym(KEY_F8), 0xffc5);
    assert_eq!(x11_keysym(0x61), 0x61);
    assert_eq!(x11_keysym(x11_keysym(KEY_V) as u16), x11_keysym(KEY_V));
}

#[test]
fn stage_key_actions() {
    assert_eq!(key_down_action(KEY_F8, true), StageKey::OpenMenu);
    assert_eq!(key_up_action(KEY_F8, true), StageKey::Ignore);
    assert_eq!(key_down_action(KEY_F8, false), StageKey::Ignore);
    assert_eq!(key_down_action(KEY_A, false), StageKey::Ignore);
    assert_eq!(
        key_down_action(KEY_A, true),
        StageKey::Send(KeyPress { keycode: 0x61, down: true })
    );
    assert_eq!(
        key_up_action(KEY_ENTER, true),
        StageKey::Send(KeyPress { keycode: 0xff0d, down: false })
    );
}

#[test]
fn menu_key_sequences() {
    let f8 = f8_key_events();
    assert_eq!(
        f8,
        vec![KeyPress { keycode: 0xffc5, down: true }, KeyPress { keycode: 0xffc5, down: false }]
    );
    let cad = ctrl_alt_del_events();
    let codes: Vec<(u32, bool)> = cad.iter().map(|k| (k.keycode, k.down)).collect();
    assert_eq!(
        codes,
        vec![
            (0xffe3, true),
            (0xffe9, true),
            (0xffff, true),
            (0xffff, false),
            (0xffe9, false),
            (0xffe3, false)
        ]
    );
    // every pressed key is released, in reverse order
    let n = cad.len();
    for i in 0..n / 2 {
        assert!(cad[i].down && !cad[n - 1 - i].down);
        assert_eq!(cad[i].keycode, cad[n - 1 - i].keycode);
    }
}

#[test]
fn button_mask_bits() {
    assert_eq!(button_mask(false, false, false), 0);
    assert_eq!(button_mask(true, false, false), 1);
    assert_eq!(button_mask(false, true, false), 2);
    assert_eq!(button_mask(false, false, true), 4);
    assert_eq!(button_mask(true, true, true), 7);
    assert_eq!(button_mask(true, false, true), 5);
}

#[test]
fn pointer_events_send_changes_and_wheel() {
    let mut latest = PointerState::initial();
    let events = pointer_events(&mut latest, 10, 20, 1, &vec![]);
    assert_eq!(events, vec![PointerState { x: 10, y: 20, buttons: 1 }]);
    assert_eq!(latest, PointerState { x: 10, y: 20, buttons: 1 });
    // same state again: nothing to send
    assert!(pointer_events(&mut latest, 10, 20, 1, &vec![]).is_empty());
    let events = pointer_events(&mut latest, 10, 20, 1, &vec![WheelStep::Up, WheelStep::Down]);
    assert_eq!(
        events,
        vec![
            PointerState { x: 10, y: 20, buttons: 9 },
            PointerState { x: 10, y: 20, buttons: 1 },
            PointerState { x: 10, y: 20, buttons: 17 },
            PointerState { x: 10, y: 20, buttons: 1 },
        ]
    );
    let events = pointer_events(&mut latest, 11, 20, 0, &vec![WheelStep::Up]);
    assert_eq!(
        events,
        vec![
            PointerState { x: 11, y: 20, buttons: 0 },
            PointerState { x: 11, y: 20, buttons: 8 },
            PointerState { x: 11, y: 20, buttons: 0 },
        ]
    );
}

#[test]
fn accepts_char_filters_controls_and_private_use() {
    assert!(accepts_char('a', false, false));
    assert!(accepts_char('é', false, false));
    assert!(!accepts_char('a', true, false));
    assert!(!accepts_char('a', false, true));
    assert!(!accepts_char('\u{8}', false, false));
    assert!(!accepts_char('\u{7f}', false, false));
    assert!(!accepts_char('\u{f700}', false, false));
    assert!(!accepts_char('\u{10fffd}', false, false));
    assert!(accepts_char('\u{10fffe}', false, false));
    assert!(accepts_char(' ', false, false));
}

#[test]
fn modifiers_depend_on_platform() {
    let m = modifiers_from(false, true, false, true, false);
    assert_eq!(m, Modifiers { alt: false, ctrl: true, shift: false, mac_cmd: false, command: true });
    let m = modifiers_from(true, false, true, true, true);
    assert_eq!(m, Modifiers { alt: true, ctrl: false, shift: true, mac_cmd: true, command: true });
    let m = modifiers_from(false, true, false, false, true);
    assert!(!m.command);
}

#[test]
fn editor_keys() {
    assert_eq!(editor_key(KEY_A), Some(EditorKey::ByName('A')));
    assert_eq!(editor_key(KEY_SPACE), Some(EditorKey::ByName(' ')));
    assert_eq!(editor_key(0x7e), Some(EditorKey::ByName('~')));
    assert_eq!(editor_key(KEY_DOWN), Some(EditorKey::Named(NamedKey::ArrowDown)));
    assert_eq!(editor_key(KEY_PAGE_DOWN), Some(EditorKey::Named(NamedKey::PageDown)));
    assert_eq!(editor_key(KEY_DELETE), Some(EditorKey::Named(NamedKey::Delete)));
    assert_eq!(editor_key(KEY_F8), None);
}

#[test]
fn key_input_shortcuts() {
    let cmd = modifiers_from(false, true, false, false, false);
    let none = modifiers_from(false, false, false, false, false);
    assert_eq!(key_input(KEY_X, cmd, true), KeyInput::Cut);
    assert_eq!(key_input(KEY_C, cmd, true), KeyInput::Copy);
    assert_eq!(key_input(KEY_V, cmd, true), KeyInput::Paste);
    assert_eq!(key_input(KEY_A, cmd, true), KeyInput::Ignore);
    assert_eq!(key_input(KEY_C, cmd, false), KeyInput::Key(EditorKey::ByName('C')));
    assert_eq!(key_input(KEY_ENTER, none, true), KeyInput::Key(EditorKey::Named(NamedKey::Enter)));
    assert_eq!(key_input(KEY_F8, none, true), KeyInput::Ignore);
}
