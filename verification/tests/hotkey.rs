use clipboard_queue::format::Format;
use clipboard_queue::hotkey::{HotkeyAction, HotkeyController, Key, KeyEvent};
use clipboard_queue::record::Data;
use clipboard_queue::state::SharedState;

fn text(s: &str) -> Data {
    Data::build(Format::UnicodeText, s.as_bytes().to_vec(), Some(String::from(s))).unwrap()
}

fn filled(names: &[&str]) -> SharedState {
    let mut s = SharedState::new();
    s.set_enabled(true);
    for n in names {
        assert!(s.capture(text(n)));
    }
    s
}

#[test]
fn controller_starts_released() {
    let c = HotkeyController::new();
    assert!(!c.ctrl_held());
}

#[test]
fn control_keys_set_and_clear_the_flag() {
    let mut c = HotkeyController::new();
    let mut s = SharedState::new();
    for key in [Key::ControlLeft, Key::ControlRight] {
        assert!(matches!(c.on_event(&mut s, KeyEvent::Press(key)), HotkeyAction::Idle));
        assert!(c.ctrl_held());
        assert!(matches!(c.on_event(&mut s, KeyEvent::Release(key)), HotkeyAction::Idle));
        assert!(!c.ctrl_held());
    }
    c.on_event(&mut s, KeyEvent::Press(Key::ControlLeft));
    c.on_event(&mut s, KeyEvent::Release(Key::ControlRight));
    assert!(!c.ctrl_held());
}

#[test]
fn release_without_press_is_harmless() {
    let mut c = HotkeyController::new();
    let mut s = filled(&["a"]);
    c.on_event(&mut s, KeyEvent::Release(Key::ControlLeft));
    c.on_event(&mut s, KeyEvent::Release(Key::ControlRight));
    c.on_event(&mut s, KeyEvent::Release(Key::KeyV));
    c.on_event(&mut s, KeyEvent::Release(Key::BackQuote));
    c.on_event(&mut s, KeyEvent::Release(Key::Other));
    assert!(!c.ctrl_held());
    assert!(s.is_enabled());
    assert_eq!(s.queue_len(), 1);
}

#[test]
fn other_keys_leave_the_flag() {
    let mut c = HotkeyController::new();
    let mut s = SharedState::new();
    c.on_event(&mut s, KeyEvent::Press(Key::ControlLeft));
    c.on_event(&mut s, KeyEvent::Press(Key::Other));
    c.on_event(&mut s, KeyEvent::Release(Key::Other));
    c.on_event(&mut s, KeyEvent::Release(Key::KeyV));
    assert!(c.ctrl_held());
}

#[test]
fn paste_key_without_control_does_nothing() {
    let mut c = HotkeyController::new();
    let mut s = filled(&["a"]);
    assert!(matches!(c.on_event(&mut s, KeyEvent::Press(Key::KeyV)), HotkeyAction::Idle));
    assert_eq!(s.queue_len(), 1);
    assert!(s.is_enabled());
}

#[test]
fn paste_command_replays_the_head() {
    let mut c = HotkeyController::new();
    let mut s = filled(&["a", "b"]);
    c.on_event(&mut s, KeyEvent::Press(Key::ControlLeft));
    match c.on_event(&mut s, KeyEvent::Press(Key::KeyV)) {
        HotkeyAction::Replay(record) => {
            assert_eq!(record.get_data(), "a");
            assert_eq!(record.get_content(), b"a".to_vec());
            assert_eq!(record.get_type(), Format::UnicodeText);
        }
        HotkeyAction::Idle => panic!("expected a replay"),
    }
    assert_eq!(s.queue_len(), 1);
    assert!(s.is_enabled());
    assert!(c.ctrl_held());
}

#[test]
fn paste_command_on_empty_queue_disables() {
    let mut c = HotkeyController::new();
    let mut s = filled(&[]);
    c.on_event(&mut s, KeyEvent::Press(Key::ControlRight));
    assert!(matches!(c.on_event(&mut s, KeyEvent::Press(Key::KeyV)), HotkeyAction::Idle));
    assert!(!s.is_enabled());
    assert_eq!(s.queue_len(), 0);
}

#[test]
fn paste_command_while_disabled_does_nothing() {
    let mut c = HotkeyController::new();
    let mut s = filled(&["a"]);
    s.set_enabled(false);
    c.on_event(&mut s, KeyEvent::Press(Key::ControlLeft));
    assert!(matches!(c.on_event(&mut s, KeyEvent::Press(Key::KeyV)), HotkeyAction::Idle));
    assert_eq!(s.queue_len(), 1);
    assert!(!s.is_enabled());
}

#[test]
fn toggle_command_flips_enabled() {
    let mut c = HotkeyController::new();
    let mut s = SharedState::new();
    c.on_event(&mut s, KeyEvent::Press(Key::BackQuote));
    assert!(!s.is_enabled());
    c.on_event(&mut s, KeyEvent::Press(Key::ControlLeft));
    c.on_event(&mut s, KeyEvent::Press(Key::BackQuote));
    assert!(s.is_enabled());
    c.on_event(&mut s, KeyEvent::Release(Key::BackQuote));
    assert!(s.is_enabled());
    c.on_event(&mut s, KeyEvent::Press(Key::BackQuote));
    assert!(!s.is_enabled());
    c.on_event(&mut s, KeyEvent::Release(Key::ControlLeft));
    c.on_event(&mut s, KeyEvent::Press(Key::BackQuote));
    assert!(!s.is_enabled());
}

#[test]
fn commands_stop_when_control_comes_up() {
    let mut c = HotkeyController::new();
    let mut s = filled(&["a", "b"]);
    c.on_event(&mut s, KeyEvent::Press(Key::ControlLeft));
    assert!(matches!(c.on_event(&mut s, KeyEvent::Press(Key::KeyV)), HotkeyAction::Replay(_)));
    c.on_event(&mut s, KeyEvent::Release(Key::ControlLeft));
    assert!(matches!(c.on_event(&mut s, KeyEvent::Press(Key::KeyV)), HotkeyAction::Idle));
    assert_eq!(s.queue_len(), 1);
}
