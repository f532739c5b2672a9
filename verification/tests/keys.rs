use menuforge::Event;
use menuforge::KeyAction;
use menuforge::KeyCode;
use menuforge::KeyEvent;
use menuforge::KeyEventKind;
use menuforge::KeyEventState;
use menuforge::KeyModifiers;
use menuforge::Keys;
use menuforge::KeysTrait;
use menuforge::Select;

fn key(c: char) -> Event {
    Event::Key(KeyEvent::new(KeyCode::Char(c), KeyModifiers::none()))
}

fn key_with(code: KeyCode, bits: u8) -> Event {
    Event::Key(KeyEvent::new(code, KeyModifiers { bits }))
}

#[test]
fn default_keys_bindings() {
    let keys = Select::gen_default_keys();
    assert_eq!(keys.get_key_action(&key('k')), Some(KeyAction::MoveCursorUp));
    assert_eq!(keys.get_key_action(&key('j')), Some(KeyAction::MoveCursorDown));
    assert_eq!(keys.get_key_action(&key_with(KeyCode::Enter, 0)), Some(KeyAction::Exit));
    assert_eq!(keys.get_key_action(&key('q')), Some(KeyAction::Abort));
    assert_eq!(keys.get_key_action(&key_with(KeyCode::Char('c'), menuforge::CONTROL_BIT)), Some(KeyAction::Abort));
    assert_eq!(keys.get_key_action(&key('c')), None);
    assert_eq!(keys.get_key_action(&key('x')), None);
    assert_eq!(keys.get_key_action(&Event::Resize(80, 24)), None);
    assert_eq!(keys.get_key_action(&Event::FocusGained), None);
}

#[test]
fn default_keys_do_not_match_capitals() {
    let keys = Keys::default_keys();
    assert_eq!(keys.get_key_action(&key('K')), None);
    assert_eq!(keys.get_key_action(&key_with(KeyCode::Char('k'), menuforge::SHIFT_BIT)), None);
}

#[test]
fn released_key_is_another_event() {
    let keys = Keys::default_keys();
    let released = Event::Key(KeyEvent {
        code: KeyCode::Char('k'),
        modifiers: KeyModifiers::none(),
        kind: KeyEventKind::Release,
        state: KeyEventState { bits: 0 },
    });
    assert_eq!(keys.get_key_action(&released), None);
}

#[test]
fn set_default_makes_unbound_keys_abort() {
    let mut keys = Select::gen_default_keys();
    assert!(!keys.set_default());
    assert_eq!(keys.get_key_action(&key('x')), Some(KeyAction::Abort));
    assert_eq!(keys.get_key_action(&key('j')), Some(KeyAction::MoveCursorDown));
    assert!(keys.set_default());
}

#[test]
fn ignore_extra_keys_makes_unbound_keys_do_nothing() {
    let mut keys = Select::gen_default_keys();
    assert!(!keys.ignore_extra_keys());
    assert_eq!(keys.get_key_action(&key('x')), Some(KeyAction::Nope));
    assert_eq!(keys.get_key_action(&key('k')), Some(KeyAction::MoveCursorUp));
    assert!(keys.ignore_extra_keys());
    assert!(keys.set_default());
    assert_eq!(keys.get_key_action(&key('x')), Some(KeyAction::Abort));
}

#[test]
fn bind_returns_the_previous_action() {
    let mut keys = Keys::new();
    assert_eq!(keys.get_key_action(&key('x')), None);
    assert_eq!(keys.bind(key('x'), KeyAction::Exit), None);
    assert_eq!(keys.get_key_action(&key('x')), Some(KeyAction::Exit));
    assert_eq!(keys.bind(key('x'), KeyAction::Abort), Some(KeyAction::Exit));
    assert_eq!(keys.get_key_action(&key('x')), Some(KeyAction::Abort));
    assert_eq!(keys.get_key_action(&key('y')), None);
}

#[test]
fn bind_capital_is_bind_shifted_letter() {
    let mut keys = Keys::new();
    assert_eq!(keys.bind(key('G'), KeyAction::MoveCursorDown), None);
    assert_eq!(keys.get_key_action(&key_with(KeyCode::Char('g'), menuforge::SHIFT_BIT)), Some(KeyAction::MoveCursorDown));
    assert_eq!(keys.get_key_action(&key_with(KeyCode::Char('G'), menuforge::SHIFT_BIT)), Some(KeyAction::MoveCursorDown));
    assert_eq!(keys.get_key_action(&key('g')), None);
    assert_eq!(keys.bind(key_with(KeyCode::Char('g'), menuforge::SHIFT_BIT), KeyAction::Exit), Some(KeyAction::MoveCursorDown));
    assert_eq!(keys.get_key_action(&key('G')), Some(KeyAction::Exit));
}

#[test]
fn key_event_equality_normalises_case() {
    let a = KeyEvent::new(KeyCode::Char('K'), KeyModifiers::none());
    let b = KeyEvent::new(KeyCode::Char('K'), KeyModifiers::shift());
    let c = KeyEvent::new(KeyCode::Char('k'), KeyModifiers::shift());
    let d = KeyEvent::new(KeyCode::Char('k'), KeyModifiers::none());
    assert!(a == b && b == c && a == c);
    assert!(a != d);
    assert_eq!(c.normalize_case().code, KeyCode::Char('K'));
    assert_eq!(a.normalize_case().modifiers, KeyModifiers::shift());
    assert_eq!(d.normalize_case().code, KeyCode::Char('k'));
    let e = KeyEvent::new(KeyCode::Char('1'), KeyModifiers::shift());
    assert_eq!(e.normalize_case().code, KeyCode::Char('1'));
    let f = KeyEvent::new(KeyCode::Enter, KeyModifiers::shift());
    assert_eq!(f.normalize_case().modifiers, KeyModifiers::shift());
    assert!(Event::Resize(1, 2) == Event::Resize(1, 2));
    assert!(Event::Resize(1, 2) != Event::Resize(2, 1));
    assert!(Event::Mouse != Event::FocusLost);
}
