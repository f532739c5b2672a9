use menuforge::Configs;
use menuforge::Event;
use menuforge::KeyAction;
use menuforge::KeyCode;
use menuforge::KeyEvent;
use menuforge::KeyModifiers;
use menuforge::Keys;
use menuforge::LineLayout;
use menuforge::LineMarker;
use menuforge::Point2;
use menuforge::PromptAction;
use menuforge::RawConfigs;
use menuforge::RawSelect;
use menuforge::SelErr;
use menuforge::SelOk;
use menuforge::SelResult;
use menuforge::Select;

fn key(c: char) -> Result<Event, std::io::Error> {
    Ok(Event::Key(KeyEvent::new(KeyCode::Char(c), KeyModifiers::none())))
}

fn enter() -> Result<Event, std::io::Error> {
    Ok(Event::Key(KeyEvent::new(KeyCode::Enter, KeyModifiers::none())))
}

fn menu(table_size: u16) -> Select {
    Select::new(Select::gen_default_keys(), Configs::default(), table_size)
}

#[test]
fn defaults() {
    assert!(Configs::default().exit_on_new_key);
    assert_eq!(RawConfigs::default().table_size, 0);
    let raw = RawSelect::new(RawConfigs { table_size: 4 });
    assert_eq!(raw.table_size(), 4);
    assert!(!raw.bottom());
    assert_eq!(raw.init_position(), Point2 { x: 0, y: 0 });
}

#[test]
fn cursor_actions() {
    let mut c = 0usize;
    assert_eq!(KeyAction::MoveCursorUp.run(5, &mut c), SelOk::Proceed);
    assert_eq!(c, 0);
    assert_eq!(KeyAction::MoveCursorDown.run(5, &mut c), SelOk::Proceed);
    assert_eq!(c, 1);
    c = 4;
    assert_eq!(KeyAction::MoveCursorDown.run(5, &mut c), SelOk::Proceed);
    assert_eq!(c, 4);
    assert_eq!(KeyAction::MoveCursorUp.run(5, &mut c), SelOk::Proceed);
    assert_eq!(c, 3);
    assert_eq!(KeyAction::Exit.run(5, &mut c), SelOk::Exit);
    assert_eq!(KeyAction::Abort.run(5, &mut c), SelOk::Abort);
    assert_eq!(KeyAction::Nope.run(5, &mut c), SelOk::Proceed);
    assert_eq!(c, 3);
    let mut e = 0usize;
    assert_eq!(KeyAction::MoveCursorDown.run(0, &mut e), SelOk::Proceed);
    assert_eq!(e, 0);
}

#[test]
fn choose_third_entry() {
    let mut s = menu(9);
    assert_eq!(s.step(21, key('j')), PromptAction::Redraw);
    assert_eq!(s.step(21, key('j')), PromptAction::Redraw);
    assert_eq!(s.cursor(), 2);
    assert_eq!(s.step(21, enter()), PromptAction::Finish(Some(2)));
}

#[test]
fn abort_with_q() {
    let mut s = menu(9);
    assert_eq!(s.step(21, key('j')), PromptAction::Redraw);
    assert_eq!(s.step(21, key('q')), PromptAction::Finish(None));
}

#[test]
fn abort_with_control_c() {
    let mut s = menu(9);
    let ctrl_c = Ok(Event::Key(KeyEvent::new(KeyCode::Char('c'), KeyModifiers::control())));
    assert_eq!(s.step(21, ctrl_c), PromptAction::Finish(None));
}

#[test]
fn unknown_key_ends_prompt_by_default() {
    let mut s = menu(9);
    assert_eq!(s.step(21, key('x')), PromptAction::Finish(None));
}

#[test]
fn unknown_key_waits_when_configured() {
    let mut s = Select::new(Select::gen_default_keys(), Configs { exit_on_new_key: false }, 9);
    assert_eq!(s.step(21, key('x')), PromptAction::Wait);
    assert_eq!(s.step(21, Ok(Event::Resize(10, 10))), PromptAction::Wait);
    assert_eq!(s.cursor(), 0);
}

#[test]
fn ignored_keys_redraw() {
    let mut keys = Select::gen_default_keys();
    keys.ignore_extra_keys();
    let mut s = Select::new(keys, Configs::default(), 9);
    assert_eq!(s.step(21, key('x')), PromptAction::Redraw);
    assert_eq!(s.cursor(), 0);
}

#[test]
fn read_error_ends_prompt() {
    let mut s = menu(9);
    let err = Err(std::io::Error::new(std::io::ErrorKind::Other, "read failed"));
    assert_eq!(s.step(21, err), PromptAction::Finish(None));
}

#[test]
fn raw_prompt_outcomes() {
    let mut raw = RawSelect::new(RawConfigs { table_size: 3 });
    let keys = Keys::default_keys();
    let mut cursor = 1usize;
    assert!(matches!(raw.raw_prompt(&keys, 3, &mut cursor, key('j')), SelResult::Success(SelOk::Proceed)));
    assert_eq!(cursor, 2);
    assert!(matches!(raw.raw_prompt(&keys, 3, &mut cursor, key('z')), SelResult::KeyNotFound));
    assert_eq!(cursor, 2);
    assert!(matches!(raw.raw_prompt(&keys, 3, &mut cursor, enter()), SelResult::Success(SelOk::Exit)));
    let err = Err(std::io::Error::new(std::io::ErrorKind::Other, "boom"));
    match raw.raw_prompt(&keys, 3, &mut cursor, err) {
        SelResult::Failure(SelErr::BaseErr(e)) => assert_eq!(e.to_string(), "boom"),
        _ => panic!("a read error is a failure"),
    }
    assert_eq!(cursor, 2);
}

#[test]
fn cursor_stops_at_last_entry() {
    let mut s = menu(3);
    for _ in 0..10 {
        s.step(4, key('j'));
    }
    assert_eq!(s.cursor(), 3);
    for _ in 0..10 {
        s.step(4, key('k'));
    }
    assert_eq!(s.cursor(), 0);
}

#[test]
fn frame_follows_the_cursor() {
    let mut s = menu(5);
    for _ in 0..7 {
        s.step(10, key('j'));
    }
    let f = s.frame(10);
    assert_eq!(f.len(), 5);
    assert_eq!(f[0], LineLayout { marker: LineMarker::Top, entry: Some(5) });
    assert_eq!(f[2], LineLayout { marker: LineMarker::Selected, entry: Some(7) });
    assert_eq!(f[4], LineLayout { marker: LineMarker::Empty, entry: Some(9) });
}

#[test]
fn place_without_scrolling() {
    let mut s = menu(9);
    assert_eq!(s.begin(3, 5, 80, 24), None);
    assert_eq!(s.raw().init_position(), Point2 { x: 3, y: 5 });
    assert!(!s.raw().bottom());
}

#[test]
fn place_with_scrolling() {
    let mut s = menu(9);
    // 3 rows are left below row 20 of 24: scroll up 5 so the menu ends on the last row
    assert_eq!(s.begin(0, 20, 80, 24), Some(5));
    assert_eq!(s.raw().init_position(), Point2 { x: 0, y: 15 });
    assert!(s.raw().bottom());
    // exactly one row short: the terminal scrolls by none and the menu still ends on the last row
    let mut t = menu(4);
    assert_eq!(t.begin(0, 20, 80, 24), Some(0));
    assert_eq!(t.raw().init_position(), Point2 { x: 0, y: 20 });
    assert!(t.raw().bottom());
}

#[test]
fn begin_resets_the_cursor() {
    let mut s = menu(9);
    s.step(21, key('j'));
    assert_eq!(s.cursor(), 1);
    s.begin(0, 0, 80, 24);
    assert_eq!(s.cursor(), 0);
}
