use counter_tui::event::{
    Event, EventHandler, Input, KeyCode, KeyEvent, KeyEventKind, MouseEvent,
};

const MILLI: u128 = 1_000_000;

fn key(code: KeyCode, kind: KeyEventKind) -> KeyEvent {
    KeyEvent { code, kind }
}

#[test]
fn key_press_becomes_a_key_event() {
    let pressed = key(KeyCode::Char('q'), KeyEventKind::Press);
    assert_eq!(EventHandler::classify(Input::Key(pressed)), Some(Event::Key(pressed)));
    let arrow = key(KeyCode::Left, KeyEventKind::Press);
    assert_eq!(EventHandler::classify(Input::Key(arrow)), Some(Event::Key(arrow)));
}

#[test]
fn key_release_and_repeat_are_not_passed_on() {
    let released = key(KeyCode::Char(' '), KeyEventKind::Release);
    assert_eq!(EventHandler::classify(Input::Key(released)), None);
    let held = key(KeyCode::Right, KeyEventKind::Repeat);
    assert_eq!(EventHandler::classify(Input::Key(held)), None);
}

#[test]
fn pointer_event_becomes_a_mouse_event() {
    let mouse = MouseEvent { column: 3, row: 9 };
    assert_eq!(EventHandler::classify(Input::Mouse(mouse)), Some(Event::Mouse(mouse)));
}

#[test]
fn resize_keeps_its_size() {
    assert_eq!(EventHandler::classify(Input::Resize(120, 40)), Some(Event::Resize(120, 40)));
}

#[test]
fn timeout_is_what_is_left_of_the_interval() {
    let handler = EventHandler::new(50);
    assert_eq!(handler.timeout(0), 50 * MILLI);
    assert_eq!(handler.timeout(20 * MILLI), 30 * MILLI);
    assert_eq!(handler.timeout(50 * MILLI - 1), 1);
}

#[test]
fn timeout_is_zero_once_the_interval_has_passed() {
    let handler = EventHandler::new(50);
    assert_eq!(handler.timeout(50 * MILLI), 0);
    assert_eq!(handler.timeout(75 * MILLI), 0);
    assert_eq!(handler.timeout(u128::MAX), 0);
}

#[test]
fn no_tick_before_the_interval_has_passed() {
    let mut handler = EventHandler::new(50);
    assert_eq!(handler.tick(0), None);
    assert_eq!(handler.tick(50 * MILLI - 1), None);
    assert_eq!(handler.timeout(50 * MILLI - 1), 1);
}

#[test]
fn tick_is_due_when_the_interval_has_passed() {
    let mut handler = EventHandler::new(50);
    assert_eq!(handler.tick(50 * MILLI), Some(Event::Tick));
}

#[test]
fn tick_restarts_the_interval() {
    let mut handler = EventHandler::new(50);
    assert_eq!(handler.tick(63 * MILLI), Some(Event::Tick));
    assert_eq!(handler.timeout(63 * MILLI), 50 * MILLI);
    assert_eq!(handler.timeout(100 * MILLI), 13 * MILLI);
    assert_eq!(handler.tick(112 * MILLI), None);
    assert_eq!(handler.tick(113 * MILLI), Some(Event::Tick));
}

#[test]
fn clock_behind_the_last_tick_counts_as_no_time_passed() {
    let mut handler = EventHandler::new(50);
    assert_eq!(handler.tick(200 * MILLI), Some(Event::Tick));
    assert_eq!(handler.timeout(100 * MILLI), 50 * MILLI);
    assert_eq!(handler.tick(100 * MILLI), None);
}

#[test]
fn zero_tick_delay_ticks_every_time() {
    let mut handler = EventHandler::new(0);
    assert_eq!(handler.timeout(0), 0);
    assert_eq!(handler.tick(0), Some(Event::Tick));
    assert_eq!(handler.tick(0), Some(Event::Tick));
}

#[test]
fn largest_tick_delay_fits() {
    let mut handler = EventHandler::new(u64::MAX);
    assert_eq!(handler.timeout(0), u64::MAX as u128 * MILLI);
    assert_eq!(handler.tick(u64::MAX as u128 * MILLI - 1), None);
    assert_eq!(handler.tick(u64::MAX as u128 * MILLI), Some(Event::Tick));
}
