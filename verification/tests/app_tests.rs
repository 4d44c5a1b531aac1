use counter_tui::app::{command_for, App, Command, INCREMENT_AMOUNT, TICK_DELAY};
use counter_tui::event::{Event, KeyCode, KeyEvent, KeyEventKind, MouseEvent};
use counter_tui::layout::Rect;
use counter_tui::store::Action;
use counter_tui::view::{HomeProps, View};

fn press(code: KeyCode) -> Event {
    Event::Key(KeyEvent { code, kind: KeyEventKind::Press })
}

fn counter_of(app: &App) -> isize {
    app.store().state().get_counter()
}

fn screen() -> Rect {
    Rect { x: 0, y: 0, width: 80, height: 24 }
}

#[test]
fn configuration_defaults() {
    assert_eq!(INCREMENT_AMOUNT, 10);
    assert_eq!(TICK_DELAY, 50);
}

#[test]
fn key_bindings() {
    assert_eq!(command_for(KeyCode::Char('q'), 10), Command::Quit);
    assert_eq!(command_for(KeyCode::Char(' '), 10), Command::Dispatch(Action::Increment(10)));
    assert_eq!(command_for(KeyCode::Char(' '), 3), Command::Dispatch(Action::Increment(3)));
    assert_eq!(command_for(KeyCode::Left, 10), Command::Dispatch(Action::Increment(-1)));
    assert_eq!(command_for(KeyCode::Right, 10), Command::Dispatch(Action::Increment(1)));
}

#[test]
fn unbound_keys_are_ignored() {
    assert_eq!(command_for(KeyCode::Char('x'), 10), Command::Ignore);
    assert_eq!(command_for(KeyCode::Char('Q'), 10), Command::Ignore);
    assert_eq!(command_for(KeyCode::Other, 10), Command::Ignore);
}

#[test]
fn new_app_runs_with_a_zeroed_counter() {
    let app = App::new();
    assert!(app.is_running());
    assert_eq!(counter_of(&app), 0);
}

#[test]
fn space_then_tick_then_two_lefts_then_tick_then_quit() {
    let mut app = App::new();
    app.handle_event(press(KeyCode::Char(' ')));
    app.handle_event(Event::Tick);
    assert_eq!(counter_of(&app), 10);
    app.handle_event(press(KeyCode::Left));
    app.handle_event(press(KeyCode::Left));
    app.handle_event(Event::Tick);
    assert_eq!(counter_of(&app), 8);
    assert!(app.is_running());
    app.handle_event(press(KeyCode::Char('q')));
    assert!(!app.is_running());
    assert_eq!(counter_of(&app), 8);
}

#[test]
fn key_shows_only_after_the_next_tick() {
    let mut app = App::new();
    app.handle_event(press(KeyCode::Right));
    assert_eq!(counter_of(&app), 0);
    app.handle_event(press(KeyCode::Char(' ')));
    assert_eq!(counter_of(&app), 0);
    app.handle_event(Event::Tick);
    assert_eq!(counter_of(&app), 11);
}

#[test]
fn tick_with_nothing_pending_changes_nothing() {
    let mut app = App::new();
    app.handle_event(Event::Tick);
    assert_eq!(counter_of(&app), 0);
    assert!(app.is_running());
}

#[test]
fn mouse_resize_and_other_keys_are_ignored() {
    let mut app = App::new();
    app.handle_event(Event::Mouse(MouseEvent { column: 1, row: 2 }));
    app.handle_event(Event::Resize(100, 30));
    app.handle_event(press(KeyCode::Char('z')));
    app.handle_event(press(KeyCode::Other));
    app.handle_event(Event::Tick);
    assert_eq!(counter_of(&app), 0);
    assert!(app.is_running());
}

#[test]
fn after_quit_nothing_is_dispatched_or_reduced() {
    let mut app = App::new();
    app.handle_event(press(KeyCode::Char(' ')));
    app.handle_event(press(KeyCode::Char('q')));
    assert!(!app.is_running());
    app.handle_event(Event::Tick);
    assert_eq!(counter_of(&app), 0);
    app.handle_event(press(KeyCode::Right));
    app.handle_event(Event::Tick);
    assert_eq!(counter_of(&app), 0);
    assert!(!app.is_running());
}

#[test]
fn after_quit_nothing_is_drawn() {
    let mut app = App::new();
    assert!(app.frame(screen()).is_some());
    app.handle_event(press(KeyCode::Char('q')));
    assert!(app.frame(screen()).is_none());
    app.handle_event(Event::Tick);
    assert!(app.frame(screen()).is_none());
}

#[test]
fn screen_is_the_home_screen_of_the_current_state() {
    let mut app = App::new();
    app.handle_event(press(KeyCode::Char(' ')));
    app.handle_event(press(KeyCode::Left));
    app.handle_event(Event::Tick);
    assert_eq!(
        app.screen(screen()),
        View::Home(HomeProps { counter: 9, screen_size: screen(), increment_amount: 10 })
    );
}

#[test]
fn frame_shows_the_counter() {
    let mut app = App::new();
    app.handle_event(press(KeyCode::Char(' ')));
    app.handle_event(Event::Tick);
    let widgets = app.frame(screen()).unwrap();
    assert_eq!(widgets.len(), 5);
    assert_eq!(widgets[0].0.text, "Counter: 10");
    assert_eq!(widgets[1].0.text, "Hit space to increment counter by 10");
    assert_eq!(widgets[0].1, Rect { x: 0, y: 9, width: 80, height: 2 });
}

#[test]
fn frame_is_what_the_screen_builds() {
    let app = App::new();
    assert_eq!(app.frame(screen()), Some(app.screen(screen()).build()));
}

#[test]
fn configured_step_is_what_space_adds() {
    let mut app = App::with_increment_amount(-4);
    app.handle_event(press(KeyCode::Char(' ')));
    app.handle_event(press(KeyCode::Char(' ')));
    app.handle_event(press(KeyCode::Right));
    app.handle_event(Event::Tick);
    assert_eq!(counter_of(&app), -7);
    let widgets = app.frame(screen()).unwrap();
    assert_eq!(widgets[0].0.text, "Counter: -7");
    assert_eq!(widgets[1].0.text, "Hit space to increment counter by -4");
}

#[test]
fn held_or_released_quit_key_still_quits_when_it_arrives() {
    let mut app = App::new();
    app.handle_event(Event::Key(KeyEvent { code: KeyCode::Char('q'), kind: KeyEventKind::Release }));
    assert!(!app.is_running());
}

#[test]
fn overflowing_key_press_leaves_the_counter() {
    let mut app = App::with_increment_amount(isize::MAX);
    app.handle_event(press(KeyCode::Char(' ')));
    app.handle_event(Event::Tick);
    assert_eq!(counter_of(&app), isize::MAX);
    app.handle_event(press(KeyCode::Right));
    app.handle_event(Event::Tick);
    assert_eq!(counter_of(&app), isize::MAX);
    app.handle_event(press(KeyCode::Left));
    app.handle_event(Event::Tick);
    assert_eq!(counter_of(&app), isize::MAX - 1);
}
