//! The application loop as a state machine: what each event does to the
//! store, when the loop ends, and what is drawn while it runs.

use crate::event::{Event, KeyCode, KeyEvent, KeyEventKind};
use crate::layout::Rect;
use crate::store::{Action, AppStore, StoreView};
use crate::view::{HomeProps, TextBlock, View};
use vstd::prelude::*;
use vstd::view::View as _;

verus! {

/// The step of the space key.
pub const INCREMENT_AMOUNT: isize = 10;

/// The time between two ticks, in milliseconds.
pub const TICK_DELAY: u64 = 50;

/// Whether the loop goes on.
#[derive(Clone, Copy, Debug, PartialEq, Eq, Structural)]
pub enum RunState {
    Running,
    Off,
}

/// What a key asks for.
#[derive(Clone, Copy, Debug, PartialEq, Eq, Structural)]
pub enum Command {
    /// End the loop.
    Quit,
    /// Queue the action in the store.
    Dispatch(Action),
    /// Nothing: the key is not bound.
    Ignore,
}

/// The key bindings: `q` quits, space adds `increment_amount`, the left
/// arrow takes one off, the right arrow adds one.
pub open spec fn key_command(code: KeyCode, increment_amount: isize) -> Command {
    match code {
        KeyCode::Char(c) => if c == 'q' {
            Command::Quit
        } else if c == ' ' {
            Command::Dispatch(Action::Increment(increment_amount))
        } else {
            Command::Ignore
        },
        KeyCode::Left => Command::Dispatch(Action::Increment(-1isize)),
        KeyCode::Right => Command::Dispatch(Action::Increment(1isize)),
        KeyCode::Other => Command::Ignore,
    }
}

/// The event of the quit key.
pub open spec fn quit_key(kind: KeyEventKind) -> Event {
    Event::Key(KeyEvent { code: KeyCode::Char('q'), kind })
}

/// What `code` asks for under the key bindings.
pub fn command_for(code: KeyCode, increment_amount: isize) -> (command: Command)
    ensures
        command == key_command(code, increment_amount),
{
    match code {
        KeyCode::Char('q') => Command::Quit,
        KeyCode::Char(' ') => Command::Dispatch(Action::Increment(increment_amount)),
        KeyCode::Left => Command::Dispatch(Action::Increment(-1)),
        KeyCode::Right => Command::Dispatch(Action::Increment(1)),
        _ => Command::Ignore,
    }
}

/// The application, as mathematics.
pub struct AppView {
    pub store: StoreView,
    pub running: bool,
    pub increment_amount: isize,
}

impl AppView {
    /// The application at startup: a zeroed counter, nothing pending, the
    /// loop running.
    pub open spec fn initial(increment_amount: isize) -> AppView {
        AppView { store: StoreView::initial(), running: true, increment_amount }
    }

    /// The application after `event`. While the loop runs, a tick reduces
    /// the store, a bound key quits or queues its action, and every other
    /// event is ignored. Once the loop is off, nothing changes any more.
    pub open spec fn handle(self, event: Event) -> AppView {
        if !self.running {
            self
        } else {
            match event {
                Event::Tick => AppView { store: self.store.reduce(), ..self },
                Event::Key(key) => match key_command(key.code, self.increment_amount) {
                    Command::Quit => AppView { running: false, ..self },
                    Command::Dispatch(action) => AppView { store: self.store.dispatch(action), ..self },
                    Command::Ignore => self,
                },
                Event::Mouse(_) => self,
                Event::Resize(_, _) => self,
            }
        }
    }

    /// The application after each of `events`, first to last.
    pub open spec fn handle_all(self, events: Seq<Event>) -> AppView
        decreases events.len(),
    {
        if events.len() == 0 {
            self
        } else {
            self.handle(events[0]).handle_all(events.skip(1))
        }
    }

    /// The screen to show in a viewport of `screen_size`.
    pub open spec fn screen(self, screen_size: Rect) -> View {
        View::Home(
            HomeProps {
                counter: self.store.counter as isize,
                screen_size,
                increment_amount: self.increment_amount,
            },
        )
    }
}

/// The store, the state of the loop and the configuration.
#[derive(Debug)]
pub struct App {
    store: AppStore,
    run_state: RunState,
    increment_amount: isize,
}

impl vstd::view::View for App {
    type V = AppView;

    closed spec fn view(&self) -> AppView {
        AppView {
            store: self.store@,
            running: self.run_state == RunState::Running,
            increment_amount: self.increment_amount,
        }
    }
}

impl App {
    /// The application at startup, with the space key adding
    /// `INCREMENT_AMOUNT`.
    pub fn new() -> (app: App)
        ensures
            app@ == AppView::initial(INCREMENT_AMOUNT),
    {
        App::with_increment_amount(INCREMENT_AMOUNT)
    }

    /// The application at startup, with the space key adding
    /// `increment_amount`.
    pub fn with_increment_amount(increment_amount: isize) -> (app: App)
        ensures
            app@ == AppView::initial(increment_amount),
    {
        App { store: AppStore::default(), run_state: RunState::Running, increment_amount }
    }

    /// The store of the application.
    pub fn store(&self) -> (store: &AppStore)
        ensures
            store@ == self@.store,
    {
        &self.store
    }

    /// Whether the loop goes on: true until the quit key is received.
    pub fn is_running(&self) -> (running: bool)
        ensures
            running == self@.running,
    {
        match self.run_state {
            RunState::Running => true,
            RunState::Off => false,
        }
    }

    /// Takes one event from the event source.
    pub fn handle_event(&mut self, event: Event)
        ensures
            final(self)@ == old(self)@.handle(event),
    {
        match self.run_state {
            RunState::Off => {},
            RunState::Running => match event {
                Event::Tick => self.store.reduce(),
                Event::Key(key) => match command_for(key.code, self.increment_amount) {
                    Command::Quit => {
                        self.run_state = RunState::Off;
                    },
                    Command::Dispatch(action) => self.store.dispatch(action),
                    Command::Ignore => {},
                },
                Event::Mouse(_) => {},
                Event::Resize(_, _) => {},
            },
        }
    }

    /// The screen to show in a viewport of `screen_size`.
    pub fn screen(&self, screen_size: Rect) -> (screen: View)
        ensures
            screen == self@.screen(screen_size),
    {
        View::Home(
            HomeProps {
                counter: self.store.state().get_counter(),
                screen_size,
                increment_amount: self.increment_amount,
            },
        )
    }

    /// The frame to draw in a viewport of `screen_size`: the built screen
    /// while the loop runs, nothing once it is off.
    pub fn frame(&self, screen_size: Rect) -> (widgets: Option<Vec<(TextBlock, Rect)>>)
        ensures
            widgets is Some <==> self@.running,
            widgets matches Some(drawn) ==> self@.screen(screen_size).builds(drawn@),
    {
        if self.is_running() {
            Some(self.screen(screen_size).build())
        } else {
            None
        }
    }
}

/// Once the loop is off, no event changes the application: nothing is
/// dispatched, nothing is reduced, and the loop stays off.
pub proof fn off_is_final(app: AppView, events: Seq<Event>)
    requires
        !app.running,
    ensures
        app.handle_all(events) == app,
    decreases events.len(),
{
    if events.len() > 0 {
        off_is_final(app, events.skip(1));
    }
}

/// The quit key, received while the loop runs, turns it off and leaves the
/// store as it was; whatever events follow change nothing.
pub proof fn quit_ends_the_loop(app: AppView, kind: KeyEventKind, events: Seq<Event>)
    requires
        app.running,
    ensures
        !app.handle(quit_key(kind)).running,
        app.handle(quit_key(kind)).store == app.store,
        app.handle(quit_key(kind)).handle_all(events) == app.handle(quit_key(kind)),
{
    off_is_final(app.handle(quit_key(kind)), events);
}

/// A key never changes the counter: what it dispatches waits for the next
/// tick.
pub proof fn keys_wait_for_the_tick(app: AppView, key: KeyEvent)
    ensures
        app.handle(Event::Key(key)).store.counter == app.store.counter,
{
}

} // verus!
