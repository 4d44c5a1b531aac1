//! Events, and the decisions of the thread that produces them: how long to
//! wait for input, which inputs become events, and when a tick is due.

use vstd::prelude::*;

verus! {

/// The keys that the application tells apart.
#[derive(Clone, Copy, Debug, PartialEq, Eq, Structural)]
pub enum KeyCode {
    /// A character key.
    Char(char),
    /// The left arrow.
    Left,
    /// The right arrow.
    Right,
    /// Any other key.
    Other,
}

/// What happened to a key.
#[derive(Clone, Copy, Debug, PartialEq, Eq, Structural)]
pub enum KeyEventKind {
    Press,
    Repeat,
    Release,
}

/// A key and what happened to it.
#[derive(Clone, Copy, Debug, PartialEq, Eq, Structural)]
pub struct KeyEvent {
    pub code: KeyCode,
    pub kind: KeyEventKind,
}

/// A pointer event, by the cell it happened in.
#[derive(Clone, Copy, Debug, PartialEq, Eq, Structural)]
pub struct MouseEvent {
    pub column: u16,
    pub row: u16,
}

/// What the terminal reports when it is polled.
#[derive(Clone, Copy, Debug, PartialEq, Eq, Structural)]
pub enum Input {
    /// A key was pressed, held or released.
    Key(KeyEvent),
    /// The pointer moved, clicked or scrolled.
    Mouse(MouseEvent),
    /// The terminal now has this many columns and rows.
    Resize(u16, u16),
}

/// What the application loop receives.
#[derive(Clone, Copy, Debug, PartialEq, Eq, Structural)]
pub enum Event {
    /// The tick interval has passed.
    Tick,
    /// A key was pressed.
    Key(KeyEvent),
    /// The pointer moved, clicked or scrolled.
    Mouse(MouseEvent),
    /// The terminal now has this many columns and rows.
    Resize(u16, u16),
}

/// The event that an input becomes: a key press, a pointer event or a resize
/// is passed on, a key that is held or released is not.
pub open spec fn classified(input: Input) -> Option<Event> {
    match input {
        Input::Key(key) => if key.kind == KeyEventKind::Press {
            Some(Event::Key(key))
        } else {
            None
        },
        Input::Mouse(mouse) => Some(Event::Mouse(mouse)),
        Input::Resize(columns, rows) => Some(Event::Resize(columns, rows)),
    }
}

/// The number of nanoseconds in a millisecond.
pub const NANOS_PER_MILLI: u128 = 1_000_000;

/// The timer of an event handler, as mathematics. Times are in nanoseconds
/// since the handler was made.
pub struct TimerView {
    /// The time between two ticks.
    pub tick_rate: int,
    /// When the last tick was sent, or zero before the first.
    pub last_tick: int,
}

impl TimerView {
    /// The timer of a handler made with a tick rate of `tick_delay`
    /// milliseconds.
    pub open spec fn initial(tick_delay: int) -> TimerView {
        TimerView { tick_rate: tick_delay * NANOS_PER_MILLI, last_tick: 0 }
    }

    /// The time since the last tick, zero where `now` lies before it.
    pub open spec fn elapsed(self, now: int) -> int {
        if now >= self.last_tick {
            now - self.last_tick
        } else {
            0
        }
    }

    /// How long to wait for input at `now`: what is left of the tick
    /// interval, zero where it has passed.
    pub open spec fn timeout(self, now: int) -> int {
        if self.elapsed(now) < self.tick_rate {
            self.tick_rate - self.elapsed(now)
        } else {
            0
        }
    }

    /// Whether a tick is due at `now`.
    pub open spec fn tick_due(self, now: int) -> bool {
        self.elapsed(now) >= self.tick_rate
    }

    /// The timer after `tick` at `now`: restarted where a tick was due,
    /// unchanged where not.
    pub open spec fn after_tick(self, now: int) -> TimerView {
        if self.tick_due(now) {
            TimerView { tick_rate: self.tick_rate, last_tick: now }
        } else {
            self
        }
    }
}

/// Decides for the event thread. The thread reads its clock, polls the
/// terminal for at most `timeout`, sends on what `classify` makes of the
/// input, reads its clock again and sends what `tick` hands back.
#[derive(Debug)]
pub struct EventHandler {
    tick_rate: u128,
    last_tick: u128,
}

impl View for EventHandler {
    type V = TimerView;

    closed spec fn view(&self) -> TimerView {
        TimerView { tick_rate: self.tick_rate as int, last_tick: self.last_tick as int }
    }
}

impl EventHandler {
    /// A handler that ticks every `tick_delay` milliseconds. Its clock
    /// starts now: the first tick is due one interval from here.
    pub fn new(tick_delay: u64) -> (handler: EventHandler)
        ensures
            handler@ == TimerView::initial(tick_delay as int),
    {
        assert(tick_delay * NANOS_PER_MILLI <= u128::MAX) by (nonlinear_arith)
            requires
                tick_delay <= u64::MAX,
                NANOS_PER_MILLI == 1_000_000,
        ;
        EventHandler { tick_rate: tick_delay as u128 * NANOS_PER_MILLI, last_tick: 0 }
    }

    /// How long to wait for input when the clock shows `now`.
    pub fn timeout(&self, now: u128) -> (wait: u128)
        ensures
            wait == self@.timeout(now as int),
    {
        self.tick_rate.saturating_sub(now.saturating_sub(self.last_tick))
    }

    /// The event to send for an input, if any.
    pub fn classify(input: Input) -> (event: Option<Event>)
        ensures
            event == classified(input),
    {
        match input {
            Input::Key(key) => match key.kind {
                KeyEventKind::Press => Some(Event::Key(key)),
                _ => None,
            },
            Input::Mouse(mouse) => Some(Event::Mouse(mouse)),
            Input::Resize(columns, rows) => Some(Event::Resize(columns, rows)),
        }
    }

    /// To call after each poll, when the clock shows `now`: where a tick is
    /// due, hands back the tick to send and restarts the interval at `now`.
    pub fn tick(&mut self, now: u128) -> (event: Option<Event>)
        ensures
            final(self)@ == old(self)@.after_tick(now as int),
            old(self)@.tick_due(now as int) ==> event == Some(Event::Tick),
            !old(self)@.tick_due(now as int) ==> event is None,
    {
        if now.saturating_sub(self.last_tick) >= self.tick_rate {
            self.last_tick = now;
            Some(Event::Tick)
        } else {
            None
        }
    }
}

} // verus!
