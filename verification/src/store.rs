//! The store: the counter, the queue of pending actions, and the reduce step
//! that applies them.

use vstd::prelude::*;

verus! {

/// A snapshot of the application state.
#[derive(Clone, Copy, Debug, PartialEq, Eq, Structural)]
pub struct State {
    counter: isize,
}

impl View for State {
    type V = int;

    /// The counter as a mathematical integer.
    closed spec fn view(&self) -> int {
        self.counter as int
    }
}

impl Default for State {
    /// The state at startup: a zeroed counter.
    fn default() -> (state: State)
        ensures
            state@ == 0,
    {
        State { counter: 0 }
    }
}

impl State {
    /// The current value of the counter.
    pub fn get_counter(&self) -> (counter: isize)
        ensures
            counter == self@,
    {
        self.counter
    }
}

/// An intent to change the state, queued until the next reduce.
#[derive(Clone, Copy, Debug, PartialEq, Eq, Structural)]
pub enum Action {
    /// Add the amount to the counter; a negative amount decrements.
    Increment(isize),
}

/// Whether `value` can be held by the counter.
pub open spec fn representable(value: int) -> bool {
    isize::MIN <= value <= isize::MAX
}

/// The counter after one action: the sum where it is representable, the
/// counter unchanged where it is not.
pub open spec fn apply(counter: int, action: Action) -> int {
    match action {
        Action::Increment(amount) => if representable(counter + amount) {
            counter + amount
        } else {
            counter
        },
    }
}

/// The counter after every action of `actions`, first to last.
pub open spec fn apply_all(counter: int, actions: Seq<Action>) -> int
    decreases actions.len(),
{
    if actions.len() == 0 {
        counter
    } else {
        apply_all(apply(counter, actions[0]), actions.skip(1))
    }
}

/// The sum of the amounts of `actions`.
pub open spec fn total(actions: Seq<Action>) -> int
    decreases actions.len(),
{
    if actions.len() == 0 {
        0
    } else {
        match actions[0] {
            Action::Increment(amount) => amount + total(actions.skip(1)),
        }
    }
}

/// Whether the counter stays representable after each action of `actions`
/// in turn, so that none of them is dropped.
pub open spec fn stays_representable(counter: int, actions: Seq<Action>) -> bool
    decreases actions.len(),
{
    if actions.len() == 0 {
        true
    } else {
        match actions[0] {
            Action::Increment(amount) => representable(counter + amount) && stays_representable(
                counter + amount,
                actions.skip(1),
            ),
        }
    }
}

/// What a store holds, as mathematics: the counter and the actions that wait
/// for the next reduce, oldest first.
pub struct StoreView {
    pub counter: int,
    pub pending: Seq<Action>,
}

impl StoreView {
    /// The store at startup.
    pub open spec fn initial() -> StoreView {
        StoreView { counter: 0, pending: Seq::empty() }
    }

    /// The store after `action` was queued.
    pub open spec fn dispatch(self, action: Action) -> StoreView {
        StoreView { counter: self.counter, pending: self.pending.push(action) }
    }

    /// The store after each of `actions` was queued, first to last.
    pub open spec fn dispatch_all(self, actions: Seq<Action>) -> StoreView
        decreases actions.len(),
    {
        if actions.len() == 0 {
            self
        } else {
            self.dispatch(actions[0]).dispatch_all(actions.skip(1))
        }
    }

    /// The store after the pending actions were applied and the queue cleared.
    pub open spec fn reduce(self) -> StoreView {
        StoreView { counter: apply_all(self.counter, self.pending), pending: Seq::empty() }
    }
}

/// Holds the current state and the actions dispatched since the last reduce.
#[derive(Debug)]
pub struct AppStore {
    actions: Vec<Action>,
    state: State,
}

impl View for AppStore {
    type V = StoreView;

    closed spec fn view(&self) -> StoreView {
        StoreView { counter: self.state@, pending: self.actions@ }
    }
}

impl Default for AppStore {
    /// A store with a zeroed counter and nothing pending.
    fn default() -> (store: AppStore)
        ensures
            store@ == StoreView::initial(),
    {
        AppStore { actions: Vec::new(), state: State::default() }
    }
}

impl AppStore {
    /// The current state. It changes in `reduce` and nowhere else.
    pub fn state(&self) -> (state: &State)
        ensures
            state@ == self@.counter,
    {
        &self.state
    }

    /// Applies every pending action to the state, oldest first, and clears
    /// the queue. An increment that would take the counter out of its range
    /// is dropped.
    pub fn reduce(&mut self)
        ensures
            final(self)@ == old(self)@.reduce(),
    {
        let mut counter = self.state.counter;
        let count = self.actions.len();
        let mut index: usize = 0;
        assert(self.actions@.skip(0) == self.actions@);
        while index < count
            invariant
                index <= count,
                count == self.actions@.len(),
                self.actions@ == old(self).actions@,
                apply_all(counter as int, self.actions@.skip(index as int)) == apply_all(
                    old(self).state@,
                    old(self).actions@,
                ),
            decreases count - index,
        {
            let ghost rest = self.actions@.skip(index as int);
            assert(rest[0] == self.actions@[index as int]);
            assert(rest.skip(1) == self.actions@.skip(index + 1));
            match self.actions[index] {
                Action::Increment(amount) => {
                    if let Some(sum) = counter.checked_add(amount) {
                        counter = sum;
                    }
                },
            }
            index += 1;
        }
        self.state = State { counter };
        self.actions.clear();
    }

    /// Queues `action` for the next reduce. The state is not touched.
    pub fn dispatch(&mut self, action: Action)
        ensures
            final(self)@ == old(self)@.dispatch(action),
            final(self)@.counter == old(self)@.counter,
    {
        self.actions.push(action);
    }
}

/// Applying a queue with one more action at its end is applying the queue
/// and then that action.
pub proof fn apply_all_push(counter: int, actions: Seq<Action>, last: Action)
    ensures
        apply_all(counter, actions.push(last)) == apply(apply_all(counter, actions), last),
    decreases actions.len(),
{
    let longer = actions.push(last);
    if actions.len() == 0 {
        assert(longer[0] == last);
        assert(longer.skip(1).len() == 0);
        assert(apply_all(apply(counter, last), longer.skip(1)) == apply(counter, last));
    } else {
        apply_all_push(apply(counter, actions[0]), actions.skip(1), last);
        assert(longer[0] == actions[0]);
        assert(longer.skip(1) == actions.skip(1).push(last));
    }
}

/// Where the counter stays representable after each action, applying them
/// all adds up their amounts.
pub proof fn apply_all_adds_up(counter: int, actions: Seq<Action>)
    requires
        stays_representable(counter, actions),
    ensures
        apply_all(counter, actions) == counter + total(actions),
    decreases actions.len(),
{
    if actions.len() > 0 {
        apply_all_adds_up(apply(counter, actions[0]), actions.skip(1));
    }
}

/// Dispatching actions one after the other appends them to the queue in
/// their order and leaves the counter as it was.
pub proof fn dispatch_all_appends(store: StoreView, actions: Seq<Action>)
    ensures
        store.dispatch_all(actions) == (StoreView {
            counter: store.counter,
            pending: store.pending + actions,
        }),
    decreases actions.len(),
{
    if actions.len() == 0 {
        assert(store.pending + actions == store.pending);
    } else {
        dispatch_all_appends(store.dispatch(actions[0]), actions.skip(1));
        assert(store.pending.push(actions[0]) + actions.skip(1) == store.pending + actions);
    }
}

/// Any number of dispatches followed by one reduce: the queue is empty
/// afterwards, and the counter is what applying the pending actions in their
/// order gives, those that were already waiting first.
pub proof fn reduce_applies_in_order(store: StoreView, actions: Seq<Action>)
    ensures
        store.dispatch_all(actions).reduce() == (StoreView {
            counter: apply_all(store.counter, store.pending + actions),
            pending: Seq::empty(),
        }),
{
    dispatch_all_appends(store, actions);
}

/// Any number of dispatches followed by one reduce, where the counter stays
/// representable throughout: the counter ends as the counter before plus the
/// sum of all amounts, and the queue is empty.
pub proof fn dispatched_increments_add_up(store: StoreView, actions: Seq<Action>)
    requires
        stays_representable(store.counter, store.pending + actions),
    ensures
        store.dispatch_all(actions).reduce() == (StoreView {
            counter: store.counter + total(store.pending + actions),
            pending: Seq::empty(),
        }),
{
    reduce_applies_in_order(store, actions);
    apply_all_adds_up(store.counter, store.pending + actions);
}

/// An increment that would take the counter out of its range is dropped:
/// dispatching it and reducing ends where reducing without it ends. With
/// nothing else pending, the counter is left unchanged.
pub proof fn overflowing_increment_is_dropped(store: StoreView, amount: isize)
    requires
        !representable(store.reduce().counter + amount),
    ensures
        store.dispatch(Action::Increment(amount)).reduce() == store.reduce(),
        store.pending.len() == 0 ==> store.dispatch(Action::Increment(amount)).reduce().counter
            == store.counter,
{
    apply_all_push(store.counter, store.pending, Action::Increment(amount));
}

} // verus!
