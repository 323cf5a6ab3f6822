//! The handoff: a slot that carries one value, once, from the render side to
//! the serving side.

use vstd::prelude::*;

verus! {

/// Where a handoff stands. It only ever moves down this list.
pub enum HandoffState<T> {
    /// Nothing was deposited yet: whoever waits stays blocked.
    Empty,
    /// The value was deposited and waits to be taken.
    Filled(T),
    /// The value was taken. The slot stays spent.
    Delivered,
}

/// The state after a deposit of `value`.
pub open spec fn spec_deposit<T>(state: HandoffState<T>, value: T) -> HandoffState<T> {
    HandoffState::Filled(value)
}

/// What a take hands out in `state`, and the state it leaves.
pub open spec fn spec_take<T>(state: HandoffState<T>) -> (Option<T>, HandoffState<T>) {
    match state {
        HandoffState::Filled(value) => (Some(value), HandoffState::Delivered),
        _ => (None, state),
    }
}

/// Exactly once: after a deposit the first take hands out the deposited
/// value, every later take hands out nothing, and the slot never becomes
/// empty again, so that no second deposit is ever allowed.
pub proof fn lemma_exactly_once<T>(value: T)
    ensures
        spec_take(spec_deposit(HandoffState::Empty, value)).0 == Some(value),
        spec_take(spec_take(spec_deposit(HandoffState::Empty, value)).1).0 == None::<T>,
        spec_take(spec_deposit(HandoffState::Empty, value)).1 == HandoffState::<T>::Delivered,
        spec_take(HandoffState::<T>::Delivered).1 == HandoffState::<T>::Delivered,
{
}

/// Nothing is handed out before the deposit.
pub proof fn lemma_nothing_before_deposit<T>()
    ensures
        spec_take(HandoffState::<T>::Empty) == (None::<T>, HandoffState::<T>::Empty),
{
}

/// A single-use slot for one value of type `T`.
pub struct Handoff<T> {
    slot: Option<T>,
    spent: bool,
}

impl<T> Handoff<T> {
    /// Where the handoff stands.
    pub closed spec fn state(&self) -> HandoffState<T> {
        match self.slot {
            Some(value) => HandoffState::Filled(value),
            None => if self.spent {
                HandoffState::Delivered
            } else {
                HandoffState::Empty
            },
        }
    }

    /// A fresh, empty slot.
    pub fn new() -> (handoff: Handoff<T>)
        ensures
            handoff.state() == HandoffState::<T>::Empty,
    {
        Handoff { slot: None, spent: false }
    }

    /// Whether a deposit is still allowed: nothing was deposited yet.
    pub fn is_empty(&self) -> (empty: bool)
        ensures
            empty == (self.state() == HandoffState::<T>::Empty),
    {
        !self.spent && self.slot.is_none()
    }

    /// Deposits the value. Allowed once: a second deposit is a broken startup
    /// sequence, which callers rule out.
    pub fn deposit(&mut self, value: T)
        requires
            old(self).state() == HandoffState::<T>::Empty,
        ensures
            final(self).state() == spec_deposit(old(self).state(), value),
    {
        self.slot = Some(value);
        self.spent = true;
    }

    /// Takes the deposited value if it is there. Before the deposit, and after
    /// the value was taken, this hands out nothing and changes nothing.
    pub fn take(&mut self) -> (value: Option<T>)
        ensures
            (value, final(self).state()) == spec_take(old(self).state()),
    {
        let value = self.slot.take();
        if value.is_some() {
            self.spent = true;
        }
        value
    }
}

} // verus!
