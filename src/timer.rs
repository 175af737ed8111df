//! Timers: configuration, placement, registration, dispatch and teardown.

use vstd::prelude::*;
use crate::host::{TimerList, TimerState, TIMER_DEFERRABLE, TIMER_IRQSAFE};
use crate::tick::{advance, tick_add};

verus! {

/// What a timer is made from: a diagnostic name, a callback and flags.
/// Consumed by exactly one placement strategy.
pub struct TimerBuilder<C> {
    pub name: String,
    pub callback: C,
    pub flags: u32,
}

/// The work a timer does when it fires.
///
/// `invoke` runs in the host's dispatch context with the timer's host state,
/// through which it may re-arm its own timer. It must leave the registration
/// as it found it: same flags, still live. `invoked` states what one run
/// does, from the callback before and after it, the timer's state after it
/// and the tick of dispatch.
pub trait TimerCallback: Sized {
    spec fn invoked(self, after: Self, state_after: TimerState, now: u64) -> bool;

    fn invoke(&mut self, timer: &mut TimerList, now: u64)
        requires
            old(timer).is_live(),
        ensures
            final(timer).is_live(),
            final(timer).flags() == old(timer).flags(),
            old(self).invoked(*final(self), final(timer).state(), now),
    ;
}

/// A registered timer: the host state, the callback and the name.
pub struct Timer<C> {
    list: TimerList,
    callback: C,
    name: String,
}

impl<C> TimerBuilder<C> {
    /// A builder with the given name and callback and no flags.
    pub fn new(name: String, callback: C) -> (r: Self)
        ensures
            r.name == name,
            r.callback == callback,
            r.flags == 0,
    {
        TimerBuilder { name, callback, flags: 0 }
    }

    /// Marks the timer deferrable.
    pub fn deferrable(self) -> (r: Self)
        ensures
            r.name == self.name,
            r.callback == self.callback,
            r.flags == self.flags | TIMER_DEFERRABLE,
    {
        let mut this = self;
        this.flags = this.flags | TIMER_DEFERRABLE;
        this
    }

    /// Marks the timer safe to wait for from interrupt context.
    pub fn irqsafe(self) -> (r: Self)
        ensures
            r.name == self.name,
            r.callback == self.callback,
            r.flags == self.flags | TIMER_IRQSAFE,
    {
        let mut this = self;
        this.flags = this.flags | TIMER_IRQSAFE;
        this
    }
}

/// Why a placement into a slot was refused.
#[derive(PartialEq, Eq, Structural, Clone, Copy, Debug)]
pub enum PlacementError {
    /// The slot still holds a timer that has not been torn down.
    SlotOccupied,
}

impl<C: TimerCallback> TimerBuilder<C> {
    /// Places the timer in a fresh heap allocation, which never moves, and
    /// registers it there.
    pub fn boxed(self) -> (r: Box<Timer<C>>)
        ensures
            r.registered_from(self),
    {
        let (uninit, flags) = Timer::new_uninitialized(self);
        let mut result = Box::new(uninit);
        result.initialize(flags);
        result
    }

    /// Places the timer in `place`, tearing down any timer it held before,
    /// and registers it there. Returns the placed timer.
    pub fn in_option<'b>(self, place: &'b mut Option<Timer<C>>) -> (r: &'b mut Timer<C>)
        ensures
            r.registered_from(self),
            *final(place) == Some(*final(r)),
    {
        let (uninit, flags) = Timer::new_uninitialized(self);
        if let Some(prev) = place {
            prev.cancel_sync();
        }
        *place = Some(uninit);
        match place {
            Some(t) => {
                t.initialize(flags);
                t
            },
            None => unreached(),
        }
    }

    /// Places the timer in the empty slot `place` and registers it there.
    /// A slot that still holds a timer is refused and left as it is: its
    /// occupant must be torn down and removed first.
    pub fn in_uninit<'b>(self, place: &'b mut Option<Timer<C>>) -> (r: Result<
        &'b mut Timer<C>,
        PlacementError,
    >)
        ensures
            r is Err <==> old(place).is_some(),
            r is Err ==> *final(place) == *old(place),
            r matches Ok(t) ==> t.registered_from(self) && *final(place) == Some(*final(t)),
    {
        if place.is_some() {
            return Err(PlacementError::SlotOccupied);
        }
        let (uninit, flags) = Timer::new_uninitialized(self);
        *place = Some(uninit);
        match place {
            Some(t) => {
                t.initialize(flags);
                Ok(t)
            },
            None => unreached(),
        }
    }
}

impl<C> Timer<C> {
    pub closed spec fn list(&self) -> TimerList {
        self.list
    }

    pub closed spec fn callback(&self) -> C {
        self.callback
    }

    pub closed spec fn name(&self) -> String {
        self.name
    }

    pub open spec fn state(&self) -> TimerState {
        self.list().state()
    }

    pub open spec fn flags(&self) -> u32 {
        self.list().flags()
    }

    /// Teardown: cancels synchronously with the host. Once this returns no
    /// dispatch of the callback is running or will start.
    pub fn cancel_sync(&mut self)
        ensures
            final(self).state() == TimerState::Cancelled,
            final(self).same_registration(*old(self)),
    {
        self.list.del_timer_sync();
    }

    /// Registered with the host as `b` describes, and not yet armed.
    pub open spec fn registered_from(&self, b: TimerBuilder<C>) -> bool {
        &&& self.state() == TimerState::Idle
        &&& self.flags() == b.flags
        &&& self.name() == b.name
        &&& self.callback() == b.callback
    }

    /// Everything but the host's pending deadline is as in `other`: the
    /// registration itself, with its name, flags and callback.
    pub open spec fn same_registration(&self, other: Timer<C>) -> bool {
        &&& self.flags() == other.flags()
        &&& self.name() == other.name()
        &&& self.callback() == other.callback()
    }
}

impl<C: TimerCallback> Timer<C> {
    /// The timer's parts, not yet registered. It must be placed and then
    /// registered with `initialize` before any other use.
    fn new_uninitialized(args: TimerBuilder<C>) -> (r: (Self, u32))
        ensures
            r.0.state() == TimerState::Uninitialized,
            r.0.name() == args.name,
            r.0.callback() == args.callback,
            r.1 == args.flags,
    {
        let TimerBuilder { name, callback, flags } = args;
        (Timer { list: TimerList::new(), callback, name }, flags)
    }

    /// Registers the timer, at its final place, with the host.
    fn initialize(&mut self, flags: u32)
        requires
            old(self).state() == TimerState::Uninitialized,
        ensures
            final(self).state() == TimerState::Idle,
            final(self).flags() == flags,
            final(self).name() == old(self).name(),
            final(self).callback() == old(self).callback(),
    {
        self.list.init_timer_key(flags);
    }

    /// The diagnostic name.
    pub fn get_name(&self) -> (r: &String)
        ensures
            *r == self.name(),
    {
        &self.name
    }

    /// The host state: scheduling flags and pending deadline.
    pub fn get_list(&self) -> (r: &TimerList)
        ensures
            *r == self.list(),
    {
        &self.list
    }

    /// The callback.
    pub fn get_callback(&self) -> (r: &C)
        ensures
            *r == self.callback(),
    {
        &self.callback
    }

    /// The callback, for work outside dispatch; the registration stays.
    pub fn callback_mut(&mut self) -> (r: &mut C)
        ensures
            *r == old(self).callback(),
            final(self).list() == old(self).list(),
            final(self).name() == old(self).name(),
            final(self).callback() == *final(r),
    {
        &mut self.callback
    }

    /// Arms or re-arms the timer to fire at the absolute tick `expires`.
    /// Returns `true` when it was armed before, `false` when it was idle.
    pub fn modify(&mut self, expires: u64) -> (was_active: bool)
        requires
            old(self).state().is_live(),
        ensures
            was_active == (old(self).state() is Armed),
            final(self).state() == (TimerState::Armed { expires }),
            final(self).same_registration(*old(self)),
    {
        self.list.modify(expires)
    }

    /// The dispatch path, run by the host at tick `now`: when the timer is
    /// armed and its deadline reached, it goes idle and the callback runs,
    /// with the timer's host state in hand so that it can re-arm. Returns
    /// whether the callback ran; when it did not, nothing changed.
    pub fn dispatch(&mut self, now: u64) -> (fired: bool)
        ensures
            fired == old(self).state().is_due_at(now),
            !fired ==> *final(self) == *old(self),
            fired ==> final(self).state().is_live(),
            fired ==> old(self).callback().invoked(final(self).callback(), final(self).state(), now),
            old(self).state() is Cancelled ==> !fired,
            final(self).flags() == old(self).flags(),
            final(self).name() == old(self).name(),
    {
        if self.list.expire(now) {
            self.callback.invoke(&mut self.list, now);
            true
        } else {
            false
        }
    }
}

/// A callback that re-arms its timer `period` ticks after each firing and
/// counts its runs, so that the timer fires again and again until torn down.
#[derive(PartialEq, Eq, Structural, Clone, Copy, Debug)]
pub struct Periodic {
    pub period: u64,
    pub runs: u64,
}

impl TimerCallback for Periodic {
    open spec fn invoked(self, after: Self, state_after: TimerState, now: u64) -> bool {
        &&& after.period == self.period
        &&& after.runs == (if self.runs == u64::MAX {
            self.runs
        } else {
            (self.runs + 1) as u64
        })
        &&& state_after == (TimerState::Armed { expires: tick_add(now, self.period) as u64 })
    }

    fn invoke(&mut self, timer: &mut TimerList, now: u64) {
        if self.runs < u64::MAX {
            self.runs = self.runs + 1;
        }
        timer.modify(advance(now, self.period));
    }
}

} // verus!
