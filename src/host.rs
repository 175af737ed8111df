//! The host's timer primitive, modelled as a state machine.
//!
//! The host keeps, for each registered timer, whether a deadline is pending
//! and which one. It offers a single registration call, `modify` to arm or
//! re-arm, a synchronous cancellation used at teardown, and the expiry check
//! that decides when a dispatch happens.

use vstd::prelude::*;
use crate::tick::{is_after_eq, time_after_eq};

verus! {

/// Flag: the timer does not wake an idle processor; it runs when the
/// processor next wakes for another reason.
pub const TIMER_DEFERRABLE: u32 = 0x0008_0000;

/// Flag: the callback runs with interrupts disabled, so an interrupt
/// handler may wait for a running instance to finish.
pub const TIMER_IRQSAFE: u32 = 0x0020_0000;

/// Where a timer stands in the host's view.
#[derive(PartialEq, Eq, Structural, Clone, Copy, Debug)]
pub enum TimerState {
    /// Placed but not yet registered.
    Uninitialized,
    /// Registered, no deadline pending.
    Idle,
    /// Registered, to fire once the tick counter reaches `expires`.
    Armed { expires: u64 },
    /// Cancelled at teardown: the host never dispatches it again.
    Cancelled,
}

impl TimerState {
    /// Registered and not torn down.
    pub open spec fn is_live(self) -> bool {
        self is Idle || self is Armed
    }

    /// Whether the host dispatches a timer in this state at tick `now`:
    /// it is armed and its deadline has been reached.
    pub open spec fn is_due_at(self, now: u64) -> bool {
        match self {
            TimerState::Armed { expires } => is_after_eq(now, expires),
            _ => false,
        }
    }
}

/// Once cancelled, a timer is due at no tick at all: whatever ticks the host
/// runs its expiry check at afterwards, no dispatch happens.
pub proof fn lemma_no_dispatch_after_cancel(ticks: Seq<u64>)
    ensures
        forall|i: int| 0 <= i < ticks.len() ==> !#[trigger] TimerState::Cancelled.is_due_at(ticks[i]),
{
}

/// The host's per-timer state, owned by exactly one timer.
#[derive(Debug)]
pub struct TimerList {
    state: TimerState,
    flags: u32,
}

impl TimerList {
    pub closed spec fn state(&self) -> TimerState {
        self.state
    }

    pub closed spec fn flags(&self) -> u32 {
        self.flags
    }

    pub open spec fn is_live(&self) -> bool {
        self.state().is_live()
    }

    /// Fresh, unregistered state.
    pub fn new() -> (r: TimerList)
        ensures
            r.state() == TimerState::Uninitialized,
            r.flags() == 0,
    {
        TimerList { state: TimerState::Uninitialized, flags: 0 }
    }

    /// The host's one registration call; it cannot fail.
    pub(crate) fn init_timer_key(&mut self, flags: u32)
        requires
            old(self).state() == TimerState::Uninitialized,
        ensures
            final(self).state() == TimerState::Idle,
            final(self).flags() == flags,
    {
        self.state = TimerState::Idle;
        self.flags = flags;
    }

    /// The scheduling flags given at registration.
    pub fn get_flags(&self) -> (r: u32)
        ensures
            r == self.flags(),
    {
        self.flags
    }

    /// The current state.
    pub fn get_state(&self) -> (r: TimerState)
        ensures
            r == self.state(),
    {
        self.state
    }

    /// Arms the timer to fire at the absolute tick `expires`, replacing any
    /// pending deadline. Returns whether a deadline was pending before.
    pub fn modify(&mut self, expires: u64) -> (was_active: bool)
        requires
            old(self).is_live(),
        ensures
            was_active == (old(self).state() is Armed),
            final(self).state() == (TimerState::Armed { expires }),
            final(self).flags() == old(self).flags(),
    {
        let was_active = match self.state {
            TimerState::Armed { .. } => true,
            _ => false,
        };
        self.state = TimerState::Armed { expires };
        was_active
    }

    /// The host's expiry check at tick `now`: an armed timer whose deadline
    /// has been reached goes back to idle, and a dispatch is due.
    pub(crate) fn expire(&mut self, now: u64) -> (due: bool)
        ensures
            due == old(self).state().is_due_at(now),
            due ==> final(self).state() == TimerState::Idle,
            !due ==> *final(self) == *old(self),
            final(self).flags() == old(self).flags(),
    {
        match self.state {
            TimerState::Armed { expires } => {
                if time_after_eq(now, expires) {
                    self.state = TimerState::Idle;
                    true
                } else {
                    false
                }
            },
            _ => false,
        }
    }

    /// Synchronous cancellation: once it returns, no dispatch is pending and
    /// none will start.
    pub(crate) fn del_timer_sync(&mut self)
        ensures
            final(self).state() == TimerState::Cancelled,
            final(self).flags() == old(self).flags(),
    {
        self.state = TimerState::Cancelled;
    }
}

} // verus!
