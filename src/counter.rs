//! An event counter flushed by a periodic timer.
//!
//! Each event on the counter's interrupt line adds one to a count. A timer
//! fires every `DELAY` ticks: when a full delay has passed since the last
//! flush, the count is taken and reset, half of it is reported (the device
//! signals twice per logical event), and the timer re-arms for a full delay;
//! when it fires early, it re-arms for the remaining ticks only.

use vstd::prelude::*;
use vstd::string::StringExecFns;
use crate::host::{TimerList, TimerState};
use crate::tick::{advance, elapsed, tick_add, tick_distance};
use crate::timer::{Timer, TimerBuilder, TimerCallback};

verus! {

/// Ticks per second.
pub const HZ: u64 = 1000;

/// Ticks between two flushes: ten seconds.
pub const DELAY: u64 = 10 * HZ;

/// The interrupt line the counter listens on.
pub const IRQ_LINE: i32 = 1;

/// What an interrupt handler tells the host.
#[derive(PartialEq, Eq, Structural, Clone, Copy, Debug)]
pub enum IrqReturn {
    /// The interrupt was not for this handler.
    Unhandled,
    /// The interrupt was handled.
    Handled,
}

/// A failed setup, with the host's negative error number.
#[derive(PartialEq, Eq, Structural, Clone, Copy, Debug)]
pub struct Error {
    pub errno: i32,
}

impl Error {
    /// The error for a negative error number returned by the host.
    pub fn from_kernel_errno(errno: i32) -> (r: Error)
        ensures
            r.errno == errno,
    {
        Error { errno }
    }
}

/// The count of events since the last flush, and the tick of that flush.
#[derive(PartialEq, Eq, Structural, Clone, Copy, Debug)]
pub struct CounterData {
    pub counter: usize,
    pub last_printed: u64,
}

/// What a firing of the flush timer decided.
#[derive(PartialEq, Eq, Structural, Clone, Copy, Debug)]
pub struct FlushStep {
    /// The number reported, when the count was flushed.
    pub report: Option<usize>,
    /// The tick the timer is re-armed for.
    pub rearm_at: u64,
}

/// `c` plus one on a counter that wraps at its width.
pub open spec fn bumped(c: usize) -> usize {
    if c == usize::MAX {
        0
    } else {
        (c + 1) as usize
    }
}

/// The outcome of a firing at tick `now` on `d`: the data after it, and the
/// step taken.
pub open spec fn flush_outcome(d: CounterData, now: u64) -> (CounterData, FlushStep) {
    let dist = tick_distance(now, d.last_printed);
    if dist < DELAY {
        (d, FlushStep { report: None, rearm_at: tick_add(now, (DELAY - dist) as u64) as u64 })
    } else {
        (
            CounterData { counter: 0, last_printed: now },
            FlushStep { report: Some(d.counter / 2), rearm_at: tick_add(now, DELAY) as u64 },
        )
    }
}

impl CounterData {
    /// No events yet; the last flush is taken to be at tick `now`.
    pub fn new(now: u64) -> (r: CounterData)
        ensures
            r.counter == 0,
            r.last_printed == now,
    {
        CounterData { counter: 0, last_printed: now }
    }

    /// Counts one event.
    pub fn handle_key(&mut self) -> (r: IrqReturn)
        ensures
            r == IrqReturn::Handled,
            final(self).counter == bumped(old(self).counter),
            final(self).last_printed == old(self).last_printed,
    {
        self.counter = if self.counter == usize::MAX {
            0
        } else {
            self.counter + 1
        };
        IrqReturn::Handled
    }

    /// The flush timer fired at tick `now`. Before a full delay since the
    /// last flush, nothing changes and the timer is re-armed for the ticks
    /// that remain; otherwise the count is reset, half of it reported, and
    /// the timer re-armed a full delay after `now`.
    pub fn on_timer(&mut self, now: u64) -> (r: FlushStep)
        ensures
            (*final(self), r) == flush_outcome(*old(self), now),
    {
        let diff = elapsed(now, self.last_printed);
        if diff < DELAY {
            return FlushStep { report: None, rearm_at: advance(now, DELAY - diff) };
        }
        let counter = self.counter;
        self.counter = 0;
        self.last_printed = now;
        FlushStep { report: Some(counter / 2), rearm_at: advance(now, DELAY) }
    }
}

/// The flush timer's callback: the counter and the report not yet taken.
pub struct Callback {
    pub data: CounterData,
    pub pending_report: Option<usize>,
}

impl TimerCallback for Callback {
    open spec fn invoked(self, after: Self, state_after: TimerState, now: u64) -> bool {
        let (data, step) = flush_outcome(self.data, now);
        &&& after.data == data
        &&& after.pending_report == (if step.report is Some {
            step.report
        } else {
            self.pending_report
        })
        &&& state_after == (TimerState::Armed { expires: step.rearm_at })
    }

    fn invoke(&mut self, timer: &mut TimerList, now: u64) {
        let step = self.data.on_timer(now);
        if step.report.is_some() {
            self.pending_report = step.report;
        }
        timer.modify(step.rearm_at);
    }
}

/// The counter with its interrupt line and its flush timer.
pub struct Ps2Counter {
    timer: Box<Timer<Callback>>,
    cookie: u64,
}

impl Ps2Counter {
    pub closed spec fn timer(&self) -> Timer<Callback> {
        *self.timer
    }

    pub closed spec fn cookie(&self) -> u64 {
        self.cookie
    }

    pub open spec fn data(&self) -> CounterData {
        self.timer().callback().data
    }

    /// Sets the counter up once the host has answered the interrupt line's
    /// registration with `irq_status`, under the identity `cookie`, at tick
    /// `now`. A negative status aborts with that error; otherwise the flush
    /// timer is placed on the heap and armed for a full delay.
    pub fn init(irq_status: i32, cookie: u64, now: u64) -> (r: Result<Ps2Counter, Error>)
        ensures
            irq_status < 0 <==> r is Err,
            r matches Err(e) ==> e.errno == irq_status,
            r matches Ok(c) ==> {
                &&& c.cookie() == cookie
                &&& c.data() == (CounterData { counter: 0, last_printed: now })
                &&& c.timer().callback().pending_report is None
                &&& c.timer().state() == (TimerState::Armed { expires: tick_add(now, DELAY) as u64 })
            },
    {
        if irq_status < 0 {
            return Err(Error::from_kernel_errno(irq_status));
        }
        let callback = Callback { data: CounterData::new(now), pending_report: None };
        let mut timer = TimerBuilder::new(String::from_str("ps2counter"), callback).boxed();
        timer.modify(advance(now, DELAY));
        Ok(Ps2Counter { timer, cookie })
    }

    /// The interrupt handler: counts the event when it comes on the
    /// counter's line with the counter's identity, and otherwise leaves
    /// everything as it was and reports the interrupt as not its own.
    pub fn trampoline(&mut self, irq: i32, cookie: u64) -> (r: IrqReturn)
        ensures
            (irq == IRQ_LINE && cookie == old(self).cookie()) ==> {
                &&& r == IrqReturn::Handled
                &&& final(self).data().counter == bumped(old(self).data().counter)
                &&& final(self).data().last_printed == old(self).data().last_printed
            },
            !(irq == IRQ_LINE && cookie == old(self).cookie()) ==> {
                &&& r == IrqReturn::Unhandled
                &&& final(self).data() == old(self).data()
            },
            final(self).cookie() == old(self).cookie(),
            final(self).timer().list() == old(self).timer().list(),
            final(self).timer().callback().pending_report == old(self).timer().callback().pending_report,
    {
        if cookie != self.cookie || irq != IRQ_LINE {
            IrqReturn::Unhandled
        } else {
            self.timer.callback_mut().data.handle_key()
        }
    }

    /// The host's dispatch of the flush timer at tick `now`. When the timer
    /// is due it runs the flush step: data, report and re-arm as
    /// `flush_outcome` says. Otherwise nothing changes.
    pub fn run_timer(&mut self, now: u64) -> (fired: bool)
        ensures
            fired == old(self).timer().state().is_due_at(now),
            !fired ==> *final(self) == *old(self),
            fired ==> {
                let (data, step) = flush_outcome(old(self).data(), now);
                &&& final(self).data() == data
                &&& step.report is Some ==> final(self).pending_report() == step.report
                &&& step.report is None ==> final(self).pending_report() == old(self).pending_report()
                &&& final(self).timer().state() == (TimerState::Armed { expires: step.rearm_at })
            },
            final(self).cookie() == old(self).cookie(),
    {
        self.timer.dispatch(now)
    }

    pub open spec fn pending_report(&self) -> Option<usize> {
        self.timer().callback().pending_report
    }

    /// Takes the report of the last flush, if one is waiting.
    pub fn take_report(&mut self) -> (r: Option<usize>)
        ensures
            r == old(self).pending_report(),
            final(self).pending_report() is None,
            final(self).data() == old(self).data(),
            final(self).timer().list() == old(self).timer().list(),
            final(self).cookie() == old(self).cookie(),
    {
        let cb = self.timer.callback_mut();
        let r = cb.pending_report;
        cb.pending_report = None;
        r
    }

    /// Events counted since the last flush.
    pub fn count(&self) -> (r: usize)
        ensures
            r == self.data().counter,
    {
        self.timer.get_callback().data.counter
    }

    /// The tick of the last flush.
    pub fn last_printed(&self) -> (r: u64)
        ensures
            r == self.data().last_printed,
    {
        self.timer.get_callback().data.last_printed
    }

    /// The identity under which the interrupt line was registered.
    pub fn get_cookie(&self) -> (r: u64)
        ensures
            r == self.cookie(),
    {
        self.cookie
    }

    /// The flush timer's state with the host.
    pub fn timer_state(&self) -> (r: TimerState)
        ensures
            r == self.timer().state(),
    {
        self.timer.get_list().get_state()
    }

    /// Teardown: cancels the flush timer synchronously, so no flush runs
    /// after this returns. The interrupt line is released by the caller.
    pub fn shutdown(&mut self)
        ensures
            final(self).timer().state() == TimerState::Cancelled,
            final(self).data() == old(self).data(),
            final(self).cookie() == old(self).cookie(),
    {
        self.timer.cancel_sync();
    }
}

} // verus!
