//! A safe scheduling layer over a host's one-shot timer primitive.
//!
//! A [`timer::TimerBuilder`] gathers a name, a callback and flags; one of
//! three placement strategies gives the timer its final home and registers it
//! with the host primitive ([`host::TimerList`]) exactly once. The host later
//! dispatches expired timers, the callback may re-arm its own timer, and
//! teardown cancels synchronously so that no dispatch follows it.
//!
//! [`counter`] is a small consumer: an event counter flushed periodically by
//! a self re-arming timer, with wraparound-safe tick arithmetic from [`tick`].

pub mod counter;
pub mod host;
pub mod tick;
pub mod timer;
