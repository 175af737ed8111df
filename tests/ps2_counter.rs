use ktimer::counter::{
    Callback, CounterData, Error, FlushStep, IrqReturn, Ps2Counter, DELAY, IRQ_LINE,
};
use ktimer::host::TimerState;
use ktimer::timer::TimerBuilder;

#[test]
fn init_fails_on_a_negative_status() {
    let r = Ps2Counter::init(-16, 7, 0);
    assert!(matches!(r, Err(Error { errno: -16 })));
    assert_eq!(Error::from_kernel_errno(-5).errno, -5);
}

#[test]
fn init_arms_the_flush_timer() {
    let c = Ps2Counter::init(0, 7, 100).unwrap();
    assert_eq!(c.count(), 0);
    assert_eq!(c.last_printed(), 100);
    assert_eq!(c.get_cookie(), 7);
    assert_eq!(c.timer_state(), TimerState::Armed { expires: 100 + DELAY });
}

#[test]
fn interrupts_for_another_instance_are_ignored() {
    let mut c = Ps2Counter::init(0, 7, 0).unwrap();
    assert_eq!(c.trampoline(IRQ_LINE, 8), IrqReturn::Unhandled);
    assert_eq!(c.trampoline(IRQ_LINE + 1, 7), IrqReturn::Unhandled);
    assert_eq!(c.count(), 0);
    assert_eq!(c.trampoline(IRQ_LINE, 7), IrqReturn::Handled);
    assert_eq!(c.count(), 1);
}

#[test]
fn ten_events_then_a_flush_reports_five() {
    let mut c = Ps2Counter::init(0, 7, 0).unwrap();
    for _ in 0..10 {
        assert_eq!(c.trampoline(IRQ_LINE, 7), IrqReturn::Handled);
    }
    assert_eq!(c.count(), 10);
    assert!(!c.run_timer(DELAY - 1));
    assert!(c.run_timer(DELAY));
    assert_eq!(c.take_report(), Some(5));
    assert_eq!(c.take_report(), None);
    assert_eq!(c.count(), 0);
    assert_eq!(c.last_printed(), DELAY);
    assert_eq!(c.timer_state(), TimerState::Armed { expires: 2 * DELAY });
}

#[test]
fn early_firing_rearms_for_the_remaining_tick() {
    let mut d = CounterData { counter: 4, last_printed: 0 };
    let step = d.on_timer(DELAY - 1);
    assert_eq!(step, FlushStep { report: None, rearm_at: DELAY });
    assert_eq!(d, CounterData { counter: 4, last_printed: 0 });
}

#[test]
fn early_firing_through_the_timer_keeps_the_count() {
    let cb = Callback { data: CounterData::new(0), pending_report: None };
    let mut t = TimerBuilder::new(String::from("flush"), cb).boxed();
    t.callback_mut().data.handle_key();
    t.modify(DELAY - 1);
    assert!(t.dispatch(DELAY - 1));
    assert_eq!(t.get_list().get_state(), TimerState::Armed { expires: DELAY });
    assert_eq!(t.get_callback().data, CounterData { counter: 1, last_printed: 0 });
    assert_eq!(t.get_callback().pending_report, None);
}

#[test]
fn flush_after_wraparound_measures_modular_distance() {
    let mut d = CounterData { counter: 6, last_printed: u64::MAX - 100 };
    let step = d.on_timer(DELAY - 200);
    assert_eq!(step, FlushStep { report: None, rearm_at: DELAY - 200 + 99 });
    let step = d.on_timer(DELAY - 101);
    assert_eq!(step, FlushStep { report: Some(3), rearm_at: 2 * DELAY - 101 });
    assert_eq!(d, CounterData { counter: 0, last_printed: DELAY - 101 });
}

#[test]
fn flush_rounds_an_odd_count_down() {
    let mut d = CounterData { counter: 7, last_printed: 10 };
    let step = d.on_timer(10 + 3 * DELAY);
    assert_eq!(step.report, Some(3));
    assert_eq!(step.rearm_at, 10 + 4 * DELAY);
}

#[test]
fn event_count_wraps_at_its_width() {
    let mut d = CounterData { counter: usize::MAX, last_printed: 0 };
    assert_eq!(d.handle_key(), IrqReturn::Handled);
    assert_eq!(d.counter, 0);
}

#[test]
fn no_flush_after_shutdown() {
    let mut c = Ps2Counter::init(0, 7, 0).unwrap();
    c.trampoline(IRQ_LINE, 7);
    c.trampoline(IRQ_LINE, 7);
    c.shutdown();
    assert_eq!(c.timer_state(), TimerState::Cancelled);
    assert!(!c.run_timer(DELAY));
    assert!(!c.run_timer(10 * DELAY));
    assert_eq!(c.count(), 2);
    assert_eq!(c.take_report(), None);
}
