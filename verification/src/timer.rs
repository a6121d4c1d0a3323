//! The interval timer and time-of-day clock of a complex interface
//! adapter: two countdown timers driven by elapsed time, a latched
//! interrupt cause, and a clock whose fields are frozen together.

use crate::bytes::{with_high_byte, with_low_byte};
use crate::clock::{clock_elapsed, clock_now, duration_nanos};
use std::time::Instant;
use vstd::prelude::*;

verus! {

/// Control bit: the timer is counting.
pub const TIMER_ENABLE: u8 = 0x01;

/// Control bit: the timer stops after one underflow.
pub const TIMER_ONE_SHOT: u8 = 0x08;

/// Cause bits latched when timer A underflows: the timer's own bit and
/// the summary bit 7.
pub const CAUSE_TIMER_A: u8 = 0x81;

/// Cause bits latched when timer B underflows.
pub const CAUSE_TIMER_B: u8 = 0x82;

/// Nanoseconds per timer tick: the timers count at 1 MHz.
pub const NANOS_PER_TICK: u128 = 1_000;

/// Nanoseconds per tenth of a second.
pub const NANOS_PER_TENTH: u128 = 100_000_000;

/// Nanoseconds per second.
pub const NANOS_PER_SECOND: u128 = 1_000_000_000;

/// Everything a timer unit remembers.
#[derive(Clone, Copy, Debug, PartialEq, Eq, Structural)]
pub struct TimerState {
    /// Nanoseconds since power-on, as of the latest tick.
    pub elapsed: u128,
    /// The moment from which timer A counts.
    pub timer_a_last: u128,
    /// The moment from which timer B counts.
    pub timer_b_last: u128,
    /// Load value of timer A, in ticks.
    pub timer_a_set: u16,
    /// Load value of timer B, in ticks.
    pub timer_b_set: u16,
    /// Ticks left until timer B underflows, as of the latest tick.
    pub timer_b_value: u16,
    /// Interrupt-enable mask.
    pub int_vec_set: u8,
    /// Interrupt causes latched since the cause register was last read.
    pub int_vec_read: u8,
    /// Control byte of timer A.
    pub timer_a_ctrl: u8,
    /// Control byte of timer B.
    pub timer_b_ctrl: u8,
    /// Frozen hour of the time-of-day clock.
    pub hour: u8,
    /// Frozen minute of the time-of-day clock.
    pub minute: u8,
    /// Frozen second of the time-of-day clock.
    pub second: u8,
}

/// Whole timer ticks between a reference point and a later moment;
/// zero if the moment is not later.
pub open spec fn ticks_since(last: u128, now: u128) -> int {
    if now >= last {
        (now - last) / 1_000
    } else {
        0
    }
}

/// True when a timer with the given control byte, load value and
/// reference point underflows at the moment `now`.
pub open spec fn underflows(ctrl: u8, set: u16, last: u128, now: u128) -> bool {
    ctrl & TIMER_ENABLE != 0 && ticks_since(last, now) >= set
}

/// The control byte after an underflow: a one-shot timer loses its
/// enable bit, a continuous one goes on.
pub open spec fn ctrl_after_underflow(ctrl: u8) -> u8 {
    if ctrl & TIMER_ONE_SHOT != 0 {
        ctrl & !TIMER_ENABLE
    } else {
        ctrl
    }
}

/// Ticks left of a load value after some ticks have passed.
pub open spec fn ticks_left(set: u16, passed: int) -> u16 {
    if passed >= set {
        0u16
    } else {
        (set - passed) as u16
    }
}

/// Tenths of a second shown by the clock at a moment.
pub open spec fn clock_tenths(elapsed: u128) -> u8 {
    ((elapsed / 100_000_000) % 10) as u8
}

/// Seconds shown by the clock at a moment.
pub open spec fn clock_second(elapsed: u128) -> u8 {
    ((elapsed / 1_000_000_000) % 60) as u8
}

/// Minutes shown by the clock at a moment.
pub open spec fn clock_minute(elapsed: u128) -> u8 {
    ((elapsed / 1_000_000_000) / 60 % 60) as u8
}

/// Hours shown by the clock at a moment.
pub open spec fn clock_hour(elapsed: u128) -> u8 {
    ((elapsed / 1_000_000_000) / 3600 % 24) as u8
}

impl TimerState {
    /// A unit at power-on: everything zero.
    pub open spec fn spec_power_on() -> TimerState {
        TimerState {
            elapsed: 0,
            timer_a_last: 0,
            timer_b_last: 0,
            timer_a_set: 0,
            timer_b_set: 0,
            timer_b_value: 0,
            int_vec_set: 0,
            int_vec_read: 0,
            timer_a_ctrl: 0,
            timer_b_ctrl: 0,
            hour: 0,
            minute: 0,
            second: 0,
        }
    }

    /// True when timer A underflows if the unit is ticked at `now`.
    pub open spec fn a_underflows(self, now: u128) -> bool {
        underflows(self.timer_a_ctrl, self.timer_a_set, self.timer_a_last, now)
    }

    /// True when timer B underflows if the unit is ticked at `now`.
    pub open spec fn b_underflows(self, now: u128) -> bool {
        underflows(self.timer_b_ctrl, self.timer_b_set, self.timer_b_last, now)
    }

    /// The unit after a tick at the moment `now` (nanoseconds since
    /// power-on). Each enabled timer whose ticks since its reference
    /// point have reached its load value underflows: its cause bit and
    /// bit 7 are latched, its reference point becomes `now`, and a
    /// one-shot timer is disabled.
    pub open spec fn spec_tick(self, now: u128) -> TimerState {
        let a = self.a_underflows(now);
        let b = self.b_underflows(now);
        let cause_a: u8 = if a {
            self.int_vec_read | CAUSE_TIMER_A
        } else {
            self.int_vec_read
        };
        TimerState {
            elapsed: now,
            timer_a_last: if a {
                now
            } else {
                self.timer_a_last
            },
            timer_b_last: if b {
                now
            } else {
                self.timer_b_last
            },
            timer_a_ctrl: if a {
                ctrl_after_underflow(self.timer_a_ctrl)
            } else {
                self.timer_a_ctrl
            },
            timer_b_ctrl: if b {
                ctrl_after_underflow(self.timer_b_ctrl)
            } else {
                self.timer_b_ctrl
            },
            timer_b_value: if b {
                self.timer_b_set
            } else if self.timer_b_ctrl & TIMER_ENABLE != 0 {
                ticks_left(self.timer_b_set, ticks_since(self.timer_b_last, now))
            } else {
                self.timer_b_value
            },
            int_vec_read: if b {
                cause_a | CAUSE_TIMER_B
            } else {
                cause_a
            },
            ..self
        }
    }

    /// True when a tick at `now` makes a timer underflow.
    pub open spec fn spec_fires(self, now: u128) -> bool {
        self.a_underflows(now) || self.b_underflows(now)
    }

    /// The interrupt-enable mask after a write of `value`: with bit 7
    /// set the low seven bits are added to the mask, with bit 7 clear
    /// only the mask bits that are also in `value` survive.
    pub open spec fn spec_set_timer_int(self, value: u8) -> TimerState {
        TimerState {
            int_vec_set: if value & 0x80 != 0 {
                self.int_vec_set | (value & 0x7f)
            } else {
                self.int_vec_set & (value & 0x7f)
            },
            ..self
        }
    }

    /// A read of the interrupt cause register: the causes latched so
    /// far, and the unit with the register cleared.
    pub open spec fn spec_read_cause(self) -> (u8, TimerState) {
        (self.int_vec_read, TimerState { int_vec_read: 0, ..self })
    }

    /// The unit after the tenths of the clock have been read: hour,
    /// minute and second are frozen at what the clock shows now.
    pub open spec fn spec_latch(self) -> TimerState {
        TimerState {
            hour: clock_hour(self.elapsed),
            minute: clock_minute(self.elapsed),
            second: clock_second(self.elapsed),
            ..self
        }
    }
}

/// An enabled timer A whose load value has been reached underflows at
/// the next tick: the tick reports it, latches the cause bit of timer A
/// together with bit 7, and restarts the count at that moment. It does
/// so once: as long as less than a full load value of ticks has passed
/// since, a later tick does not make timer A underflow again. A
/// one-shot timer is disabled by its underflow, a continuous one stays
/// enabled. The next read of the cause register returns the latched
/// bits and clears the register, so that a second read returns zero.
pub proof fn lemma_timer_a_underflow(unit: TimerState, now: u128, later: u128)
    requires
        unit.timer_a_ctrl & TIMER_ENABLE != 0,
        ticks_since(unit.timer_a_last, now) >= unit.timer_a_set,
    ensures
        unit.spec_fires(now),
        unit.spec_tick(now).int_vec_read & CAUSE_TIMER_A == CAUSE_TIMER_A,
        unit.spec_tick(now).timer_a_last == now,
        unit.spec_tick(now).timer_a_set == unit.timer_a_set,
        ticks_since(now, later) < unit.timer_a_set ==> !unit.spec_tick(now).a_underflows(later),
        unit.timer_a_ctrl & TIMER_ONE_SHOT != 0 ==> unit.spec_tick(now).timer_a_ctrl
            & TIMER_ENABLE == 0,
        unit.timer_a_ctrl & TIMER_ONE_SHOT == 0 ==> unit.spec_tick(now).timer_a_ctrl
            == unit.timer_a_ctrl,
        unit.spec_tick(now).spec_read_cause().0 & CAUSE_TIMER_A == CAUSE_TIMER_A,
        unit.spec_tick(now).spec_read_cause().1.spec_read_cause().0 == 0,
{
    let cause = unit.int_vec_read;
    let ctrl = unit.timer_a_ctrl;
    assert((cause | 0x81) & 0x81 == 0x81 && ((cause | 0x81) | 0x82) & 0x81 == 0x81 && (ctrl
        & !0x01u8) & 0x01 == 0) by (bit_vector);
}

/// The same of timer B, whose cause bit is bit 1.
pub proof fn lemma_timer_b_underflow(unit: TimerState, now: u128, later: u128)
    requires
        unit.timer_b_ctrl & TIMER_ENABLE != 0,
        ticks_since(unit.timer_b_last, now) >= unit.timer_b_set,
    ensures
        unit.spec_fires(now),
        unit.spec_tick(now).int_vec_read & CAUSE_TIMER_B == CAUSE_TIMER_B,
        unit.spec_tick(now).timer_b_last == now,
        unit.spec_tick(now).timer_b_set == unit.timer_b_set,
        ticks_since(now, later) < unit.timer_b_set ==> !unit.spec_tick(now).b_underflows(later),
        unit.timer_b_ctrl & TIMER_ONE_SHOT != 0 ==> unit.spec_tick(now).timer_b_ctrl
            & TIMER_ENABLE == 0,
        unit.timer_b_ctrl & TIMER_ONE_SHOT == 0 ==> unit.spec_tick(now).timer_b_ctrl
            == unit.timer_b_ctrl,
        unit.spec_tick(now).spec_read_cause().0 & CAUSE_TIMER_B == CAUSE_TIMER_B,
        unit.spec_tick(now).spec_read_cause().1.spec_read_cause().0 == 0,
{
    let cause = unit.int_vec_read;
    let ctrl = unit.timer_b_ctrl;
    assert((cause | 0x82) & 0x82 == 0x82 && ((cause | 0x81) | 0x82) & 0x82 == 0x82 && (ctrl
        & !0x01u8) & 0x01 == 0) by (bit_vector);
}

/// A timer that is not enabled, or whose load value has not been
/// reached, latches nothing: a tick leaves the cause register as it
/// was, and reports nothing, unless the other timer underflows.
pub proof fn lemma_timer_quiet(unit: TimerState, now: u128)
    requires
        !unit.a_underflows(now),
        !unit.b_underflows(now),
    ensures
        !unit.spec_fires(now),
        unit.spec_tick(now).int_vec_read == unit.int_vec_read,
        unit.spec_tick(now).timer_a_ctrl == unit.timer_a_ctrl,
        unit.spec_tick(now).timer_b_ctrl == unit.timer_b_ctrl,
{
}

/// One timer unit together with the wall clock it was started on.
#[derive(Debug)]
pub struct C64Timer {
    start: Instant,
    state: TimerState,
}

impl View for C64Timer {
    type V = TimerState;

    closed spec fn view(&self) -> TimerState {
        self.state
    }
}

impl C64Timer {
    /// A unit at power-on, its clock starting now.
    pub fn new() -> (timer: Self)
        ensures
            timer@ == TimerState::spec_power_on(),
    {
        C64Timer {
            start: clock_now(),
            state: TimerState {
                elapsed: 0,
                timer_a_last: 0,
                timer_b_last: 0,
                timer_a_set: 0,
                timer_b_set: 0,
                timer_b_value: 0,
                int_vec_set: 0,
                int_vec_read: 0,
                timer_a_ctrl: 0,
                timer_b_ctrl: 0,
                hour: 0,
                minute: 0,
                second: 0,
            },
        }
    }

    /// A copy of what the unit remembers.
    pub fn state(&self) -> (state: TimerState)
        ensures
            state == self@,
    {
        self.state
    }

    /// Advances the unit to the present moment of the wall clock and
    /// tells whether a timer underflowed. Whatever the clock shows, the
    /// unit ends as [`C64Timer::tick_at`] would leave it for that
    /// reading.
    pub fn tick(&mut self) -> (fired: bool)
        ensures
            exists|now: u128|
                final(self)@ == old(self)@.spec_tick(now) && fired == old(self)@.spec_fires(now),
    {
        let passed = clock_elapsed(&self.start);
        let now = duration_nanos(&passed);
        self.tick_at(now)
    }

    /// Advances the unit to the moment `now`, given in nanoseconds since
    /// power-on, and tells whether a timer underflowed.
    pub fn tick_at(&mut self, now: u128) -> (fired: bool)
        ensures
            final(self)@ == old(self)@.spec_tick(now),
            fired == old(self)@.spec_fires(now),
    {
        let mut state = self.state;
        let mut fired = false;
        state.elapsed = now;
        if state.timer_a_ctrl & TIMER_ENABLE != 0 {
            let ticks: u128 = if now >= state.timer_a_last {
                (now - state.timer_a_last) / NANOS_PER_TICK
            } else {
                0
            };
            if ticks >= state.timer_a_set as u128 {
                if state.timer_a_ctrl & TIMER_ONE_SHOT != 0 {
                    state.timer_a_ctrl = state.timer_a_ctrl & !TIMER_ENABLE;
                }
                state.timer_a_last = now;
                state.int_vec_read = state.int_vec_read | CAUSE_TIMER_A;
                fired = true;
            }
        }
        if state.timer_b_ctrl & TIMER_ENABLE != 0 {
            let ticks: u128 = if now >= state.timer_b_last {
                (now - state.timer_b_last) / NANOS_PER_TICK
            } else {
                0
            };
            if ticks >= state.timer_b_set as u128 {
                if state.timer_b_ctrl & TIMER_ONE_SHOT != 0 {
                    state.timer_b_ctrl = state.timer_b_ctrl & !TIMER_ENABLE;
                }
                state.timer_b_last = now;
                state.timer_b_value = state.timer_b_set;
                state.int_vec_read = state.int_vec_read | CAUSE_TIMER_B;
                fired = true;
            } else {
                state.timer_b_value = state.timer_b_set - ticks as u16;
            }
        }
        self.state = state;
        fired
    }

    /// A write to the hour register. Setting the clock or its alarm is
    /// not supported: the write is ignored.
    pub fn set_hour(&mut self, hour: u8)
        ensures
            final(self)@ == old(self)@,
    {
    }

    /// A write to the minute register; ignored.
    pub fn set_minute(&mut self, minute: u8)
        ensures
            final(self)@ == old(self)@,
    {
    }

    /// A write to the second register; ignored.
    pub fn set_second(&mut self, second: u8)
        ensures
            final(self)@ == old(self)@,
    {
    }

    /// A write to the tenths register; ignored.
    pub fn set_tens(&mut self, tens: u8)
        ensures
            final(self)@ == old(self)@,
    {
    }

    /// Sets the low byte of the load value of timer A.
    pub fn set_timer_a_low(&mut self, low: u8)
        ensures
            final(self)@ == (TimerState {
                timer_a_set: ((old(self)@.timer_a_set / 256) * 256 + low) as u16,
                ..old(self)@
            }),
    {
        self.state.timer_a_set = with_low_byte(self.state.timer_a_set, low);
    }

    /// Sets the high byte of the load value of timer A.
    pub fn set_timer_a_high(&mut self, high: u8)
        ensures
            final(self)@ == (TimerState {
                timer_a_set: (high * 256 + old(self)@.timer_a_set % 256) as u16,
                ..old(self)@
            }),
    {
        self.state.timer_a_set = with_high_byte(self.state.timer_a_set, high);
    }

    /// Sets the low byte of the load value of timer B.
    pub fn set_timer_b_low(&mut self, low: u8)
        ensures
            final(self)@ == (TimerState {
                timer_b_set: ((old(self)@.timer_b_set / 256) * 256 + low) as u16,
                ..old(self)@
            }),
    {
        self.state.timer_b_set = with_low_byte(self.state.timer_b_set, low);
    }

    /// Sets the high byte of the load value of timer B.
    pub fn set_timer_b_high(&mut self, high: u8)
        ensures
            final(self)@ == (TimerState {
                timer_b_set: (high * 256 + old(self)@.timer_b_set % 256) as u16,
                ..old(self)@
            }),
    {
        self.state.timer_b_set = with_high_byte(self.state.timer_b_set, high);
    }

    /// A write to the interrupt mask register.
    pub fn set_timer_int(&mut self, int_mask: u8)
        ensures
            final(self)@ == old(self)@.spec_set_timer_int(int_mask),
    {
        let selected: u8 = int_mask & 0x7f;
        if int_mask & 0x80 != 0 {
            self.state.int_vec_set = self.state.int_vec_set | selected;
        } else {
            self.state.int_vec_set = self.state.int_vec_set & selected;
        }
    }

    /// Sets the control byte of timer A.
    pub fn set_timer_a_ctrl(&mut self, ctrl: u8)
        ensures
            final(self)@ == (TimerState { timer_a_ctrl: ctrl, ..old(self)@ }),
    {
        self.state.timer_a_ctrl = ctrl;
    }

    /// Sets the control byte of timer B.
    pub fn set_timer_b_ctrl(&mut self, ctrl: u8)
        ensures
            final(self)@ == (TimerState { timer_b_ctrl: ctrl, ..old(self)@ }),
    {
        self.state.timer_b_ctrl = ctrl;
    }

    /// The frozen hour.
    pub fn get_hour(&self) -> (hour: u8)
        ensures
            hour == self@.hour,
    {
        self.state.hour
    }

    /// The frozen minute.
    pub fn get_minute(&self) -> (minute: u8)
        ensures
            minute == self@.minute,
    {
        self.state.minute
    }

    /// The frozen second.
    pub fn get_second(&self) -> (second: u8)
        ensures
            second == self@.second,
    {
        self.state.second
    }

    /// Reads the tenths of the clock as of the latest tick, and freezes
    /// hour, minute and second at what the clock shows at that moment;
    /// they stay so until the tenths are read again.
    pub fn get_tens(&mut self) -> (tens: u8)
        ensures
            tens == clock_tenths(old(self)@.elapsed),
            final(self)@ == old(self)@.spec_latch(),
    {
        let elapsed = self.state.elapsed;
        let seconds: u128 = elapsed / NANOS_PER_SECOND;
        self.state.hour = (seconds / 3600 % 24) as u8;
        self.state.minute = (seconds / 60 % 60) as u8;
        self.state.second = (seconds % 60) as u8;
        (elapsed / NANOS_PER_TENTH % 10) as u8
    }

    /// Reads the interrupt cause register, which clears it.
    pub fn get_timer_int(&mut self) -> (cause: u8)
        ensures
            cause == old(self)@.spec_read_cause().0,
            final(self)@ == old(self)@.spec_read_cause().1,
    {
        let cause = self.state.int_vec_read;
        self.state.int_vec_read = 0;
        cause
    }
}

} // verus!
