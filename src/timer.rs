use vstd::prelude::*;

verus! {

/// The timer's registers and internal counters.
#[derive(Debug, Clone, Copy, PartialEq, Eq, Structural)]
pub struct TimerState {
    /// Divider (0xFF04).
    pub div: u8,
    /// Counter (0xFF05).
    pub tima: u8,
    /// Modulo (0xFF06): the counter's reload value.
    pub tma: u8,
    /// Control (0xFF07): bit 2 enables the counter, bits 0-1 pick its rate.
    pub tac: u8,
    pub internal_div: u16,
    pub internal_tima: u16,
    /// Cycle counter kept for the driver; the timer itself does not advance it.
    pub clock_cycles: u64,
}

/// The divider, counter, modulo and control registers.
pub struct Timer {
    div: u8,
    tima: u8,
    tma: u8,
    tac: u8,
    pub clock_cycles: u64,
    internal_div: u16,
    internal_tima: u16,
}

impl View for Timer {
    type V = TimerState;

    closed spec fn view(&self) -> TimerState {
        TimerState {
            div: self.div,
            tima: self.tima,
            tma: self.tma,
            tac: self.tac,
            internal_div: self.internal_div,
            internal_tima: self.internal_tima,
            clock_cycles: self.clock_cycles,
        }
    }
}

pub open spec fn is_timer_register(address: u16) -> bool {
    0xFF04 <= address <= 0xFF07
}

/// Cycles per counter increment for the rate bits of the control register.
pub open spec fn tima_period(tac: u8) -> int {
    let rate = tac % 4;
    if rate == 0 {
        1024
    } else if rate == 1 {
        16
    } else if rate == 2 {
        64
    } else {
        256
    }
}

/// The counter after `n` increments, and whether it overflowed on the way;
/// each overflow reloads it from the modulo.
pub open spec fn tima_run(tima: u8, tma: u8, n: nat) -> (u8, bool)
    decreases n,
{
    if n == 0 {
        (tima, false)
    } else {
        let (t, overflowed) = tima_run(tima, tma, (n - 1) as nat);
        if t == 255 { (tma, true) } else { ((t + 1) as u8, overflowed) }
    }
}

/// The timer after `ticks` cycles, and whether the timer interrupt is requested.
/// The tick count enters the internal 16-bit counters modulo 65536.
pub open spec fn timer_step(t: TimerState, ticks: u32) -> (TimerState, bool) {
    let d = (t.internal_div + ticks % 65536) % 65536;
    let after_div = TimerState { div: ((t.div + d / 256) % 256) as u8, internal_div: (d % 256) as u16, ..t };
    if (t.tac / 4) % 2 == 1 {
        let period = tima_period(t.tac);
        let c = (t.internal_tima + ticks % 65536) % 65536;
        let (tima, overflowed) = tima_run(t.tima, t.tma, (c / period) as nat);
        (TimerState { tima, internal_tima: (c % period) as u16, ..after_div }, overflowed)
    } else {
        (after_div, false)
    }
}

impl Timer {
    pub fn new() -> (r: Self)
        ensures
            r@ == (TimerState { div: 0, tima: 0, tma: 0, tac: 0, internal_div: 0, internal_tima: 0, clock_cycles: 0 }),
    {
        Timer { div: 0, tima: 0, tma: 0, tac: 0, clock_cycles: 0, internal_div: 0, internal_tima: 0 }
    }

    pub fn read_register(&self, address: u16) -> (r: u8)
        requires
            is_timer_register(address),
        ensures
            r == (if address == 0xFF04 {
                self@.div
            } else if address == 0xFF05 {
                self@.tima
            } else if address == 0xFF06 {
                self@.tma
            } else {
                self@.tac
            }),
    {
        if address == 0xFF04 {
            self.div
        } else if address == 0xFF05 {
            self.tima
        } else if address == 0xFF06 {
            self.tma
        } else {
            self.tac
        }
    }

    pub fn write_register(&mut self, address: u16, value: u8)
        requires
            is_timer_register(address),
        ensures
            final(self)@ == (if address == 0xFF04 {
                TimerState { div: value, ..old(self)@ }
            } else if address == 0xFF05 {
                TimerState { tima: value, ..old(self)@ }
            } else if address == 0xFF06 {
                TimerState { tma: value, ..old(self)@ }
            } else {
                TimerState { tac: value, ..old(self)@ }
            }),
    {
        if address == 0xFF04 {
            self.div = value;
        } else if address == 0xFF05 {
            self.tima = value;
        } else if address == 0xFF06 {
            self.tma = value;
        } else {
            self.tac = value;
        }
    }

    /// Advances the divider and, when enabled, the counter by `ticks` cycles.
    /// Returns whether the counter overflowed (the timer interrupt request).
    pub fn do_cycle(&mut self, ticks: u32) -> (r: bool)
        ensures
            (final(self)@, r) == timer_step(old(self)@, ticks),
    {
        let mut interrupt_triggered = false;
        let step: u16 = (ticks % 65536) as u16;
        self.internal_div = self.internal_div.wrapping_add(step);
        let ghost d = self.internal_div as int;
        let ghost start = self@;
        let ghost div0 = self.div;
        let mut k: u16 = 0;
        while self.internal_div >= 256
            invariant
                self@ == (TimerState { div: self.div, internal_div: self.internal_div, ..start }),
                self.internal_div == d - k * 256,
                d < 65536,
                self.div == (div0 + k) % 256,
            decreases self.internal_div,
        {
            self.div = self.div.wrapping_add(1);
            self.internal_div = self.internal_div - 256;
            k = k + 1;
        }
        assert(k == d / 256 && self.internal_div == d % 256) by (nonlinear_arith)
            requires
                self.internal_div == d - k * 256,
                0 <= self.internal_div < 256,
        ;
        if (self.tac / 4) % 2 == 1 {
            let period: u16 = match self.tac % 4 {
                0 => 1024,
                1 => 16,
                2 => 64,
                _ => 256,
            };
            self.internal_tima = self.internal_tima.wrapping_add(step);
            let ghost c = self.internal_tima as int;
            let ghost mid = self@;
            let ghost tima0 = self.tima;
            let ghost n: nat = 0;
            while self.internal_tima >= period
                invariant
                    self@ == (TimerState { tima: self.tima, internal_tima: self.internal_tima, ..mid }),
                    period == tima_period(mid.tac),
                    self.internal_tima == c - n * period,
                    (self.tima, interrupt_triggered) == tima_run(tima0, mid.tma, n),
                decreases self.internal_tima,
            {
                if self.tima == 255 {
                    self.tima = self.tma;
                    interrupt_triggered = true;
                } else {
                    self.tima = self.tima + 1;
                }
                self.internal_tima = self.internal_tima - period;
                proof {
                    assert((n + 1) * period == n * period + period) by (nonlinear_arith);
                    n = n + 1;
                }
            }
            assert(n == c / period as int && self.internal_tima == c % period as int) by (nonlinear_arith)
                requires
                    self.internal_tima == c - n * period,
                    0 <= self.internal_tima < period,
            ;
        }
        interrupt_triggered
    }
}

} // verus!
