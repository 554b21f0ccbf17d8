use vstd::prelude::*;
use crate::cpu::processor::{CPU, CpuView};
use crate::cpu::interrupts::INTERRUPT_TIMER_BIT;
use crate::memory::bus::{BusView, IORegisters};

verus! {

/// The cycle counters: `t` counts clock cycles, `m` machine cycles of four
/// clock cycles each.
#[derive(Clone, Copy, PartialEq, Eq, Structural, Debug)]
pub struct Clock {
    pub t: u64,
    pub m: u64,
}

impl Default for Clock {
    fn default() -> (r: Self)
        ensures
            r == (Clock { t: 0, m: 0 }),
    {
        Clock { t: 0, m: 0 }
    }
}

impl Clock {
    pub open spec fn spec_increment(self, t_cycles: u8) -> Clock {
        let t = ((self.t + t_cycles) % 0x1_0000_0000_0000_0000) as u64;
        Clock { t, m: t / 4 }
    }

    /// Counts `t_cycles` clock cycles on.
    pub fn increment(&mut self, t_cycles: u8)
        requires
            t_cycles % 4 == 0,
        ensures
            *final(self) == old(self).spec_increment(t_cycles),
    {
        self.t = self.t.wrapping_add(t_cycles as u64);
        self.m = self.t / 4;
    }
}

/// Machine cycles per tick of the timer, as the two low bits of the control
/// register select them.
pub open spec fn timer_frequency(control: u8) -> u64 {
    let select = control % 4;
    if select == 0 {
        256
    } else if select == 1 {
        4
    } else if select == 2 {
        16
    } else {
        64
    }
}

/// Whether bit 2 of the control register, which runs the timer, is set.
pub open spec fn timer_enabled(control: u8) -> bool {
    (control / 4) % 2 == 1
}

proof fn lemma_control(control: u8)
    by (bit_vector)
    ensures
        (control & 0x04 != 0) == ((control / 4) % 2 == 1),
        control & 0x03 == control % 4,
{
}

impl CpuView {
    /// Machine cycles that have passed since the timer last ticked.
    pub open spec fn timer_diff(self) -> int {
        if self.clock.m >= self.last_timer_update {
            self.clock.m - self.last_timer_update
        } else {
            0
        }
    }

    /// The CPU after the timer has caught up with the clock. Where the
    /// timer runs, the whole ticks that have passed are added to the
    /// counter; where that carries out of the counter, it is loaded from
    /// the modulo register and the timer interrupt is requested. The cursor
    /// moves on by the ticks that were counted, so that a part of a tick is
    /// not lost.
    pub open spec fn catch_up_timer(self) -> CpuView {
        let control = self.bus.io.timer_control;
        let frequency = timer_frequency(control);
        let ticks = self.timer_diff() / (frequency as int);
        if !timer_enabled(control) || ticks == 0 {
            self
        } else {
            let sum = self.bus.io.timer_counter + ticks % 256;
            let io = if sum > 0xFF {
                IORegisters { timer_counter: self.bus.io.timer_modulo, ..self.bus.io }.request(
                    INTERRUPT_TIMER_BIT,
                )
            } else {
                IORegisters { timer_counter: sum as u8, ..self.bus.io }
            };
            CpuView {
                bus: BusView { io, ..self.bus },
                last_timer_update: (self.last_timer_update + ticks * frequency) as u64,
                ..self
            }
        }
    }

    /// The CPU after `t_cycles` clock cycles were counted and the timer has
    /// caught up.
    pub open spec fn update_timers(self, t_cycles: u8) -> CpuView {
        CpuView { clock: self.clock.spec_increment(t_cycles), ..self }.catch_up_timer()
    }
}

impl CPU {
    pub fn read_tac(&self) -> (r: u8)
        ensures
            r == self.bus.io.timer_control,
    {
        self.bus.io.timer_control
    }

    pub fn is_timer_enabled(&self) -> (b: bool)
        ensures
            b == timer_enabled(self.bus.io.timer_control),
    {
        proof {
            lemma_control(self.bus.io.timer_control);
        }
        (self.read_tac() & 0x04) != 0
    }

    pub fn get_timer_m_frequency(&self) -> (r: u64)
        ensures
            r == timer_frequency(self.bus.io.timer_control),
    {
        proof {
            lemma_control(self.bus.io.timer_control);
        }
        match self.read_tac() & 0x03 {
            0 => 256,
            1 => 4,
            2 => 16,
            _ => 64,
        }
    }

    pub fn read_tma(&self) -> (r: u8)
        ensures
            r == self.bus.io.timer_modulo,
    {
        self.bus.io.timer_modulo
    }

    pub fn read_tima(&self) -> (r: u8)
        ensures
            r == self.bus.io.timer_counter,
    {
        self.bus.io.timer_counter
    }

    pub fn write_tima(&mut self, value: u8)
        ensures
            final(self)@ == (CpuView {
                bus: BusView {
                    io: IORegisters { timer_counter: value, ..old(self).bus.io },
                    ..old(self)@.bus
                },
                ..old(self)@
            }),
    {
        self.bus.io.timer_counter = value;
    }

    /// Counts `t_cycles` clock cycles and lets the timer catch up.
    pub fn update_timers(&mut self, t_cycles: u8)
        requires
            t_cycles % 4 == 0,
        ensures
            final(self)@ == old(self)@.update_timers(t_cycles),
    {
        self.clock.increment(t_cycles);
        if !self.is_timer_enabled() {
            return ;
        }
        let timer_frequency = self.get_timer_m_frequency();
        let timer_diff = self.clock.m.saturating_sub(self.last_timer_update);
        if timer_diff >= timer_frequency {
            let increments = timer_diff / timer_frequency;
            assert(increments * timer_frequency <= timer_diff) by (nonlinear_arith)
                requires
                    increments == timer_diff / timer_frequency,
                    timer_frequency > 0,
            ;
            let sum: u16 = self.read_tima() as u16 + (increments % 256) as u16;
            if sum > 0xFF {
                self.write_tima(self.read_tma());
                self.bus.request_timer_interrupt();
            } else {
                self.write_tima(sum as u8);
            }
            self.last_timer_update += increments * timer_frequency;
        } else {
            assert(timer_diff / timer_frequency == 0) by (nonlinear_arith)
                requires
                    0 <= timer_diff < timer_frequency,
            ;
        }
    }
}

/// The timer does not drift. After it has caught up, less than a tick is
/// left over, and it is the part of a tick that was left over before: the
/// cursor moves by whole ticks only.
pub proof fn lemma_timer_keeps_remainder(cpu: CpuView)
    requires
        timer_enabled(cpu.bus.io.timer_control),
    ensures
        ({
            let frequency = timer_frequency(cpu.bus.io.timer_control) as int;
            let after = cpu.catch_up_timer();
            &&& after.timer_diff() == cpu.timer_diff() % frequency
            &&& after.timer_diff() < frequency
            &&& (after.last_timer_update - cpu.last_timer_update) % frequency == 0
            &&& after.clock == cpu.clock
            &&& after.registers == cpu.registers
        }),
{
    let frequency = timer_frequency(cpu.bus.io.timer_control) as int;
    let diff = cpu.timer_diff();
    let ticks = diff / frequency;
    assert(frequency == 256 || frequency == 4 || frequency == 16 || frequency == 64);
    assert(diff == ticks * frequency + diff % frequency) by (nonlinear_arith)
        requires
            frequency > 0,
            ticks == diff / frequency,
    ;
    assert((ticks * frequency) % frequency == 0) by (nonlinear_arith)
        requires
            frequency > 0,
    ;
}

} // verus!
