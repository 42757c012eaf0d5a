//! The clock: simulated time in nanoseconds, advanced by the cycle cost of
//! each executed instruction.  Whenever the time crosses a multiple of the
//! interrupt period it latches an interrupt on the CPU, and whenever it
//! crosses a multiple of the databus tick it clocks the databus, which
//! advances the selected peripheral.

use vstd::prelude::*;

use crate::cpu::{Cpu, CpuState};
use crate::databus::{spec_bus_clock, Databus, DatabusState};

verus! {

/// Nanoseconds per CPU cycle.
pub const CYCLE_TIME_NS: u128 = 1_600;

/// Nanoseconds between interrupt injections.
pub const INTR_TIME_NS: u128 = 1_000_000;

/// The databus tick interval, from the peripheral clock rate.
pub const DATABUS_CLOCK_NS: u128 = 156_300 / 1_600;

/// The largest cycle count one call may charge.
pub const MAX_TICK_CYCLES: u128 = 1_000;

/// The sum, holding at the largest representable time instead of wrapping.
pub open spec fn spec_sat_add(a: int, b: int) -> u128 {
    if a + b > u128::MAX {
        u128::MAX
    } else {
        (a + b) as u128
    }
}

/// Whether charging `cycles` cycles at time `t` crosses a multiple of
/// `trigger_time`: either the charge alone spans a whole period, or the
/// remainder of the period shrinks across the charge.
pub open spec fn spec_check_trigger(t: u128, trigger_time: u128, cycles: u128) -> bool {
    ||| cycles * CYCLE_TIME_NS > trigger_time
    ||| (t as int % trigger_time as int) > ((t + CYCLE_TIME_NS * cycles) % trigger_time as int)
}

/// Time, CPU and bus after `cycles` cycles are charged at time `t`: a
/// crossed interrupt period latches an interrupt, a crossed databus tick
/// clocks the bus, and the time advances (holding at its maximum rather
/// than wrapping).
pub open spec fn spec_ticks(t: u128, cycles: u128, c: CpuState, b: DatabusState) -> (
    u128,
    CpuState,
    DatabusState,
) {
    let c1 = if spec_check_trigger(t, INTR_TIME_NS, cycles) {
        CpuState { intr_saved: true, ..c }
    } else {
        c
    };
    let b1 = if spec_check_trigger(t, DATABUS_CLOCK_NS, cycles) {
        spec_bus_clock(b)
    } else {
        b
    };
    (spec_sat_add(t as int, CYCLE_TIME_NS * cycles), c1, b1)
}

/// Simulated time.
#[derive(Debug, Clone, Copy, PartialEq, Eq, Structural)]
pub struct Clock {
    pub emulated_time_ns: u128,
}

impl Clock {
    /// A clock at time zero.
    pub fn build() -> (clock: Clock)
        ensures
            clock.emulated_time_ns == 0,
    {
        Clock { emulated_time_ns: 0 }
    }

    /// Whether charging `cycles` cycles now crosses a multiple of
    /// `trigger_time`; see `spec_check_trigger`.
    fn check_trigger(&self, trigger_time: u128, cycles: u128) -> (r: bool)
        requires
            trigger_time > 0,
            cycles <= MAX_TICK_CYCLES,
            self.emulated_time_ns + CYCLE_TIME_NS * cycles <= u128::MAX,
        ensures
            r == spec_check_trigger(self.emulated_time_ns, trigger_time, cycles),
    {
        if cycles * CYCLE_TIME_NS > trigger_time {
            return true;
        }
        (self.emulated_time_ns % trigger_time) > ((self.emulated_time_ns + CYCLE_TIME_NS * cycles)
            % trigger_time)
    }

    /// Charge one cycle; see `ticks`.
    pub fn single_clock(&mut self, cpu: &mut Cpu, databus: &mut Databus)
        requires
            old(databus)@.wf(),
        ensures
            ({
                let (t1, c1, b1) = spec_ticks(
                    old(self).emulated_time_ns,
                    1,
                    old(cpu)@,
                    old(databus)@,
                );
                &&& final(self).emulated_time_ns == t1
                &&& final(cpu)@ == c1
                &&& final(databus)@ == b1
            }),
            final(databus)@.wf(),
    {
        self.ticks(1, cpu, databus);
    }

    /// Charge `num_clocks` cycles: latch an interrupt on a crossed
    /// interrupt period, clock the databus on a crossed databus tick, and
    /// advance the time; see `spec_ticks`.
    pub fn ticks(&mut self, num_clocks: u128, cpu: &mut Cpu, databus: &mut Databus)
        requires
            old(databus)@.wf(),
            num_clocks <= MAX_TICK_CYCLES,
        ensures
            ({
                let (t1, c1, b1) = spec_ticks(
                    old(self).emulated_time_ns,
                    num_clocks,
                    old(cpu)@,
                    old(databus)@,
                );
                &&& final(self).emulated_time_ns == t1
                &&& final(cpu)@ == c1
                &&& final(databus)@ == b1
            }),
            final(databus)@.wf(),
            final(cpu)@.wf() == old(cpu)@.wf(),
    {
        let charge = CYCLE_TIME_NS * num_clocks;
        if self.emulated_time_ns <= u128::MAX - charge {
            if self.check_trigger(INTR_TIME_NS, num_clocks) {
                cpu.interrupt();
            }
            if self.check_trigger(DATABUS_CLOCK_NS, num_clocks) {
                databus.clock();
            }
            self.emulated_time_ns = self.emulated_time_ns + charge;
        } else {
            proof {
                assert(0 < DATABUS_CLOCK_NS <= u128::MAX / 2 && 0 < INTR_TIME_NS <= u128::MAX
                    / 2);
            }
            if check_trigger_at(self.emulated_time_ns, INTR_TIME_NS, num_clocks) {
                cpu.interrupt();
            }
            if check_trigger_at(self.emulated_time_ns, DATABUS_CLOCK_NS, num_clocks) {
                databus.clock();
            }
            self.emulated_time_ns = u128::MAX;
        }
    }
}

/// `spec_check_trigger` computed without the sum overflowing: the modulus
/// of the sum is taken term by term.
fn check_trigger_at(t: u128, trigger_time: u128, cycles: u128) -> (r: bool)
    requires
        0 < trigger_time <= u128::MAX / 2,
        cycles <= MAX_TICK_CYCLES,
    ensures
        r == spec_check_trigger(t, trigger_time, cycles),
{
    let charge = CYCLE_TIME_NS * cycles;
    if charge > trigger_time {
        return true;
    }
    proof {
        assert(t % trigger_time < trigger_time);
        assert(charge % trigger_time < trigger_time);
        vstd::arithmetic::div_mod::lemma_add_mod_noop(
            t as int,
            charge as int,
            trigger_time as int,
        );
    }
    let rem = t % trigger_time;
    let sum_rem = ((t % trigger_time) + (charge % trigger_time)) % trigger_time;
    rem > sum_rem
}

} // verus!
