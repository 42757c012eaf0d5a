//! The machine: CPU, clock, databus and breakpoints, with the scheduler
//! loop that interleaves instruction execution, peripheral advancement and
//! interrupt injection.
//!
//! One step fetches the instruction at the program counter, charges its
//! cycle cost to the clock (which may latch an interrupt and clock the
//! databus), executes it against the databus, and refreshes the bus
//! outputs.  Fetching past the end of memory halts execution; an
//! undecodable opcode halts the machine.  Breakpoints are checked between
//! instructions.

use vstd::prelude::*;

use crate::clock::{spec_sat_add, spec_ticks, Clock, MAX_TICK_CYCLES};
use crate::cpu::{lemma_fetch_none_stays, spec_execute, spec_fetch, Cpu, CpuState};
use crate::databus::{Databus, DatabusState};
use crate::assembler::{assemble, AsmError};
use crate::instruction::{spec_clock_cycles, InstructionType};

verus! {

/// What a run of the machine ended with: the machine is still running and
/// the time budget ran out, a breakpoint was hit, or the machine halted.
#[derive(Debug, Clone, Copy, PartialEq, Eq, Structural)]
pub enum DataPointRunStatus {
    Running,
    BreakpointHit,
    Halted,
}

/// The mathematical value of the whole machine.
#[verifier::ext_equal]
pub ghost struct MachineState {
    pub cpu: CpuState,
    pub emulated_time_ns: u128,
    pub databus: DatabusState,
    pub breakpoints: Seq<u16>,
}

impl MachineState {
    /// A well-formed machine: CPU and bus well formed.
    pub open spec fn wf(self) -> bool {
        &&& self.cpu.wf()
        &&& self.databus.wf()
    }
}

/// One iteration of the machine loop against the time goal `goal`: fetch,
/// charge the clock, execute, then decide.  The second component tells
/// how the loop ends here, or `None` when it goes on: fetching past the
/// end of memory ends with `Halted` (the machine itself is not halted and
/// may be stepped again); an undecodable opcode halts the machine; after
/// execution, a program counter on a breakpoint ends with
/// `BreakpointHit`, a halted CPU with `Halted`, and a reached time goal
/// with `Running`.
#[verifier::opaque]
pub open spec fn spec_machine_step(m: MachineState, goal: u128) -> (
    MachineState,
    Option<DataPointRunStatus>,
) {
    let (c1, fetched) = spec_fetch(m.cpu);
    match fetched {
        Option::None => (
            MachineState { cpu: c1, ..m },
            Option::Some(DataPointRunStatus::Halted),
        ),
        Option::Some(inst) => {
            let c2 = CpuState { instruction_register: inst, ..c1 };
            let cycles = spec_clock_cycles(inst.instruction_type);
            let (t1, c3, b1) = spec_ticks(m.emulated_time_ns, cycles as u128, c2, m.databus);
            if inst.instruction_type == InstructionType::Unknown {
                (
                    MachineState {
                        cpu: CpuState { halted: true, ..c3 },
                        emulated_time_ns: t1,
                        databus: b1,
                        ..m
                    },
                    Option::Some(DataPointRunStatus::Halted),
                )
            } else {
                let r = spec_execute(c3, b1);
                let m1 = MachineState {
                    cpu: r.0,
                    emulated_time_ns: t1,
                    databus: r.1,
                    ..m
                };
                if m.breakpoints.contains(r.0.program_counter) {
                    (m1, Option::Some(DataPointRunStatus::BreakpointHit))
                } else if r.0.halted {
                    (m1, Option::Some(DataPointRunStatus::Halted))
                } else if t1 >= goal {
                    (m1, Option::Some(DataPointRunStatus::Running))
                } else {
                    (m1, Option::None)
                }
            }
        },
    }
}

/// The machine after `n` loop iterations against `goal`, stopping early
/// at the iteration that decides.
pub open spec fn spec_machine_run(m: MachineState, goal: u128, n: nat) -> (
    MachineState,
    Option<DataPointRunStatus>,
)
    decreases n,
{
    if n == 0 {
        (m, Option::None)
    } else {
        let prev = spec_machine_run(m, goal, (n - 1) as nat);
        match prev.1 {
            Option::Some(_) => prev,
            Option::None => spec_machine_step(prev.0, goal),
        }
    }
}

/// The state after one machine-loop iteration.  The iteration's state
/// change does not depend on the time goal: the goal only picks the
/// status the iteration reports.
pub open spec fn spec_step_state(m: MachineState) -> MachineState {
    spec_machine_step(m, 0).0
}

/// A loop iteration leaves the same state under every time goal.
pub proof fn lemma_step_state_any_goal(m: MachineState, goal: u128)
    ensures
        spec_machine_step(m, goal).0 == spec_step_state(m),
{
    reveal(spec_machine_step);
}

/// The machine after `n` loop iterations, one after the other.
pub open spec fn spec_iter_steps(m: MachineState, n: nat) -> MachineState
    decreases n,
{
    if n == 0 {
        m
    } else {
        spec_step_state(spec_iter_steps(m, (n - 1) as nat))
    }
}

/// Iterating a and then b more times is iterating a + b times.
pub proof fn lemma_iter_steps_add(m: MachineState, a: nat, b: nat)
    ensures
        spec_iter_steps(m, (a + b) as nat) == spec_iter_steps(spec_iter_steps(m, a), b),
    decreases b,
{
    if b > 0 {
        lemma_iter_steps_add(m, a, (b - 1) as nat);
        assert((a + b - 1) as nat == (a + (b - 1) as nat) as nat);
    }
}

/// Every state `spec_machine_run` passes through is an iterate of the
/// step function.
pub proof fn lemma_run_states_are_iterates(m: MachineState, goal: u128, n: nat)
    ensures
        exists|j: nat| #[trigger] spec_iter_steps(m, j) == spec_machine_run(m, goal, n).0,
    decreases n,
{
    if n == 0 {
        assert(spec_iter_steps(m, 0) == spec_machine_run(m, goal, 0).0);
    } else {
        lemma_run_states_are_iterates(m, goal, (n - 1) as nat);
        let prev = spec_machine_run(m, goal, (n - 1) as nat);
        let j = choose|j: nat| #[trigger] spec_iter_steps(m, j) == prev.0;
        match prev.1 {
            Option::Some(_) => {
                assert(spec_iter_steps(m, j) == spec_machine_run(m, goal, n).0);
            },
            Option::None => {
                lemma_step_state_any_goal(prev.0, goal);
                assert(spec_iter_steps(m, (j + 1) as nat) == spec_machine_run(m, goal, n).0);
            },
        }
    }
}

/// Time never runs backwards over one loop iteration.
proof fn lemma_step_time_monotone(m: MachineState, goal: u128)
    ensures
        spec_machine_step(m, goal).0.emulated_time_ns >= m.emulated_time_ns,
{
    reveal(spec_machine_step);
}

/// What a decided run of the machine loop guarantees: a `Halted` outcome
/// leaves the machine halted or its fetch failing; a `Running` outcome
/// has reached the time goal; a `BreakpointHit` outcome on a machine
/// still running has advanced the time by at least one instruction's
/// cycles.  Time never runs backwards.
pub proof fn lemma_run_decided(m: MachineState, goal: u128, n: nat)
    ensures
        spec_machine_run(m, goal, n).0.emulated_time_ns >= m.emulated_time_ns,
        spec_machine_run(m, goal, n).1 == Some(DataPointRunStatus::Halted)
            ==> spec_machine_run(m, goal, n).0.cpu.halted || spec_fetch(
            spec_machine_run(m, goal, n).0.cpu,
        ).1 is None,
        spec_machine_run(m, goal, n).1 == Some(DataPointRunStatus::Running)
            ==> spec_machine_run(m, goal, n).0.emulated_time_ns >= goal,
        (spec_machine_run(m, goal, n).1 == Some(DataPointRunStatus::BreakpointHit)
            && !spec_machine_run(m, goal, n).0.cpu.halted) ==> spec_machine_run(
            m,
            goal,
            n,
        ).0.emulated_time_ns >= spec_sat_add(m.emulated_time_ns as int, 3200),
    decreases n,
{
    reveal(spec_machine_step);
    if n > 0 {
        lemma_run_decided(m, goal, (n - 1) as nat);
        let prev = spec_machine_run(m, goal, (n - 1) as nat);
        if prev.1 is None {
            let (c1, fetched) = spec_fetch(prev.0.cpu);
            match fetched {
                Option::None => {
                    lemma_fetch_none_stays(prev.0.cpu);
                },
                Option::Some(inst) => {},
            }
        }
    }
}

/// One single step of the machine, as `single_step` performs it: like a
/// loop iteration, but without breakpoints or a time goal; it ends with
/// `Halted` exactly when the fetch failed, the opcode was undecodable, or
/// the CPU halted, and with `Running` otherwise.
pub open spec fn spec_single_step(m: MachineState) -> (MachineState, DataPointRunStatus) {
    let (c1, fetched) = spec_fetch(m.cpu);
    match fetched {
        Option::None => (MachineState { cpu: c1, ..m }, DataPointRunStatus::Halted),
        Option::Some(inst) => {
            let c2 = CpuState { instruction_register: inst, ..c1 };
            let cycles = spec_clock_cycles(inst.instruction_type);
            let (t1, c3, b1) = spec_ticks(m.emulated_time_ns, cycles as u128, c2, m.databus);
            if inst.instruction_type == InstructionType::Unknown {
                (
                    MachineState {
                        cpu: CpuState { halted: true, ..c3 },
                        emulated_time_ns: t1,
                        databus: b1,
                        ..m
                    },
                    DataPointRunStatus::Halted,
                )
            } else {
                let r = spec_execute(c3, b1);
                let m1 = MachineState {
                    cpu: r.0,
                    emulated_time_ns: t1,
                    databus: r.1,
                    ..m
                };
                if r.0.halted {
                    (m1, DataPointRunStatus::Halted)
                } else {
                    (m1, DataPointRunStatus::Running)
                }
            }
        },
    }
}

/// The Datapoint 2200: CPU, clock, databus and breakpoints.
#[derive(Debug)]
pub struct Datapoint {
    pub cpu: Cpu,
    pub clock: Clock,
    pub databus: Databus,
    pub breakpoints: Vec<u16>,
}

impl View for Datapoint {
    type V = MachineState;

    open spec fn view(&self) -> MachineState {
        MachineState {
            cpu: self.cpu@,
            emulated_time_ns: self.clock.emulated_time_ns,
            databus: self.databus@,
            breakpoints: self.breakpoints@,
        }
    }
}

/// Whether a breakpoint list holds an address.
fn contains_addr(breakpoints: &Vec<u16>, addr: u16) -> (r: bool)
    ensures
        r == breakpoints@.contains(addr),
{
    let mut i: usize = 0;
    while i < breakpoints.len()
        invariant
            i <= breakpoints@.len(),
            forall|k: int| 0 <= k < i ==> breakpoints@[k] != addr,
        decreases breakpoints@.len() - i,
    {
        if breakpoints[i] == addr {
            return true;
        }
        i = i + 1;
    }
    false
}

impl Datapoint {
    /// A machine loaded with a program image from address 0: fresh CPU,
    /// clock at zero, fresh peripherals, no breakpoints.  An image longer
    /// than memory is truncated.
    pub fn build(program: &[u8]) -> (machine: Datapoint)
        ensures
            machine@.wf(),
            machine@.emulated_time_ns == 0,
            machine@.breakpoints == Seq::<u16>::empty(),
            machine@.databus == crate::databus::spec_fresh_bus(),
            (machine@.cpu == CpuState { memory: machine@.cpu.memory, ..Cpu::build_state() }),
            machine@.cpu.memory.len() == crate::cpu::MEMORY_SIZE,
            forall|i: int|
                0 <= i < crate::cpu::MEMORY_SIZE ==> machine@.cpu.memory[i] == (if i
                    < program@.len() {
                    program@[i]
                } else {
                    0u8
                }),
    {
        let mut image: Vec<u8> = Vec::new();
        let mut i: usize = 0;
        while i < program.len()
            invariant
                i <= program@.len(),
                image@ == program@.subrange(0, i as int),
            decreases program@.len() - i,
        {
            let b = *vstd::slice::slice_index_get(program, i);
            image.push(b);
            i = i + 1;
            proof {
                assert(image@ =~= program@.subrange(0, i as int));
            }
        }
        proof {
            assert(image@ =~= program@);
        }
        Datapoint {
            cpu: Cpu::new(image),
            clock: Clock::build(),
            databus: Databus::build(),
            breakpoints: Vec::new(),
        }
    }

    /// A machine loaded with the assembly of the given source lines; an
    /// assembly error is handed back instead.  A machine that comes back
    /// is freshly built: zero time, fresh peripherals, no breakpoints,
    /// the assembled image in memory.
    pub fn new(lines: Vec<&str>) -> (r: Result<Datapoint, AsmError>)
        ensures
            r matches Ok(machine) ==> machine@.wf() && machine@.emulated_time_ns == 0
                && machine@.breakpoints == Seq::<u16>::empty() && machine@.databus
                == crate::databus::spec_fresh_bus() && (machine@.cpu == CpuState {
                memory: machine@.cpu.memory,
                ..Cpu::build_state()
            }) && machine@.cpu.memory.len() == crate::cpu::MEMORY_SIZE,
            lines@.len() == 0 ==> r is Ok && (forall|i: int|
                0 <= i < crate::cpu::MEMORY_SIZE ==> r->Ok_0@.cpu.memory[i] == 0u8),
    {
        let program = assemble(lines)?;
        Ok(Datapoint::build(program.as_slice()))
    }

    /// Replace memory with the given image (zero past its end, truncated
    /// to memory's size) and clear the breakpoints; registers, flags and
    /// the clock keep their state.
    pub fn load_program(&mut self, program: &[u8])
        requires
            old(self)@.wf(),
        ensures
            final(self)@.wf(),
            (final(self)@ == MachineState {
                cpu: CpuState { memory: final(self)@.cpu.memory, ..old(self)@.cpu },
                breakpoints: Seq::empty(),
                ..old(self)@
            }),
            final(self)@.cpu.memory.len() == crate::cpu::MEMORY_SIZE,
            forall|i: int|
                0 <= i < crate::cpu::MEMORY_SIZE ==> final(self)@.cpu.memory[i] == (if i
                    < program@.len() {
                    program@[i]
                } else {
                    0u8
                }),
    {
        let mut i: usize = 0;
        let ghost orig = self@;
        while i < crate::cpu::MEMORY_SIZE
            invariant
                self@.wf(),
                orig.wf(),
                i <= crate::cpu::MEMORY_SIZE,
                (self@ == MachineState {
                    cpu: CpuState { memory: self@.cpu.memory, ..orig.cpu },
                    ..orig
                }),
                self@.cpu.memory.len() == crate::cpu::MEMORY_SIZE,
                forall|k: int|
                    0 <= k < i ==> self@.cpu.memory[k] == (if k < program@.len() {
                        program@[k]
                    } else {
                        0u8
                    }),
                forall|k: int|
                    i <= k < crate::cpu::MEMORY_SIZE ==> self@.cpu.memory[k] == orig.cpu.memory[k],
            decreases crate::cpu::MEMORY_SIZE - i,
        {
            let b = if i < program.len() {
                *vstd::slice::slice_index_get(program, i)
            } else {
                0
            };
            self.cpu.memory.set(i, b);
            i = i + 1;
        }
        self.breakpoints = Vec::new();
    }

    /// Load a TAP image into deck 1 and read its first block into memory
    /// from address 0: memory then holds the payload of the TAP's first
    /// record (see `spec_first_block`), zero past its end; registers and
    /// flags keep their state and the breakpoints are cleared.
    pub fn load_cassette(&mut self, tap_file: Vec<u8>)
        requires
            old(self)@.wf(),
        ensures
            final(self)@.wf(),
            final(self)@.breakpoints == Seq::<u16>::empty(),
            final(self)@.databus.cassette.selected_deck == crate::cassette::DeckId::Deck1,
            (final(self)@.cpu == CpuState {
                memory: final(self)@.cpu.memory,
                ..old(self)@.cpu
            }),
            final(self)@.cpu.memory.len() == crate::cpu::MEMORY_SIZE,
            ({
                let block = crate::cassette::spec_first_block(
                    crate::cassette::spec_parse_tap(tap_file@),
                    true,
                );
                forall|i: int|
                    0 <= i < crate::cpu::MEMORY_SIZE ==> final(self)@.cpu.memory[i] == (if i
                        < block.len() {
                        block[i]
                    } else {
                        0u8
                    })
            }),
    {
        self.databus.cassette.load(crate::cassette::DeckId::Deck1, tap_file);
        proof {
            let cells = crate::cassette::spec_parse_tap(tap_file@);
            assert(cells[0] == crate::cassette::spec_gap_run()[0]);
            assert(cells[0] is Gap);
        }
        let program = self.databus.cassette.get_first_sector();
        self.load_program(program.as_slice());
    }

    /// Run the machine loop until the time budget of `delta_time_ms`
    /// milliseconds of emulated time is used up, a breakpoint is hit, or
    /// the machine halts; see `spec_machine_step`.  A machine that is
    /// already halted reports `Halted` at once.
    #[verifier::rlimit(100)]
    #[verifier::spinoff_prover]
    pub fn update(&mut self, delta_time_ms: u64) -> (r: DataPointRunStatus)
        requires
            old(self)@.wf(),
        ensures
            final(self)@.wf(),
            old(self)@.cpu.halted ==> final(self)@ == old(self)@ && r
                == DataPointRunStatus::Halted,
            !old(self)@.cpu.halted ==> exists|n: nat|
                ({
                    let run = #[trigger] spec_machine_run(
                        old(self)@,
                        spec_sat_add(
                            old(self)@.emulated_time_ns as int,
                            delta_time_ms * 1_000_000,
                        ),
                        n,
                    );
                    &&& run.0 == final(self)@
                    &&& run.1 == Some(r)
                }),
    {
        if self.cpu.halted {
            return DataPointRunStatus::Halted;
        }
        let budget: u128 = (delta_time_ms as u128) * 1_000_000;
        let goal_time: u128 = if self.clock.emulated_time_ns <= u128::MAX - budget {
            self.clock.emulated_time_ns + budget
        } else {
            u128::MAX
        };
        let ghost orig = self@;
        let ghost mut steps: nat = 0nat;
        loop
            invariant
                self@.wf(),
                orig == old(self)@,
                !orig.cpu.halted,
                spec_machine_run(orig, goal_time as u128, steps) == (self@, Option::<
                    DataPointRunStatus,
                >::None),
                goal_time == spec_sat_add(orig.emulated_time_ns as int, budget as int),
                budget == delta_time_ms * 1_000_000,
            decreases goal_time - self@.emulated_time_ns,
        {
            let ghost before = self@;
            let status = self.step_once(goal_time);
            proof {
                steps = steps + 1;
                assert(spec_machine_run(orig, goal_time as u128, steps) == spec_machine_step(
                    before,
                    goal_time as u128,
                ));
            }
            if let Some(r) = status {
                proof {
                    assert(spec_machine_run(orig, goal_time as u128, steps) == (
                        self@,
                        Option::Some(r),
                    ));
                }
                return r;
            }
            proof {
                crate::datapoint::lemma_step_time_advances(before, goal_time as u128);
            }
        }
    }

    /// One iteration of the machine loop against the given time goal; see
    /// `spec_machine_step`.
    fn step_once(&mut self, goal_time: u128) -> (r: Option<DataPointRunStatus>)
        requires
            old(self)@.wf(),
        ensures
            final(self)@.wf(),
            spec_machine_step(old(self)@, goal_time) == (final(self)@, r),
    {
        proof {
            reveal(spec_machine_step);
        }
        let fetched = self.cpu.fetch_instruction();
        let inst = match fetched {
            Some(inst) => inst,
            None => {
                return Some(DataPointRunStatus::Halted);
            },
        };
        self.cpu.instruction_register = inst;
        let cycles = inst.get_clock_cycles();
        proof {
            assert(cycles as u128 <= MAX_TICK_CYCLES);
        }
        self.clock.ticks(cycles as u128, &mut self.cpu, &mut self.databus);
        if matches!(inst.instruction_type, InstructionType::Unknown) {
            self.cpu.halted = true;
            return Some(DataPointRunStatus::Halted);
        }
        self.cpu.execute_instruction(&mut self.databus);
        self.databus.update();
        if contains_addr(&self.breakpoints, self.cpu.program_counter) {
            Some(DataPointRunStatus::BreakpointHit)
        } else if self.cpu.halted {
            Some(DataPointRunStatus::Halted)
        } else if self.clock.emulated_time_ns >= goal_time {
            Some(DataPointRunStatus::Running)
        } else {
            None
        }
    }

    /// Fetch and execute one instruction with the same bookkeeping as
    /// `update`, without breakpoints or a time budget; see
    /// `spec_single_step`.
    #[verifier::rlimit(100)]
    #[verifier::spinoff_prover]
    pub fn single_step(&mut self) -> (r: DataPointRunStatus)
        requires
            old(self)@.wf(),
        ensures
            final(self)@.wf(),
            spec_single_step(old(self)@) == (final(self)@, r),
    {
        let fetched = self.cpu.fetch_instruction();
        let inst = match fetched {
            Some(inst) => inst,
            None => {
                return DataPointRunStatus::Halted;
            },
        };
        self.cpu.instruction_register = inst;
        let cycles = inst.get_clock_cycles();
        self.clock.ticks(cycles as u128, &mut self.cpu, &mut self.databus);
        if matches!(inst.instruction_type, InstructionType::Unknown) {
            self.cpu.halted = true;
            return DataPointRunStatus::Halted;
        }
        self.cpu.execute_instruction(&mut self.databus);
        self.databus.update();
        if self.cpu.halted {
            DataPointRunStatus::Halted
        } else {
            DataPointRunStatus::Running
        }
    }

    /// Run the machine in 10 ms slices until it halts, and give back the
    /// emulated time in nanoseconds.  The final state is reached from the
    /// starting state by iterating the machine loop, and when the run
    /// ends the machine has halted, or its fetch fails (so no further
    /// call could make progress), or centuries of emulated time have
    /// passed.
    pub fn run(&mut self) -> (r: u128)
        requires
            old(self)@.wf(),
        ensures
            final(self)@.wf(),
            r == final(self)@.emulated_time_ns,
            exists|n: nat| #[trigger] spec_iter_steps(old(self)@, n) == final(self)@,
            (final(self)@.cpu.halted || spec_fetch(final(self)@.cpu).1 is None || final(self)@.emulated_time_ns >= 0x1_0000_0000_0000_0000),
    {
        let mut fuel: u64 = u64::MAX;
        proof {
            assert(spec_iter_steps(old(self)@, 0) == self@);
        }
        while fuel > 0 && !self.cpu.halted
            invariant
                self@.wf(),
                exists|n: nat| #[trigger] spec_iter_steps(old(self)@, n) == self@,
                !self@.cpu.halted ==> self@.emulated_time_ns >= spec_sat_add(
                    old(self)@.emulated_time_ns as int,
                    3200 * (u64::MAX - fuel) as int,
                ),
            decreases fuel,
        {
            let ghost cur = self@;
            let status = self.update(10);
            proof {
                let goal = spec_sat_add(cur.emulated_time_ns as int, 10int * 1_000_000);
                let k = choose|k: nat|
                    ({
                        let run = #[trigger] spec_machine_run(cur, goal, k);
                        run.0 == self@ && run.1 == Some(status)
                    });
                lemma_run_states_are_iterates(cur, goal, k);
                let j = choose|j: nat| #[trigger] spec_iter_steps(cur, j) == spec_machine_run(
                    cur,
                    goal,
                    k,
                ).0;
                let a = choose|a: nat| #[trigger] spec_iter_steps(old(self)@, a) == cur;
                lemma_iter_steps_add(old(self)@, a, j);
                assert(spec_iter_steps(old(self)@, (a + j) as nat) == self@);
                lemma_run_decided(cur, goal, k);
            }
            if matches!(status, DataPointRunStatus::Halted) {
                proof {
                    let goal = spec_sat_add(cur.emulated_time_ns as int, 10int * 1_000_000);
                    let k = choose|k: nat|
                        ({
                            let run = #[trigger] spec_machine_run(cur, goal, k);
                            run.0 == self@ && run.1 == Some(status)
                        });
                    lemma_run_decided(cur, goal, k);
                }
                return self.clock.emulated_time_ns;
            }
            fuel = fuel - 1;
        }
        self.clock.emulated_time_ns
    }

    /// Toggle the breakpoint at an address: remove it if it is set, set it
    /// if it is not.
    pub fn toggle_breakpoint(&mut self, addr: u16)
        requires
            old(self)@.wf(),
        ensures
            final(self)@.wf(),
            (final(self)@ == MachineState {
                breakpoints: final(self)@.breakpoints,
                ..old(self)@
            }),
            old(self)@.breakpoints.contains(addr) ==> (exists|j: int|
                {
                    &&& 0 <= j < old(self)@.breakpoints.len()
                    &&& old(self)@.breakpoints[j] == addr
                    &&& forall|k: int| 0 <= k < j ==> old(self)@.breakpoints[k] != addr
                    &&& final(self)@.breakpoints == old(self)@.breakpoints.remove(j)
                }),
            !old(self)@.breakpoints.contains(addr) ==> final(self)@.breakpoints == old(
                self,
            )@.breakpoints.push(addr),
    {
        let mut i: usize = 0;
        while i < self.breakpoints.len()
            invariant
                self@ == old(self)@,
                old(self)@.wf(),
                i <= self@.breakpoints.len(),
                forall|k: int| 0 <= k < i ==> self@.breakpoints[k] != addr,
            decreases self@.breakpoints.len() - i,
        {
            if self.breakpoints[i] == addr {
                self.breakpoints.remove(i);
                proof {
                    assert(self@.breakpoints == old(self)@.breakpoints.remove(i as int));
                    assert(self@ =~= MachineState {
                        breakpoints: self@.breakpoints,
                        ..old(self)@
                    });
                }
                return ;
            }
            i = i + 1;
        }
        self.breakpoints.push(addr);
    }
}

/// A loop iteration that does not decide strictly advances the emulated
/// time towards the goal.
pub proof fn lemma_step_time_advances(m: MachineState, goal: u128)
    requires
        m.wf(),
        spec_machine_step(m, goal).1 is None,
    ensures
        spec_machine_step(m, goal).0.emulated_time_ns > m.emulated_time_ns,
        spec_machine_step(m, goal).0.emulated_time_ns <= goal,
{
    reveal(spec_machine_step);
    let (c1, fetched) = spec_fetch(m.cpu);
    let inst = fetched->0;
    let cycles = spec_clock_cycles(inst.instruction_type);
    assert(cycles >= 2) by {
        if cycles < 2 {
            assert(inst.instruction_type == InstructionType::Unknown || inst.instruction_type
                == InstructionType::Halt);
        }
    }
}

} // verus!
