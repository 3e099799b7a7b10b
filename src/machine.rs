//! The register machine that runs a program.
use vstd::prelude::*;
use crate::decode::Instruction;
use crate::error::InterpError;
use crate::validate::program_fault;

verus! {

/// The number of registers. Register 0 receives the results of `Addition`
/// and `Subtraction`; register 1 is the condition that both jumps test.
pub const REGISTER_COUNT: usize = 9;

/// The machine's state: the index of the next instruction, and the registers.
#[derive(Clone, Copy, Debug)]
pub struct Machine {
    pub pointer: usize,
    pub registers: [i32; 9],
}

/// The machine's state as mathematical values.
pub struct MachineView {
    pub pointer: usize,
    pub registers: Seq<i32>,
}

impl View for Machine {
    type V = MachineView;

    open spec fn view(&self) -> MachineView {
        MachineView { pointer: self.pointer, registers: self.registers@ }
    }
}

/// What one step of the machine did.
#[derive(Clone, Copy, Debug, PartialEq, Eq, Structural)]
pub enum StepEvent {
    /// An instruction ran and produced no output.
    Advanced,
    /// An `Output` instruction emitted this register value.
    Output(i32),
    /// A `Stop` instruction ran: the machine has halted.
    Halted,
}

/// The machine before the first step: pointer 0 and all registers 0.
pub open spec fn initial_machine() -> MachineView {
    MachineView { pointer: 0, registers: Seq::new(REGISTER_COUNT as nat, |i: int| 0i32) }
}

/// A `Move` literal as a register value: the `u32` read as a 32-bit two's
/// complement number.
pub open spec fn literal_value(v: u32) -> i32 {
    if v <= i32::MAX {
        v as i32
    } else {
        (v - 0x1_0000_0000) as i32
    }
}

/// The state after an instruction that moves on to the next one and leaves
/// these register values.
pub open spec fn advanced(m: MachineView, registers: Seq<i32>) -> MachineView {
    MachineView { pointer: (m.pointer + 1) as usize, registers }
}

/// The state after a jump instruction: to `addr` when `taken`, else to the
/// next instruction.
pub open spec fn jumped(m: MachineView, addr: u32, taken: bool) -> MachineView {
    MachineView {
        pointer: if taken {
            addr as usize
        } else {
            (m.pointer + 1) as usize
        },
        registers: m.registers,
    }
}

/// One step of the machine on `program`: the next state and what happened,
/// or why the instruction at the pointer cannot run. Arithmetic wraps as
/// 32-bit signed arithmetic does.
pub open spec fn step_result(program: Seq<Instruction>, m: MachineView) -> Result<
    (MachineView, StepEvent),
    InterpError,
> {
    let p = m.pointer;
    let regs = m.registers;
    let bad = Err(InterpError::InvalidOperand { pointer: p });
    if p >= program.len() {
        Err(InterpError::PointerOutOfRange { pointer: p })
    } else {
        match program[p as int] {
            Instruction::Start | Instruction::Break => Ok((advanced(m, regs), StepEvent::Advanced)),
            Instruction::Stop => Ok((m, StepEvent::Halted)),
            Instruction::Output(r) => if r < REGISTER_COUNT {
                Ok((advanced(m, regs), StepEvent::Output(regs[r as int])))
            } else {
                bad
            },
            Instruction::Increment(r) => if r < REGISTER_COUNT {
                Ok(
                    (
                        advanced(m, regs.update(r as int, regs[r as int].wrapping_add(1))),
                        StepEvent::Advanced,
                    ),
                )
            } else {
                bad
            },
            Instruction::Decrement(r) => if r < REGISTER_COUNT {
                Ok(
                    (
                        advanced(m, regs.update(r as int, regs[r as int].wrapping_sub(1))),
                        StepEvent::Advanced,
                    ),
                )
            } else {
                bad
            },
            Instruction::Addition(a, b) => if a < REGISTER_COUNT && b < REGISTER_COUNT {
                Ok(
                    (
                        advanced(m, regs.update(0, regs[a as int].wrapping_add(regs[b as int]))),
                        StepEvent::Advanced,
                    ),
                )
            } else {
                bad
            },
            Instruction::Subtraction(a, b) => if a < REGISTER_COUNT && b < REGISTER_COUNT {
                Ok(
                    (
                        advanced(m, regs.update(0, regs[a as int].wrapping_sub(regs[b as int]))),
                        StepEvent::Advanced,
                    ),
                )
            } else {
                bad
            },
            Instruction::Move(r, v) => if r < REGISTER_COUNT {
                Ok((advanced(m, regs.update(r as int, literal_value(v))), StepEvent::Advanced))
            } else {
                bad
            },
            Instruction::JumpIfZero(addr) => if addr < program.len() {
                Ok((jumped(m, addr, regs[1] == 0), StepEvent::Advanced))
            } else {
                bad
            },
            Instruction::JumpNotZero(addr) => if addr < program.len() {
                Ok((jumped(m, addr, regs[1] != 0), StepEvent::Advanced))
            } else {
                bad
            },
        }
    }
}

/// Runs at most `fuel` steps from `m`, with `outputs` emitted so far: the
/// final state, every output in order, and whether `Stop` ran.
pub open spec fn run_from(program: Seq<Instruction>, m: MachineView, outputs: Seq<i32>, fuel: nat) -> Result<(MachineView, Seq<i32>, bool), InterpError>
    decreases fuel,
{
    if fuel == 0 {
        Ok((m, outputs, false))
    } else {
        match step_result(program, m) {
            Err(e) => Err(e),
            Ok((next, StepEvent::Halted)) => Ok((next, outputs, true)),
            Ok((next, StepEvent::Output(x))) => run_from(program, next, outputs.push(x), (fuel - 1) as nat),
            Ok((next, StepEvent::Advanced)) => run_from(program, next, outputs, (fuel - 1) as nat),
        }
    }
}

/// A register value from a `u32` literal, read as two's complement.
fn literal_to_register(v: u32) -> (r: i32)
    ensures
        r == literal_value(v),
{
    if v <= 0x7fff_ffff {
        v as i32
    } else {
        (v - 0x8000_0000) as i32 - 0x7fff_ffff - 1
    }
}

impl Machine {
    /// A machine about to run the first instruction, with all registers 0.
    pub fn new() -> (r: Machine)
        ensures
            r@ == initial_machine(),
    {
        let r = Machine { pointer: 0, registers: [0, 0, 0, 0, 0, 0, 0, 0, 0] };
        assert(r@.registers =~= initial_machine().registers);
        r
    }

    /// Runs the instruction at the pointer. On an error the machine is left
    /// as it was; after `Stop` it stays where it is.
    pub fn step(&mut self, program: &Vec<Instruction>) -> (r: Result<StepEvent, InterpError>)
        ensures
            match r {
                Ok(ev) => step_result(program@, old(self)@) == Ok::<
                    (MachineView, StepEvent),
                    InterpError,
                >((final(self)@, ev)),
                Err(e) => step_result(program@, old(self)@) == Err::<
                    (MachineView, StepEvent),
                    InterpError,
                >(e) && final(self)@ == old(self)@,
            },
    {
        let p = self.pointer;
        if p >= program.len() {
            return Err(InterpError::PointerOutOfRange { pointer: p });
        }
        let bad = InterpError::InvalidOperand { pointer: p };
        match program[p] {
            Instruction::Start | Instruction::Break => {
                self.pointer = p + 1;
                Ok(StepEvent::Advanced)
            },
            Instruction::Stop => Ok(StepEvent::Halted),
            Instruction::Output(r) => {
                if r as usize >= REGISTER_COUNT {
                    return Err(bad);
                }
                let value = self.registers[r as usize];
                self.pointer = p + 1;
                Ok(StepEvent::Output(value))
            },
            Instruction::Increment(r) => {
                if r as usize >= REGISTER_COUNT {
                    return Err(bad);
                }
                let i = r as usize;
                self.registers[i] = self.registers[i].wrapping_add(1);
                self.pointer = p + 1;
                Ok(StepEvent::Advanced)
            },
            Instruction::Decrement(r) => {
                if r as usize >= REGISTER_COUNT {
                    return Err(bad);
                }
                let i = r as usize;
                self.registers[i] = self.registers[i].wrapping_sub(1);
                self.pointer = p + 1;
                Ok(StepEvent::Advanced)
            },
            Instruction::Addition(a, b) => {
                if a as usize >= REGISTER_COUNT || b as usize >= REGISTER_COUNT {
                    return Err(bad);
                }
                self.registers[0] = self.registers[a as usize].wrapping_add(
                    self.registers[b as usize],
                );
                self.pointer = p + 1;
                Ok(StepEvent::Advanced)
            },
            Instruction::Subtraction(a, b) => {
                if a as usize >= REGISTER_COUNT || b as usize >= REGISTER_COUNT {
                    return Err(bad);
                }
                self.registers[0] = self.registers[a as usize].wrapping_sub(
                    self.registers[b as usize],
                );
                self.pointer = p + 1;
                Ok(StepEvent::Advanced)
            },
            Instruction::Move(r, v) => {
                if r as usize >= REGISTER_COUNT {
                    return Err(bad);
                }
                self.registers[r as usize] = literal_to_register(v);
                self.pointer = p + 1;
                Ok(StepEvent::Advanced)
            },
            Instruction::JumpIfZero(addr) => {
                if addr as usize >= program.len() {
                    return Err(bad);
                }
                self.pointer = if self.registers[1] == 0 {
                    addr as usize
                } else {
                    p + 1
                };
                Ok(StepEvent::Advanced)
            },
            Instruction::JumpNotZero(addr) => {
                if addr as usize >= program.len() {
                    return Err(bad);
                }
                self.pointer = if self.registers[1] != 0 {
                    addr as usize
                } else {
                    p + 1
                };
                Ok(StepEvent::Advanced)
            },
        }
    }
}

/// The outcome of running a program for a bounded number of steps.
#[derive(Debug)]
pub struct Execution {
    /// The machine as the run left it.
    pub machine: Machine,
    /// The values of the `Output` instructions that ran, in order.
    pub outputs: Vec<i32>,
    /// Whether a `Stop` instruction ran.
    pub halted: bool,
}

/// Runs `program` from the initial machine until `Stop` runs or `max_steps`
/// instructions (`Stop` included) have run, collecting the outputs. The
/// first instruction that cannot run ends the run with its error.
pub fn execute(program: &Vec<Instruction>, max_steps: usize) -> (r: Result<Execution, InterpError>)
    ensures
        match r {
            Ok(ex) => run_from(program@, initial_machine(), seq![], max_steps as nat) == Ok::<
                (MachineView, Seq<i32>, bool),
                InterpError,
            >((ex.machine@, ex.outputs@, ex.halted)),
            Err(e) => run_from(program@, initial_machine(), seq![], max_steps as nat) == Err::<
                (MachineView, Seq<i32>, bool),
                InterpError,
            >(e),
        },
{
    let ghost whole = run_from(program@, initial_machine(), seq![], max_steps as nat);
    let mut machine = Machine::new();
    let mut outputs: Vec<i32> = Vec::new();
    let mut remaining: usize = max_steps;
    assert(outputs@ =~= seq![]);
    while remaining > 0
        invariant
            whole == run_from(program@, initial_machine(), seq![], max_steps as nat),
            whole == run_from(program@, machine@, outputs@, remaining as nat),
        decreases remaining,
    {
        let event = match machine.step(program) {
            Err(e) => {
                return Err(e);
            },
            Ok(ev) => ev,
        };
        remaining = remaining - 1;
        match event {
            StepEvent::Halted => {
                return Ok(Execution { machine, outputs, halted: true });
            },
            StepEvent::Output(x) => {
                outputs.push(x);
            },
            StepEvent::Advanced => {},
        }
    }
    Ok(Execution { machine, outputs, halted: false })
}

/// On a well-formed program the pointer never leaves the program: a step
/// from any of its instructions that succeeds lands on one of them again.
pub proof fn lemma_step_stays_in_program(program: Seq<Instruction>, m: MachineView)
    requires
        program_fault(program) is None,
        m.pointer < program.len(),
    ensures
        step_result(program, m) matches Ok((next, _)) ==> next.pointer < program.len(),
{
}

/// A jump whose target lies past the end of the program is refused with
/// `InvalidOperand`, whatever the condition register holds.
pub proof fn lemma_jump_past_end(program: Seq<Instruction>, m: MachineView, addr: u32)
    requires
        m.pointer < program.len(),
        program[m.pointer as int] == Instruction::JumpIfZero(addr) || program[m.pointer as int]
            == Instruction::JumpNotZero(addr),
        addr >= program.len(),
    ensures
        step_result(program, m) == Err::<(MachineView, StepEvent), InterpError>(
            InterpError::InvalidOperand { pointer: m.pointer },
        ),
{
}

} // verus!
