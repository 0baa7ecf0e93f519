//! Cycle-level emulation of the hardware: bus-based data movement, the ALU,
//! the stack and general-memory controllers, the goto latches, the call
//! stack, and the fetch-decode-execute loop.
use vstd::prelude::*;
use vstd::string::StringExecFns;

verus! {

/// What can go wrong while executing one instruction.
#[derive(Clone, Copy, Debug, PartialEq, Eq)]
pub enum EmulationErrorEnum {
    InvalidOpcode(u8),
    InvalidBusReadAddr(u8),
    InvalidBusWriteAddr(u8),
    InvalidAluOpcode(u8),
    AttemptedReadFromControlUnit,
    ExecutionPointerExceededProgramSize,
    /// The run loop gives up after an instruction count no real program
    /// reaches, so that every run provably ends.
    StepLimitExceeded,
}

/// An emulation error together with the program address it happened at.
#[derive(Clone, Copy, Debug, PartialEq, Eq)]
pub struct EmulationError {
    pub enum_: EmulationErrorEnum,
    pub prog_addr: u16,
}

impl EmulationError {
    /// Plain constructor.
    pub fn new(enum_: EmulationErrorEnum, prog_addr: u16) -> (r: Self)
        ensures
            r.enum_ == enum_,
            r.prog_addr == prog_addr,
    {
        Self { enum_, prog_addr }
    }

    /// A human-readable description of the error.
    pub fn to_string(&self) -> String {
        let mut out: String = String::new();
        out.append(
            match self.enum_ {
                EmulationErrorEnum::InvalidOpcode(..) => "invalid opcode",
                EmulationErrorEnum::InvalidBusReadAddr(..) => "invalid bus read address",
                EmulationErrorEnum::InvalidBusWriteAddr(..) => "invalid bus write address",
                EmulationErrorEnum::InvalidAluOpcode(..) => "invalid ALU opcode",
                EmulationErrorEnum::AttemptedReadFromControlUnit => "attempted read from control unit",
                EmulationErrorEnum::ExecutionPointerExceededProgramSize => "execution pointer exceeded program size",
                EmulationErrorEnum::StepLimitExceeded => "step limit exceeded",
            },
        );
        out.append(" with the program pointer at ");
        let addr_text = crate::scan::usize_to_string(self.prog_addr as usize);
        out.append(addr_text.as_str());
        out
    }
}

/// The capability boundary the machine's GPIO channels talk to.  Each method
/// is independently optional; the defaults do nothing and read zero.
pub trait GpioInterface {
    fn write_a(&mut self, _in: u8) {
    }

    fn write_b(&mut self, _in: u8) {
    }

    fn read_a(&mut self) -> u8 {
        0x00
    }

    fn read_b(&mut self) -> u8 {
        0x00
    }
}

/// A GPIO interface that does nothing and reads zero.
pub struct GpioInterfaceDoesNothing;

impl GpioInterface for GpioInterfaceDoesNothing {

}

/// The index of the stack cell that offset addressing reaches: the top
/// pointer plus the offset minus 255, reduced modulo the address space.
pub open spec fn spec_compute_offset(top: u16, offset: u8) -> u16 {
    (((top as int) + (offset as int) + 0xFF00 + 1) % 0x10000) as u16
}

/// The stack controller: a top pointer that pre-increments on push and
/// post-decrements on pop, and an offset register for offset addressing.
pub struct StackController {
    pub top_pointer: u16,
    pub offset: u8,
}

impl StackController {
    /// Initial state: top pointer and offset zero.
    pub fn new() -> (r: Self)
        ensures
            r.top_pointer == 0,
            r.offset == 0,
    {
        Self { top_pointer: 0, offset: 0 }
    }

    /// Pushes a value onto the stack: the top pointer advances by one
    /// (wrapping), then the value is written there.
    pub fn push(&mut self, value: u8, mem: &mut Vec<u8>)
        requires
            old(mem)@.len() == 0x10000,
        ensures
            final(self).top_pointer as int == (old(self).top_pointer + 1) % 0x10000,
            final(self).offset == old(self).offset,
            final(mem)@ == old(mem)@.update(final(self).top_pointer as int, value),
    {
        self.top_pointer = self.top_pointer.wrapping_add(1);
        mem.set(self.top_pointer as usize, value);
    }

    /// Pops the top of the stack: the value under the top pointer is read,
    /// then the pointer retreats by one (wrapping).  The cell itself keeps
    /// its value.
    pub fn pop(&mut self, mem: &Vec<u8>) -> (out: u8)
        requires
            mem@.len() == 0x10000,
        ensures
            out == mem@[old(self).top_pointer as int],
            final(self).top_pointer as int == (old(self).top_pointer - 1 + 0x10000) % 0x10000,
            final(self).offset == old(self).offset,
    {
        let out: u8 = mem[self.top_pointer as usize];
        self.top_pointer = self.top_pointer.wrapping_sub(1);
        out
    }

    /// Reads the cell that offset addressing reaches.
    pub fn offset_read(&self, mem: &mut Vec<u8>) -> (out: u8)
        requires
            old(mem)@.len() == 0x10000,
        ensures
            out == old(mem)@[spec_compute_offset(self.top_pointer, self.offset) as int],
            final(mem)@ == old(mem)@,
    {
        mem[(self.top_pointer.wrapping_add(self.offset as u16 + 0xFF00).wrapping_add(1)) as usize]
    }

    /// Writes the cell that offset addressing reaches.
    pub fn offset_write(&self, value: u8, mem: &mut Vec<u8>)
        requires
            old(mem)@.len() == 0x10000,
        ensures
            final(mem)@ == old(mem)@.update(
                spec_compute_offset(self.top_pointer, self.offset) as int,
                value,
            ),
    {
        mem.set(
            (self.top_pointer.wrapping_add(self.offset as u16 + 0xFF00).wrapping_add(1)) as usize,
            value,
        );
    }

    /// Does exactly what the hardware does: the offset register addresses
    /// relative to the top of the stack, reaching from 255 below it up to
    /// the top itself.
    pub fn compute_offset(top: u16, offset: u8) -> (r: u16)
        ensures
            r == spec_compute_offset(top, offset),
    {
        proof {
            assert(((offset as u16) | 0xFF00u16) == (offset as u16) + 0xFF00) by (bit_vector);
        }
        top.wrapping_add((offset as u16) | 0xFF00).wrapping_add(1)
    }
}

/// The outcome of one ALU computation on latches `a` and `b`.
pub open spec fn spec_alu_compute(a: u8, b: u8, opcode: u8) -> Result<u8, EmulationErrorEnum> {
    if opcode == 0 {  // ADD
        Ok(((a + b) % 256) as u8)
    } else if opcode == 1 {  // ADD-C
        Ok(
            if a + b > 255 {
                1u8
            } else {
                0u8
            },
        )
    } else if opcode == 2 {  // NOT
        Ok(!a)
    } else if opcode == 3 {  // OR
        Ok(a | b)
    } else if opcode == 4 {  // AND
        Ok(a & b)
    } else if opcode == 5 {  // XNOR
        Ok(!(a ^ b))
    } else if opcode == 6 {  // SHIFT
        Ok(a << (b & 0b111))
    } else if opcode == 7 {  // EQ
        Ok(
            if a == b {
                1u8
            } else {
                0u8
            },
        )
    } else if opcode == 8 {  // A
        Ok(a)
    } else if opcode == 9 {  // B
        Ok(b)
    } else {
        Err(EmulationErrorEnum::InvalidAluOpcode(opcode))
    }
}

/// The ALU: two input latches and a carry-in latch.
pub struct ALU {
    pub latch_a: u8,
    pub latch_b: u8,
    pub latch_c: u8,
}

impl ALU {
    /// Initial state: all latches zero.
    pub fn new() -> (r: Self)
        ensures
            r.latch_a == 0,
            r.latch_b == 0,
            r.latch_c == 0,
    {
        Self { latch_a: 0, latch_b: 0, latch_c: 0 }
    }

    /// Computes one ALU operation from the latches, as `spec_alu_compute`
    /// says: wrapping add, carry-out, bitwise NOT/OR/AND/XNOR, left shift
    /// by the low three bits of `b`, equality test, and the two
    /// pass-through operations.
    pub fn compute(&self, opcode: u8) -> (r: Result<u8, EmulationErrorEnum>)
        ensures
            r == spec_alu_compute(self.latch_a, self.latch_b, opcode),
    {
        let a = self.latch_a;
        let b = self.latch_b;
        match opcode {
            0 => Ok(a.wrapping_add(b)),
            1 => Ok((((a as u16) + (b as u16)) > 255) as u8),
            2 => Ok(!a),
            3 => Ok(a | b),
            4 => Ok(a & b),
            5 => Ok(!(a ^ b)),
            6 => {
                let shift: u8 = b & 0b111;
                proof {
                    assert(shift < 8) by (bit_vector)
                        requires
                            shift == b & 0b111,
                    ;
                }
                Ok(a << shift)
            },
            7 => Ok((a == b) as u8),
            8 => Ok(a),
            9 => Ok(b),
            n => Err(EmulationErrorEnum::InvalidAluOpcode(n)),
        }
    }
}

/// The general-memory controller: a 16-bit pointer with optional
/// auto-increment.
pub struct GeneralMemController {
    pub pointer: u16,
}

impl GeneralMemController {
    /// Initial state: pointer zero.
    pub fn new() -> (r: Self)
        ensures
            r.pointer == 0,
    {
        Self { pointer: 0 }
    }

    /// Writes at the pointer; with `inc_addr` the pointer then advances by
    /// one (wrapping).
    pub fn write(&mut self, value: u8, mem: &mut Vec<u8>, inc_addr: bool)
        requires
            old(mem)@.len() == 0x10000,
        ensures
            final(mem)@ == old(mem)@.update(old(self).pointer as int, value),
            final(self).pointer as int == if inc_addr {
                (old(self).pointer + 1) % 0x10000
            } else {
                old(self).pointer as int
            },
    {
        mem.set(self.pointer as usize, value);
        if inc_addr {
            self.pointer = self.pointer.wrapping_add(1);
        }
    }

    /// Reads at the pointer; with `inc_addr` the pointer then advances by
    /// one (wrapping).
    pub fn read(&mut self, mem: &Vec<u8>, inc_addr: bool) -> (out: u8)
        requires
            mem@.len() == 0x10000,
        ensures
            out == mem@[old(self).pointer as int],
            final(self).pointer as int == if inc_addr {
                (old(self).pointer + 1) % 0x10000
            } else {
                old(self).pointer as int
            },
    {
        let out: u8 = mem[self.pointer as usize];
        if inc_addr {
            self.pointer = self.pointer.wrapping_add(1);
        }
        out
    }
}

/// Mathematical image of the whole machine.
pub struct MachineState {
    pub prog_mem: Seq<u16>,
    pub stack_mem: Seq<u8>,
    pub general_mem: Seq<u8>,
    pub call_stack: Seq<u16>,
    pub call_stack_top: u8,
    pub stack_top: u16,
    pub stack_offset: u8,
    pub alu_a: u8,
    pub alu_b: u8,
    pub alu_c: u8,
    pub gpram_pointer: u16,
    pub execution_pointer: u16,
    pub goto_latch_a: u8,
    pub goto_latch_b: u8,
    pub goto_decider_latch: bool,
    pub program_size: u16,
    pub clock_counter: u16,
}

impl MachineState {
    /// The memory regions have their full fixed sizes.
    pub open spec fn wf(self) -> bool {
        self.prog_mem.len() == 0x10000 && self.stack_mem.len() == 0x10000
            && self.general_mem.len() == 0x10000 && self.call_stack.len() == 256
    }

    /// The state after the execution pointer advances by one (wrapping).
    pub open spec fn advance(self) -> MachineState {
        MachineState {
            execution_pointer: (((self.execution_pointer + 1) % 0x10000) as u16),
            ..self
        }
    }

    /// The state after a jump: the execution pointer is loaded from the two
    /// goto latches, low byte from latch A and high byte from latch B.
    pub open spec fn jump(self) -> MachineState {
        MachineState {
            execution_pointer: ((self.goto_latch_a + self.goto_latch_b * 256) as u16),
            ..self
        }
    }
}

/// Reading one value from the bus: which component hands it over, what the
/// read does to the machine, and which addresses are refused.  `gpio_in` is
/// the value the GPIO interface would answer with, when it is asked.
pub open spec fn spec_get_bus_value(
    s: MachineState,
    write_addr: u8,
    alu_opcode: u8,
    gpio_in: u8,
) -> Result<(MachineState, u8), EmulationErrorEnum>
    recommends
        s.wf(),
{
    if write_addr == 0 {  // STACK-POP
        Ok(
            (
                MachineState {
                    stack_top: (((s.stack_top - 1 + 0x10000) % 0x10000) as u16),
                    ..s
                },
                s.stack_mem[s.stack_top as int],
            ),
        )
    } else if write_addr == 1 {  // STACK-OFFSET-READ
        Ok((s, s.stack_mem[spec_compute_offset(s.stack_top, s.stack_offset) as int]))
    } else if write_addr == 2 {  // ALU
        match spec_alu_compute(s.alu_a, s.alu_b, alu_opcode) {
            Ok(v) => Ok((s, v)),
            Err(e) => Err(e),
        }
    } else if write_addr == 3 {  // control-unit write port
        Err(EmulationErrorEnum::AttemptedReadFromControlUnit)
    } else if write_addr == 4 {  // GPRAM
        Ok((s, s.general_mem[s.gpram_pointer as int]))
    } else if write_addr == 5 {  // GPRAM-INC-ADDR
        Ok(
            (
                MachineState {
                    gpram_pointer: (((s.gpram_pointer + 1) % 0x10000) as u16),
                    ..s
                },
                s.general_mem[s.gpram_pointer as int],
            ),
        )
    } else if write_addr == 6 {  // GPRAM-ADDR-A
        Ok((s, ((s.gpram_pointer & 0x00FF) as u8)))
    } else if write_addr == 7 {  // GPRAM-ADDR-B
        Ok((s, (((s.gpram_pointer >> 8) & 0x00FF) as u8)))
    } else if write_addr == 8 {  // GPIO-READ-A
        Ok((s, gpio_in))
    } else if write_addr == 9 {  // CLK-COUNTER-A
        Ok((s, ((s.clock_counter & 0x00FF) as u8)))
    } else if write_addr == 10 {  // CLK-COUNTER-B
        Ok((s, (((s.clock_counter >> 8) & 0x00FF) as u8)))
    } else if write_addr == 11 {  // GPIO-READ-B
        Ok((s, gpio_in))
    } else {
        Err(EmulationErrorEnum::InvalidBusWriteAddr(write_addr))
    }
}

/// Sending one value over the bus: which component takes it and what the
/// write does to the machine.  A write to a GPIO channel leaves the machine
/// itself unchanged.
pub open spec fn spec_send_bus_value(s: MachineState, read_addr: u8, v: u8) -> Result<
    MachineState,
    EmulationErrorEnum,
>
    recommends
        s.wf(),
{
    if read_addr == 0 {  // NONE
        Ok(s)
    } else if read_addr == 1 {  // STACK-PUSH
        Ok(
            (MachineState {
                stack_top: (((s.stack_top + 1) % 0x10000) as u16),
                stack_mem: s.stack_mem.update(((s.stack_top + 1) % 0x10000) as int, v),
                ..s
            }),
        )
    } else if read_addr == 2 {  // ALU-A
        Ok((MachineState { alu_a: v, ..s }))
    } else if read_addr == 3 {  // ALU-B
        Ok((MachineState { alu_b: v, ..s }))
    } else if read_addr == 4 {  // GOTO-A
        Ok((MachineState { goto_latch_a: v, ..s }))
    } else if read_addr == 5 {  // GOTO-B
        Ok((MachineState { goto_latch_b: v, ..s }))
    } else if read_addr == 6 {  // GOTO-DECIDER
        Ok((MachineState { goto_decider_latch: (v & 1) == 1, ..s }))
    } else if read_addr == 7 {  // GPRAM
        Ok((MachineState { general_mem: s.general_mem.update(s.gpram_pointer as int, v), ..s }))
    } else if read_addr == 8 {  // GPRAM-INC-ADDR
        Ok(
            (MachineState {
                general_mem: s.general_mem.update(s.gpram_pointer as int, v),
                gpram_pointer: (((s.gpram_pointer + 1) % 0x10000) as u16),
                ..s
            }),
        )
    } else if read_addr == 9 {  // GPRAM-ADDR-A
        Ok((MachineState { gpram_pointer: ((s.gpram_pointer & 0xFF00) | (v as u16)), ..s }))
    } else if read_addr == 10 {  // GPRAM-ADDR-B
        Ok(
            (MachineState {
                gpram_pointer: ((s.gpram_pointer & 0x00FF) | ((v as u16) << 8)),
                ..s
            }),
        )
    } else if read_addr == 11 {  // GPIO-WRITE-A
        Ok(s)
    } else if read_addr == 12 {  // STACK-OFFSET-WRITE
        Ok(
            (MachineState {
                stack_mem: s.stack_mem.update(
                    spec_compute_offset(s.stack_top, s.stack_offset) as int,
                    v,
                ),
                ..s
            }),
        )
    } else if read_addr == 13 {  // SET-STACK-OFFSET
        Ok((MachineState { stack_offset: v, ..s }))
    } else if read_addr == 14 {  // ALU-C-IN
        Ok((MachineState { alu_c: v, ..s }))
    } else if read_addr == 15 {  // GPIO-WRITE-B
        Ok(s)
    } else {
        Err(EmulationErrorEnum::InvalidBusReadAddr(read_addr))
    }
}

/// One step of the fetch-decode-execute loop.  An execution pointer at or
/// past the program size is refused.  Otherwise the word under the pointer
/// is decoded: opcode in bits 0-3, ALU opcode in bits 4-7, second byte in
/// bits 8-15; the opcodes are MOVE, WRITE, GOTO, GOTO-IF, HALT, CALL and
/// RETURN in that order, and anything higher is refused.  The boolean is
/// whether the clock stops (HALT).  After every opcode but HALT the
/// execution pointer advances by one on top of whatever the opcode did.
pub open spec fn spec_execute_instruction(s: MachineState, gpio_in: u8) -> Result<
    (MachineState, bool),
    EmulationErrorEnum,
>
    recommends
        s.wf(),
{
    if s.execution_pointer >= s.program_size {
        Err(EmulationErrorEnum::ExecutionPointerExceededProgramSize)
    } else {
        let instruction = s.prog_mem[s.execution_pointer as int];
        let second_byte = ((instruction >> 8) & 255) as u8;
        let opcode = (instruction & 15) as u8;
        let alu_opcode = ((instruction >> 4) & 0x0F) as u8;
        let bus_write_addr = second_byte & 0x0F;
        let bus_read_addr = (second_byte >> 4) & 0x0F;
        if opcode == 0 {  // MOVE
            match spec_get_bus_value(s, bus_write_addr, alu_opcode, gpio_in) {
                Err(e) => Err(e),
                Ok((s1, v)) => match spec_send_bus_value(s1, bus_read_addr, v) {
                    Err(e) => Err(e),
                    Ok(s2) => Ok((s2.advance(), false)),
                },
            }
        } else if opcode == 1 {  // WRITE
            let value = ((instruction >> 4) & 0x00FF) as u8;
            match spec_send_bus_value(s, bus_read_addr, value) {
                Err(e) => Err(e),
                Ok(s2) => Ok((s2.advance(), false)),
            }
        } else if opcode == 2 {  // GOTO
            Ok((s.jump().advance(), false))
        } else if opcode == 3 {  // GOTO-IF
            if s.goto_decider_latch {
                Ok((s.jump().advance(), false))
            } else {
                Ok((s.advance(), false))
            }
        } else if opcode == 4 {  // HALT
            Ok((s, true))
        } else if opcode == 5 {  // CALL
            let new_top = ((s.call_stack_top + 1) % 256) as u8;
            let s1 = MachineState {
                call_stack_top: new_top,
                call_stack: s.call_stack.update(new_top as int, s.execution_pointer),
                ..s
            };
            Ok((s1.jump().advance(), false))
        } else if opcode == 6 {  // RETURN
            let s1 = MachineState {
                execution_pointer: s.call_stack[s.call_stack_top as int],
                call_stack_top: (((s.call_stack_top - 1 + 256) % 256) as u8),
                ..s
            };
            Ok((s1.advance(), false))
        } else {
            Err(EmulationErrorEnum::InvalidOpcode(opcode))
        }
    }
}

/// The outcome of running the machine for a bounded number of steps against
/// a sequence of GPIO answers.
pub enum RunOutcome {
    /// A HALT executed; the machine's state at that point.
    Halted(MachineState),
    /// An instruction failed first; the error and the state it failed in.
    Failed(EmulationErrorEnum, MachineState),
    /// The step bound ran out; the state reached.
    OutOfFuel(MachineState),
}

/// Iterated execution: one instruction per step, each step answered by the
/// next byte of `answers` (zero once they run out), until a HALT executes,
/// the first error surfaces, or the step bound runs out.  No instruction
/// executes after the first error.
pub open spec fn spec_run(s: MachineState, answers: Seq<u8>, fuel: nat) -> RunOutcome
    decreases fuel,
{
    if fuel == 0 {
        RunOutcome::OutOfFuel(s)
    } else {
        let g = if answers.len() > 0 {
            answers[0]
        } else {
            0u8
        };
        match spec_execute_instruction(s, g) {
            Err(e) => RunOutcome::Failed(e, s),
            Ok((s2, halt)) => {
                if halt {
                    RunOutcome::Halted(s2)
                } else {
                    spec_run(s2, answers.drop_first(), (fuel - 1) as nat)
                }
            },
        }
    }
}

/// Whether the machine reaches a HALT within `fuel` steps whatever bytes the
/// GPIO interface answers.
pub open spec fn spec_halts_within(s: MachineState, fuel: nat) -> bool {
    forall|answers: Seq<u8>| #[trigger] spec_run(s, answers, fuel) is Halted
}

/// The state of the entire computer.
pub struct Machine {
    pub prog_mem: Vec<u16>,
    pub stack_mem: Vec<u8>,
    pub general_mem: Vec<u8>,
    pub call_stack: Vec<u16>,
    pub call_stack_top: u8,
    pub stack_controller: StackController,
    pub alu: ALU,
    pub general_mem_controller: GeneralMemController,
    pub execution_pointer: u16,
    pub goto_latch_a: u8,
    pub goto_latch_b: u8,
    pub goto_decider_latch: bool,
    pub program_size: u16,
    pub clock_counter: u16,
}

impl View for Machine {
    type V = MachineState;

    open spec fn view(&self) -> MachineState {
        MachineState {
            prog_mem: self.prog_mem@,
            stack_mem: self.stack_mem@,
            general_mem: self.general_mem@,
            call_stack: self.call_stack@,
            call_stack_top: self.call_stack_top,
            stack_top: self.stack_controller.top_pointer,
            stack_offset: self.stack_controller.offset,
            alu_a: self.alu.latch_a,
            alu_b: self.alu.latch_b,
            alu_c: self.alu.latch_c,
            gpram_pointer: self.general_mem_controller.pointer,
            execution_pointer: self.execution_pointer,
            goto_latch_a: self.goto_latch_a,
            goto_latch_b: self.goto_latch_b,
            goto_decider_latch: self.goto_decider_latch,
            program_size: self.program_size,
            clock_counter: self.clock_counter,
        }
    }
}

/// A vector of `len` zero bytes.
fn zeroed_u8(len: usize) -> (r: Vec<u8>)
    ensures
        r@.len() == len,
        forall|i: int| 0 <= i < len ==> r@[i] == 0u8,
{
    let mut v: Vec<u8> = Vec::new();
    let mut i: usize = 0;
    while i < len
        invariant
            0 <= i <= len,
            v@.len() == i,
            forall|j: int| 0 <= j < i ==> v@[j] == 0u8,
        decreases len - i,
    {
        v.push(0);
        i += 1;
    }
    v
}

/// A vector of `len` zero words.
fn zeroed_u16(len: usize) -> (r: Vec<u16>)
    ensures
        r@.len() == len,
        forall|i: int| 0 <= i < len ==> r@[i] == 0u16,
{
    let mut v: Vec<u16> = Vec::new();
    let mut i: usize = 0;
    while i < len
        invariant
            0 <= i <= len,
            v@.len() == i,
            forall|j: int| 0 <= j < i ==> v@[j] == 0u16,
        decreases len - i,
    {
        v.push(0);
        i += 1;
    }
    v
}

impl Machine {
    /// Creates a new machine with the given program copied into program
    /// memory, everything else zeroed, and the program size remembered as
    /// the execution bound.
    pub fn new(prog: Vec<u16>) -> (r: Self)
        requires
            prog@.len() <= 0x10000,
        ensures
            r@.wf(),
            forall|i: int| 0 <= i < prog@.len() ==> r@.prog_mem[i] == prog@[i],
            forall|i: int| prog@.len() <= i < 0x10000 ==> r@.prog_mem[i] == 0,
            forall|i: int| 0 <= i < 0x10000 ==> r@.stack_mem[i] == 0,
            forall|i: int| 0 <= i < 0x10000 ==> r@.general_mem[i] == 0,
            forall|i: int| 0 <= i < 256 ==> r@.call_stack[i] == 0,
            r@.call_stack_top == 0,
            r@.stack_top == 0,
            r@.stack_offset == 0,
            r@.alu_a == 0 && r@.alu_b == 0 && r@.alu_c == 0,
            r@.gpram_pointer == 0,
            r@.execution_pointer == 0,
            r@.goto_latch_a == 0 && r@.goto_latch_b == 0,
            !r@.goto_decider_latch,
            r@.program_size as int == prog@.len() as int % 0x10000,
            r@.clock_counter == 0,
    {
        let mut prog_mem = zeroed_u16(65536);
        let mut i: usize = 0;
        let prog_len: usize = prog.len();
        while i < prog_len
            invariant
                prog_len == prog@.len() <= 0x10000,
                0 <= i <= prog_len,
                prog_mem@.len() == 0x10000,
                forall|j: int| 0 <= j < i ==> prog_mem@[j] == prog@[j],
                forall|j: int| i <= j < 0x10000 ==> prog_mem@[j] == 0,
            decreases prog_len - i,
        {
            prog_mem.set(i, prog[i]);
            i += 1;
        }
        let program_size: u16 = (prog_len % 0x10000) as u16;
        Self {
            prog_mem,
            stack_mem: zeroed_u8(65536),
            general_mem: zeroed_u8(65536),
            call_stack: zeroed_u16(256),
            call_stack_top: 0,
            stack_controller: StackController::new(),
            alu: ALU::new(),
            general_mem_controller: GeneralMemController::new(),
            execution_pointer: 0,
            goto_latch_a: 0,
            goto_latch_b: 0,
            goto_decider_latch: false,
            program_size,
            clock_counter: 0,
        }
    }

    /// Executes one instruction, as `spec_execute_instruction` says of the
    /// machine's state.  The existential stands for whatever byte the GPIO
    /// interface answered; an instruction that asks the GPIO nothing leaves
    /// it unconstrained.  `Ok(true)` means the clock stops (HALT); an error
    /// names the instruction's address and leaves the machine unchanged.
    #[verifier::rlimit(100)]
    #[verifier::spinoff_prover]
    pub fn execute_instruction<T: GpioInterface>(&mut self, gpio_interface: &mut T) -> (r: Result<
        bool,
        EmulationError,
    >)
        requires
            old(self)@.wf(),
        ensures
            final(self)@.wf(),
            match r {
                Ok(halt) => exists|g: u8|
                    spec_execute_instruction(old(self)@, g) == Ok::<(MachineState, bool),
                        EmulationErrorEnum>((final(self)@, halt)),
                Err(e) => final(self)@ == old(self)@ && spec_execute_instruction(old(self)@, 0)
                    == Err::<(MachineState, bool), EmulationErrorEnum>(e.enum_) && e.prog_addr
                    == old(self)@.execution_pointer,
            },
    {
        // Check that the execution pointer is within limits
        if self.execution_pointer >= self.program_size {
            return Err(
                self.err_enum_to_err(EmulationErrorEnum::ExecutionPointerExceededProgramSize),
            );
        }
        // Get the instruction
        let instruction: u16 = self.prog_mem[self.execution_pointer as usize];
        proof {
            assert((instruction >> 8) & 255u16 < 256 && (instruction & 15u16) < 16 && ((instruction
                >> 4) & 0x000Fu16) < 16 && ((instruction >> 4) & 0x00FFu16) < 256)
                by (bit_vector);
        }
        let second_byte: u8 = ((instruction >> 8) & 255u16) as u8;
        let opcode: u8 = (instruction & 15u16) as u8;
        let alu_opcode: u8 = ((instruction >> 4) & 0x000Fu16) as u8;
        // Bus read/write addresses; may not be used
        let bus_write_addr = second_byte & 0x0F;
        let bus_read_addr = (second_byte >> 4) & 0x0F;
        // Match the opcode
        match opcode {
            0 => {  // MOVE
                let res = self.get_bus_value(bus_write_addr, gpio_interface, alu_opcode);
                let bus_value: u8 = match res {
                    Ok(v) => v,
                    Err(e) => {
                        return Err(self.err_enum_to_err(e));
                    },
                };
                let res = self.send_bus_value(bus_read_addr, bus_value, gpio_interface);
                match res {
                    Ok(u) => u,
                    Err(e) => {
                        proof {
                            assert((second_byte >> 4) & 0x0Fu8 <= 15) by (bit_vector);
                            assert(false);
                        }
                        return Err(self.err_enum_to_err(e));
                    },
                };
                self.execution_pointer = self.execution_pointer.wrapping_add(1);
                proof {
                    assert(spec_execute_instruction(old(self)@, bus_value) == Ok::<
                        (MachineState, bool),
                        EmulationErrorEnum,
                    >((self@, false)));
                }
                Ok(false)
            },
            1 => {  // WRITE
                let read_addr = (second_byte >> 4) & 0x0F;
                let bus_value = ((instruction >> 4) & 0x00FF) as u8;
                let res = self.send_bus_value(read_addr, bus_value, gpio_interface);
                match res {
                    Ok(u) => u,
                    Err(e) => {
                        proof {
                            assert((second_byte >> 4) & 0x0Fu8 <= 15) by (bit_vector);
                            assert(false);
                        }
                        return Err(self.err_enum_to_err(e));
                    },
                };
                self.execution_pointer = self.execution_pointer.wrapping_add(1);
                proof {
                    assert(spec_execute_instruction(old(self)@, 0) == Ok::<(MachineState, bool),
                        EmulationErrorEnum>((self@, false)));
                }
                Ok(false)
            },
            2 => {  // GOTO
                self.goto();
                self.execution_pointer = self.execution_pointer.wrapping_add(1);
                proof {
                    assert(spec_execute_instruction(old(self)@, 0) == Ok::<(MachineState, bool),
                        EmulationErrorEnum>((self@, false)));
                }
                Ok(false)
            },
            3 => {  // GOTO-IF
                if self.goto_decider_latch {
                    self.goto();
                }
                self.execution_pointer = self.execution_pointer.wrapping_add(1);
                proof {
                    assert(spec_execute_instruction(old(self)@, 0) == Ok::<(MachineState, bool),
                        EmulationErrorEnum>((self@, false)));
                }
                Ok(false)
            },
            4 => {  // HALT
                proof {
                    assert(spec_execute_instruction(old(self)@, 0) == Ok::<(MachineState, bool),
                        EmulationErrorEnum>((self@, true)));
                }
                Ok(true)
            },
            5 => {  // CALL
                // Push the return address
                self.call_stack_top = self.call_stack_top.wrapping_add(1);
                self.call_stack.set(self.call_stack_top as usize, self.execution_pointer);
                self.goto();
                self.execution_pointer = self.execution_pointer.wrapping_add(1);
                proof {
                    assert(spec_execute_instruction(old(self)@, 0) == Ok::<(MachineState, bool),
                        EmulationErrorEnum>((self@, false)));
                }
                Ok(false)
            },
            6 => {  // RETURN
                self.execution_pointer = self.call_stack[self.call_stack_top as usize];
                self.call_stack_top = self.call_stack_top.wrapping_sub(1);
                self.execution_pointer = self.execution_pointer.wrapping_add(1);
                proof {
                    assert(spec_execute_instruction(old(self)@, 0) == Ok::<(MachineState, bool),
                        EmulationErrorEnum>((self@, false)));
                }
                Ok(false)
            },
            n => Err(EmulationError::new(EmulationErrorEnum::InvalidOpcode(n), self.execution_pointer)),
        }
    }

    /// Reads one value from the bus, as `spec_get_bus_value` says; the
    /// existential stands for whatever byte the GPIO interface answered.
    fn get_bus_value<T: GpioInterface>(
        &mut self,
        write_addr: u8,
        gpio_interface: &mut T,
        alu_opcode: u8,
    ) -> (r: Result<u8, EmulationErrorEnum>)
        requires
            old(self)@.wf(),
        ensures
            final(self)@.wf(),
            match r {
                Ok(v) => spec_get_bus_value(old(self)@, write_addr, alu_opcode, v) == Ok::<
                    (MachineState, u8),
                    EmulationErrorEnum,
                >((final(self)@, v)),
                Err(e) => final(self)@ == old(self)@ && spec_get_bus_value(
                    old(self)@,
                    write_addr,
                    alu_opcode,
                    0,
                ) == Err::<(MachineState, u8), EmulationErrorEnum>(e),
            },
    {
        match write_addr {
            0 => {  // STACK-POP
                Ok(self.stack_controller.pop(&self.stack_mem))
            },
            1 => {  // STACK-OFFSET-READ
                Ok(self.stack_controller.offset_read(&mut self.stack_mem))
            },
            2 => {  // ALU
                match self.alu.compute(alu_opcode) {
                    Ok(v) => Ok(v),
                    Err(e) => Err(e),
                }
            },
            3 => {
                // The control unit's own WRITE port: the real machine uses
                // this bus address for immediate writes, which the emulator
                // handles elsewhere
                Err(EmulationErrorEnum::AttemptedReadFromControlUnit)
            },
            4 => {  // GPRAM
                Ok(self.general_mem_controller.read(&self.general_mem, false))
            },
            5 => {  // GPRAM-INC-ADDR
                Ok(self.general_mem_controller.read(&self.general_mem, true))
            },
            6 => {  // GPRAM-ADDR-A
                let p: u16 = self.general_mem_controller.pointer;
                proof {
                    assert(p & 0x00FF < 256) by (bit_vector);
                }
                Ok((p & 0x00FF) as u8)
            },
            7 => {  // GPRAM-ADDR-B
                let p: u16 = self.general_mem_controller.pointer;
                proof {
                    assert((p >> 8) & 0x00FF < 256) by (bit_vector);
                }
                Ok(((p >> 8) & 0x00FF) as u8)
            },
            8 => {  // GPIO-READ-A
                Ok(gpio_interface.read_a())
            },
            9 => {  // CLK-COUNTER-A
                let p: u16 = self.clock_counter;
                proof {
                    assert(p & 0x00FF < 256) by (bit_vector);
                }
                Ok((p & 0x00FF) as u8)
            },
            10 => {  // CLK-COUNTER-B
                let p: u16 = self.clock_counter;
                proof {
                    assert((p >> 8) & 0x00FF < 256) by (bit_vector);
                }
                Ok(((p >> 8) & 0x00FF) as u8)
            },
            11 => {  // GPIO-READ-B
                Ok(gpio_interface.read_b())
            },
            n => Err(EmulationErrorEnum::InvalidBusWriteAddr(n)),
        }
    }

    /// Sends one value over the bus, as `spec_send_bus_value` says.
    fn send_bus_value<T: GpioInterface>(
        &mut self,
        read_addr: u8,
        bus_value: u8,
        gpio_interface: &mut T,
    ) -> (r: Result<(), EmulationErrorEnum>)
        requires
            old(self)@.wf(),
        ensures
            final(self)@.wf(),
            match r {
                Ok(u) => spec_send_bus_value(old(self)@, read_addr, bus_value) == Ok::<
                    MachineState,
                    EmulationErrorEnum,
                >(final(self)@),
                Err(e) => final(self)@ == old(self)@ && spec_send_bus_value(
                    old(self)@,
                    read_addr,
                    bus_value,
                ) == Err::<MachineState, EmulationErrorEnum>(e),
            },
    {
        match read_addr {
            0 => {},  // NONE
            1 => {  // STACK-PUSH
                self.stack_controller.push(bus_value, &mut self.stack_mem);
            },
            2 => {  // ALU-A
                self.alu.latch_a = bus_value;
            },
            3 => {  // ALU-B
                self.alu.latch_b = bus_value;
            },
            4 => {  // GOTO-A
                self.goto_latch_a = bus_value;
            },
            5 => {  // GOTO-B
                self.goto_latch_b = bus_value;
            },
            6 => {  // GOTO-DECIDER
                self.goto_decider_latch = (bus_value & 1u8) == 1
            },
            7 => {  // GPRAM
                self.general_mem_controller.write(bus_value, &mut self.general_mem, false);
            },
            8 => {  // GPRAM-INC-ADDR
                self.general_mem_controller.write(bus_value, &mut self.general_mem, true);
            },
            9 => {  // GPRAM-ADDR-A
                self.general_mem_controller.pointer = (self.general_mem_controller.pointer
                    & 0xFF00) | (bus_value as u16)
            },
            10 => {  // GPRAM-ADDR-B
                self.general_mem_controller.pointer = (self.general_mem_controller.pointer
                    & 0x00FF) | ((bus_value as u16) << 8)
            },
            11 => {  // GPIO-WRITE-A
                gpio_interface.write_a(bus_value);
            },
            12 => {  // STACK-OFFSET-WRITE
                self.stack_controller.offset_write(bus_value, &mut self.stack_mem);
            },
            13 => {  // SET-STACK-OFFSET
                self.stack_controller.offset = bus_value;
            },
            14 => {  // ALU-C-IN
                self.alu.latch_c = bus_value;
            },
            15 => {  // GPIO-WRITE-B
                gpio_interface.write_b(bus_value);
            },
            n => {
                return Err(EmulationErrorEnum::InvalidBusReadAddr(n));
            },
        }
        Ok(())
    }

    /// Loads the execution pointer from the two goto latches.
    fn goto(&mut self)
        ensures
            final(self)@ == old(self)@.jump(),
    {
        let next_pointer: u16 = self.goto_latch_a as u16 + ((self.goto_latch_b as u16) * 256);
        self.execution_pointer = next_pointer;
    }

    /// Attaches the current execution pointer to an error.
    fn err_enum_to_err(&self, enum_: EmulationErrorEnum) -> (r: EmulationError)
        ensures
            r.enum_ == enum_,
            r.prog_addr == self.execution_pointer,
    {
        EmulationError::new(enum_, self.execution_pointer)
    }

    /// Attaches the current execution pointer to the error of a result.
    fn err_enum_result_to_err_result<T>(&self, res: Result<T, EmulationErrorEnum>) -> (r: Result<
        T,
        EmulationError,
    >)
        ensures
            match r {
                Ok(..) => res is Ok,
                Err(e) => res matches Err(en) && e.enum_ == en && e.prog_addr
                    == self.execution_pointer,
            },
            r is Ok ==> r->Ok_0 == res->Ok_0,
    {
        match res {
            Ok(x) => Ok(x),
            Err(e) => Err(self.err_enum_to_err(e)),
        }
    }

    /// Runs instructions until a HALT stops the clock or an error surfaces,
    /// as `spec_run` says of some sequence of GPIO answers: on success a
    /// HALT executed and the machine stands where it did; on any other error
    /// the machine stands on the first instruction that failed, and the
    /// error names its address; `StepLimitExceeded` comes only when the
    /// machine really took the whole step bound without halting or failing.
    /// A machine that provably halts within the bound for every possible
    /// sequence of GPIO answers is owed success.
    pub fn run<T: GpioInterface>(&mut self, gpio_interface: &mut T) -> (r: Result<
        (),
        EmulationError,
    >)
        requires
            old(self)@.wf(),
        ensures
            final(self)@.wf(),
            exists|answers: Seq<u8>|
                #[trigger] spec_run(old(self)@, answers, 0xFFFF_FFFF_FFFF_FFFFu64 as nat) == (
                match r {
                    Ok(..) => RunOutcome::Halted(final(self)@),
                    Err(e) => {
                        if e.enum_ == EmulationErrorEnum::StepLimitExceeded {
                            RunOutcome::OutOfFuel(final(self)@)
                        } else {
                            RunOutcome::Failed(e.enum_, final(self)@)
                        }
                    },
                }),
            r matches Err(e) ==> e.prog_addr == final(self)@.execution_pointer,
            spec_halts_within(old(self)@, 0xFFFF_FFFF_FFFF_FFFFu64 as nat) ==> r is Ok,
    {
        let ghost fuel_total: nat = 0xFFFF_FFFF_FFFF_FFFFu64 as nat;
        let mut fuel: u64 = 0xFFFF_FFFF_FFFF_FFFF;
        let ghost mut answers: Seq<u8> = Seq::empty();
        proof {
            assert forall|rest: Seq<u8>|
                #[trigger] spec_run(old(self)@, answers + rest, fuel_total) == spec_run(
                    self@,
                    rest,
                    fuel as nat,
                ) by {
                assert(answers + rest =~= rest);
            }
        }
        while fuel > 0
            invariant
                self@.wf(),
                fuel_total == 0xFFFF_FFFF_FFFF_FFFFu64 as nat,
                forall|rest: Seq<u8>|
                    #[trigger] spec_run(old(self)@, answers + rest, fuel_total) == spec_run(
                        self@,
                        rest,
                        fuel as nat,
                    ),
            decreases fuel,
        {
            let ghost pre = self@;
            match self.execute_instruction(gpio_interface) {
                Ok(halt) => {
                    let ghost g = choose|g: u8|
                        spec_execute_instruction(pre, g) == Ok::<(MachineState, bool),
                            EmulationErrorEnum>((self@, halt));
                    if halt {
                        proof {
                            let w = answers + seq![g];
                            assert(spec_run(old(self)@, w, fuel_total) == spec_run(
                                pre,
                                seq![g],
                                fuel as nat,
                            ));
                            assert(seq![g].len() == 1 && seq![g][0] == g);
                            assert(spec_run(pre, seq![g], fuel as nat)
                                == RunOutcome::Halted(self@));
                        }
                        return Ok(());
                    }
                    proof {
                        let prev_answers = answers;
                        answers = answers.push(g);
                        assert forall|rest: Seq<u8>|
                            #[trigger] spec_run(old(self)@, answers + rest, fuel_total)
                                == spec_run(self@, rest, (fuel - 1) as nat) by {
                            let r1 = seq![g] + rest;
                            assert(prev_answers + r1 =~= answers + rest);
                            assert(spec_run(old(self)@, prev_answers + r1, fuel_total)
                                == spec_run(pre, r1, fuel as nat));
                            assert(r1.len() >= 1 && r1[0] == g);
                            assert(r1.drop_first() =~= rest);
                            assert(spec_run(pre, r1, fuel as nat) == spec_run(
                                self@,
                                rest,
                                (fuel - 1) as nat,
                            ));
                        }
                    }
                },
                Err(e) => {
                    proof {
                        let w = answers + seq![0u8];
                        assert(spec_run(old(self)@, w, fuel_total) == spec_run(
                            pre,
                            seq![0u8],
                            fuel as nat,
                        ));
                        assert(seq![0u8].len() == 1 && seq![0u8][0] == 0u8);
                        assert(spec_run(pre, seq![0u8], fuel as nat) == RunOutcome::Failed(
                            e.enum_,
                            self@,
                        ));
                        // A machine that halts on every answer sequence
                        // cannot have failed here
                        if spec_halts_within(old(self)@, fuel_total) {
                            assert(spec_run(old(self)@, w, fuel_total) is Halted);
                        }
                    }
                    return Err(e);
                },
            }
            fuel -= 1;
        }
        proof {
            assert(answers + Seq::<u8>::empty() =~= answers);
            assert(spec_run(old(self)@, answers, fuel_total) == spec_run(
                self@,
                Seq::<u8>::empty(),
                0,
            ));
            assert(spec_run(self@, Seq::<u8>::empty(), 0) == RunOutcome::OutOfFuel(self@));
            // A machine that halts on every answer sequence cannot have run
            // the whole bound
            if spec_halts_within(old(self)@, fuel_total) {
                assert(spec_run(old(self)@, answers, fuel_total) is Halted);
            }
        }
        Err(EmulationError::new(EmulationErrorEnum::StepLimitExceeded, self.execution_pointer))
    }
}

} // verus!
