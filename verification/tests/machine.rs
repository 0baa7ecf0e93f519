//! Tests of the emulator's components: the ALU, the stack controller's
//! offset addressing, the execution bound, and error reporting.
use stack_machine::emulator::{ALU, EmulationErrorEnum, GpioInterface, GpioInterfaceDoesNothing,
    Machine, StackController};

#[test]
fn compute_offset_addresses_relative_to_top() {
    // Does exactly what the hardware does
    assert_eq!(StackController::compute_offset(0x0000, 0xFF), 0x0000);
    assert_eq!(StackController::compute_offset(0x0009, 0xFD), 0x0007);
}

#[test]
fn offset_read_and_write_agree() {
    // Offset addressing reaches the same cell in both directions
    let controller = StackController { top_pointer: 0x0009, offset: 0xFD };
    let mut mem: Vec<u8> = vec![0; 65536];
    controller.offset_write(0x55, &mut mem);
    assert_eq!(mem[0x0007], 0x55);
    let read_back = controller.offset_read(&mut mem);
    assert_eq!(read_back, 0x55);
}

#[test]
fn alu_operations() {
    let alu = ALU { latch_a: 0xF0, latch_b: 0x2F, latch_c: 0 };
    assert_eq!(alu.compute(0), Ok(0x1F)); // wrapping add
    assert_eq!(alu.compute(1), Ok(1)); // carry out
    assert_eq!(alu.compute(2), Ok(0x0F)); // not a
    assert_eq!(alu.compute(3), Ok(0xFF)); // or
    assert_eq!(alu.compute(4), Ok(0x20)); // and
    assert_eq!(alu.compute(5), Ok(!(0xF0 ^ 0x2F))); // xnor
    assert_eq!(alu.compute(6), Ok(0xF0u8 << 7)); // shift by b & 7
    assert_eq!(alu.compute(7), Ok(0)); // eq
    assert_eq!(alu.compute(8), Ok(0xF0)); // pass a
    assert_eq!(alu.compute(9), Ok(0x2F)); // pass b
    assert_eq!(alu.compute(12), Err(EmulationErrorEnum::InvalidAluOpcode(12)));
}

#[test]
fn execution_pointer_bound_is_enforced() {
    // An empty program: the pointer is already at the program size
    let mut machine = Machine::new(vec![]);
    let err = machine.run(&mut GpioInterfaceDoesNothing).unwrap_err();
    assert_eq!(
        err.enum_,
        EmulationErrorEnum::ExecutionPointerExceededProgramSize
    );
    // A program that runs off its own end
    let mut machine = Machine::new(vec![0x1011]);
    let err = machine.run(&mut GpioInterfaceDoesNothing).unwrap_err();
    assert_eq!(
        err.enum_,
        EmulationErrorEnum::ExecutionPointerExceededProgramSize
    );
    assert_eq!(err.prog_addr, 1);
}

#[test]
fn invalid_opcode_is_reported() {
    // Opcode 9 is unassigned
    let mut machine = Machine::new(vec![0x0009]);
    let err = machine.run(&mut GpioInterfaceDoesNothing).unwrap_err();
    assert_eq!(err.enum_, EmulationErrorEnum::InvalidOpcode(9));
    assert_eq!(
        err.to_string(),
        "invalid opcode with the program pointer at 0"
    );
}

#[test]
fn control_unit_read_is_refused() {
    // MOVE with bus source 3 reads from the control unit's own write port
    let mut machine = Machine::new(vec![0x0300]);
    let err = machine.run(&mut GpioInterfaceDoesNothing).unwrap_err();
    assert_eq!(err.enum_, EmulationErrorEnum::AttemptedReadFromControlUnit);
}

/// A GPIO interface that records what the machine wrote and answers reads
/// with a fixed byte.
struct RecordingGpio {
    written_a: Vec<u8>,
    answer: u8,
}

impl GpioInterface for RecordingGpio {
    fn write_a(&mut self, in_: u8) {
        self.written_a.push(in_);
    }

    fn read_a(&mut self) -> u8 {
        self.answer
    }
}

#[test]
fn gpio_round_trip() {
    // MOVE from GPIO-READ-A (source 8, low nibble) to GPIO-WRITE-A
    // (destination 11, high nibble), then halt
    let mut machine = Machine::new(vec![0xB800, 0x0004]);
    let mut gpio = RecordingGpio { written_a: Vec::new(), answer: 0x7E };
    machine.run(&mut gpio).unwrap();
    assert_eq!(gpio.written_a, vec![0x7E]);
}
