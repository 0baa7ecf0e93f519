//! End-to-end tests of the compile pipeline and the emulator, against the
//! standard assembly vocabulary.
use stack_machine::assembly_encode::{AssemblerConfig, AssemblyWord};
use stack_machine::compiler::{compiler_pipeline, compiler_pipeline_formated_errors,
    CompilerErrorEnum};
use stack_machine::emulator::{GpioInterfaceDoesNothing, Machine};
use stack_machine::program_skeleton::ProgramSkeletonBuildError;

fn word(name: &str, id: u8) -> AssemblyWord<4> {
    AssemblyWord { id_: id, name: name.to_owned() }
}

/// The vocabulary the hardware fixes: opcode, ALU-opcode, to-bus and
/// from-bus tables.
fn standard_config() -> AssemblerConfig {
    AssemblerConfig {
        opcodes: vec![
            word("move", 0),
            word("write", 1),
            word("goto", 2),
            word("goto-if", 3),
            word("halt", 4),
            word("call", 5),
            word("return", 6),
        ],
        alu_opcodes: vec![
            word("add", 0),
            word("add-c", 1),
            word("not", 2),
            word("or", 3),
            word("and", 4),
            word("xnor", 5),
            word("shift", 6),
            word("eq", 7),
            word("a", 8),
            word("b", 9),
        ],
        to_bus: vec![
            word("stack-pop", 0),
            word("offset-read", 1),
            word("alu", 2),
            word("gpram", 4),
            word("gpram-inc-addr", 5),
            word("gpram-addr-a", 6),
            word("gpram-addr-b", 7),
            word("gpio-read-a", 8),
            word("clk-counter-a", 9),
            word("clk-counter-b", 10),
            word("gpio-read-b", 11),
        ],
        from_bus: vec![
            word("none", 0),
            word("stack-push", 1),
            word("alu-a", 2),
            word("alu-b", 3),
            word("goto-a", 4),
            word("goto-b", 5),
            word("goto-decider", 6),
            word("gpram", 7),
            word("gpram-inc-addr", 8),
            word("gpram-addr-a", 9),
            word("gpram-addr-b", 10),
            word("gpio-write-a", 11),
            word("offset-write", 12),
            word("set-stack-offset", 13),
            word("alu-c-in", 14),
            word("gpio-write-b", 15),
        ],
    }
}

#[test]
fn macro_expansion() {
    // This program doesn't make sense; it's just for testing macros
    let assembly_source_test =
        "@anchor(start);write 0x42 stack-push;@goto(start);@goto_if(start);@call(start);";
    let assembly_source_control = "
		write 0x42 stack-push;
		write 0xFF goto-a;write 0xFF goto-b;goto;
		write 0xFF goto-a;write 0xFF goto-b;goto-if;
		write 0xFF goto-a;write 0xFF goto-b;call;
	";
    let assembler_config = standard_config();
    // Compile both programs
    let program_test: Vec<u16> =
        match compiler_pipeline_formated_errors(assembly_source_test, &assembler_config) {
            Ok(program) => program,
            Err(s) => panic!("{}", s),
        };
    let program_control: Vec<u16> =
        match compiler_pipeline_formated_errors(assembly_source_control, &assembler_config) {
            Ok(program) => program,
            Err(s) => panic!("{}", s),
        };
    // They should produce the exact same machine code
    assert_eq!(program_test, program_control);
}

#[test]
fn math() {
    // Assemble the program
    let assembly_source = "write 0x01 stack-push;
write 0x02 stack-push;
move stack-pop alu-a;
move stack-pop alu-b;
move add alu stack-push;
halt;";
    let assembler_config = standard_config();
    let program: Vec<u16> =
        match compiler_pipeline_formated_errors(assembly_source, &assembler_config) {
            Ok(program) => program,
            Err(s) => panic!("{}", s),
        };
    // Check that the assembled program is correct
    let binary_program_check: Vec<u16> = vec![
        0x1011, // write 1 stack
        0x1021, // write 2 stack
        0x2000, // move to ALU
        0x3000, // move to ALU
        0x1200, // add
        0x0004, // halt
    ];
    assert_eq!(program, binary_program_check);
    // Run
    let mut machine = Machine::new(program);
    machine.run(&mut GpioInterfaceDoesNothing).unwrap();
    // All that work to add 1 + 2: the number at top-of-stack should be 3
    assert_eq!(machine.stack_mem[1], 0x03);
}

#[test]
fn fibonacci() {
    let assembly_source = "WRITE 0x00 GPRAM-ADDR-A;
WRITE 0x00 GPRAM-ADDR-B;
WRITE 0xFF SET-STACK-OFFSET;
WRITE 0x01 STACK-PUSH;
WRITE 0x01 STACK-PUSH;
MOVE OFFSET-READ GPRAM-INC-ADDR;
MOVE OFFSET-READ GPRAM-INC-ADDR;
WRITE 0x00 GOTO-B;
WRITE 0x14 GOTO-A;
MOVE GPRAM-ADDR-A ALU-A;
WRITE 0x0B ALU-B;
MOVE EQ ALU GOTO-DECIDER;
GOTO-IF;
MOVE STACK-POP ALU-A;
MOVE STACK-POP ALU-B;
MOVE A ALU STACK-PUSH;
MOVE ADD ALU GPRAM-INC-ADDR;
MOVE ADD ALU STACK-PUSH;
WRITE 0x06 GOTO-A;
WRITE 0x00 GOTO-B;
GOTO;
HALT;";
    let assembler_config = standard_config();
    let program: Vec<u16> =
        match compiler_pipeline_formated_errors(assembly_source, &assembler_config) {
            Ok(program) => program,
            Err(s) => panic!("{}", s),
        };
    let binary_program_check: Vec<u16> = vec![
        // Set the GPRAM pointer
        0x9001,
        0xA001,
        // Set the stack offset so offset reads reach the top of the stack
        0xDFF1,
        // Starting numbers
        0x1011, // write 1 stack
        0x1011, // write 1 stack
        0x8100, // move to GPRAM
        0x8100, // move to GPRAM
        // While-loop decision
        0x5001, // end pointer part B
        0x4141, // end pointer: 0x14
        0x2600, // MOVE GPRAM-ADDR-A ALU-A
        0x30B1, // WRITE 0x0B ALU-B
        0x6270, // MOVE EQ ALU GOTO-DECIDER
        0x0003, // GOTO-IF
        // Math
        0x2000,
        0x3000,
        0x1280, // MOVE A ALU STACK-PUSH
        0x8200,
        0x1200,
        // Goto the beginning of the loop
        0x4061, // GOTO A, beginning of loop pointer: 6
        0x5001, // GOTO B
        0x0002, // GOTO
        // End
        0x0004,
    ];
    assert_eq!(program, binary_program_check);
    // Run
    let mut machine = Machine::new(program);
    machine.run(&mut GpioInterfaceDoesNothing).unwrap();
    // Check for the Fibonacci sequence in GPRAM
    assert_eq!(machine.general_mem[0..10], [1, 1, 2, 3, 5, 8, 13, 21, 34, 55]);
}

#[test]
fn compile_is_deterministic() {
    // Compiling the same source twice yields byte-identical output
    let source = "@anchor(start);write 0x42 stack-push;@goto(start);halt;";
    let config = standard_config();
    let first = compiler_pipeline(source, &config).unwrap();
    let second = compiler_pipeline(source, &config).unwrap();
    assert_eq!(first, second);
}

#[test]
fn bit_exact_encoding() {
    let config = standard_config();
    assert_eq!(
        compiler_pipeline("write 0x01 stack-push;", &config).unwrap(),
        vec![0x1011]
    );
    assert_eq!(
        compiler_pipeline("move stack-pop alu-a;", &config).unwrap(),
        vec![0x2000]
    );
}

#[test]
fn anchor_addresses_count_preceding_instructions() {
    // The anchor sits after two code-producing instructions, so the loaded
    // jump target is its address 2, pre-decremented to 1
    let source = "write 0x01 stack-push;write 0x02 stack-push;@anchor(loop);@goto(loop);halt;";
    let config = standard_config();
    let program = compiler_pipeline(source, &config).unwrap();
    assert_eq!(
        program,
        vec![
            0x1011, // write 0x01 stack-push
            0x1021, // write 0x02 stack-push
            0x4011, // write 0x01 goto-a (anchor address 2, minus 1)
            0x5001, // write 0x00 goto-b
            0x0002, // goto
            0x0004, // halt
        ]
    );
}

#[test]
fn duplicate_anchor_is_rejected() {
    let source = "@anchor(start);write 0x01 stack-push;@anchor(start);";
    let config = standard_config();
    let errors = compiler_pipeline(source, &config).unwrap_err();
    assert_eq!(errors.len(), 1);
    assert!(matches!(
        errors[0].enum_,
        CompilerErrorEnum::ProgramSkeleton(ProgramSkeletonBuildError::AnchorRedefinition(ref name))
            if name == "start"
    ));
}

#[test]
fn undefined_anchor_is_rejected() {
    let source = "@goto(nowhere);";
    let config = standard_config();
    let errors = compiler_pipeline(source, &config).unwrap_err();
    assert_eq!(errors.len(), 1);
    assert!(matches!(
        errors[0].enum_,
        CompilerErrorEnum::ProgramSkeleton(ProgramSkeletonBuildError::MacroInvalidAnchor(ref name))
            if name == "nowhere"
    ));
}

#[test]
fn unknown_mnemonic_is_rejected_with_line() {
    let source = "write 0x01 stack-push;\nfrobnicate;";
    let config = standard_config();
    let errors = compiler_pipeline(source, &config).unwrap_err();
    assert_eq!(errors.len(), 1);
    assert!(matches!(errors[0].enum_, CompilerErrorEnum::Assembly(..)));
    let (line_n, ref text) = *errors[0].location_opt.as_ref().unwrap();
    assert_eq!(line_n, 2);
    assert_eq!(text, "frobnicate;");
}

#[test]
fn wrong_literal_width_is_rejected() {
    // A write takes an 8-bit literal: two hex digits, no more, no fewer
    let source = "write 0x0102 stack-push;";
    let config = standard_config();
    let errors = compiler_pipeline(source, &config).unwrap_err();
    assert_eq!(errors.len(), 1);
    assert!(matches!(errors[0].enum_, CompilerErrorEnum::Assembly(..)));
}

#[test]
fn oversized_write_string_is_rejected() {
    let source = format!("@write_string(\"{}\");", "x".repeat(70000));
    let config = standard_config();
    let errors = compiler_pipeline(&source, &config).unwrap_err();
    assert!(matches!(
        errors[0].enum_,
        CompilerErrorEnum::ProgramSkeleton(
            ProgramSkeletonBuildError::MacroWriteStringArgumentTooLong(70000)
        )
    ));
}

#[test]
fn oversized_program_is_rejected_with_total() {
    // Three long written strings overflow the 65536-word address space even
    // though each alone fits; the error carries the total footprint of the
    // whole program, 3 * (60000 + 2)
    let source = format!(
        "@write_string(\"{0}\");@write_string(\"{0}\");@write_string(\"{0}\");",
        "x".repeat(60000)
    );
    let config = standard_config();
    let errors = compiler_pipeline(&source, &config).unwrap_err();
    assert!(matches!(
        errors[0].enum_,
        CompilerErrorEnum::ProgramSkeleton(ProgramSkeletonBuildError::ProgramTooLarge(180006))
    ));
}

#[test]
fn write_string_writes_memory_and_pushes_size() {
    let source = "@write_string(\"Hi\");halt;";
    let config = standard_config();
    let program = compiler_pipeline(source, &config).unwrap();
    assert_eq!(
        program,
        vec![
            0x8481, // write 'H' (0x48) to gpram, auto-increment
            0x8691, // write 'i' (0x69) to gpram, auto-increment
            0x1021, // push size low byte (2)
            0x1001, // push size high byte (0)
            0x0004, // halt
        ]
    );
    let mut machine = Machine::new(program);
    machine.run(&mut GpioInterfaceDoesNothing).unwrap();
    assert_eq!(machine.general_mem[0..2], [b'H', b'i']);
    assert_eq!(machine.stack_mem[1..3], [2, 0]);
}

#[test]
fn push_anchor_address_pushes_decremented_address() {
    let source = "@anchor(s);write 0x01 stack-push;@push_anchor_address(s);halt;";
    let config = standard_config();
    let program = compiler_pipeline(source, &config).unwrap();
    assert_eq!(
        program,
        vec![
            0x1011, // write 0x01 stack-push
            0x1FF1, // push low byte of 0 - 1 (0xFF)
            0x1FF1, // push high byte of 0 - 1 (0xFF)
            0x0004, // halt
        ]
    );
}

#[test]
fn call_and_return_round_trip() {
    // Call a routine that pushes a marker, then return and halt
    let source = "@goto(main);@anchor(routine);write 0x2A stack-push;return;@anchor(main);@call(routine);halt;";
    let config = standard_config();
    let program = compiler_pipeline(source, &config).unwrap();
    let mut machine = Machine::new(program);
    machine.run(&mut GpioInterfaceDoesNothing).unwrap();
    assert_eq!(machine.stack_mem[1], 0x2A);
}
