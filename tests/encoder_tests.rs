use seil::encoder::{
    disassembly, immediate6_to_binary, immediate9_to_binary, instruction_to_binary,
    opcode_to_binary, register_to_binary, EncodeErrorKind,
};
use seil::lexer::Processor;
use seil::parser::{Instruction, Parser};

fn inst(opcode: &str, a: i32, b: Option<i32>, c: Option<i32>, imm: i32) -> Instruction {
    Instruction::new(opcode.to_string(), a, b, c, imm, 1, 1, Processor::Pipelined)
}

#[test]
fn register_fields_round_trip() {
    for reg in 0..8 {
        let bits = register_to_binary(reg).unwrap();
        assert!(bits < 8);
        assert_eq!((bits & 0b111) as i32, reg);
    }
    assert_eq!(register_to_binary(8), Err(EncodeErrorKind::RegisterOutOfRange(8)));
    assert_eq!(register_to_binary(-1), Err(EncodeErrorKind::RegisterOutOfRange(-1)));
}

#[test]
fn three_register_layout() {
    let word = instruction_to_binary(inst("NDU", 7, Some(0), Some(5), 0)).unwrap() as u16;
    assert_eq!(word >> 9, 0b0010);
    assert_eq!((word >> 6) & 7, 7);
    assert_eq!((word >> 3) & 7, 0);
    assert_eq!(word & 7, 5);
    let word = instruction_to_binary(inst("ACW", 1, Some(2), Some(3), 0)).unwrap() as u16;
    assert_eq!(word >> 9, 0b0001);
}

#[test]
fn two_register_immediate_extracts() {
    for imm in [0, 1, 37, 63] {
        let word = instruction_to_binary(inst("ADI", 1, Some(2), None, imm)).unwrap() as u16;
        assert_eq!((word & 0x3f) as i32, imm);
        assert_eq!(word >> 12, 0);
        assert_eq!((word >> 9) & 7, 1);
        assert_eq!((word >> 6) & 7, 2);
    }
    assert_eq!(
        instruction_to_binary(inst("ADI", 1, Some(2), None, 64)).unwrap_err().kind,
        EncodeErrorKind::ImmediateOutOfRange { value: 64, max: 63 }
    );
    assert_eq!(
        instruction_to_binary(inst("LW", 1, Some(2), None, -1)).unwrap_err().kind,
        EncodeErrorKind::ImmediateOutOfRange { value: -1, max: 63 }
    );
}

#[test]
fn one_register_immediate_extracts() {
    for imm in [0, 255, 511] {
        let word = instruction_to_binary(inst("LLI", 3, None, None, imm)).unwrap() as u16;
        assert_eq!((word & 0x1ff) as i32, imm);
        assert_eq!(word >> 12, 0b0011);
        assert_eq!((word >> 9) & 7, 3);
    }
    assert_eq!(
        instruction_to_binary(inst("JAL", 3, None, None, 512)).unwrap_err().kind,
        EncodeErrorKind::ImmediateOutOfRange { value: 512, max: 511 }
    );
}

#[test]
fn high_opcodes_give_negative_words() {
    let word = instruction_to_binary(inst("BEQ", 1, Some(2), None, 5)).unwrap();
    assert_eq!(word, (0b1000_001_010_000101u16) as i16);
    assert_eq!(word, -32123);
    let word = instruction_to_binary(inst("JRI", 7, None, None, 0)).unwrap();
    assert_eq!(word as u16, 0b1111_111_000000000);
}

#[test]
fn encoding_errors_name_the_instruction() {
    let e = instruction_to_binary(inst("RET", 1, None, None, 0)).unwrap_err();
    assert_eq!(e.kind, EncodeErrorKind::InvalidOpcode);
    assert_eq!(e.opcode, "RET");
    assert_eq!(
        instruction_to_binary(inst("SW", 1, None, None, 0)).unwrap_err().kind,
        EncodeErrorKind::MissingRegisterB
    );
    assert_eq!(
        instruction_to_binary(inst("ADC", 1, Some(2), None, 0)).unwrap_err().kind,
        EncodeErrorKind::MissingRegisterC
    );
    assert_eq!(
        instruction_to_binary(inst("ADC", 8, Some(2), Some(3), 0)).unwrap_err().kind,
        EncodeErrorKind::RegisterOutOfRange(8)
    );
    assert_eq!(
        instruction_to_binary(inst("ADC", 1, Some(2), Some(9), 0)).unwrap_err().kind,
        EncodeErrorKind::RegisterOutOfRange(9)
    );
}

#[test]
fn field_helpers() {
    assert_eq!(opcode_to_binary("BEQ"), Some(0b1000));
    assert_eq!(opcode_to_binary("ADI"), Some(0));
    assert_eq!(opcode_to_binary("JRI"), Some(0b1111));
    assert_eq!(opcode_to_binary("ADD"), None);
    assert_eq!(immediate6_to_binary(63), Ok(63));
    assert_eq!(
        immediate6_to_binary(64),
        Err(EncodeErrorKind::ImmediateOutOfRange { value: 64, max: 63 })
    );
    assert_eq!(immediate9_to_binary(511), Ok(511));
    assert_eq!(
        immediate9_to_binary(-3),
        Err(EncodeErrorKind::ImmediateOutOfRange { value: -3, max: 511 })
    );
}

#[test]
fn listing_shows_each_line_once_and_isolates_failures() {
    let mut parser =
        Parser::new("LLI R1 , 600 LLI R2 , 1\nADA R1 , R2 , R3\n\nADI R1 , R2 , 5");
    let parsed = parser.parse().unwrap();
    let listing = disassembly(&parsed.instructions);
    assert_eq!(listing.len(), 3);
    assert_eq!(listing[0].0, 0);
    assert_eq!(
        listing[0].1.as_ref().unwrap_err().kind,
        EncodeErrorKind::ImmediateOutOfRange { value: 600, max: 511 }
    );
    assert_eq!(listing[1].0, 2);
    assert_eq!(*listing[1].1.as_ref().unwrap(), 0b0001_001_010_011);
    assert_eq!(listing[2].0, 3);
    assert_eq!(*listing[2].1.as_ref().unwrap(), 0b0000_001_010_000101);
}
