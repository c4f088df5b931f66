use seil::diagnostics::count_char_columns;
use seil::encoder::instruction_to_binary;
use seil::lexer::{Processor, Token};
use seil::parser::{Instruction, Parser, ParserError};

fn parse_error(source: &str) -> ParserError {
    let mut parser = Parser::new(source);
    match parser.parse() {
        Ok(_) => panic!("expected a parse error"),
        Err(e) => e,
    }
}

#[test]
fn three_register_instruction_parses_and_encodes() {
    let mut parser = Parser::new("ADA R1 , R2 , R3");
    let parsed = parser.parse().unwrap();
    assert_eq!(parsed.instructions.len(), 1);
    let instruction = &parsed.instructions[0];
    assert_eq!(instruction.opcode, "ADA");
    assert_eq!(instruction.reg_a, 1);
    assert_eq!(instruction.reg_b, Some(2));
    assert_eq!(instruction.reg_c, Some(3));
    assert_eq!(instruction.imm, 0);
    assert_eq!(instruction.line_number, 1);
    assert_eq!(instruction.column_number, 1);
    assert_eq!(instruction.processor, Processor::Pipelined);
    let word = instruction_to_binary(instruction.clone()).unwrap();
    assert_eq!(word, 0b0001_001_010_011);
    assert_eq!(format!("{:016b}", word), "0000001001010011");
}

#[test]
fn equal_second_and_third_registers_are_rejected() {
    let e = parse_error("NDU R1 , R2 , R2");
    assert_eq!(e.message, "Register B and Register C must be different");
    assert_eq!(e.line_number, 1);
    assert_eq!(e.column_number, 6);
}

#[test]
fn out_of_range_immediate_parses_but_does_not_encode() {
    let mut parser = Parser::new("ADI R1 , R2 , 999");
    let parsed = parser.parse().unwrap();
    assert_eq!(parsed.instructions.len(), 1);
    assert_eq!(parsed.instructions[0].imm, 999);
    let e = instruction_to_binary(parsed.instructions[0].clone()).unwrap_err();
    assert_eq!(
        e.kind,
        seil::encoder::EncodeErrorKind::ImmediateOutOfRange { value: 999, max: 63 }
    );
    assert_eq!(e.opcode, "ADI");
    assert_eq!(e.line_number, 1);
}

#[test]
fn label_table_and_source_order() {
    let mut parser = Parser::new("MAIN: ADI R1 , R2 , 3\nADC R1 , R2 , R3");
    assert_eq!(parser.labels, vec!["MAIN:".to_string()]);
    let parsed = parser.parse().unwrap();
    assert_eq!(parsed.label_line_numbers, vec![1]);
    assert_eq!(parsed.instructions.len(), 2);
    assert_eq!(parsed.instructions[0].opcode, "ADI");
    assert_eq!(parsed.instructions[0].line_number, 1);
    assert_eq!(parsed.instructions[0].column_number, 2);
    assert_eq!(parsed.instructions[0].imm, 3);
    assert_eq!(parsed.instructions[0].reg_c, None);
    assert_eq!(parsed.instructions[1].opcode, "ADC");
    assert_eq!(parsed.instructions[1].line_number, 2);
    assert_eq!(parsed.instructions[1].reg_c, Some(3));
}

#[test]
fn misplaced_label_is_reported_at_its_position() {
    let e = parse_error("R1 MAIN:");
    assert_eq!(e.message, "Label must be at the beginning of the line");
    assert_eq!(e.line_number, 1);
    assert_eq!(e.column_number, 2);
    let e = parse_error("LW R1 , R2 , 4\nSW R1 , R2 , 5 NEXT:");
    assert_eq!(e.message, "Label must be at the beginning of the line");
    assert_eq!(e.line_number, 2);
    assert_eq!(e.column_number, 7);
}

#[test]
fn missing_operands_are_reported_at_their_columns() {
    let e = parse_error("ADA , R2 , R3");
    assert_eq!((e.message.as_str(), e.column_number), ("Expected register", 2));
    let e = parse_error("ADA R1 R2 , R3");
    assert_eq!((e.message.as_str(), e.column_number), ("Expected comma", 3));
    let e = parse_error("ADA R1 , 4 , R3");
    assert_eq!((e.message.as_str(), e.column_number), ("Expected register", 4));
    let e = parse_error("ADA R1 , R2 R3");
    assert_eq!((e.message.as_str(), e.column_number), ("Expected comma", 5));
    let e = parse_error("ADA R1 , R2 ,");
    assert_eq!((e.message.as_str(), e.column_number), ("Expected register", 6));
    let e = parse_error("BEQ R1 , R2 , R3");
    assert_eq!((e.message.as_str(), e.column_number), ("Expected immediate", 6));
    let e = parse_error("BEQ R1 , R2 5");
    assert_eq!((e.message.as_str(), e.column_number), ("Expected comma", 5));
    let e = parse_error("JAL R1 , R2");
    assert_eq!((e.message.as_str(), e.column_number), ("Expected immediate", 4));
    let e = parse_error("JAL 5");
    assert_eq!((e.message.as_str(), e.column_number), ("Expected register", 2));
    let e = parse_error("\n\nLLI R3 5");
    assert_eq!((e.message.as_str(), e.line_number, e.column_number), ("Expected comma", 3, 3));
}

#[test]
fn opcode_without_encoding_is_invalid() {
    let e = parse_error("RET");
    assert_eq!(e.message, "Invalid opcode: RET");
    assert_eq!(e.column_number, 1);
    let e = parse_error("lw R1 , R2 , 1");
    assert_eq!(e.message, "Invalid opcode: lw");
}

#[test]
fn lexical_errors_stop_the_parse() {
    let e = parse_error("LLI R1 , 5 $");
    assert_eq!(e.message, "Invalid Token: Unknown token: $");
    assert_eq!(e.line_number, 1);
    assert_eq!(e.column_number, 5);
    let e = parse_error("ADD R1 , R2 , R3");
    assert_eq!(e.message, "Invalid Token: ADD");
}

#[test]
fn failed_parse_commits_nothing() {
    let mut parser = Parser::new("START: LLI R1 , 5\nLLI R2 , x");
    assert!(parser.parse().is_err());
    assert_eq!(parser.instructions.len(), 0);
    assert_eq!(parser.label_line_numbers.len(), 0);
    assert_eq!(parser.labels, vec!["START:".to_string()]);
}

#[test]
fn comments_and_blank_lines_are_inert() {
    let mut parser = Parser::new("; header\n\n  LM R4 , #12 // load\nJRI R0 , 0x3\n");
    let parsed = parser.parse().unwrap();
    assert_eq!(parsed.instructions.len(), 2);
    assert_eq!(parsed.instructions[0].opcode, "LM");
    assert_eq!(parsed.instructions[0].reg_a, 4);
    assert_eq!(parsed.instructions[0].reg_b, None);
    assert_eq!(parsed.instructions[0].imm, 12);
    assert_eq!(parsed.instructions[0].line_number, 3);
    assert_eq!(parsed.instructions[1].imm, 3);
    assert_eq!(parsed.instructions[1].line_number, 4);
}

#[test]
fn two_instructions_on_one_line() {
    let mut parser = Parser::new("SW R1 , R2 , 1 SW R3 , R4 , 2");
    let parsed = parser.parse().unwrap();
    assert_eq!(parsed.instructions.len(), 2);
    assert_eq!(parsed.instructions[1].column_number, 7);
    assert_eq!(parsed.instructions[1].reg_b, Some(4));
}

#[test]
fn parser_keeps_source_and_stream() {
    let parser = Parser::new("LLI R1 , 5\nJAL R7 , 2");
    let source: String = parser.lexer.input.iter().collect();
    assert_eq!(source, "LLI R1 , 5\nJAL R7 , 2");
    assert_eq!(parser.token_stream.tokens_by_line.len(), 2);
    assert_eq!(parser.token_stream.tokens_by_line[1].last(), Some(&Token::EOF));
}

#[test]
fn add_instruction_appends() {
    let mut parser = Parser::new("");
    parser.add_instruction(Instruction::new(
        "LLI".to_string(),
        1,
        None,
        None,
        9,
        1,
        1,
        Processor::Pipelined,
    ));
    assert_eq!(parser.instructions.len(), 1);
    assert_eq!(parser.instructions[0].imm, 9);
}

#[test]
fn caret_columns() {
    assert_eq!(count_char_columns("ADA R1 , R2 , R3", 1), 0);
    assert_eq!(count_char_columns("ADA R1 , R2 , R3", 2), 4);
    assert_eq!(count_char_columns("  LLI R1 , 5", 1), 2);
    assert_eq!(count_char_columns("MAIN: LW R1", 2), 6);
}
