use seil::memory::RAM;
use seil::pipeline::{RegDecodeOperandrd, IF_ID};
use std::collections::HashMap;

#[test]
fn ram_reads_zero_until_written() {
    let mut ram = RAM { memory: HashMap::new() };
    assert_eq!(ram.read(10), 0);
    ram.write(10, -7);
    ram.write(-3, 42);
    assert_eq!(ram.read(10), -7);
    assert_eq!(ram.read(-3), 42);
    ram.write(10, 5);
    assert_eq!(ram.read(10), 5);
    assert_eq!(ram.read(11), 0);
}

#[test]
fn fetch_stage_latches_on_enabled_clock() {
    let mut stage = IF_ID::new();
    stage.IR_in = 0x1234;
    stage.PC_in = 8;
    stage.reg_file_wr_in = true;
    stage.mem_wr_in = true;
    stage.IF_ID_fetch();
    assert_eq!(stage.IR_out, 0);
    stage.clk = true;
    stage.Enable_IF_ID = true;
    stage.IF_ID_fetch();
    assert_eq!(stage.IR_out, 0x1234);
    assert_eq!(stage.PC_out, 8);
    assert!(stage.reg_file_wr_out);
    assert!(stage.mem_wr_out);
    stage.Taken_branch = true;
    stage.IF_ID_fetch();
    assert!(!stage.reg_file_wr_out);
    assert!(!stage.mem_wr_out);
}

#[test]
fn decode_stage_drives_outputs_from_latched_signals() {
    let mut stage = RegDecodeOperandrd::new();
    assert!(stage.reg_file_wr_temp);
    assert!(stage.mem_wr_temp);
    stage.reg_a_in = [1, 0, 1];
    stage.opcode_in = [0, 0, 0, 1];
    stage.reg_decode_operandrd();
    assert_eq!(stage.reg_a_out, [0, 0, 0]);
    assert!(stage.reg_file_wr_out);
    stage.clk = true;
    stage.enable_id_rr = true;
    stage.taken_branch = true;
    stage.reg_file_wr_in = true;
    stage.reg_decode_operandrd();
    assert_eq!(stage.reg_a_out, [1, 0, 1]);
    assert_eq!(stage.opcode_out, [0, 0, 0, 1]);
    assert!(!stage.reg_file_wr_out);
    assert!(!stage.mem_wr_out);
}
