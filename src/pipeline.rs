//! Clocked pipeline-register stages between fetch, decode and register read.
use vstd::prelude::*;

verus! {

/// The register between instruction fetch and decode.
#[allow(non_camel_case_types, non_snake_case)]
pub struct IF_ID {
    pub IR_in: u16,
    pub PC_in: u16,
    pub IR_out: u16,
    pub PC_out: u16,
    pub Taken_branch: bool,
    pub Enable_IF_ID: bool,
    pub reg_file_wr_out: bool,
    pub mem_wr_out: bool,
    pub reg_file_wr_in: bool,
    pub mem_wr_in: bool,
    pub clk: bool,
}

impl IF_ID {
    /// A stage with every signal low and every word zero.
    pub fn new() -> (r: IF_ID)
        ensures
            r == (IF_ID {
                IR_in: 0,
                PC_in: 0,
                IR_out: 0,
                PC_out: 0,
                Taken_branch: false,
                Enable_IF_ID: false,
                reg_file_wr_out: false,
                mem_wr_out: false,
                reg_file_wr_in: false,
                mem_wr_in: false,
                clk: false,
            }),
    {
        IF_ID {
            IR_in: 0,
            PC_in: 0,
            IR_out: 0,
            PC_out: 0,
            Taken_branch: false,
            Enable_IF_ID: false,
            reg_file_wr_out: false,
            mem_wr_out: false,
            reg_file_wr_in: false,
            mem_wr_in: false,
            clk: false,
        }
    }

    /// On an enabled clock edge, passes the instruction and program counter
    /// through, and the write enables too unless a taken branch squashes
    /// them; otherwise holds.
    #[allow(non_snake_case)]
    pub fn IF_ID_fetch(&mut self)
        ensures
            ({
                let o = *old(self);
                if o.clk && o.Enable_IF_ID {
                    *final(self) == (IF_ID {
                        IR_out: o.IR_in,
                        PC_out: o.PC_in,
                        reg_file_wr_out: !o.Taken_branch && o.reg_file_wr_in,
                        mem_wr_out: !o.Taken_branch && o.mem_wr_in,
                        ..o
                    })
                } else {
                    *final(self) == o
                }
            }),
    {
        if self.clk && self.Enable_IF_ID {
            self.IR_out = self.IR_in;
            self.PC_out = self.PC_in;
            if self.Taken_branch {
                self.reg_file_wr_out = false;
                self.mem_wr_out = false;
            } else {
                self.reg_file_wr_out = self.reg_file_wr_in;
                self.mem_wr_out = self.mem_wr_in;
            }
        }
    }
}

/// The register between decode and register read: inputs are latched into
/// internal signals on an enabled clock edge, and the outputs always show
/// the internal signals.
pub struct RegDecodeOperandrd {
    pub opcode_in: [u8; 4],
    pub zcbit_in: [u8; 2],
    pub reg_a_in: [u8; 3],
    pub reg_b_in: [u8; 3],
    pub reg_c_in: [u8; 3],
    pub alu_cntrl_in: [u8; 3],
    pub pc_in: [u8; 16],
    pub imm_16_in: [u8; 16],
    pub pc_2in: [u8; 16],
    pub reg_file_wr_in: bool,
    pub mem_wr_in: bool,
    pub clk: bool,
    pub carry_write_in: bool,
    pub zero_write_in: bool,
    pub taken_branch: bool,
    pub enable_id_rr: bool,
    pub zcbit_out: [u8; 2],
    pub opcode_out: [u8; 4],
    pub reg_a_out: [u8; 3],
    pub reg_b_out: [u8; 3],
    pub reg_c_out: [u8; 3],
    pub alu_cntrl_out: [u8; 3],
    pub imm_16_out: [u8; 16],
    pub pc_out: [u8; 16],
    pub pc_2out: [u8; 16],
    pub reg_file_wr_out: bool,
    pub mem_wr_out: bool,
    pub carry_write_out: bool,
    pub zero_write_out: bool,
    pub reg_a_temp: [u8; 3],
    pub reg_b_temp: [u8; 3],
    pub reg_c_temp: [u8; 3],
    pub pc_temp: [u8; 16],
    pub pc_2temp: [u8; 16],
    pub imm_16_temp: [u8; 16],
    pub alu_cntrl_temp: [u8; 3],
    pub reg_file_wr_temp: bool,
    pub mem_wr_temp: bool,
    pub carry_write_temp: bool,
    pub zero_write_temp: bool,
    pub opcode_temp: [u8; 4],
    pub zcbit: [u8; 2],
}

/// An array of zero bits.
pub open spec fn spec_zeros<const N: usize>() -> [u8; N] {
    vstd::array::spec_array_fill_for_copy_type::<u8, N>(0)
}

impl RegDecodeOperandrd {
    /// The internal signals once an enabled clock edge has latched the inputs:
    /// a taken branch squashes the register-file and memory write enables.
    pub open spec fn latched(o: RegDecodeOperandrd) -> RegDecodeOperandrd {
        RegDecodeOperandrd {
            reg_a_temp: o.reg_a_in,
            reg_b_temp: o.reg_b_in,
            reg_c_temp: o.reg_c_in,
            pc_2temp: o.pc_2in,
            pc_temp: o.pc_in,
            reg_file_wr_temp: !o.taken_branch && o.reg_file_wr_in,
            mem_wr_temp: !o.taken_branch && o.mem_wr_in,
            imm_16_temp: o.imm_16_in,
            alu_cntrl_temp: o.alu_cntrl_in,
            carry_write_temp: o.carry_write_in,
            zero_write_temp: o.zero_write_in,
            opcode_temp: o.opcode_in,
            zcbit: o.zcbit_in,
            ..o
        }
    }

    /// The outputs driven from the internal signals.
    pub open spec fn driven(o: RegDecodeOperandrd) -> RegDecodeOperandrd {
        RegDecodeOperandrd {
            imm_16_out: o.imm_16_temp,
            reg_a_out: o.reg_a_temp,
            reg_b_out: o.reg_b_temp,
            reg_c_out: o.reg_c_temp,
            alu_cntrl_out: o.alu_cntrl_temp,
            carry_write_out: o.carry_write_temp,
            zero_write_out: o.zero_write_temp,
            pc_out: o.pc_temp,
            reg_file_wr_out: o.reg_file_wr_temp,
            mem_wr_out: o.mem_wr_temp,
            pc_2out: o.pc_2temp,
            opcode_out: o.opcode_temp,
            zcbit_out: o.zcbit,
            ..o
        }
    }

    /// A stage with every bit zero and every signal low, but the internal
    /// register-file and memory write enables, which start high.
    pub fn new() -> (r: RegDecodeOperandrd)
        ensures
            r == (RegDecodeOperandrd {
                opcode_in: spec_zeros::<4>(),
                zcbit_in: spec_zeros::<2>(),
                reg_a_in: spec_zeros::<3>(),
                reg_b_in: spec_zeros::<3>(),
                reg_c_in: spec_zeros::<3>(),
                alu_cntrl_in: spec_zeros::<3>(),
                pc_in: spec_zeros::<16>(),
                imm_16_in: spec_zeros::<16>(),
                pc_2in: spec_zeros::<16>(),
                reg_file_wr_in: false,
                mem_wr_in: false,
                clk: false,
                carry_write_in: false,
                zero_write_in: false,
                taken_branch: false,
                enable_id_rr: false,
                zcbit_out: spec_zeros::<2>(),
                opcode_out: spec_zeros::<4>(),
                reg_a_out: spec_zeros::<3>(),
                reg_b_out: spec_zeros::<3>(),
                reg_c_out: spec_zeros::<3>(),
                alu_cntrl_out: spec_zeros::<3>(),
                imm_16_out: spec_zeros::<16>(),
                pc_out: spec_zeros::<16>(),
                pc_2out: spec_zeros::<16>(),
                reg_file_wr_out: false,
                mem_wr_out: false,
                carry_write_out: false,
                zero_write_out: false,
                reg_a_temp: spec_zeros::<3>(),
                reg_b_temp: spec_zeros::<3>(),
                reg_c_temp: spec_zeros::<3>(),
                pc_temp: spec_zeros::<16>(),
                pc_2temp: spec_zeros::<16>(),
                imm_16_temp: spec_zeros::<16>(),
                alu_cntrl_temp: spec_zeros::<3>(),
                reg_file_wr_temp: true,
                mem_wr_temp: true,
                carry_write_temp: false,
                zero_write_temp: false,
                opcode_temp: spec_zeros::<4>(),
                zcbit: spec_zeros::<2>(),
            }),
    {
        RegDecodeOperandrd {
            opcode_in: [0; 4],
            zcbit_in: [0; 2],
            reg_a_in: [0; 3],
            reg_b_in: [0; 3],
            reg_c_in: [0; 3],
            alu_cntrl_in: [0; 3],
            pc_in: [0; 16],
            imm_16_in: [0; 16],
            pc_2in: [0; 16],
            reg_file_wr_in: false,
            mem_wr_in: false,
            clk: false,
            carry_write_in: false,
            zero_write_in: false,
            taken_branch: false,
            enable_id_rr: false,
            zcbit_out: [0; 2],
            opcode_out: [0; 4],
            reg_a_out: [0; 3],
            reg_b_out: [0; 3],
            reg_c_out: [0; 3],
            alu_cntrl_out: [0; 3],
            imm_16_out: [0; 16],
            pc_out: [0; 16],
            pc_2out: [0; 16],
            reg_file_wr_out: false,
            mem_wr_out: false,
            carry_write_out: false,
            zero_write_out: false,
            reg_a_temp: [0; 3],
            reg_b_temp: [0; 3],
            reg_c_temp: [0; 3],
            pc_temp: [0; 16],
            pc_2temp: [0; 16],
            imm_16_temp: [0; 16],
            alu_cntrl_temp: [0; 3],
            reg_file_wr_temp: true,
            mem_wr_temp: true,
            carry_write_temp: false,
            zero_write_temp: false,
            opcode_temp: [0; 4],
            zcbit: [0; 2],
        }
    }

    /// One clock step: latch on an enabled edge, then drive the outputs.
    pub fn reg_decode_operandrd(&mut self)
        ensures
            *final(self) == Self::driven(
                if old(self).clk && old(self).enable_id_rr {
                    Self::latched(*old(self))
                } else {
                    *old(self)
                },
            ),
    {
        if self.clk && self.enable_id_rr {
            self.reg_a_temp = self.reg_a_in;
            self.reg_b_temp = self.reg_b_in;
            self.reg_c_temp = self.reg_c_in;
            self.pc_2temp = self.pc_2in;
            self.pc_temp = self.pc_in;
            if self.taken_branch {
                self.reg_file_wr_temp = false;
                self.mem_wr_temp = false;
            } else {
                self.reg_file_wr_temp = self.reg_file_wr_in;
                self.mem_wr_temp = self.mem_wr_in;
            }
            self.imm_16_temp = self.imm_16_in;
            self.alu_cntrl_temp = self.alu_cntrl_in;
            self.carry_write_temp = self.carry_write_in;
            self.zero_write_temp = self.zero_write_in;
            self.opcode_temp = self.opcode_in;
            self.zcbit = self.zcbit_in;
        }
        self.imm_16_out = self.imm_16_temp;
        self.reg_a_out = self.reg_a_temp;
        self.reg_b_out = self.reg_b_temp;
        self.reg_c_out = self.reg_c_temp;
        self.alu_cntrl_out = self.alu_cntrl_temp;
        self.carry_write_out = self.carry_write_temp;
        self.zero_write_out = self.zero_write_temp;
        self.pc_out = self.pc_temp;
        self.reg_file_wr_out = self.reg_file_wr_temp;
        self.mem_wr_out = self.mem_wr_temp;
        self.pc_2out = self.pc_2temp;
        self.opcode_out = self.opcode_temp;
        self.zcbit_out = self.zcbit;
    }
}

} // verus!
