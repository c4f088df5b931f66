//! Encoding of parsed instructions into 16-bit instruction words, laid out by
//! the operand shape of the shared opcode table.
use vstd::prelude::*;
use crate::opcodes::{lookup_opcode, pipelined_opcode, OperandShape};
use crate::parser::{Instruction, InstructionView};
use crate::text::chars_of;

verus! {

/// Why an instruction has no encoding.
#[derive(Debug, Clone, Copy, PartialEq, Eq, Structural)]
pub enum EncodeErrorKind {
    /// The opcode is not in the pipelined table.
    InvalidOpcode,
    /// A register index outside 0 to 7.
    RegisterOutOfRange(i32),
    /// An immediate outside 0 to `max`.
    ImmediateOutOfRange { value: i32, max: i32 },
    /// The shape needs a second register and the instruction has none.
    MissingRegisterB,
    /// The shape needs a third register and the instruction has none.
    MissingRegisterC,
}

/// An encoding failure, with the instruction it concerns.
#[derive(Debug)]
pub struct EncodeError {
    pub kind: EncodeErrorKind,
    pub opcode: String,
    pub line_number: usize,
}

/// The 3-bit field of a register index.
pub open spec fn register_field(reg: i32) -> Result<int, EncodeErrorKind> {
    if 0 <= reg <= 7 {
        Ok(reg as int)
    } else {
        Err(EncodeErrorKind::RegisterOutOfRange(reg))
    }
}

/// An immediate field of `max + 1` values.
pub open spec fn immediate_field(imm: i32, max: i32) -> Result<int, EncodeErrorKind> {
    if 0 <= imm <= max {
        Ok(imm as int)
    } else {
        Err(EncodeErrorKind::ImmediateOutOfRange { value: imm, max })
    }
}

/// The encoding of an instruction as the value of its concatenated bit
/// fields: the 4-bit code, then `reg_a`, then by shape either a 9-bit
/// immediate, or `reg_b` and a 6-bit immediate, or `reg_b` and `reg_c`.
pub open spec fn encoding(inst: InstructionView) -> Result<int, EncodeErrorKind> {
    match pipelined_opcode(inst.opcode) {
        None => Err(EncodeErrorKind::InvalidOpcode),
        Some(info) => match register_field(inst.reg_a) {
            Err(e) => Err(e),
            Ok(a) => match info.shape {
                OperandShape::OneRegister => match immediate_field(inst.imm, 511) {
                    Err(e) => Err(e),
                    Ok(imm) => Ok(info.code * 4096 + a * 512 + imm),
                },
                OperandShape::TwoRegisters => match inst.reg_b {
                    None => Err(EncodeErrorKind::MissingRegisterB),
                    Some(rb) => match register_field(rb) {
                        Err(e) => Err(e),
                        Ok(b) => match immediate_field(inst.imm, 63) {
                            Err(e) => Err(e),
                            Ok(imm) => Ok(info.code * 4096 + a * 512 + b * 64 + imm),
                        },
                    },
                },
                OperandShape::ThreeRegisters => match inst.reg_b {
                    None => Err(EncodeErrorKind::MissingRegisterB),
                    Some(rb) => match register_field(rb) {
                        Err(e) => Err(e),
                        Ok(b) => match inst.reg_c {
                            None => Err(EncodeErrorKind::MissingRegisterC),
                            Some(rc) => match register_field(rc) {
                                Err(e) => Err(e),
                                Ok(c) => Ok(info.code * 512 + a * 64 + b * 8 + c),
                            },
                        },
                    },
                },
            },
        },
    }
}

/// A 16-bit word read as a signed integer.
pub open spec fn as_signed(w: int) -> int {
    if w < 32768 {
        w
    } else {
        w - 65536
    }
}

/// The 3-bit field of a register index.
pub fn register_to_binary(reg: i32) -> (r: Result<u16, EncodeErrorKind>)
    ensures
        match register_field(reg) {
            Ok(f) => r == Ok::<u16, EncodeErrorKind>(f as u16),
            Err(e) => r == Err::<u16, EncodeErrorKind>(e),
        },
{
    if 0 <= reg && reg <= 7 {
        Ok(reg as u16)
    } else {
        Err(EncodeErrorKind::RegisterOutOfRange(reg))
    }
}

/// The 4-bit code of a mnemonic, if the pipelined table has it.
pub fn opcode_to_binary(opcode: &str) -> (r: Option<u16>)
    ensures
        match pipelined_opcode(opcode@) {
            Some(info) => r == Some(info.code),
            None => r is None,
        },
{
    match lookup_opcode(&chars_of(opcode)) {
        Some(info) => Some(info.code),
        None => None,
    }
}

/// The 6-bit immediate field.
pub fn immediate6_to_binary(imm: i32) -> (r: Result<u16, EncodeErrorKind>)
    ensures
        match immediate_field(imm, 63) {
            Ok(f) => r == Ok::<u16, EncodeErrorKind>(f as u16),
            Err(e) => r == Err::<u16, EncodeErrorKind>(e),
        },
{
    if 0 <= imm && imm <= 63 {
        Ok(imm as u16)
    } else {
        Err(EncodeErrorKind::ImmediateOutOfRange { value: imm, max: 63 })
    }
}

/// The 9-bit immediate field.
pub fn immediate9_to_binary(imm: i32) -> (r: Result<u16, EncodeErrorKind>)
    ensures
        match immediate_field(imm, 511) {
            Ok(f) => r == Ok::<u16, EncodeErrorKind>(f as u16),
            Err(e) => r == Err::<u16, EncodeErrorKind>(e),
        },
{
    if 0 <= imm && imm <= 511 {
        Ok(imm as u16)
    } else {
        Err(EncodeErrorKind::ImmediateOutOfRange { value: imm, max: 511 })
    }
}

/// The encoding of `inst` as a spec-level result.
pub open spec fn encoded(inst: InstructionView) -> Result<i16, EncodeErrorKind> {
    match encoding(inst) {
        Ok(w) => Ok(as_signed(w) as i16),
        Err(e) => Err(e),
    }
}

/// What an encoding result says, with the instruction it names.
pub open spec fn encode_result_view(r: Result<i16, EncodeError>) -> Result<i16, EncodeErrorKind> {
    match r {
        Ok(w) => Ok(w),
        Err(e) => Err(e.kind),
    }
}

/// The encoding of the concatenated fields as a 16-bit word.
fn word(
    code: u16,
    a: u16,
    rest: u16,
    rest_width: u16,
) -> (r: i16)
    requires
        code < 16,
        a < 8,
        rest_width == 6 || rest_width == 9,
        rest_width == 6 ==> rest < 64,
        rest_width == 9 ==> rest < 512,
    ensures
        r == as_signed(
            if rest_width == 9 {
                code * 4096 + a * 512 + rest
            } else {
                code * 512 + a * 64 + rest
            },
        ),
{
    let w: u32 = if rest_width == 9 {
        code as u32 * 4096 + a as u32 * 512 + rest as u32
    } else {
        code as u32 * 512 + a as u32 * 64 + rest as u32
    };
    if w < 32768 {
        w as i16
    } else {
        (w as i32 - 65536) as i16
    }
}

/// Encodes one instruction into its 16-bit word, or says which bound or
/// operand it violates.
pub fn instruction_to_binary(instruction: Instruction) -> (r: Result<i16, EncodeError>)
    ensures
        encode_result_view(r) == encoded(instruction@),
        r matches Err(e) ==> e.opcode@ == instruction.opcode@ && e.line_number
            == instruction.line_number,
{
    let fail = |kind: EncodeErrorKind| -> (e: EncodeError)
        ensures
            e.kind == kind,
            e.opcode@ == instruction.opcode@,
            e.line_number == instruction.line_number,
        { EncodeError { kind, opcode: instruction.opcode.clone(), line_number: instruction.line_number } };
    let code = match opcode_to_binary(instruction.opcode.as_str()) {
        Some(code) => code,
        None => {
            return Err(fail(EncodeErrorKind::InvalidOpcode));
        },
    };
    let shape = match lookup_opcode(&chars_of(instruction.opcode.as_str())) {
        Some(info) => info.shape,
        None => {
            return Err(fail(EncodeErrorKind::InvalidOpcode));
        },
    };
    let reg_a = match register_to_binary(instruction.reg_a) {
        Ok(bits) => bits,
        Err(kind) => {
            return Err(fail(kind));
        },
    };
    match shape {
        OperandShape::OneRegister => {
            match immediate9_to_binary(instruction.imm) {
                Ok(imm) => Ok(word(code, reg_a, imm, 9)),
                Err(kind) => Err(fail(kind)),
            }
        },
        OperandShape::TwoRegisters => {
            let reg_b = match instruction.reg_b {
                Some(rb) => match register_to_binary(rb) {
                    Ok(bits) => bits,
                    Err(kind) => {
                        return Err(fail(kind));
                    },
                },
                None => {
                    return Err(fail(EncodeErrorKind::MissingRegisterB));
                },
            };
            match immediate6_to_binary(instruction.imm) {
                Ok(imm) => Ok(word(code, reg_a, reg_b * 64 + imm, 9)),
                Err(kind) => Err(fail(kind)),
            }
        },
        OperandShape::ThreeRegisters => {
            let reg_b = match instruction.reg_b {
                Some(rb) => match register_to_binary(rb) {
                    Ok(bits) => bits,
                    Err(kind) => {
                        return Err(fail(kind));
                    },
                },
                None => {
                    return Err(fail(EncodeErrorKind::MissingRegisterB));
                },
            };
            let reg_c = match instruction.reg_c {
                Some(rc) => match register_to_binary(rc) {
                    Ok(bits) => bits,
                    Err(kind) => {
                        return Err(fail(kind));
                    },
                },
                None => {
                    return Err(fail(EncodeErrorKind::MissingRegisterC));
                },
            };
            Ok(word(code, reg_a, reg_b * 8 + reg_c, 6))
        },
    }
}

/// The indices a listing of the first `n` instructions shows, with the last
/// source line shown: an instruction is shown when its line lies past every
/// line shown before it.
pub open spec fn listed(insts: Seq<InstructionView>, n: int) -> (Seq<int>, int)
    decreases n,
{
    if n <= 0 {
        (Seq::empty(), 0)
    } else {
        let (shown, last) = listed(insts, n - 1);
        if insts[n - 1].line_number > last {
            (shown.push(n - 1), insts[n - 1].line_number)
        } else {
            (shown, last)
        }
    }
}

/// The listing of a parsed program: for each source line in order, its first
/// instruction's index and that instruction's encoding. Each instruction is
/// encoded on its own, so one that fails leaves the others' words intact.
pub fn disassembly(instructions: &Vec<Instruction>) -> (r: Vec<(usize, Result<i16, EncodeError>)>)
    ensures
        ({
            let views = instructions@.map_values(|i: Instruction| i@);
            let shown = listed(views, views.len() as int).0;
            &&& r@.len() == shown.len()
            &&& forall|k: int|
                0 <= k < r@.len() ==> (#[trigger] r@[k]).0 == shown[k] && encode_result_view(
                    r@[k].1,
                ) == encoded(views[shown[k]])
        }),
{
    let ghost views = instructions@.map_values(|i: Instruction| i@);
    let mut listing: Vec<(usize, Result<i16, EncodeError>)> = Vec::new();
    let mut lines_traversed: usize = 0;
    let mut i: usize = 0;
    while i < instructions.len()
        invariant
            views == instructions@.map_values(|i: Instruction| i@),
            i <= instructions.len(),
            listed(views, i as int).1 == lines_traversed as int,
            listing@.len() == listed(views, i as int).0.len(),
            forall|k: int|
                0 <= k < listing@.len() ==> (#[trigger] listing@[k]).0 == listed(
                    views,
                    i as int,
                ).0[k] && encode_result_view(listing@[k].1) == encoded(
                    views[listed(views, i as int).0[k]],
                ),
        decreases instructions.len() - i,
    {
        let instruction = &instructions[i];
        if instruction.line_number > lines_traversed {
            let word = instruction_to_binary(instruction.clone());
            listing.push((i, word));
            lines_traversed = instruction.line_number;
        }
        i = i + 1;
    }
    listing
}

/// A register index of 0 to 7 has a 3-bit field whose bits read back as the
/// same index; 8 and above are out of range.
pub proof fn lemma_register_round_trip(reg: i32)
    ensures
        0 <= reg <= 7 ==> (register_field(reg) matches Ok(f) && f < 8 && (f as u16) & 7u16
            == reg as u16),
        reg >= 8 ==> register_field(reg) == Err::<int, EncodeErrorKind>(
            EncodeErrorKind::RegisterOutOfRange(reg),
        ),
{
    if 0 <= reg <= 7 {
        let f = reg as u16;
        assert(f & 7u16 == f) by (bit_vector)
            requires
                f < 8,
        ;
    }
}

/// In the word of a three-register instruction, the bits above the nine
/// register bits hold the mnemonic's code, and the nine register bits hold
/// `reg_a`, `reg_b` and `reg_c`, three bits each, most significant first.
pub proof fn lemma_three_register_layout(inst: InstructionView)
    requires
        pipelined_opcode(inst.opcode) matches Some(info) && info.shape
            == OperandShape::ThreeRegisters,
        0 <= inst.reg_a <= 7,
        inst.reg_b matches Some(b) && 0 <= b <= 7,
        inst.reg_c matches Some(c) && 0 <= c <= 7,
    ensures
        encoding(inst) matches Ok(w) && {
            let x = w as u16;
            &&& 0 <= w < 8192
            &&& x >> 9u16 == pipelined_opcode(inst.opcode)->Some_0.code
            &&& (x >> 6u16) & 7u16 == inst.reg_a as u16
            &&& (x >> 3u16) & 7u16 == inst.reg_b->Some_0 as u16
            &&& x & 7u16 == inst.reg_c->Some_0 as u16
        },
{
    let code = pipelined_opcode(inst.opcode)->Some_0.code;
    let a = inst.reg_a as u16;
    let b = inst.reg_b->Some_0 as u16;
    let c = inst.reg_c->Some_0 as u16;
    assert(code < 16);
    let x: u16 = (code * 512 + a * 64 + b * 8 + c) as u16;
    assert(x >> 9u16 == code && (x >> 6u16) & 7u16 == a && (x >> 3u16) & 7u16 == b && x & 7u16
        == c) by (bit_vector)
        requires
            code < 16,
            a < 8,
            b < 8,
            c < 8,
            x == code * 512 + a * 64 + b * 8 + c,
    ;
}

/// A two-register instruction with an immediate of 0 to 63 (and valid
/// registers) encodes, and the low six bits of its word are the immediate;
/// an immediate of 64 or more never encodes.
pub proof fn lemma_two_register_immediate(inst: InstructionView)
    requires
        pipelined_opcode(inst.opcode) matches Some(info) && info.shape
            == OperandShape::TwoRegisters,
    ensures
        (0 <= inst.reg_a <= 7 && (inst.reg_b matches Some(b) && 0 <= b <= 7) && 0 <= inst.imm
            <= 63) ==> (encoding(inst) matches Ok(w) && (w as u16) & 0x3fu16 == inst.imm as u16),
        inst.imm >= 64 ==> encoding(inst) is Err,
{
    let code = pipelined_opcode(inst.opcode)->Some_0.code;
    assert(code < 16);
    if 0 <= inst.reg_a <= 7 && (inst.reg_b matches Some(b) && 0 <= b <= 7) && 0 <= inst.imm <= 63 {
        let a = inst.reg_a as u16;
        let b = inst.reg_b->Some_0 as u16;
        let imm = inst.imm as u16;
        let x: u16 = (code * 4096 + a * 512 + b * 64 + imm) as u16;
        assert(x & 0x3fu16 == imm) by (bit_vector)
            requires
                code < 16,
                a < 8,
                b < 8,
                imm < 64,
                x == code * 4096 + a * 512 + b * 64 + imm,
        ;
    }
}

/// A one-register instruction with an immediate of 0 to 511 (and a valid
/// register) encodes, and the low nine bits of its word are the immediate;
/// an immediate of 512 or more never encodes.
pub proof fn lemma_one_register_immediate(inst: InstructionView)
    requires
        pipelined_opcode(inst.opcode) matches Some(info) && info.shape
            == OperandShape::OneRegister,
    ensures
        (0 <= inst.reg_a <= 7 && 0 <= inst.imm <= 511) ==> (encoding(inst) matches Ok(w) && (w
            as u16) & 0x1ffu16 == inst.imm as u16),
        inst.imm >= 512 ==> encoding(inst) is Err,
{
    let code = pipelined_opcode(inst.opcode)->Some_0.code;
    assert(code < 16);
    if 0 <= inst.reg_a <= 7 && 0 <= inst.imm <= 511 {
        let a = inst.reg_a as u16;
        let imm = inst.imm as u16;
        let x: u16 = (code * 4096 + a * 512 + imm) as u16;
        assert(x & 0x1ffu16 == imm) by (bit_vector)
            requires
                code < 16,
                a < 8,
                imm < 512,
                x == code * 4096 + a * 512 + imm,
        ;
    }
}

} // verus!
