//! The mnemonic tables of both dialects, and the one classification of the
//! pipelined mnemonics that the parser and the encoder share.
use vstd::prelude::*;

verus! {

/// The operand shape of a pipelined mnemonic: it fixes both the grammar the
/// parser accepts after the mnemonic and the bit layout of its encoding.
#[derive(Debug, Clone, Copy, PartialEq, Eq, Structural)]
pub enum OperandShape {
    /// `Ra , Rb , Rc`: 4-bit code, then three 3-bit register fields.
    ThreeRegisters,
    /// `Ra , Rb , Imm`: 4-bit code, two 3-bit register fields, a 6-bit immediate.
    TwoRegisters,
    /// `Ra , Imm`: 4-bit code, one 3-bit register field, a 9-bit immediate.
    OneRegister,
}

/// What the shared table holds for one pipelined mnemonic.
#[derive(Debug, Clone, Copy, PartialEq, Eq, Structural)]
pub struct OpcodeInfo {
    pub shape: OperandShape,
    /// The 4-bit group code (several mnemonics share one).
    pub code: u16,
}

pub open spec fn info(shape: OperandShape, code: u16) -> Option<OpcodeInfo> {
    Some(OpcodeInfo { shape, code })
}

/// The classification of every pipelined mnemonic that has an encoding.
pub open spec fn pipelined_opcode(s: Seq<char>) -> Option<OpcodeInfo> {
    if s == seq!['A', 'D', 'A'] { info(OperandShape::ThreeRegisters, 1) }
    else if s == seq!['A', 'D', 'C'] { info(OperandShape::ThreeRegisters, 1) }
    else if s == seq!['A', 'D', 'Z'] { info(OperandShape::ThreeRegisters, 1) }
    else if s == seq!['A', 'W', 'C'] { info(OperandShape::ThreeRegisters, 1) }
    else if s == seq!['A', 'C', 'A'] { info(OperandShape::ThreeRegisters, 1) }
    else if s == seq!['A', 'C', 'C'] { info(OperandShape::ThreeRegisters, 1) }
    else if s == seq!['A', 'C', 'Z'] { info(OperandShape::ThreeRegisters, 1) }
    else if s == seq!['A', 'C', 'W'] { info(OperandShape::ThreeRegisters, 1) }
    else if s == seq!['N', 'D', 'U'] { info(OperandShape::ThreeRegisters, 2) }
    else if s == seq!['N', 'D', 'C'] { info(OperandShape::ThreeRegisters, 2) }
    else if s == seq!['N', 'D', 'Z'] { info(OperandShape::ThreeRegisters, 2) }
    else if s == seq!['N', 'C', 'U'] { info(OperandShape::ThreeRegisters, 2) }
    else if s == seq!['N', 'C', 'C'] { info(OperandShape::ThreeRegisters, 2) }
    else if s == seq!['N', 'C', 'Z'] { info(OperandShape::ThreeRegisters, 2) }
    else if s == seq!['A', 'D', 'I'] { info(OperandShape::TwoRegisters, 0) }
    else if s == seq!['L', 'W'] { info(OperandShape::TwoRegisters, 4) }
    else if s == seq!['S', 'W'] { info(OperandShape::TwoRegisters, 5) }
    else if s == seq!['B', 'E', 'Q'] { info(OperandShape::TwoRegisters, 8) }
    else if s == seq!['B', 'L', 'T'] { info(OperandShape::TwoRegisters, 9) }
    else if s == seq!['B', 'L', 'E'] { info(OperandShape::TwoRegisters, 10) }
    else if s == seq!['L', 'L', 'I'] { info(OperandShape::OneRegister, 3) }
    else if s == seq!['L', 'M'] { info(OperandShape::OneRegister, 6) }
    else if s == seq!['S', 'M'] { info(OperandShape::OneRegister, 7) }
    else if s == seq!['J', 'A', 'L'] { info(OperandShape::OneRegister, 12) }
    else if s == seq!['J', 'L', 'R'] { info(OperandShape::OneRegister, 13) }
    else if s == seq!['J', 'R', 'I'] { info(OperandShape::OneRegister, 15) }
    else { None }
}

/// The mnemonics the lexer accepts in the pipelined dialect: every classified
/// mnemonic, and `RET`, which ends a labelled block and has no encoding.
pub open spec fn is_pipelined_mnemonic(s: Seq<char>) -> bool {
    pipelined_opcode(s) is Some || s == seq!['R', 'E', 'T']
}

/// The mnemonics the lexer accepts in the single-cycle dialect.
pub open spec fn is_single_cycle_mnemonic(s: Seq<char>) -> bool {
    ||| s == seq!['A', 'D', 'D']
    ||| s == seq!['S', 'U', 'B']
    ||| s == seq!['M', 'U', 'L']
    ||| s == seq!['A', 'D', 'I']
    ||| s == seq!['A', 'N', 'D']
    ||| s == seq!['O', 'R', 'A']
    ||| s == seq!['I', 'M', 'P']
    ||| s == seq!['L', 'H', 'I']
    ||| s == seq!['L', 'L', 'I']
    ||| s == seq!['L', 'W']
    ||| s == seq!['S', 'W']
    ||| s == seq!['B', 'E', 'Q']
    ||| s == seq!['J', 'A', 'L']
    ||| s == seq!['J', 'L', 'R']
}

/// Whether `s` spells the two-letter word `a b`.
fn is_word2(s: &Vec<char>, a: char, b: char) -> (r: bool)
    ensures
        r == (s@ == seq![a, b]),
{
    let r = s.len() == 2 && s[0] == a && s[1] == b;
    proof {
        if r {
            assert(s@ =~= seq![a, b]);
        }
    }
    r
}

/// Whether `s` spells the three-letter word `a b c`.
fn is_word3(s: &Vec<char>, a: char, b: char, c: char) -> (r: bool)
    ensures
        r == (s@ == seq![a, b, c]),
{
    let r = s.len() == 3 && s[0] == a && s[1] == b && s[2] == c;
    proof {
        if r {
            assert(s@ =~= seq![a, b, c]);
        }
    }
    r
}

/// Looks a mnemonic up in the shared pipelined table.
pub fn lookup_opcode(s: &Vec<char>) -> (r: Option<OpcodeInfo>)
    ensures
        r == pipelined_opcode(s@),
{
    let three = OperandShape::ThreeRegisters;
    let two = OperandShape::TwoRegisters;
    let one = OperandShape::OneRegister;
    if is_word3(s, 'A', 'D', 'A') { Some(OpcodeInfo { shape: three, code: 1 }) }
    else if is_word3(s, 'A', 'D', 'C') { Some(OpcodeInfo { shape: three, code: 1 }) }
    else if is_word3(s, 'A', 'D', 'Z') { Some(OpcodeInfo { shape: three, code: 1 }) }
    else if is_word3(s, 'A', 'W', 'C') { Some(OpcodeInfo { shape: three, code: 1 }) }
    else if is_word3(s, 'A', 'C', 'A') { Some(OpcodeInfo { shape: three, code: 1 }) }
    else if is_word3(s, 'A', 'C', 'C') { Some(OpcodeInfo { shape: three, code: 1 }) }
    else if is_word3(s, 'A', 'C', 'Z') { Some(OpcodeInfo { shape: three, code: 1 }) }
    else if is_word3(s, 'A', 'C', 'W') { Some(OpcodeInfo { shape: three, code: 1 }) }
    else if is_word3(s, 'N', 'D', 'U') { Some(OpcodeInfo { shape: three, code: 2 }) }
    else if is_word3(s, 'N', 'D', 'C') { Some(OpcodeInfo { shape: three, code: 2 }) }
    else if is_word3(s, 'N', 'D', 'Z') { Some(OpcodeInfo { shape: three, code: 2 }) }
    else if is_word3(s, 'N', 'C', 'U') { Some(OpcodeInfo { shape: three, code: 2 }) }
    else if is_word3(s, 'N', 'C', 'C') { Some(OpcodeInfo { shape: three, code: 2 }) }
    else if is_word3(s, 'N', 'C', 'Z') { Some(OpcodeInfo { shape: three, code: 2 }) }
    else if is_word3(s, 'A', 'D', 'I') { Some(OpcodeInfo { shape: two, code: 0 }) }
    else if is_word2(s, 'L', 'W') { Some(OpcodeInfo { shape: two, code: 4 }) }
    else if is_word2(s, 'S', 'W') { Some(OpcodeInfo { shape: two, code: 5 }) }
    else if is_word3(s, 'B', 'E', 'Q') { Some(OpcodeInfo { shape: two, code: 8 }) }
    else if is_word3(s, 'B', 'L', 'T') { Some(OpcodeInfo { shape: two, code: 9 }) }
    else if is_word3(s, 'B', 'L', 'E') { Some(OpcodeInfo { shape: two, code: 10 }) }
    else if is_word3(s, 'L', 'L', 'I') { Some(OpcodeInfo { shape: one, code: 3 }) }
    else if is_word2(s, 'L', 'M') { Some(OpcodeInfo { shape: one, code: 6 }) }
    else if is_word2(s, 'S', 'M') { Some(OpcodeInfo { shape: one, code: 7 }) }
    else if is_word3(s, 'J', 'A', 'L') { Some(OpcodeInfo { shape: one, code: 12 }) }
    else if is_word3(s, 'J', 'L', 'R') { Some(OpcodeInfo { shape: one, code: 13 }) }
    else if is_word3(s, 'J', 'R', 'I') { Some(OpcodeInfo { shape: one, code: 15 }) }
    else { None }
}

/// Whether `s` is a mnemonic of the pipelined dialect.
pub fn is_pipelined_word(s: &Vec<char>) -> (r: bool)
    ensures
        r == is_pipelined_mnemonic(s@),
{
    lookup_opcode(s).is_some() || is_word3(s, 'R', 'E', 'T')
}

/// Whether `s` is a mnemonic of the single-cycle dialect.
pub fn is_single_cycle_word(s: &Vec<char>) -> (r: bool)
    ensures
        r == is_single_cycle_mnemonic(s@),
{
    is_word3(s, 'A', 'D', 'D') || is_word3(s, 'S', 'U', 'B') || is_word3(s, 'M', 'U', 'L')
        || is_word3(s, 'A', 'D', 'I') || is_word3(s, 'A', 'N', 'D') || is_word3(s, 'O', 'R', 'A')
        || is_word3(s, 'I', 'M', 'P') || is_word3(s, 'L', 'H', 'I') || is_word3(s, 'L', 'L', 'I')
        || is_word2(s, 'L', 'W') || is_word2(s, 'S', 'W') || is_word3(s, 'B', 'E', 'Q')
        || is_word3(s, 'J', 'A', 'L') || is_word3(s, 'J', 'L', 'R')
}

} // verus!
