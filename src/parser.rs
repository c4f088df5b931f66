//! Single-pass parsing of a token stream into typed instructions, with label
//! handling and the first structural error located by line and column.
use vstd::prelude::*;
use crate::lexer::{
    all_tokens, group_lines, lemma_group_lines, lemma_step_advances, lex_from, lines_well_formed,
    Lexer, Processor, Register, Token, TokenStream, TokenView,
};
use crate::opcodes::{lookup_opcode, pipelined_opcode, OperandShape};
use crate::text::chars_of;

verus! {

/// One parsed instruction.
#[derive(Debug)]
pub struct Instruction {
    pub opcode: String,
    pub reg_a: i32,
    /// Present for the two- and three-register shapes.
    pub reg_b: Option<i32>,
    /// Present for the three-register shape only.
    pub reg_c: Option<i32>,
    /// Zero where the shape has no immediate.
    pub imm: i32,
    /// 1-based source line.
    pub line_number: usize,
    /// 1-based position of the opcode token within its line.
    pub column_number: usize,
    pub processor: Processor,
}

/// An instruction with its opcode as a sequence of characters.
pub struct InstructionView {
    pub opcode: Seq<char>,
    pub reg_a: i32,
    pub reg_b: Option<i32>,
    pub reg_c: Option<i32>,
    pub imm: i32,
    pub line_number: int,
    pub column_number: int,
    pub processor: Processor,
}

impl View for Instruction {
    type V = InstructionView;

    open spec fn view(&self) -> InstructionView {
        InstructionView {
            opcode: self.opcode@,
            reg_a: self.reg_a,
            reg_b: self.reg_b,
            reg_c: self.reg_c,
            imm: self.imm,
            line_number: self.line_number as int,
            column_number: self.column_number as int,
            processor: self.processor,
        }
    }
}

impl Clone for Instruction {
    fn clone(&self) -> (r: Self)
        ensures
            r == *self,
    {
        Instruction {
            opcode: self.opcode.clone(),
            reg_a: self.reg_a,
            reg_b: self.reg_b,
            reg_c: self.reg_c,
            imm: self.imm,
            line_number: self.line_number,
            column_number: self.column_number,
            processor: self.processor,
        }
    }
}

impl Instruction {
    pub fn new(
        opcode: String,
        reg_a: i32,
        reg_b: Option<i32>,
        reg_c: Option<i32>,
        imm: i32,
        line_number: usize,
        column_number: usize,
        processor: Processor,
    ) -> (r: Instruction)
        ensures
            r == (Instruction {
                opcode,
                reg_a,
                reg_b,
                reg_c,
                imm,
                line_number,
                column_number,
                processor,
            }),
    {
        Instruction {
            opcode,
            reg_a,
            reg_b,
            reg_c,
            imm,
            line_number,
            column_number,
            processor,
        }
    }
}

/// The first structural error of a parse.
#[derive(Debug)]
pub struct ParserError {
    pub message: String,
    /// 1-based source line.
    pub line_number: usize,
    /// 1-based position of the offending or missing token within its line.
    pub column_number: usize,
}

pub struct ParserErrorView {
    pub message: Seq<char>,
    pub line_number: int,
    pub column_number: int,
}

impl View for ParserError {
    type V = ParserErrorView;

    open spec fn view(&self) -> ParserErrorView {
        ParserErrorView {
            message: self.message@,
            line_number: self.line_number as int,
            column_number: self.column_number as int,
        }
    }
}

/// The error at 0-based line `l` and 1-based column `column`.
pub open spec fn error_at(message: Seq<char>, l: int, column: int) -> ParserErrorView {
    ParserErrorView { message, line_number: l + 1, column_number: column }
}

/// The register at index `i` of a line, if a register token stands there.
pub open spec fn register_at(line: Seq<TokenView>, i: int) -> Option<Register> {
    if 0 <= i < line.len() {
        match line[i] {
            TokenView::Register(r) => Some(r),
            _ => None,
        }
    } else {
        None
    }
}

/// Whether a comma stands at index `i` of a line.
pub open spec fn comma_at(line: Seq<TokenView>, i: int) -> bool {
    0 <= i < line.len() && line[i] is Comma
}

/// The number at index `i` of a line, if a number token stands there.
pub open spec fn number_at(line: Seq<TokenView>, i: int) -> Option<i32> {
    if 0 <= i < line.len() {
        match line[i] {
            TokenView::Number(n) => Some(n),
            _ => None,
        }
    } else {
        None
    }
}

/// The instruction parsed from its operands.
pub open spec fn parsed(
    op: Seq<char>,
    a: Register,
    b: Option<Register>,
    c: Option<Register>,
    imm: i32,
    l: int,
    p: int,
) -> InstructionView {
    InstructionView {
        opcode: op,
        reg_a: a.spec_number() as i32,
        reg_b: match b {
            Some(r) => Some(r.spec_number() as i32),
            None => None,
        },
        reg_c: match c {
            Some(r) => Some(r.spec_number() as i32),
            None => None,
        },
        imm,
        line_number: l + 1,
        column_number: p + 1,
        processor: Processor::Pipelined,
    }
}

/// What the operands after the opcode `op`, at index `p` of line `l`, parse
/// to: the grammar is the one its operand shape fixes, and a missing or
/// wrong token is reported at its own column.
pub open spec fn operands(line: Seq<TokenView>, l: int, p: int, op: Seq<char>) -> Result<
    InstructionView,
    ParserErrorView,
> {
    let expected_register = "Expected register"@;
    let expected_comma = "Expected comma"@;
    let expected_immediate = "Expected immediate"@;
    match pipelined_opcode(op) {
        None => Err(error_at("Invalid opcode: "@ + op, l, p + 1)),
        Some(info) => match register_at(line, p + 1) {
            None => Err(error_at(expected_register, l, p + 2)),
            Some(a) => if !comma_at(line, p + 2) {
                Err(error_at(expected_comma, l, p + 3))
            } else {
                match info.shape {
                    OperandShape::OneRegister => match number_at(line, p + 3) {
                        None => Err(error_at(expected_immediate, l, p + 4)),
                        Some(imm) => Ok(parsed(op, a, None, None, imm, l, p)),
                    },
                    _ => match register_at(line, p + 3) {
                        None => Err(error_at(expected_register, l, p + 4)),
                        Some(b) => if !comma_at(line, p + 4) {
                            Err(error_at(expected_comma, l, p + 5))
                        } else if info.shape == OperandShape::TwoRegisters {
                            match number_at(line, p + 5) {
                                None => Err(error_at(expected_immediate, l, p + 6)),
                                Some(imm) => Ok(parsed(op, a, Some(b), None, imm, l, p)),
                            }
                        } else {
                            match register_at(line, p + 5) {
                                None => Err(error_at(expected_register, l, p + 6)),
                                Some(c) => if b == c {
                                    Err(
                                        error_at(
                                            "Register B and Register C must be different"@,
                                            l,
                                            p + 6,
                                        ),
                                    )
                                } else {
                                    Ok(parsed(op, a, Some(b), Some(c), 0, l, p))
                                },
                            }
                        },
                    },
                }
            },
        },
    }
}

/// What scanning one token does.
pub enum Step {
    /// The token is inert here (already consumed as an operand, or a comment).
    Skip,
    /// An `EOF`: the rest of the line is not scanned.
    Stop,
    /// A label at the start of its line.
    Label,
    Emit(InstructionView),
    Fail(ParserErrorView),
}

/// The step for the token at index `p` of line `l`.
pub open spec fn step_at(line: Seq<TokenView>, l: int, p: int) -> Step {
    match line[p] {
        TokenView::Label(_) => if p != 0 {
            Step::Fail(error_at("Label must be at the beginning of the line"@, l, p + 1))
        } else {
            Step::Label
        },
        TokenView::Opcode(op) => match operands(line, l, p, op) {
            Ok(i) => Step::Emit(i),
            Err(e) => Step::Fail(e),
        },
        TokenView::EOF => Step::Stop,
        TokenView::Error(e) => Step::Fail(error_at("Invalid Token: "@ + e, l, p + 1)),
        _ => Step::Skip,
    }
}

/// What a parse has gathered: instructions in source order, and the 1-based
/// line of each label.
pub struct Scan {
    pub instructions: Seq<InstructionView>,
    pub label_lines: Seq<int>,
}

/// Scanning the first `n` tokens of line `l` from `start`: the state after
/// them and whether an `EOF` stopped the line, or the first error.
pub open spec fn scan_line(line: Seq<TokenView>, l: int, n: int, start: Scan) -> Result<
    (Scan, bool),
    ParserErrorView,
>
    decreases n,
{
    if n <= 0 {
        Ok((start, false))
    } else {
        match scan_line(line, l, n - 1, start) {
            Err(e) => Err(e),
            Ok((s, stopped)) => if stopped {
                Ok((s, true))
            } else {
                match step_at(line, l, n - 1) {
                    Step::Skip => Ok((s, false)),
                    Step::Stop => Ok((s, true)),
                    Step::Label => Ok(
                        (
                            Scan {
                                instructions: s.instructions,
                                label_lines: s.label_lines.push(l + 1),
                            },
                            false,
                        ),
                    ),
                    Step::Emit(i) => Ok(
                        (
                            Scan {
                                instructions: s.instructions.push(i),
                                label_lines: s.label_lines,
                            },
                            false,
                        ),
                    ),
                    Step::Fail(e) => Err(e),
                }
            },
        }
    }
}

/// Scanning the first `n` lines.
pub open spec fn scan_lines(lines: Seq<Seq<TokenView>>, n: int) -> Result<Scan, ParserErrorView>
    decreases n,
{
    if n <= 0 {
        Ok(Scan { instructions: Seq::empty(), label_lines: Seq::empty() })
    } else {
        match scan_lines(lines, n - 1) {
            Err(e) => Err(e),
            Ok(s) => match scan_line(lines[n - 1], n - 1, lines[n - 1].len() as int, s) {
                Err(e) => Err(e),
                Ok((t, _)) => Ok(t),
            },
        }
    }
}

/// The result of parsing a whole stream.
pub open spec fn parse_lines(lines: Seq<Seq<TokenView>>) -> Result<Scan, ParserErrorView> {
    scan_lines(lines, lines.len() as int)
}

/// Column numbers of every line fit in `usize`.
pub open spec fn columns_fit(lines: Seq<Seq<TokenView>>) -> bool {
    forall|l: int| 0 <= l < lines.len() ==> #[trigger] lines[l].len() < usize::MAX
}

pub open spec fn result_view(r: Result<Instruction, ParserError>) -> Result<
    InstructionView,
    ParserErrorView,
> {
    match r {
        Ok(i) => Ok(i@),
        Err(e) => Err(e@),
    }
}

fn error(message: &str, l: usize, column: usize) -> (r: ParserError)
    requires
        l < usize::MAX,
    ensures
        r@ == error_at(message@, l as int, column as int),
{
    ParserError { message: String::from_str(message), line_number: l + 1, column_number: column }
}

fn register_in(line: &Vec<Token>, i: usize) -> (r: Option<Register>)
    ensures
        r == register_at(line@.map_values(|t: Token| t@), i as int),
{
    if i < line.len() {
        match &line[i] {
            Token::Register(reg) => Some(*reg),
            _ => None,
        }
    } else {
        None
    }
}

fn comma_in(line: &Vec<Token>, i: usize) -> (r: bool)
    ensures
        r == comma_at(line@.map_values(|t: Token| t@), i as int),
{
    if i < line.len() {
        match &line[i] {
            Token::Comma => true,
            _ => false,
        }
    } else {
        false
    }
}

fn number_in(line: &Vec<Token>, i: usize) -> (r: Option<i32>)
    ensures
        r == number_at(line@.map_values(|t: Token| t@), i as int),
{
    if i < line.len() {
        match &line[i] {
            Token::Number(n) => Some(*n),
            _ => None,
        }
    } else {
        None
    }
}

fn optional_number(r: Option<Register>) -> (n: Option<i32>)
    ensures
        n == match r {
            Some(x) => Some(x.spec_number() as i32),
            None => None,
        },
{
    match r {
        Some(x) => Some(x.number()),
        None => None,
    }
}

/// Parses the operands of the opcode `op` at index `p` of line `l`.
fn parse_operands(line: &Vec<Token>, l: usize, p: usize, op: &String) -> (r: Result<
    Instruction,
    ParserError,
>)
    requires
        p < line.len() < usize::MAX,
        l < usize::MAX,
    ensures
        result_view(r) == operands(line@.map_values(|t: Token| t@), l as int, p as int, op@),
{
    let ghost view = line@.map_values(|t: Token| t@);
    let info = match lookup_opcode(&chars_of(op.as_str())) {
        Some(info) => info,
        None => {
            let mut message = String::from_str("Invalid opcode: ");
            message.append(op.as_str());
            return Err(ParserError { message, line_number: l + 1, column_number: p + 1 });
        },
    };
    let at_a = p + 1;
    let a = match register_in(line, at_a) {
        Some(a) => a,
        None => {
            return Err(error("Expected register", l, at_a + 1));
        },
    };
    let at_comma = at_a + 1;
    if !comma_in(line, at_comma) {
        return Err(error("Expected comma", l, at_comma + 1));
    }
    let at_next = at_comma + 1;
    match info.shape {
        OperandShape::OneRegister => {
            match number_in(line, at_next) {
                None => Err(error("Expected immediate", l, at_next + 1)),
                Some(imm) => Ok(
                    Instruction::new(
                        op.clone(),
                        a.number(),
                        None,
                        None,
                        imm,
                        l + 1,
                        p + 1,
                        Processor::Pipelined,
                    ),
                ),
            }
        },
        _ => {
            let b = match register_in(line, at_next) {
                Some(b) => b,
                None => {
                    return Err(error("Expected register", l, at_next + 1));
                },
            };
            let at_comma2 = at_next + 1;
            if !comma_in(line, at_comma2) {
                return Err(error("Expected comma", l, at_comma2 + 1));
            }
            let at_last = at_comma2 + 1;
            if info.shape == OperandShape::TwoRegisters {
                match number_in(line, at_last) {
                    None => Err(error("Expected immediate", l, at_last + 1)),
                    Some(imm) => Ok(
                        Instruction::new(
                            op.clone(),
                            a.number(),
                            Some(b.number()),
                            None,
                            imm,
                            l + 1,
                            p + 1,
                            Processor::Pipelined,
                        ),
                    ),
                }
            } else {
                match register_in(line, at_last) {
                    None => Err(error("Expected register", l, at_last + 1)),
                    Some(c) => {
                        if b == c {
                            Err(
                                error(
                                    "Register B and Register C must be different",
                                    l,
                                    at_last + 1,
                                ),
                            )
                        } else {
                            Ok(
                                Instruction::new(
                                    op.clone(),
                                    a.number(),
                                    optional_number(Some(b)),
                                    optional_number(Some(c)),
                                    0,
                                    l + 1,
                                    p + 1,
                                    Processor::Pipelined,
                                ),
                            )
                        }
                    },
                }
            }
        },
    }
}

/// Only an `EOF` stops the scan of a line.
proof fn lemma_no_stop_without_eof(line: Seq<TokenView>, l: int, n: int, start: Scan)
    requires
        0 <= n <= line.len(),
        forall|k: int| 0 <= k < n ==> !(#[trigger] line[k] is EOF),
    ensures
        !(scan_line(line, l, n, start) matches Ok((_, true))),
    decreases n,
{
    if n > 0 {
        lemma_no_stop_without_eof(line, l, n - 1, start);
        assert(!(line[n - 1] is EOF));
    }
}

/// A label that is not the first token of its line makes the parse fail,
/// unless an `EOF` before it on that line ends the line's scan; and when
/// nothing scanned before it fails, the error is the misplaced label's, at
/// its own line and column.
pub proof fn lemma_misplaced_label_fails(lines: Seq<Seq<TokenView>>, l: int, p: int)
    requires
        0 <= l < lines.len(),
        0 < p < lines[l].len(),
        lines[l][p] is Label,
        forall|k: int| 0 <= k < p ==> !(#[trigger] lines[l][k] is EOF),
    ensures
        parse_lines(lines) is Err,
        (scan_lines(lines, l) matches Ok(start) && scan_line(lines[l], l, p, start) is Ok)
            ==> parse_lines(lines) == Err::<Scan, ParserErrorView>(
            error_at("Label must be at the beginning of the line"@, l, p + 1),
        ),
{
    match scan_lines(lines, l) {
        Err(_) => {
            lemma_lines_error_stays(lines, l, lines.len() as int);
        },
        Ok(start) => {
            let line = lines[l];
            if scan_line(line, l, p, start) is Err {
                lemma_line_error_stays(line, l, p, line.len() as int, start);
                assert(scan_lines(lines, l + 1) is Err);
                lemma_lines_error_stays(lines, l + 1, lines.len() as int);
            } else {
                lemma_no_stop_without_eof(line, l, p, start);
                let e = error_at("Label must be at the beginning of the line"@, l, p + 1);
                assert(step_at(line, l, p) == Step::Fail(e));
                lemma_error_is_result(lines, l, p, start, e);
            }
        },
    }
}

/// The label texts among `tokens`, in order.
pub open spec fn label_texts(tokens: Seq<TokenView>) -> Seq<Seq<char>>
    decreases tokens.len(),
{
    if tokens.len() == 0 {
        Seq::empty()
    } else {
        let rest = label_texts(tokens.drop_last());
        match tokens.last() {
            TokenView::Label(text) => rest.push(text),
            _ => rest,
        }
    }
}

/// Once the scan of a line fails, scanning further tokens keeps that error.
pub proof fn lemma_line_error_stays(line: Seq<TokenView>, l: int, n: int, m: int, start: Scan)
    requires
        scan_line(line, l, n, start) is Err,
        0 <= n <= m,
    ensures
        scan_line(line, l, m, start) == scan_line(line, l, n, start),
    decreases m - n,
{
    if m > n {
        lemma_line_error_stays(line, l, n, m - 1, start);
    }
}

/// Once the scan of the lines fails, scanning further lines keeps that error.
pub proof fn lemma_lines_error_stays(lines: Seq<Seq<TokenView>>, n: int, m: int)
    requires
        scan_lines(lines, n) is Err,
        0 <= n <= m,
    ensures
        scan_lines(lines, m) == scan_lines(lines, n),
    decreases m - n,
{
    if m > n {
        lemma_lines_error_stays(lines, n, m - 1);
    }
}

/// An error met at token `p` of line `l` is the result of the whole parse.
pub proof fn lemma_error_is_result(
    lines: Seq<Seq<TokenView>>,
    l: int,
    p: int,
    start: Scan,
    e: ParserErrorView,
)
    requires
        0 <= l < lines.len(),
        0 <= p < lines[l].len(),
        scan_lines(lines, l) == Ok::<Scan, ParserErrorView>(start),
        scan_line(lines[l], l, p + 1, start) == Err::<(Scan, bool), ParserErrorView>(e),
    ensures
        parse_lines(lines) == Err::<Scan, ParserErrorView>(e),
{
    lemma_line_error_stays(lines[l], l, p + 1, lines[l].len() as int, start);
    assert(scan_lines(lines, l + 1) == Err::<Scan, ParserErrorView>(e));
    lemma_lines_error_stays(lines, l + 1, lines.len() as int);
}

/// A parse of one program: its token stream, and what a successful pass adds.
#[derive(Debug)]
pub struct Parser {
    pub token_stream: TokenStream,
    /// The lexer that read the source; it holds the source text.
    pub lexer: Lexer,
    /// The program, in source order.
    pub instructions: Vec<Instruction>,
    /// The label tokens' texts, gathered before parsing.
    pub labels: Vec<String>,
    /// The 1-based line of each label, recorded by a successful parse.
    pub label_line_numbers: Vec<usize>,
}

impl Parser {
    pub open spec fn instruction_views(&self) -> Seq<InstructionView> {
        self.instructions@.map_values(|i: Instruction| i@)
    }

    pub open spec fn label_views(&self) -> Seq<Seq<char>> {
        self.labels@.map_values(|s: String| s@)
    }

    pub open spec fn label_line_views(&self) -> Seq<int> {
        self.label_line_numbers@.map_values(|n: usize| n as int)
    }

    /// Lexes `sample` whole, in the pipelined dialect, into the token stream,
    /// and gathers the label texts.
    pub fn new(sample: &str) -> (r: Parser)
        requires
            sample@.len() + 1 < usize::MAX,
        ensures
            r.lexer.input@ == sample@,
            r.token_stream.lines() == group_lines(lex_from(sample@, 0, Processor::Pipelined)),
            all_tokens(r.token_stream.lines()) == lex_from(sample@, 0, Processor::Pipelined),
            lines_well_formed(r.token_stream.lines()),
            r.token_stream.position == 0,
            r.token_stream.line == 0,
            r.label_views() == label_texts(lex_from(sample@, 0, Processor::Pipelined)),
            r.instructions@.len() == 0,
            r.label_line_numbers@.len() == 0,
            columns_fit(r.token_stream.lines()),
    {
        let mut token_stream = TokenStream::new();
        let mut lexer = Lexer::new(sample);
        let instructions: Vec<Instruction> = Vec::new();
        let mut labels: Vec<String> = Vec::new();
        let label_line_numbers: Vec<usize> = Vec::new();
        let ghost s = sample@;
        let ghost all = lex_from(s, 0, Processor::Pipelined);
        let ghost mut done: Seq<TokenView> = Seq::empty();
        loop
            invariant_except_break
                lexer.input@ == s,
                lexer.position <= s.len(),
                done + lex_from(s, lexer.position as int, Processor::Pipelined) == all,
                done.len() <= lexer.position,
            invariant
                token_stream.lines() == group_lines(done),
                token_stream.position == 0,
                token_stream.line == 0,
                labels@.map_values(|t: String| t@) == label_texts(done),
                forall|l: int|
                    0 <= l < token_stream.lines().len() ==> #[trigger] token_stream.lines()[l].len()
                        <= done.len(),
                done.len() <= s.len() + 1,
            ensures
                lexer.input@ == s,
                done == all,
            decreases s.len() - lexer.position,
        {
            let ghost before = lexer.position as int;
            proof {
                lemma_step_advances(s, before, Processor::Pipelined);
            }
            let token = lexer.next_token(Processor::Pipelined);
            let ghost t = token@;
            let is_eof = match &token {
                Token::Label(text) => {
                    labels.push(text.clone());
                    false
                },
                Token::EOF => true,
                _ => false,
            };
            let ghost lines_before = token_stream.lines();
            token_stream.add(token);
            proof {
                assert(done.push(t).drop_last() =~= done);
                assert(labels@.map_values(|t: String| t@) =~= label_texts(done.push(t)));
                assert(lex_from(s, before, Processor::Pipelined) =~= if is_eof {
                    seq![t]
                } else {
                    seq![t] + lex_from(s, lexer.position as int, Processor::Pipelined)
                });
                assert forall|l: int|
                    0 <= l < token_stream.lines().len() implies #[trigger] token_stream.lines()[l].len()
                        <= done.len() + 1 by {
                    if l < lines_before.len() {
                        assert(token_stream.lines()[l].len() <= lines_before[l].len() + 1);
                    }
                }
                done = done.push(t);
                if !is_eof {
                    assert(done + lex_from(s, lexer.position as int, Processor::Pipelined) =~= all);
                } else {
                    assert(done =~= all);
                }
            }
            if is_eof {
                break ;
            }
        }
        proof {
            lemma_group_lines(all);
        }
        Parser { token_stream, lexer, instructions, labels, label_line_numbers }
    }

    /// Parses the token stream in one pass. On success the instructions and
    /// the label lines are appended and the parser is returned; on the first
    /// error nothing changes and the error is returned.
    pub fn parse(&mut self) -> (r: Result<&Parser, ParserError>)
        requires
            columns_fit(old(self).token_stream.lines()),
        ensures
            match parse_lines(old(self).token_stream.lines()) {
                Ok(scan) => {
                    &&& r matches Ok(p) && *p == *final(self)
                    &&& final(self).instruction_views() == old(self).instruction_views()
                        + scan.instructions
                    &&& final(self).label_line_views() == old(self).label_line_views()
                        + scan.label_lines
                    &&& final(self).token_stream == old(self).token_stream
                    &&& final(self).lexer == old(self).lexer
                    &&& final(self).labels == old(self).labels
                },
                Err(e) => r matches Err(x) && x@ == e && *final(self) == *old(self),
            },
    {
        let ghost lines = self.token_stream.lines();
        let mut found: Vec<Instruction> = Vec::new();
        let mut label_lines: Vec<usize> = Vec::new();
        let mut l: usize = 0;
        assert(found@.map_values(|i: Instruction| i@) =~= Seq::<InstructionView>::empty());
        assert(label_lines@.map_values(|n: usize| n as int) =~= Seq::<int>::empty());
        while l < self.token_stream.tokens_by_line.len()
            invariant
                *self == *old(self),
                lines == self.token_stream.lines(),
                lines.len() == self.token_stream.tokens_by_line.len(),
                columns_fit(lines),
                l <= lines.len(),
                scan_lines(lines, l as int) == Ok::<Scan, ParserErrorView>(
                    Scan {
                        instructions: found@.map_values(|i: Instruction| i@),
                        label_lines: label_lines@.map_values(|n: usize| n as int),
                    },
                ),
            decreases lines.len() - l,
        {
            let line = &self.token_stream.tokens_by_line[l];
            let ghost view = line@.map_values(|t: Token| t@);
            assert(view == lines[l as int]);
            let ghost start = Scan {
                instructions: found@.map_values(|i: Instruction| i@),
                label_lines: label_lines@.map_values(|n: usize| n as int),
            };
            let mut stopped = false;
            let mut p: usize = 0;
            while p < line.len()
                invariant
                    *self == *old(self),
                    lines == self.token_stream.lines(),
                    view == line@.map_values(|t: Token| t@),
                    line.len() < usize::MAX,
                    l < lines.len(),
                    lines.len() == self.token_stream.tokens_by_line.len(),
                    view == lines[l as int],
                    scan_lines(lines, l as int) == Ok::<Scan, ParserErrorView>(start),
                    p <= line.len(),
                    scan_line(view, l as int, p as int, start) == Ok::<(Scan, bool), ParserErrorView>(
                        (
                            Scan {
                                instructions: found@.map_values(|i: Instruction| i@),
                                label_lines: label_lines@.map_values(|n: usize| n as int),
                            },
                            stopped,
                        ),
                    ),
                decreases line.len() - p,
            {
                if !stopped {
                    let ghost found_before = found@;
                    let ghost labels_before = label_lines@;
                    assert(view[p as int] == line@[p as int]@);
                    match &line[p] {
                        Token::Label(_) => {
                            if p != 0 {
                                let e = error("Label must be at the beginning of the line", l, p + 1);
                                proof {
                                    lemma_error_is_result(lines, l as int, p as int, start, e@);
                                }
                                return Err(e);
                            }
                            label_lines.push(l + 1);
                            assert(label_lines@.map_values(|n: usize| n as int)
                                =~= labels_before.map_values(|n: usize| n as int).push(l + 1));
                        },
                        Token::Opcode(op) => {
                            match parse_operands(line, l, p, op) {
                                Ok(instruction) => {
                                    found.push(instruction);
                                    assert(found@.map_values(|i: Instruction| i@)
                                        =~= found_before.map_values(|i: Instruction| i@).push(
                                        instruction@,
                                    ));
                                },
                                Err(e) => {
                                    proof {
                                        lemma_error_is_result(lines, l as int, p as int, start, e@);
                                        }
                                    return Err(e);
                                },
                            }
                        },
                        Token::EOF => {
                            stopped = true;
                        },
                        Token::Error(text) => {
                            let mut message = String::from_str("Invalid Token: ");
                            message.append(text.as_str());
                            let e = ParserError {
                                message,
                                line_number: l + 1,
                                column_number: p + 1,
                            };
                            proof {
                                lemma_error_is_result(lines, l as int, p as int, start, e@);
                            }
                            return Err(e);
                        },
                        _ => {},
                    }
                }
                p = p + 1;
            }
            l = l + 1;
        }
        let mut k: usize = 0;
        let ghost instructions_before = self.instruction_views();
        while k < found.len()
            invariant
                k <= found.len(),
                self.instruction_views() == instructions_before + found@.subrange(
                    0,
                    k as int,
                ).map_values(|i: Instruction| i@),
                self.token_stream == old(self).token_stream,
                self.lexer == old(self).lexer,
                self.labels == old(self).labels,
                self.label_line_numbers == old(self).label_line_numbers,
            decreases found.len() - k,
        {
            let ghost views_before = self.instruction_views();
            let instruction = found[k].clone();
            self.add_instruction(instruction);
            assert(self.instruction_views() =~= views_before.push(found@[k as int]@));
            assert(found@.subrange(0, k + 1).map_values(|i: Instruction| i@)
                =~= found@.subrange(0, k as int).map_values(|i: Instruction| i@).push(found@[k as int]@));
            assert(self.instruction_views() =~= instructions_before + found@.subrange(
                0,
                k + 1,
            ).map_values(|i: Instruction| i@));
            k = k + 1;
        }
        assert(found@.subrange(0, found.len() as int) =~= found@);
        let mut j: usize = 0;
        let ghost label_lines_before = self.label_line_views();
        while j < label_lines.len()
            invariant
                j <= label_lines.len(),
                self.label_line_views() == label_lines_before + label_lines@.subrange(
                    0,
                    j as int,
                ).map_values(|n: usize| n as int),
                self.instruction_views() == instructions_before + found@.map_values(
                    |i: Instruction| i@,
                ),
                self.token_stream == old(self).token_stream,
                self.lexer == old(self).lexer,
                self.labels == old(self).labels,
            decreases label_lines.len() - j,
        {
            let ghost views_before = self.label_line_views();
            self.label_line_numbers.push(label_lines[j]);
            assert(self.label_line_views() =~= views_before.push(label_lines@[j as int] as int));
            assert(label_lines@.subrange(0, j + 1).map_values(|n: usize| n as int)
                =~= label_lines@.subrange(0, j as int).map_values(|n: usize| n as int).push(label_lines@[j as int] as int));
            assert(self.label_line_views() =~= label_lines_before + label_lines@.subrange(
                0,
                j + 1,
            ).map_values(|n: usize| n as int));
            j = j + 1;
        }
        assert(label_lines@.subrange(0, label_lines.len() as int) =~= label_lines@);
        Ok(self)
    }

    pub fn add_instruction(&mut self, instruction: Instruction)
        ensures
            final(self).instructions@ == old(self).instructions@.push(instruction),
            final(self).token_stream == old(self).token_stream,
            final(self).lexer == old(self).lexer,
            final(self).labels == old(self).labels,
            final(self).label_line_numbers == old(self).label_line_numbers,
    {
        self.instructions.push(instruction);
    }
}

} // verus!
