//! Tokenization of assembly source text, aware of the two mnemonic dialects,
//! and the line-indexed token stream the parser consumes.
use vstd::prelude::*;
use crate::opcodes::{is_pipelined_mnemonic, is_pipelined_word, is_single_cycle_mnemonic,
    is_single_cycle_word};
use crate::text::{alphabetic, alphanumeric, chars_of, is_alphabetic, is_alphanumeric,
    is_decimal_digit, is_white_space, i32_of_text, parse_decimal, parse_hexadecimal, string_of,
    upper_of, uppercase, white_space};

verus! {

/// The instruction-set dialect that decides which mnemonics are valid.
#[derive(Debug, Clone, Copy, PartialEq, Eq, Structural)]
pub enum Processor {
    SingleCycle,
    Pipelined,
}

/// One of the eight general-purpose registers.
#[derive(Debug, Clone, Copy, PartialEq, Eq, Structural)]
pub enum Register {
    R0,
    R1,
    R2,
    R3,
    R4,
    R5,
    R6,
    R7,
}

impl Register {
    pub open spec fn spec_number(self) -> int {
        match self {
            Register::R0 => 0,
            Register::R1 => 1,
            Register::R2 => 2,
            Register::R3 => 3,
            Register::R4 => 4,
            Register::R5 => 5,
            Register::R6 => 6,
            Register::R7 => 7,
        }
    }

    /// The register's index, 0 to 7.
    pub fn number(self) -> (r: i32)
        ensures
            r == self.spec_number(),
            0 <= r <= 7,
    {
        match self {
            Register::R0 => 0,
            Register::R1 => 1,
            Register::R2 => 2,
            Register::R3 => 3,
            Register::R4 => 4,
            Register::R5 => 5,
            Register::R6 => 6,
            Register::R7 => 7,
        }
    }
}

/// A lexical token.
#[derive(Debug, PartialEq)]
pub enum Token {
    /// A mnemonic of the current dialect, as written.
    Opcode(String),
    /// A label, with its trailing `:`.
    Label(String),
    Number(i32),
    Register(Register),
    /// The text of a comment, without its `//` or `;`.
    Comment(String),
    EOF,
    /// A lexical anomaly, carried forward as data.
    Error(String),
    Comma,
    NewLine,
}

/// A token with its text as a sequence of characters.
pub enum TokenView {
    Opcode(Seq<char>),
    Label(Seq<char>),
    Number(i32),
    Register(Register),
    Comment(Seq<char>),
    EOF,
    Error(Seq<char>),
    Comma,
    NewLine,
}

impl View for Token {
    type V = TokenView;

    open spec fn view(&self) -> TokenView {
        match self {
            Token::Opcode(s) => TokenView::Opcode(s@),
            Token::Label(s) => TokenView::Label(s@),
            Token::Number(n) => TokenView::Number(*n),
            Token::Register(r) => TokenView::Register(*r),
            Token::Comment(s) => TokenView::Comment(s@),
            Token::EOF => TokenView::EOF,
            Token::Error(s) => TokenView::Error(s@),
            Token::Comma => TokenView::Comma,
            Token::NewLine => TokenView::NewLine,
        }
    }
}

impl Clone for Token {
    fn clone(&self) -> (r: Self)
        ensures
            r == *self,
    {
        match self {
            Token::Opcode(s) => Token::Opcode(s.clone()),
            Token::Label(s) => Token::Label(s.clone()),
            Token::Number(n) => Token::Number(*n),
            Token::Register(r) => Token::Register(*r),
            Token::Comment(s) => Token::Comment(s.clone()),
            Token::EOF => Token::EOF,
            Token::Error(s) => Token::Error(s.clone()),
            Token::Comma => Token::Comma,
            Token::NewLine => Token::NewLine,
        }
    }
}

impl TokenView {
    /// Whether the token carries text: an opcode, a label, a comment or an error.
    pub open spec fn has_text(self) -> bool {
        self is Opcode || self is Label || self is Comment || self is Error
    }

    pub open spec fn text(self) -> Seq<char> {
        match self {
            TokenView::Opcode(s) => s,
            TokenView::Label(s) => s,
            TokenView::Comment(s) => s,
            TokenView::Error(s) => s,
            _ => Seq::empty(),
        }
    }
}

impl Token {
    /// The text of an opcode, label, comment or error token.
    pub fn get_token_string(&self) -> (r: String)
        requires
            self@.has_text(),
        ensures
            r@ == self@.text(),
    {
        match self {
            Token::Opcode(s) => s.clone(),
            Token::Label(s) => s.clone(),
            Token::Comment(s) => s.clone(),
            Token::Error(s) => s.clone(),
            _ => String::new(),
        }
    }
}

/// Whitespace that does not end a line.
pub open spec fn is_blank(c: char) -> bool {
    white_space(c) && c != '\n'
}

/// A character that may continue an identifier.
pub open spec fn is_word_char(c: char) -> bool {
    alphanumeric(c) || c == '_'
}

/// A character that ends the text of a number.
pub open spec fn ends_number(c: char) -> bool {
    white_space(c) || c == ',' || c == ';' || c == '\n'
}

/// The first index from `i` on that is not a blank.
pub open spec fn skip_blanks(s: Seq<char>, i: int) -> int
    decreases s.len() - i,
{
    if 0 <= i < s.len() && is_blank(s[i]) {
        skip_blanks(s, i + 1)
    } else {
        i
    }
}

/// The first index from `i` on that does not continue an identifier.
pub open spec fn word_end(s: Seq<char>, i: int) -> int
    decreases s.len() - i,
{
    if 0 <= i < s.len() && is_word_char(s[i]) {
        word_end(s, i + 1)
    } else {
        i
    }
}

/// The first index from `i` on that ends the text of a number.
pub open spec fn number_end(s: Seq<char>, i: int) -> int
    decreases s.len() - i,
{
    if 0 <= i < s.len() && !ends_number(s[i]) {
        number_end(s, i + 1)
    } else {
        i
    }
}

/// The index of the first newline from `i` on, or the end of the input.
pub open spec fn line_end(s: Seq<char>, i: int) -> int
    decreases s.len() - i,
{
    if 0 <= i < s.len() && s[i] != '\n' {
        line_end(s, i + 1)
    } else {
        i
    }
}

/// Each scan ends at or after where it starts, and within the input.
pub proof fn lemma_scan_bounds(s: Seq<char>, i: int)
    requires
        0 <= i <= s.len(),
    ensures
        i <= skip_blanks(s, i) <= s.len(),
        i <= word_end(s, i) <= s.len(),
        i <= number_end(s, i) <= s.len(),
        i <= line_end(s, i) <= s.len(),
    decreases s.len() - i,
{
    if i < s.len() {
        lemma_scan_bounds(s, i + 1);
    }
}

/// The register an uppercased word names, if it is `R0` to `R7`.
pub open spec fn register_named(u: Seq<char>) -> Option<Register> {
    if u.len() == 2 && u[0] == 'R' {
        if u[1] == '0' { Some(Register::R0) }
        else if u[1] == '1' { Some(Register::R1) }
        else if u[1] == '2' { Some(Register::R2) }
        else if u[1] == '3' { Some(Register::R3) }
        else if u[1] == '4' { Some(Register::R4) }
        else if u[1] == '5' { Some(Register::R5) }
        else if u[1] == '6' { Some(Register::R6) }
        else if u[1] == '7' { Some(Register::R7) }
        else { None }
    } else {
        None
    }
}

/// Whether an uppercased word is a mnemonic of the dialect.
pub open spec fn is_mnemonic(p: Processor, u: Seq<char>) -> bool {
    match p {
        Processor::SingleCycle => is_single_cycle_mnemonic(u),
        Processor::Pipelined => is_pipelined_mnemonic(u),
    }
}

/// The token an identifier that is no label stands for.
pub open spec fn word_token(w: Seq<char>, p: Processor) -> TokenView {
    let u = upper_of(w);
    match register_named(u) {
        Some(r) => TokenView::Register(r),
        None => if is_mnemonic(p, u) {
            TokenView::Opcode(w)
        } else {
            TokenView::Error(w)
        },
    }
}

/// The token for the text of a decimal literal.
pub open spec fn decimal_token(text: Seq<char>) -> TokenView {
    match i32_of_text(text, 10) {
        Some(n) => TokenView::Number(n),
        None => TokenView::Error("Invalid number: "@ + text),
    }
}

/// The token for the text of a literal that starts with a digit: hexadecimal
/// after a `0x` prefix, else decimal.
pub open spec fn number_token(text: Seq<char>) -> TokenView {
    if text.len() >= 2 && text[0] == '0' && text[1] == 'x' {
        match i32_of_text(text.subrange(2, text.len() as int), 16) {
            Some(n) => TokenView::Number(n),
            None => TokenView::Error("Invalid number: "@ + text),
        }
    } else {
        decimal_token(text)
    }
}

/// One step of the lexer: the token found at cursor `pos` of `s` in dialect
/// `p`, and the cursor after it.
pub open spec fn lex_step(s: Seq<char>, pos: int, p: Processor) -> (TokenView, int) {
    let i = skip_blanks(s, pos);
    if !(0 <= i < s.len()) {
        (TokenView::EOF, i)
    } else {
        let c = s[i];
        if is_decimal_digit(c) {
            let e = number_end(s, i + 1);
            (number_token(s.subrange(i, e)), e)
        } else if alphabetic(c) {
            let k = word_end(s, i + 1);
            let j = skip_blanks(s, k);
            if 0 <= j < s.len() && s[j] == ':' {
                (TokenView::Label(s.subrange(i, k).push(':')), j + 1)
            } else {
                (word_token(s.subrange(i, k), p), j)
            }
        } else if c == '/' && i + 1 < s.len() && s[i + 1] == '/' {
            let e = line_end(s, i + 2);
            (TokenView::Comment(s.subrange(i + 2, e)), e)
        } else if c == ';' {
            let e = line_end(s, i + 1);
            (TokenView::Comment(s.subrange(i + 1, e)), e)
        } else if c == ',' {
            (TokenView::Comma, i + 1)
        } else if c == '\n' {
            (TokenView::NewLine, i + 1)
        } else if c == '#' {
            if i + 1 < s.len() {
                let e = number_end(s, i + 2);
                (decimal_token(s.subrange(i + 1, e)), e)
            } else {
                (TokenView::Error("Invalid number: "@ + seq!['#']), i + 1)
            }
        } else {
            (TokenView::Error("Unknown token: "@ + seq![c]), i + 1)
        }
    }
}

/// A step from a cursor within the input yields `EOF` exactly at the end of
/// the input, where the cursor stays; any other token moves the cursor
/// forward, and not past the end.
pub proof fn lemma_step_advances(s: Seq<char>, pos: int, p: Processor)
    requires
        0 <= pos <= s.len(),
    ensures
        lex_step(s, pos, p).0 is EOF ==> lex_step(s, pos, p).1 == s.len(),
        !(lex_step(s, pos, p).0 is EOF) ==> pos < lex_step(s, pos, p).1 <= s.len(),
{
    lemma_scan_bounds(s, pos);
    let i = skip_blanks(s, pos);
    if i < s.len() {
        lemma_scan_bounds(s, i + 1);
        if i + 2 <= s.len() {
            lemma_scan_bounds(s, i + 2);
        }
        let k = word_end(s, i + 1);
        lemma_scan_bounds(s, k);
    }
}

/// The tokens that repeated steps yield from cursor `pos` on, up to and
/// including the first `EOF`.
pub open spec fn lex_from(s: Seq<char>, pos: int, p: Processor) -> Seq<TokenView>
    decreases s.len() - pos,
{
    let (t, next) = lex_step(s, pos, p);
    if t is EOF || !(pos < next <= s.len()) {
        seq![t]
    } else {
        seq![t] + lex_from(s, next, p)
    }
}

/// A run of a fresh lexer over `s` in dialect `p`: from cursor 0, each call
/// of `next_token` yields `tokens[k]` from cursor `cursors[k]` and leaves
/// cursor `cursors[k + 1]`, and the run ends at the first `EOF`.
pub open spec fn is_lexer_run(
    s: Seq<char>,
    p: Processor,
    tokens: Seq<TokenView>,
    cursors: Seq<int>,
) -> bool {
    &&& tokens.len() > 0
    &&& cursors.len() == tokens.len() + 1
    &&& cursors[0] == 0
    &&& forall|k: int|
        0 <= k < tokens.len() ==> #[trigger] lex_step(s, cursors[k], p) == (tokens[k], cursors[k + 1])
    &&& tokens.last() is EOF
    &&& forall|k: int| 0 <= k < tokens.len() - 1 ==> !(#[trigger] tokens[k] is EOF)
}

/// Two runs over the same input agree on their first `k` tokens and on the
/// cursor each of them leaves.
proof fn lemma_runs_agree(
    s: Seq<char>,
    p: Processor,
    a: Seq<TokenView>,
    a_cursors: Seq<int>,
    b: Seq<TokenView>,
    b_cursors: Seq<int>,
    k: int,
)
    requires
        is_lexer_run(s, p, a, a_cursors),
        is_lexer_run(s, p, b, b_cursors),
        0 <= k <= a.len(),
        k <= b.len(),
    ensures
        a_cursors[k] == b_cursors[k],
        forall|j: int| 0 <= j < k ==> a[j] == b[j],
    decreases k,
{
    if k > 0 {
        lemma_runs_agree(s, p, a, a_cursors, b, b_cursors, k - 1);
        assert(lex_step(s, a_cursors[k - 1], p) == (a[k - 1], a_cursors[k]));
        assert(lex_step(s, b_cursors[k - 1], p) == (b[k - 1], b_cursors[k]));
    }
}

/// Lexing is deterministic: any two runs of fresh lexers over the same input
/// in the same dialect yield identical token sequences.
pub proof fn lemma_lexing_is_deterministic(
    s: Seq<char>,
    p: Processor,
    a: Seq<TokenView>,
    a_cursors: Seq<int>,
    b: Seq<TokenView>,
    b_cursors: Seq<int>,
)
    requires
        is_lexer_run(s, p, a, a_cursors),
        is_lexer_run(s, p, b, b_cursors),
    ensures
        a == b,
{
    let n: int = if a.len() < b.len() { a.len() as int } else { b.len() as int };
    lemma_runs_agree(s, p, a, a_cursors, b, b_cursors, n);
    if a.len() < b.len() {
        assert(a[a.len() - 1] is EOF);
        assert(!(b[a.len() - 1] is EOF));
    } else if b.len() < a.len() {
        assert(b[b.len() - 1] is EOF);
        assert(!(a[b.len() - 1] is EOF));
    }
    assert(a =~= b);
}

/// A string made of `prefix` followed by `tail`.
fn message(prefix: &str, tail: &Vec<char>) -> (r: String)
    ensures
        r@ == prefix@ + tail@,
{
    let mut m = String::from_str(prefix);
    let t = string_of(tail);
    m.append(t.as_str());
    m
}

/// The register token an uppercased word names, if any.
fn read_string_to_register(word: &Vec<char>) -> (r: Option<Token>)
    ensures
        match register_named(word@) {
            Some(reg) => r == Some(Token::Register(reg)),
            None => r is None,
        },
{
    if word.len() != 2 || word[0] != 'R' {
        return None;
    }
    let reg = match word[1] {
        '0' => Register::R0,
        '1' => Register::R1,
        '2' => Register::R2,
        '3' => Register::R3,
        '4' => Register::R4,
        '5' => Register::R5,
        '6' => Register::R6,
        '7' => Register::R7,
        _ => {
            return None;
        },
    };
    Some(Token::Register(reg))
}

fn decimal_literal(text: &Vec<char>) -> (r: Token)
    ensures
        r@ == decimal_token(text@),
{
    let s = string_of(text);
    match parse_decimal(s.as_str()) {
        Some(n) => Token::Number(n),
        None => Token::Error(message("Invalid number: ", text)),
    }
}

fn number_literal(text: &Vec<char>) -> (r: Token)
    ensures
        r@ == number_token(text@),
{
    if text.len() >= 2 && text[0] == '0' && text[1] == 'x' {
        let mut digits: Vec<char> = Vec::new();
        let mut i: usize = 2;
        while i < text.len()
            invariant
                2 <= i <= text.len(),
                digits@ == text@.subrange(2, i as int),
            decreases text.len() - i,
        {
            digits.push(text[i]);
            i = i + 1;
        }
        let s = string_of(&digits);
        match parse_hexadecimal(s.as_str()) {
            Some(n) => Token::Number(n),
            None => Token::Error(message("Invalid number: ", text)),
        }
    } else {
        decimal_literal(text)
    }
}

fn word_literal(word: Vec<char>, processor: Processor) -> (r: Token)
    ensures
        r@ == word_token(word@, processor),
{
    let text = string_of(&word);
    let upper = chars_of(uppercase(text.as_str()).as_str());
    match read_string_to_register(&upper) {
        Some(token) => token,
        None => {
            let known = match processor {
                Processor::SingleCycle => is_single_cycle_word(&upper),
                Processor::Pipelined => is_pipelined_word(&upper),
            };
            if known {
                Token::Opcode(text)
            } else {
                Token::Error(text)
            }
        },
    }
}

/// A cursor over the characters of one source text.
#[derive(Debug)]
pub struct Lexer {
    pub input: Vec<char>,
    /// The index of the next character to read.
    pub position: usize,
}

impl Lexer {
    pub fn new(input: &str) -> (r: Lexer)
        ensures
            r.input@ == input@,
            r.position == 0,
    {
        Lexer { input: chars_of(input), position: 0 }
    }

    fn next_char(&mut self) -> (r: Option<char>)
        ensures
            final(self).input == old(self).input,
            old(self).position < old(self).input.len() ==> r == Some(
                old(self).input@[old(self).position as int],
            ) && final(self).position == old(self).position + 1,
            old(self).position >= old(self).input.len() ==> r is None && final(self).position
                == old(self).position,
    {
        if self.position < self.input.len() {
            let ch = self.input[self.position];
            self.position = self.position + 1;
            Some(ch)
        } else {
            None
        }
    }

    fn peek_char(&self) -> (r: Option<char>)
        ensures
            self.position < self.input.len() ==> r == Some(self.input@[self.position as int]),
            self.position >= self.input.len() ==> r is None,
    {
        if self.position < self.input.len() {
            Some(self.input[self.position])
        } else {
            None
        }
    }

    fn skip_whitespace(&mut self)
        ensures
            final(self).input == old(self).input,
            final(self).position == skip_blanks(old(self).input@, old(self).position as int),
    {
        while self.position < self.input.len() && is_white_space(self.input[self.position])
            && self.input[self.position] != '\n'
            invariant
                self.input == old(self).input,
                skip_blanks(self.input@, self.position as int) == skip_blanks(
                    old(self).input@,
                    old(self).position as int,
                ),
            decreases self.input.len() - self.position,
        {
            self.position = self.position + 1;
        }
    }

    /// Reads the text of a number whose first character was `first`.
    fn read_number(&mut self, first: char) -> (r: Vec<char>)
        requires
            old(self).position <= old(self).input.len(),
        ensures
            final(self).input == old(self).input,
            final(self).position == number_end(old(self).input@, old(self).position as int),
            r@ == seq![first] + old(self).input@.subrange(
                old(self).position as int,
                final(self).position as int,
            ),
    {
        let ghost start = self.position as int;
        let mut number: Vec<char> = vec![first];
        while self.position < self.input.len() && !(is_white_space(self.input[self.position])
            || self.input[self.position] == ',' || self.input[self.position] == ';'
            || self.input[self.position] == '\n')
            invariant
                self.input == old(self).input,
                start == old(self).position,
                start <= self.position <= self.input.len(),
                number_end(self.input@, self.position as int) == number_end(self.input@, start),
                number@ == seq![first] + self.input@.subrange(start, self.position as int),
            decreases self.input.len() - self.position,
        {
            number.push(self.input[self.position]);
            self.position = self.position + 1;
            assert(number@ =~= seq![first] + self.input@.subrange(start, self.position as int));
        }
        number
    }

    /// Reads an identifier whose first character was `first`, and a `:` that
    /// follows it after optional blanks; says whether it read that `:`.
    fn read_identifier(&mut self, first: char) -> (r: (Vec<char>, bool))
        requires
            old(self).position <= old(self).input.len(),
        ensures
            final(self).input == old(self).input,
            ({
                let s = old(self).input@;
                let k = word_end(s, old(self).position as int);
                let j = skip_blanks(s, k);
                let word = seq![first] + s.subrange(old(self).position as int, k);
                if 0 <= j < s.len() && s[j] == ':' {
                    r.1 && r.0@ == word.push(':') && final(self).position == j + 1
                } else {
                    !r.1 && r.0@ == word && final(self).position == j
                }
            }),
    {
        let ghost start = self.position as int;
        let mut identifier: Vec<char> = vec![first];
        while self.position < self.input.len() && (is_alphanumeric(self.input[self.position])
            || self.input[self.position] == '_')
            invariant
                self.input == old(self).input,
                start == old(self).position,
                start <= self.position <= self.input.len(),
                word_end(self.input@, self.position as int) == word_end(self.input@, start),
                identifier@ == seq![first] + self.input@.subrange(start, self.position as int),
            decreases self.input.len() - self.position,
        {
            identifier.push(self.input[self.position]);
            self.position = self.position + 1;
            assert(identifier@ =~= seq![first] + self.input@.subrange(
                start,
                self.position as int,
            ));
        }
        self.skip_whitespace();
        match self.peek_char() {
            Some(ch) => {
                if ch == ':' {
                    identifier.push(ch);
                    self.next_char();
                    return (identifier, true);
                }
            },
            None => {},
        }
        (identifier, false)
    }

    /// Reads up to, and not including, the next newline or the end of input.
    fn read_to_line_end(&mut self) -> (r: Vec<char>)
        requires
            old(self).position <= old(self).input.len(),
        ensures
            final(self).input == old(self).input,
            final(self).position == line_end(old(self).input@, old(self).position as int),
            r@ == old(self).input@.subrange(
                old(self).position as int,
                final(self).position as int,
            ),
    {
        let ghost start = self.position as int;
        let mut text: Vec<char> = Vec::new();
        while self.position < self.input.len() && self.input[self.position] != '\n'
            invariant
                self.input == old(self).input,
                start == old(self).position,
                start <= self.position <= self.input.len(),
                line_end(self.input@, self.position as int) == line_end(self.input@, start),
                text@ == self.input@.subrange(start, self.position as int),
            decreases self.input.len() - self.position,
        {
            text.push(self.input[self.position]);
            self.position = self.position + 1;
            assert(text@ =~= self.input@.subrange(start, self.position as int));
        }
        text
    }

    /// Reads the next token in dialect `processor`; `EOF` once the input is
    /// exhausted.
    pub fn next_token(&mut self, processor: Processor) -> (r: Token)
        ensures
            final(self).input == old(self).input,
            (r@, final(self).position as int) == lex_step(
                old(self).input@,
                old(self).position as int,
                processor,
            ),
    {
        let ghost step = lex_step(self.input@, self.position as int, processor);
        self.skip_whitespace();
        let ghost i = self.position as int;
        let ghost s = self.input@;
        let token = match self.next_char() {
            None => Token::EOF,
            Some(ch) => {
                proof {
                    lemma_scan_bounds(s, i + 1);
                    if i + 2 <= s.len() {
                        lemma_scan_bounds(s, i + 2);
                    }
                }
                if '0' <= ch && ch <= '9' {
                    let text = self.read_number(ch);
                    assert(text@ =~= s.subrange(i, self.position as int));
                    number_literal(&text)
                } else if is_alphabetic(ch) {
                    let (word, is_label) = self.read_identifier(ch);
                    proof {
                        let k = word_end(s, i + 1);
                        lemma_scan_bounds(s, k);
                        assert(seq![ch] + s.subrange(i + 1, k) =~= s.subrange(i, k));
                    }
                    if is_label {
                        Token::Label(string_of(&word))
                    } else {
                        word_literal(word, processor)
                    }
                } else if ch == '/' && self.position < self.input.len()
                    && self.input[self.position] == '/' {
                    self.position = self.position + 1;
                    let text = self.read_to_line_end();
                    Token::Comment(string_of(&text))
                } else if ch == ';' {
                    let text = self.read_to_line_end();
                    Token::Comment(string_of(&text))
                } else if ch == ',' {
                    Token::Comma
                } else if ch == '\n' {
                    Token::NewLine
                } else if ch == '#' {
                    match self.next_char() {
                        Some(digit) => {
                            let text = self.read_number(digit);
                            assert(text@ =~= s.subrange(i + 1, self.position as int));
                            decimal_literal(&text)
                        },
                        None => {
                            let tail = vec!['#'];
                            assert(tail@ =~= seq!['#']);
                            Token::Error(message("Invalid number: ", &tail))
                        },
                    }
                } else {
                    let tail = vec![ch];
                    assert(tail@ =~= seq![ch]);
                    Token::Error(message("Unknown token: ", &tail))
                }
            },
        };
        assert(token@ == step.0);
        token
    }
}

/// The tokens of a line list, in order.
pub open spec fn all_tokens(lines: Seq<Seq<TokenView>>) -> Seq<TokenView>
    decreases lines.len(),
{
    if lines.len() == 0 {
        Seq::empty()
    } else {
        all_tokens(lines.drop_last()) + lines.last()
    }
}

/// The line list after appending `t`: a new line starts after a `NewLine`
/// (or when there is no line to append to), else `t` joins the last line.
pub open spec fn add_to_lines(lines: Seq<Seq<TokenView>>, t: TokenView) -> Seq<Seq<TokenView>> {
    if lines.len() == 0 || lines.last().len() == 0 || lines.last().last() is NewLine {
        lines.push(seq![t])
    } else {
        lines.update(lines.len() - 1, lines.last().push(t))
    }
}

/// The line list that appending `tokens` one by one to an empty stream builds.
pub open spec fn group_lines(tokens: Seq<TokenView>) -> Seq<Seq<TokenView>>
    decreases tokens.len(),
{
    if tokens.len() == 0 {
        Seq::empty()
    } else {
        add_to_lines(group_lines(tokens.drop_last()), tokens.last())
    }
}

/// Every line is non-empty, and a `NewLine` ends each line but the last and
/// stands nowhere else.
pub open spec fn lines_well_formed(lines: Seq<Seq<TokenView>>) -> bool {
    &&& forall|l: int| 0 <= l < lines.len() ==> #[trigger] lines[l].len() > 0
    &&& forall|l: int| 0 <= l < lines.len() - 1 ==> #[trigger] lines[l].last() is NewLine
    &&& forall|l: int, k: int|
        0 <= l < lines.len() && 0 <= k < lines[l].len() - 1 ==> !(#[trigger] lines[l][k] is NewLine)
}

/// Appending a token keeps every token already in the stream, in order, and
/// puts the new one last.
pub proof fn lemma_add_keeps_order(lines: Seq<Seq<TokenView>>, t: TokenView)
    ensures
        all_tokens(add_to_lines(lines, t)) == all_tokens(lines).push(t),
{
    let added = add_to_lines(lines, t);
    if lines.len() == 0 || lines.last().len() == 0 || lines.last().last() is NewLine {
        assert(added.drop_last() =~= lines);
        assert(all_tokens(added) =~= all_tokens(lines).push(t));
    } else {
        assert(added.drop_last() =~= lines.drop_last());
        assert(all_tokens(added) =~= all_tokens(lines).push(t));
    }
}

/// Appending a token to a well-formed stream keeps it well-formed: a line
/// ends exactly where a `NewLine` was appended.
pub proof fn lemma_add_keeps_well_formed(lines: Seq<Seq<TokenView>>, t: TokenView)
    requires
        lines_well_formed(lines),
    ensures
        lines_well_formed(add_to_lines(lines, t)),
{
    let added = add_to_lines(lines, t);
    assert forall|l: int, k: int|
        0 <= l < added.len() && 0 <= k < added[l].len() - 1 implies !(#[trigger] added[l][k] is NewLine) by {
        if l < lines.len() - 1 {
            assert(added[l] == lines[l]);
        }
    }
}

/// Grouping a token sequence by lines keeps every token in order, and
/// yields a well-formed stream.
pub proof fn lemma_group_lines(tokens: Seq<TokenView>)
    ensures
        all_tokens(group_lines(tokens)) == tokens,
        lines_well_formed(group_lines(tokens)),
    decreases tokens.len(),
{
    if tokens.len() > 0 {
        lemma_group_lines(tokens.drop_last());
        lemma_add_keeps_order(group_lines(tokens.drop_last()), tokens.last());
        lemma_add_keeps_well_formed(group_lines(tokens.drop_last()), tokens.last());
        assert(tokens.drop_last().push(tokens.last()) =~= tokens);
    }
}

/// Tokens grouped by source line, with a read cursor.
#[derive(Debug)]
pub struct TokenStream {
    pub tokens_by_line: Vec<Vec<Token>>,
    /// The index of the next token within its line.
    pub position: usize,
    /// The index of the current line.
    pub line: usize,
}

impl TokenStream {
    /// The stream's lines, each a sequence of token views.
    pub open spec fn lines(&self) -> Seq<Seq<TokenView>> {
        self.tokens_by_line@.map_values(|l: Vec<Token>| l@.map_values(|t: Token| t@))
    }

    pub fn new() -> (r: TokenStream)
        ensures
            r.lines() == Seq::<Seq<TokenView>>::empty(),
            r.position == 0,
            r.line == 0,
    {
        let r = TokenStream { tokens_by_line: Vec::new(), position: 0, line: 0 };
        assert(r.lines() =~= Seq::<Seq<TokenView>>::empty());
        r
    }

    /// A stream of one line that holds `tokens` as they are.
    pub fn from(tokens: Vec<Token>) -> (r: TokenStream)
        ensures
            r.lines() == seq![tokens@.map_values(|t: Token| t@)],
            r.position == 0,
            r.line == 0,
    {
        let ghost line = tokens@.map_values(|t: Token| t@);
        let r = TokenStream { tokens_by_line: vec![tokens], position: 0, line: 0 };
        assert(r.lines() =~= seq![line]);
        r
    }

    /// Appends a token to the current line; the token after a `NewLine` opens
    /// a new line.
    pub fn add(&mut self, token: Token)
        ensures
            final(self).lines() == add_to_lines(old(self).lines(), token@),
            final(self).position == old(self).position,
            final(self).line == old(self).line,
    {
        let ghost t = token@;
        let n = self.tokens_by_line.len();
        let opens_line = if n == 0 {
            true
        } else {
            let last = &self.tokens_by_line[n - 1];
            if last.len() == 0 {
                true
            } else {
                match &last[last.len() - 1] {
                    Token::NewLine => true,
                    _ => false,
                }
            }
        };
        if opens_line {
            self.tokens_by_line.push(vec![token]);
            assert(self.lines()[n as int] =~= seq![t]);
            assert(self.lines() =~= old(self).lines().push(seq![t]));
        } else {
            let mut last = self.tokens_by_line.pop().unwrap();
            last.push(token);
            self.tokens_by_line.push(last);
            assert(self.lines()[n - 1] =~= old(self).lines()[n - 1].push(t));
            assert(self.lines() =~= add_to_lines(old(self).lines(), t));
        }
    }

    /// The token at the cursor, advancing past it; `None` at the end of the
    /// current line, where the cursor stays.
    pub fn next(&mut self) -> (r: Option<&Token>)
        ensures
            final(self).tokens_by_line == old(self).tokens_by_line,
            final(self).line == old(self).line,
            ({
                let lines = old(self).lines();
                let (l, p) = (old(self).line as int, old(self).position as int);
                if l < lines.len() && p < lines[l].len() {
                    r matches Some(t) && t@ == lines[l][p] && final(self).position == p + 1
                } else {
                    r is None && final(self).position == p
                }
            }),
    {
        if self.line < self.tokens_by_line.len() && self.position
            < self.tokens_by_line[self.line].len() {
            let token = &self.tokens_by_line[self.line][self.position];
            self.position = self.position + 1;
            Some(token)
        } else {
            None
        }
    }

    /// Moves the cursor back to the first token of the first line.
    pub fn reset(&mut self)
        ensures
            final(self).tokens_by_line == old(self).tokens_by_line,
            final(self).position == 0,
            final(self).line == 0,
    {
        self.position = 0;
        self.line = 0;
    }

    /// The token at the cursor, if the current line has one there.
    pub fn peek(&self) -> (r: Option<&Token>)
        ensures
            ({
                let lines = self.lines();
                let (l, p) = (self.line as int, self.position as int);
                if l < lines.len() && p < lines[l].len() {
                    r matches Some(t) && t@ == lines[l][p]
                } else {
                    r is None
                }
            }),
    {
        if self.line < self.tokens_by_line.len() && self.position
            < self.tokens_by_line[self.line].len() {
            Some(&self.tokens_by_line[self.line][self.position])
        } else {
            None
        }
    }
}

} // verus!
