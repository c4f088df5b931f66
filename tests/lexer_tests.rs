use seil::lexer::{Lexer, Processor, Register, Token, TokenStream};

fn lex_all(input: &str, processor: Processor) -> Vec<Token> {
    let mut lexer = Lexer::new(input);
    let mut tokens = Vec::new();
    loop {
        let token = lexer.next_token(processor);
        let done = token == Token::EOF;
        tokens.push(token);
        if done {
            return tokens;
        }
    }
}

fn text(s: &str) -> String {
    s.to_string()
}

#[test]
fn relexing_gives_identical_tokens() {
    let source = "MAIN: ADI R1 , R2 , 3\n; note\n#5 0x10 zz $\nADC r1, R2, R3 // end";
    let first = lex_all(source, Processor::Pipelined);
    let second = lex_all(source, Processor::Pipelined);
    assert_eq!(first, second);
    assert!(first.len() > 10);
}

#[test]
fn three_register_line_tokens() {
    let tokens = lex_all("ADA R1 , R2 , R3", Processor::Pipelined);
    assert_eq!(
        tokens,
        vec![
            Token::Opcode(text("ADA")),
            Token::Register(Register::R1),
            Token::Comma,
            Token::Register(Register::R2),
            Token::Comma,
            Token::Register(Register::R3),
            Token::EOF,
        ]
    );
}

#[test]
fn label_with_and_without_space_before_colon() {
    let tokens = lex_all("MAIN: LOOP :", Processor::Pipelined);
    assert_eq!(
        tokens,
        vec![Token::Label(text("MAIN:")), Token::Label(text("LOOP:")), Token::EOF]
    );
}

#[test]
fn numbers_decimal_hex_and_hash() {
    let tokens = lex_all("42 0x1F #7", Processor::Pipelined);
    assert_eq!(
        tokens,
        vec![Token::Number(42), Token::Number(31), Token::Number(7), Token::EOF]
    );
}

#[test]
fn malformed_numbers_are_error_tokens() {
    let tokens = lex_all("12ab 0xZZ 99999999999", Processor::Pipelined);
    assert_eq!(
        tokens,
        vec![
            Token::Error(text("Invalid number: 12ab")),
            Token::Error(text("Invalid number: 0xZZ")),
            Token::Error(text("Invalid number: 99999999999")),
            Token::EOF,
        ]
    );
}

#[test]
fn hash_at_end_of_input() {
    let tokens = lex_all("#", Processor::Pipelined);
    assert_eq!(tokens, vec![Token::Error(text("Invalid number: #")), Token::EOF]);
}

#[test]
fn hash_does_not_read_hex() {
    let tokens = lex_all("#0x10", Processor::Pipelined);
    assert_eq!(tokens, vec![Token::Error(text("Invalid number: 0x10")), Token::EOF]);
}

#[test]
fn comments_stop_before_newline() {
    let tokens = lex_all("// first\n; second", Processor::Pipelined);
    assert_eq!(
        tokens,
        vec![
            Token::Comment(text(" first")),
            Token::NewLine,
            Token::Comment(text(" second")),
            Token::EOF,
        ]
    );
}

#[test]
fn empty_comment_before_newline() {
    let tokens = lex_all("//\nLW", Processor::Pipelined);
    assert_eq!(
        tokens,
        vec![Token::Comment(text("")), Token::NewLine, Token::Opcode(text("LW")), Token::EOF]
    );
}

#[test]
fn unknown_character_is_error_token() {
    let tokens = lex_all("$ /", Processor::Pipelined);
    assert_eq!(
        tokens,
        vec![
            Token::Error(text("Unknown token: $")),
            Token::Error(text("Unknown token: /")),
            Token::EOF,
        ]
    );
}

#[test]
fn dialects_accept_different_mnemonics() {
    assert_eq!(
        lex_all("ADD", Processor::SingleCycle),
        vec![Token::Opcode(text("ADD")), Token::EOF]
    );
    assert_eq!(
        lex_all("ADD", Processor::Pipelined),
        vec![Token::Error(text("ADD")), Token::EOF]
    );
    assert_eq!(
        lex_all("ADA", Processor::SingleCycle),
        vec![Token::Error(text("ADA")), Token::EOF]
    );
    assert_eq!(
        lex_all("RET", Processor::Pipelined),
        vec![Token::Opcode(text("RET")), Token::EOF]
    );
}

#[test]
fn identifiers_are_uppercased_for_lookup_only() {
    let tokens = lex_all("ada r7", Processor::Pipelined);
    assert_eq!(
        tokens,
        vec![Token::Opcode(text("ada")), Token::Register(Register::R7), Token::EOF]
    );
}

#[test]
fn eof_repeats_at_end() {
    let mut lexer = Lexer::new("  ");
    assert_eq!(lexer.next_token(Processor::Pipelined), Token::EOF);
    assert_eq!(lexer.next_token(Processor::Pipelined), Token::EOF);
}

#[test]
fn register_numbers() {
    assert_eq!(Register::R0.number(), 0);
    assert_eq!(Register::R5.number(), 5);
    assert_eq!(Register::R7.number(), 7);
}

#[test]
fn token_strings() {
    assert_eq!(Token::Opcode(text("LW")).get_token_string(), "LW");
    assert_eq!(Token::Label(text("X:")).get_token_string(), "X:");
    assert_eq!(Token::Comment(text(" c")).get_token_string(), " c");
    assert_eq!(Token::Error(text("bad")).get_token_string(), "bad");
}

#[test]
fn token_clone_is_equal() {
    let token = Token::Label(text("MAIN:"));
    assert_eq!(token.clone(), token);
}

#[test]
fn stream_starts_new_line_after_newline() {
    let mut stream = TokenStream::new();
    stream.add(Token::Opcode(text("LW")));
    stream.add(Token::NewLine);
    assert_eq!(stream.tokens_by_line.len(), 1);
    stream.add(Token::Opcode(text("SW")));
    stream.add(Token::EOF);
    assert_eq!(stream.tokens_by_line.len(), 2);
    assert_eq!(
        stream.tokens_by_line[0],
        vec![Token::Opcode(text("LW")), Token::NewLine]
    );
    assert_eq!(stream.tokens_by_line[1], vec![Token::Opcode(text("SW")), Token::EOF]);
}

#[test]
fn stream_cursor_stays_within_line() {
    let mut stream = TokenStream::new();
    stream.add(Token::Comma);
    stream.add(Token::NewLine);
    stream.add(Token::EOF);
    assert_eq!(stream.peek(), Some(&Token::Comma));
    assert_eq!(stream.next(), Some(&Token::Comma));
    assert_eq!(stream.next(), Some(&Token::NewLine));
    assert_eq!(stream.next(), None);
    assert_eq!(stream.peek(), None);
    assert_eq!(stream.line, 0);
    stream.reset();
    assert_eq!(stream.position, 0);
    assert_eq!(stream.peek(), Some(&Token::Comma));
}

#[test]
fn stream_from_holds_one_line() {
    let stream = TokenStream::from(vec![Token::Comma, Token::NewLine, Token::Comma]);
    assert_eq!(stream.tokens_by_line.len(), 1);
    assert_eq!(stream.tokens_by_line[0].len(), 3);
}

#[test]
fn stream_add_after_empty_line_opens_new_line() {
    let mut stream = TokenStream::from(vec![]);
    stream.add(Token::Comma);
    assert_eq!(stream.tokens_by_line.len(), 2);
    assert_eq!(stream.tokens_by_line[1], vec![Token::Comma]);
}

#[test]
fn signed_literals() {
    let tokens = lex_all("#-5 #+6 0x-1 #-", Processor::Pipelined);
    assert_eq!(
        tokens,
        vec![
            Token::Number(-5),
            Token::Number(6),
            Token::Number(-1),
            Token::Error(text("Invalid number: -")),
            Token::EOF,
        ]
    );
}

#[test]
fn non_ascii_text_survives_lexing() {
    let tokens = lex_all("; señal\né", Processor::Pipelined);
    assert_eq!(
        tokens,
        vec![
            Token::Comment(text(" señal")),
            Token::NewLine,
            Token::Error(text("é")),
            Token::EOF,
        ]
    );
}
